//! Decision logic of the Vypr window manager: gradient border overlays,
//! taskbar hiding, the Alt+right-click mouse hook and Alt+drag window
//! moving and resizing. Every function here is verified; the Win32 calls
//! that carry the decisions out live outside this crate.

pub mod alt_drag;
pub mod border_mask;
pub mod border_overlay;
pub mod drop_target;
pub mod geometry;
pub mod mouse_hook;
pub mod taskbar;
