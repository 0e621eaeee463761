# vypr_wm

Verified decision logic of the Vypr tiling window manager for Windows.

`src/` holds what the window manager decides, each function with a
contract proved by Verus:

- `border_overlay`: which gradient border overlay windows exist, and whether
  an update has to create, re-render or only move one.
- `border_mask`: which pixels of an overlay belong to its rounded border.
- `taskbar`: hiding and restoring the taskbars, and the value handed out for
  the shared flag that blocks the Windows key while they are hidden.
- `mouse_hook`: what the low-level mouse hook does with right clicks while
  Alt is held.
- `alt_drag`, `drop_target`: the Alt+drag state machine, move and resize
  steps, and where a dragged window is dropped back into the tiling tree.
- `geometry`: points and rectangles.

`app/` performs the decisions with Win32 calls (window creation, GDI
rendering of the gradient, `ShowWindow`, hook installation), stores the
decided flag values, and holds the floating-point gradient colouring and
resize shares.
