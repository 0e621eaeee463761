use vstd::prelude::*;

verus! {

/// The hook code with which Windows hands a mouse message to a hook that
/// may process it; other codes must be passed on untouched.
pub const HC_ACTION: i32 = 0;

/// The message posted when the right mouse button is pressed.
pub const WM_RBUTTONDOWN: u32 = 0x0204;

/// The message posted when the right mouse button is released.
pub const WM_RBUTTONUP: u32 = 0x0205;

/// What the low-level mouse hook does with one message.
#[derive(Debug, Clone, Copy, PartialEq, Eq, Structural)]
pub struct HookOutcome {
    /// Whether the right button counts as held after the message.
    pub rbutton_down: bool,
    /// Whether the message is swallowed instead of being passed on to the
    /// next hook and the windows.
    pub block: bool,
}

/// The right-button state after message `msg`, starting from `rbutton_down`.
pub open spec fn next_rbutton_down(msg: u32, rbutton_down: bool) -> bool {
    if msg == WM_RBUTTONDOWN {
        true
    } else if msg == WM_RBUTTONUP {
        false
    } else {
        rbutton_down
    }
}

/// Whether `msg` is a right-button press or release.
pub open spec fn is_rbutton_msg(msg: u32) -> bool {
    msg == WM_RBUTTONDOWN || msg == WM_RBUTTONUP
}

/// The outcome owed to message `msg` received with hook code `code`.
pub open spec fn spec_hook_step(code: i32, msg: u32, alt_down: bool, rbutton_down: bool) -> HookOutcome {
    if code != HC_ACTION {
        HookOutcome { rbutton_down, block: false }
    } else {
        HookOutcome {
            rbutton_down: next_rbutton_down(msg, rbutton_down),
            block: is_rbutton_msg(msg) && alt_down,
        }
    }
}

/// Decides what the mouse hook does with message `msg` received with hook
/// code `code`, while Alt is held (`alt_down`) or not, and the right button
/// was tracked as `rbutton_down`. The right-button state is tracked for
/// every processed message, also for those that are blocked; right-button
/// presses and releases are blocked while Alt is held.
pub fn mouse_hook_step(code: i32, msg: u32, alt_down: bool, rbutton_down: bool) -> (out:
    HookOutcome)
    ensures
        out == spec_hook_step(code, msg, alt_down, rbutton_down),
{
    if code != HC_ACTION {
        return HookOutcome { rbutton_down, block: false };
    }
    let mut now_down = rbutton_down;
    if msg == WM_RBUTTONDOWN {
        now_down = true;
    } else if msg == WM_RBUTTONUP {
        now_down = false;
    }
    let block = (msg == WM_RBUTTONDOWN || msg == WM_RBUTTONUP) && alt_down;
    HookOutcome { rbutton_down: now_down, block }
}

/// Whether a key reported with key state `state` counts as held: bit
/// `0x80` of the state is set.
pub open spec fn key_held(state: i16) -> bool {
    state & 0x80 == 0x80
}

/// Checks whether Alt is held, given the key states of the left and the
/// right Alt key.
pub fn is_alt_down(left_alt_state: i16, right_alt_state: i16) -> (b: bool)
    ensures
        b == (key_held(left_alt_state) || key_held(right_alt_state)),
{
    (left_alt_state & 0x80 == 0x80) || (right_alt_state & 0x80 == 0x80)
}

/// The hook blocks only right-button presses and releases that it is
/// allowed to process, and only while Alt is held; everything else reaches
/// the windows.
pub proof fn law_blocks_only_alt_right_clicks(
    code: i32,
    msg: u32,
    alt_down: bool,
    rbutton_down: bool,
)
    ensures
        spec_hook_step(code, msg, alt_down, rbutton_down).block <==> (code == HC_ACTION
            && is_rbutton_msg(msg) && alt_down),
{
}

/// Messages the hook may not process pass through with the tracked state
/// unchanged.
pub proof fn law_passes_unprocessed_codes(code: i32, msg: u32, alt_down: bool, rbutton_down: bool)
    requires
        code != HC_ACTION,
    ensures
        spec_hook_step(code, msg, alt_down, rbutton_down) == (HookOutcome {
            rbutton_down,
            block: false,
        }),
{
}

/// The right-button state follows the physical button even while its
/// messages are blocked: after a press it is held, after a release it is
/// not, whatever the state before and whether Alt is held.
pub proof fn law_tracks_right_button(alt_down: bool, rbutton_down: bool)
    ensures
        spec_hook_step(HC_ACTION, WM_RBUTTONDOWN, alt_down, rbutton_down).rbutton_down,
        !spec_hook_step(HC_ACTION, WM_RBUTTONUP, alt_down, rbutton_down).rbutton_down,
        !spec_hook_step(
            HC_ACTION,
            WM_RBUTTONUP,
            alt_down,
            spec_hook_step(HC_ACTION, WM_RBUTTONDOWN, alt_down, rbutton_down).rbutton_down,
        ).rbutton_down,
{
}

/// Messages other than right-button presses and releases neither change the
/// tracked state nor get blocked.
pub proof fn law_other_messages_untouched(code: i32, msg: u32, alt_down: bool, rbutton_down: bool)
    requires
        !is_rbutton_msg(msg),
    ensures
        spec_hook_step(code, msg, alt_down, rbutton_down) == (HookOutcome {
            rbutton_down,
            block: false,
        }),
{
}

} // verus!
