use std::sync::Arc;
use std::sync::atomic::AtomicBool;
use vstd::prelude::*;

verus! {

/// What has to be done to the taskbar windows after a state change.
#[derive(Debug, Clone, Copy, PartialEq, Eq, Structural)]
pub enum TaskbarAction {
    /// The taskbars stay as they are.
    Nothing,
    /// The main and all secondary taskbars are to be hidden.
    HideAll,
    /// The main and all secondary taskbars are to be shown.
    ShowAll,
}

/// What the caller carries out after hiding or restoring the taskbar.
#[derive(Debug, Clone, Copy, PartialEq, Eq, Structural)]
pub struct TaskbarUpdate {
    /// What is done to the taskbar windows.
    pub action: TaskbarAction,
    /// The value to store into the shared `block_win_key` flag, which the
    /// keyboard hook reads to block the Windows key; `None` when the flag
    /// keeps its value.
    pub block_win_key: Option<bool>,
}

/// The hidden state and the update after hiding the taskbar from state
/// `hidden`: the taskbars are hidden and the Windows key is blocked, unless
/// they already were.
pub open spec fn spec_hide(hidden: bool) -> (bool, TaskbarUpdate) {
    if hidden {
        (true, TaskbarUpdate { action: TaskbarAction::Nothing, block_win_key: None })
    } else {
        (true, TaskbarUpdate { action: TaskbarAction::HideAll, block_win_key: Some(true) })
    }
}

/// The hidden state and the update after restoring the taskbar from state
/// `hidden`: the taskbars are shown and the Windows key is unblocked, if they
/// were hidden.
pub open spec fn spec_restore(hidden: bool) -> (bool, TaskbarUpdate) {
    if hidden {
        (false, TaskbarUpdate { action: TaskbarAction::ShowAll, block_win_key: Some(false) })
    } else {
        (false, TaskbarUpdate { action: TaskbarAction::Nothing, block_win_key: None })
    }
}

/// The action owed when the work area changes in state `hidden`.
pub open spec fn spec_reapply(hidden: bool) -> TaskbarAction {
    if hidden {
        TaskbarAction::HideAll
    } else {
        TaskbarAction::Nothing
    }
}

/// Manages hiding and restoring the Windows taskbar and secondary taskbars
/// on multi-monitor setups, and the blocking of the Windows key while they
/// are hidden.
///
/// All operations are non-destructive: the taskbars are hidden and shown
/// again, never removed. This type decides; the caller performs the
/// returned action on the taskbar windows and stores the returned flag
/// value into `block_win_key`.
pub struct TaskbarManager {
    /// Whether the taskbar is currently hidden by us.
    is_hidden: bool,
    /// Shared flag checked by the keyboard hook to block the Windows key
    /// while the taskbar is hidden.
    pub block_win_key: Arc<AtomicBool>,
}

impl TaskbarManager {
    /// Whether the taskbar is hidden by this manager.
    pub closed spec fn hidden(&self) -> bool {
        self.is_hidden
    }

    /// Whether this manager asks for the Windows key to be blocked: the
    /// flag value it last handed out to be stored (`false` initially).
    pub closed spec fn blocks_win_key(&self) -> bool {
        self.is_hidden
    }

    /// Creates a new `TaskbarManager`; the taskbar counts as shown and the
    /// Windows key as not blocked.
    pub fn new() -> (m: Self)
        ensures
            !m.hidden(),
            !m.blocks_win_key(),
    {
        TaskbarManager { is_hidden: false, block_win_key: Arc::new(AtomicBool::new(false)) }
    }

    /// Hides the taskbar and the secondary taskbars and enables Windows key
    /// blocking. Does nothing if they are already hidden.
    pub fn hide_taskbar(&mut self) -> (u: TaskbarUpdate)
        ensures
            (final(self).hidden(), u) == spec_hide(old(self).hidden()),
            final(self).blocks_win_key(),
    {
        if self.is_hidden {
            return TaskbarUpdate { action: TaskbarAction::Nothing, block_win_key: None };
        }
        self.is_hidden = true;
        TaskbarUpdate { action: TaskbarAction::HideAll, block_win_key: Some(true) }
    }

    /// Restores the taskbar and the secondary taskbars and disables Windows
    /// key blocking. Does nothing if they are not hidden by this manager.
    pub fn restore(&mut self) -> (u: TaskbarUpdate)
        ensures
            (final(self).hidden(), u) == spec_restore(old(self).hidden()),
            !final(self).blocks_win_key(),
    {
        if !self.is_hidden {
            return TaskbarUpdate { action: TaskbarAction::Nothing, block_win_key: None };
        }
        self.is_hidden = false;
        TaskbarUpdate { action: TaskbarAction::ShowAll, block_win_key: Some(false) }
    }

    /// Re-hides the taskbar if it was supposed to be hidden. Called when the
    /// work area changes, which can happen when explorer.exe restarts. The
    /// Windows-key flag keeps its value.
    pub fn reapply_if_hidden(&self) -> (a: TaskbarAction)
        ensures
            a == spec_reapply(self.hidden()),
    {
        if !self.is_hidden {
            return TaskbarAction::Nothing;
        }
        TaskbarAction::HideAll
    }
}

/// Hiding is non-destructive: whatever the state, hiding and then
/// restoring shows the taskbars again, unblocks the Windows key and leaves
/// them not hidden.
pub proof fn law_hide_then_restore(hidden: bool)
    ensures
        spec_restore(spec_hide(hidden).0) == (false, TaskbarUpdate {
            action: TaskbarAction::ShowAll,
            block_win_key: Some(false),
        }),
{
}

/// Hiding twice hides once: the second call asks for nothing.
pub proof fn law_hide_idempotent(hidden: bool)
    ensures
        spec_hide(spec_hide(hidden).0) == (true, TaskbarUpdate {
            action: TaskbarAction::Nothing,
            block_win_key: None,
        }),
{
}

/// Restoring twice restores once: the second call asks for nothing.
pub proof fn law_restore_idempotent(hidden: bool)
    ensures
        spec_restore(spec_restore(hidden).0) == (false, TaskbarUpdate {
            action: TaskbarAction::Nothing,
            block_win_key: None,
        }),
{
}

/// The flag handed out always agrees with the new hidden state, and a
/// change of that state always hands one out: a flag that starts `false`
/// with the taskbar shown and receives every handed-out value blocks the
/// Windows key exactly while the taskbar is hidden.
pub proof fn law_flag_follows_hidden(hidden: bool)
    ensures
        spec_hide(hidden).1.block_win_key matches Some(b) ==> b == spec_hide(hidden).0,
        spec_restore(hidden).1.block_win_key matches Some(b) ==> b == spec_restore(hidden).0,
        spec_hide(hidden).0 != hidden ==> spec_hide(hidden).1.block_win_key is Some,
        spec_restore(hidden).0 != hidden ==> spec_restore(hidden).1.block_win_key is Some,
{
}

/// A work-area change re-hides the taskbars exactly when they are meant to
/// be hidden, which is after a hide and not after a restore.
pub proof fn law_reapply_follows_state(hidden: bool)
    ensures
        spec_reapply(spec_hide(hidden).0) == TaskbarAction::HideAll,
        spec_reapply(spec_restore(hidden).0) == TaskbarAction::Nothing,
{
}

} // verus!
