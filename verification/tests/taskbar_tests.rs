use std::sync::atomic::Ordering;
use vypr_wm::taskbar::{TaskbarAction, TaskbarManager, TaskbarUpdate};

fn update(action: TaskbarAction, block_win_key: Option<bool>) -> TaskbarUpdate {
    TaskbarUpdate { action, block_win_key }
}

#[test]
fn new_manager_does_not_block_win_key() {
    let mut mgr = TaskbarManager::new();
    assert!(!mgr.block_win_key.load(Ordering::Acquire));
    assert_eq!(mgr.restore(), update(TaskbarAction::Nothing, None));
    assert_eq!(mgr.reapply_if_hidden(), TaskbarAction::Nothing);
}

#[test]
fn hide_and_restore_round_trip() {
    let mut mgr = TaskbarManager::new();
    assert_eq!(mgr.hide_taskbar(), update(TaskbarAction::HideAll, Some(true)));
    assert_eq!(mgr.hide_taskbar(), update(TaskbarAction::Nothing, None));
    assert_eq!(mgr.reapply_if_hidden(), TaskbarAction::HideAll);
    assert_eq!(mgr.restore(), update(TaskbarAction::ShowAll, Some(false)));
    assert_eq!(mgr.restore(), update(TaskbarAction::Nothing, None));
    assert_eq!(mgr.reapply_if_hidden(), TaskbarAction::Nothing);
}

#[test]
fn published_flag_follows_hidden_state() {
    let mut mgr = TaskbarManager::new();
    let flag = mgr.block_win_key.clone();
    let mut publish = |u: TaskbarUpdate| {
        if let Some(b) = u.block_win_key {
            flag.store(b, Ordering::Release);
        }
    };
    publish(mgr.hide_taskbar());
    assert!(mgr.block_win_key.load(Ordering::Acquire));
    publish(mgr.hide_taskbar());
    assert!(mgr.block_win_key.load(Ordering::Acquire));
    publish(mgr.restore());
    assert!(!mgr.block_win_key.load(Ordering::Acquire));
}
