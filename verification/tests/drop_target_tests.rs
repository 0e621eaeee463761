use vypr_wm::alt_drag::TilingDirection;
use vypr_wm::drop_target::{
    attach_plan, deepest_drop_parent, drop_action, nearest_child, AttachPlan, DropAction,
    NearestChild,
};
use vypr_wm::geometry::{Point, Rect};

#[test]
fn deepest_parent_prefers_first_deepest() {
    assert_eq!(deepest_drop_parent(2, &vec![]), None);
    assert_eq!(deepest_drop_parent(2, &vec![1, 2]), None);
    assert_eq!(deepest_drop_parent(2, &vec![3, 5, 4, 5]), Some(1));
    assert_eq!(deepest_drop_parent(0, &vec![1]), Some(0));
}

#[test]
fn nearest_child_prefers_first_closest() {
    assert_eq!(nearest_child(&vec![]), None);
    assert_eq!(nearest_child(&vec![7]), Some(0));
    assert_eq!(nearest_child(&vec![9, 3, 5, 3]), Some(1));
    assert_eq!(nearest_child(&vec![-1, 0]), Some(0));
}

fn child() -> NearestChild {
    // Center (150, 100).
    NearestChild { id: 77, index: 2, rect: Rect { left: 100, top: 50, right: 200, bottom: 150 } }
}

#[test]
fn drop_on_parent_axis_inserts() {
    let n = Some(child());
    assert_eq!(
        drop_action(&Point { x: 110, y: 100 }, TilingDirection::Horizontal, &n),
        DropAction::Insert { index: 2 }
    );
    assert_eq!(
        drop_action(&Point { x: 190, y: 100 }, TilingDirection::Horizontal, &n),
        DropAction::Insert { index: 3 }
    );
    assert_eq!(
        drop_action(&Point { x: 150, y: 60 }, TilingDirection::Vertical, &n),
        DropAction::Insert { index: 2 }
    );
    assert_eq!(
        drop_action(&Point { x: 150, y: 140 }, TilingDirection::Vertical, &n),
        DropAction::Insert { index: 3 }
    );
}

#[test]
fn drop_across_parent_axis_splits() {
    let n = Some(child());
    assert_eq!(
        drop_action(&Point { x: 110, y: 100 }, TilingDirection::Vertical, &n),
        DropAction::Split { target_id: 77, split_direction: TilingDirection::Horizontal, index: 0 }
    );
    assert_eq!(
        drop_action(&Point { x: 150, y: 140 }, TilingDirection::Horizontal, &n),
        DropAction::Split { target_id: 77, split_direction: TilingDirection::Vertical, index: 1 }
    );
    // A tie between the axes counts as vertical.
    assert_eq!(
        drop_action(&Point { x: 160, y: 110 }, TilingDirection::Horizontal, &n),
        DropAction::Split { target_id: 77, split_direction: TilingDirection::Vertical, index: 1 }
    );
}

#[test]
fn drop_into_empty_parent() {
    assert_eq!(drop_action(&Point { x: 0, y: 0 }, TilingDirection::Horizontal, &None), DropAction::Empty);
    assert_eq!(attach_plan(&DropAction::Empty, 0, false), AttachPlan::AtParent { index: 0 });
}

#[test]
fn attach_plan_clamps_and_falls_back() {
    assert_eq!(attach_plan(&DropAction::Insert { index: 5 }, 3, false), AttachPlan::AtParent { index: 3 });
    assert_eq!(attach_plan(&DropAction::Insert { index: 1 }, 3, false), AttachPlan::AtParent { index: 1 });
    let split = DropAction::Split { target_id: 9, split_direction: TilingDirection::Vertical, index: 1 };
    assert_eq!(
        attach_plan(&split, 3, true),
        AttachPlan::InNewSplit { target_id: 9, split_direction: TilingDirection::Vertical, index: 1 }
    );
    assert_eq!(attach_plan(&split, 3, false), AttachPlan::AtParent { index: 3 });
}
