use vypr_wm::alt_drag::{
    contains_index, handle_alt_drag, handle_drag_end, handle_move_drag, handle_resize_drag,
    keep_drag_if_window_exists, record_cursor, start_move_drag, start_resize_drag,
    try_start_resize_drag, TilingLayout, ActiveDragOperation, AltDragAction, DragEndAction,
    MouseButton, MouseEvent, ResizeDragPlan, ResizeEdge, TilingDirection,
};
use vypr_wm::geometry::{Point, Rect};

fn pt(x: i32, y: i32) -> Point {
    Point { x, y }
}

#[test]
fn press_with_alt_starts_drag() {
    let down = MouseEvent::ButtonDown { position: pt(5, 6), button: MouseButton::Left };
    assert_eq!(
        handle_alt_drag(&down, true, &None),
        AltDragAction::Start {
            position: pt(5, 6),
            button: MouseButton::Left,
            operation: ActiveDragOperation::Move,
        }
    );
    assert_eq!(handle_alt_drag(&down, false, &None), AltDragAction::Ignore);
    let active = Some(start_move_drag(1, &pt(0, 0), true));
    assert_eq!(handle_alt_drag(&down, true, &active), AltDragAction::Ignore);
}

#[test]
fn move_continues_or_ends_drag() {
    let mv = MouseEvent::Move { position: pt(9, 9) };
    assert_eq!(handle_alt_drag(&mv, true, &None), AltDragAction::Ignore);
    let active = Some(start_move_drag(1, &pt(0, 0), true));
    assert_eq!(handle_alt_drag(&mv, true, &active), AltDragAction::Continue { position: pt(9, 9) });
    assert_eq!(handle_alt_drag(&mv, false, &active), AltDragAction::End);
}

#[test]
fn release_of_starting_button_ends_drag() {
    let up_left = MouseEvent::ButtonUp { position: pt(1, 1), button: MouseButton::Left };
    let up_right = MouseEvent::ButtonUp { position: pt(1, 1), button: MouseButton::Right };
    let moving = Some(start_move_drag(1, &pt(0, 0), false));
    assert_eq!(handle_alt_drag(&up_left, true, &moving), AltDragAction::End);
    assert_eq!(handle_alt_drag(&up_right, true, &moving), AltDragAction::Ignore);
    let rect = Rect { left: 0, top: 0, right: 100, bottom: 100 };
    let resizing = Some(start_resize_drag(1, &pt(10, 10), TilingDirection::Horizontal, &rect));
    assert_eq!(handle_alt_drag(&up_right, false, &resizing), AltDragAction::End);
    assert_eq!(handle_alt_drag(&up_left, false, &resizing), AltDragAction::Ignore);
    assert_eq!(handle_alt_drag(&up_left, true, &None), AltDragAction::Ignore);
}

#[test]
fn move_drag_state() {
    let d = start_move_drag(42, &pt(3, 4), true);
    assert_eq!(d.window_id, 42);
    assert_eq!(d.operation, ActiveDragOperation::Move);
    assert!(!d.is_from_floating);
    assert_eq!(d.start_cursor, pt(3, 4));
    assert_eq!(d.last_cursor, pt(3, 4));
    assert!(start_move_drag(42, &pt(3, 4), false).is_from_floating);
}

#[test]
fn resize_edge_follows_center() {
    let rect = Rect { left: 100, top: 0, right: 300, bottom: 400 };
    // Center is (200, 200).
    let d = start_resize_drag(1, &pt(150, 300), TilingDirection::Horizontal, &rect);
    assert_eq!(d.resize_edge, ResizeEdge::Start);
    assert_eq!(d.operation, ActiveDragOperation::Resize);
    assert!(!d.is_from_floating);
    let d = start_resize_drag(1, &pt(200, 300), TilingDirection::Horizontal, &rect);
    assert_eq!(d.resize_edge, ResizeEdge::End);
    let d = start_resize_drag(1, &pt(150, 100), TilingDirection::Vertical, &rect);
    assert_eq!(d.resize_edge, ResizeEdge::Start);
    assert_eq!(d.resize_direction, TilingDirection::Vertical);
    let d = start_resize_drag(1, &pt(150, 250), TilingDirection::Vertical, &rect);
    assert_eq!(d.resize_edge, ResizeEdge::End);
}

#[test]
fn move_drag_centers_window() {
    let frame = Rect { left: 0, top: 0, right: 201, bottom: 100 };
    assert_eq!(handle_move_drag(&pt(500, 400), &frame), pt(400, 350));
    // Negative sizes halve toward zero.
    let flipped = Rect { left: 10, top: 10, right: 5, bottom: 7 };
    assert_eq!(handle_move_drag(&pt(0, 0), &flipped), pt(2, 1));
}

#[test]
fn resize_plan_end_edge() {
    let parent = Rect { left: 0, top: 0, right: 1000, bottom: 500 };
    let mut d = start_resize_drag(1, &pt(900, 10), TilingDirection::Horizontal, &Rect { left: 500, top: 0, right: 1000, bottom: 500 });
    assert_eq!(d.resize_edge, ResizeEdge::End);
    assert_eq!(
        handle_resize_drag(&pt(930, 10), &d, 2, &parent, &vec![0, 2, 3]),
        Some(ResizeDragPlan { neighbor_index: 3, delta_px: 30, parent_size: 1000 })
    );
    record_cursor(&mut d, &pt(930, 10));
    assert_eq!(d.last_cursor, pt(930, 10));
    assert_eq!(
        handle_resize_drag(&pt(920, 99), &d, 2, &parent, &vec![0, 2, 3]),
        Some(ResizeDragPlan { neighbor_index: 3, delta_px: -10, parent_size: 1000 })
    );
}

#[test]
fn resize_plan_start_edge() {
    let parent = Rect { left: 0, top: 0, right: 1000, bottom: 500 };
    let d = start_resize_drag(1, &pt(10, 10), TilingDirection::Vertical, &Rect { left: 0, top: 0, right: 1000, bottom: 250 });
    assert_eq!(d.resize_edge, ResizeEdge::Start);
    assert_eq!(
        handle_resize_drag(&pt(10, 40), &d, 1, &parent, &vec![0, 1]),
        Some(ResizeDragPlan { neighbor_index: 0, delta_px: -30, parent_size: 500 })
    );
    // No sibling before the first window.
    assert_eq!(handle_resize_drag(&pt(10, 40), &d, 0, &parent, &vec![0, 1]), None);
}

#[test]
fn resize_plan_needs_parent_extent() {
    let flat = Rect { left: 0, top: 0, right: 0, bottom: 500 };
    let d = start_resize_drag(1, &pt(10, 10), TilingDirection::Horizontal, &flat);
    assert_eq!(handle_resize_drag(&pt(40, 10), &d, 0, &flat, &vec![0, 1]), None);
}

#[test]
fn drag_end_actions() {
    let mut none = None;
    assert_eq!(handle_drag_end(&mut none), None);

    let d = start_move_drag(1, &pt(0, 0), true);
    let mut slot = Some(d);
    assert_eq!(handle_drag_end(&mut slot), Some((d, DragEndAction::DropAtCursor)));
    assert_eq!(slot, None);

    let d = start_move_drag(1, &pt(0, 0), false);
    let mut slot = Some(d);
    assert_eq!(handle_drag_end(&mut slot), Some((d, DragEndAction::RedrawWindow)));

    let r = Rect { left: 0, top: 0, right: 10, bottom: 10 };
    let d = start_resize_drag(1, &pt(0, 0), TilingDirection::Horizontal, &r);
    let mut slot = Some(d);
    assert_eq!(handle_drag_end(&mut slot), Some((d, DragEndAction::RedrawParent)));
    assert_eq!(slot, None);
}

#[test]
fn resize_needs_tiling_sibling_on_dragged_edge() {
    let parent = Rect { left: 0, top: 0, right: 1000, bottom: 500 };
    let d = start_resize_drag(1, &pt(900, 10), TilingDirection::Horizontal, &Rect { left: 500, top: 0, right: 1000, bottom: 500 });
    assert_eq!(d.resize_edge, ResizeEdge::End);
    // The last window has no sibling after it.
    assert_eq!(handle_resize_drag(&pt(930, 10), &d, 1, &parent, &vec![0, 1]), None);
    // A non-tiling child next to it does not count.
    assert_eq!(handle_resize_drag(&pt(930, 10), &d, 1, &parent, &vec![0, 1, 3]), None);
}

#[test]
fn resize_only_needs_extent_along_axis() {
    // The height overflows i32 but only the width matters horizontally.
    let parent = Rect { left: 0, top: i32::MIN, right: 800, bottom: i32::MAX };
    let d = start_resize_drag(1, &pt(700, 10), TilingDirection::Horizontal, &Rect { left: 400, top: 0, right: 800, bottom: 10 });
    assert_eq!(
        handle_resize_drag(&pt(690, 10), &d, 0, &parent, &vec![0, 1]),
        Some(ResizeDragPlan { neighbor_index: 1, delta_px: -10, parent_size: 800 })
    );
}

#[test]
fn index_lookup() {
    assert!(contains_index(&vec![4, 7, 9], 7));
    assert!(!contains_index(&vec![4, 7, 9], 8));
    assert!(!contains_index(&vec![], 0));
}

#[test]
fn vanished_window_drops_drag() {
    let d = start_move_drag(5, &pt(0, 0), true);
    let mut slot = Some(d);
    assert!(keep_drag_if_window_exists(&mut slot, true));
    assert_eq!(slot, Some(d));
    assert!(!keep_drag_if_window_exists(&mut slot, false));
    assert_eq!(slot, None);
}

#[test]
fn resize_starts_on_tiling_window_with_siblings() {
    let layout = TilingLayout {
        direction: TilingDirection::Horizontal,
        rect: Rect { left: 0, top: 0, right: 100, bottom: 100 },
    };
    assert_eq!(
        try_start_resize_drag(3, &pt(10, 50), &Some(layout), 1),
        Some(start_resize_drag(3, &pt(10, 50), TilingDirection::Horizontal, &layout.rect))
    );
    assert_eq!(try_start_resize_drag(3, &pt(10, 50), &Some(layout), 0), None);
    assert_eq!(try_start_resize_drag(3, &pt(10, 50), &None, 4), None);
}

#[test]
fn right_press_starts_resize() {
    let down = MouseEvent::ButtonDown { position: pt(1, 2), button: MouseButton::Right };
    assert_eq!(
        handle_alt_drag(&down, true, &None),
        AltDragAction::Start {
            position: pt(1, 2),
            button: MouseButton::Right,
            operation: ActiveDragOperation::Resize,
        }
    );
}
