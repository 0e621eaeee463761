use vypr_wm::geometry::{Point, Rect};

#[test]
fn rect_measures() {
    let r = Rect { left: 10, top: 20, right: 41, bottom: 61 };
    assert_eq!(r.x(), 10);
    assert_eq!(r.y(), 20);
    assert_eq!(r.width(), 31);
    assert_eq!(r.height(), 41);
    assert_eq!(r.center_point(), Point { x: 25, y: 40 });
}

#[test]
fn center_of_inverted_rect_rounds_toward_zero() {
    let r = Rect { left: 10, top: 10, right: 7, bottom: 5 };
    assert_eq!(r.width(), -3);
    assert_eq!(r.center_point(), Point { x: 9, y: 8 });
}
