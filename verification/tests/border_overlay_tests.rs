use vypr_wm::border_mask::{border_pixel_mask, is_border_pixel, is_inside_rounded_rect};
use vypr_wm::border_overlay::{overlay_geometry, BorderOverlayManager, OverlayGeometry, OverlayUpdate};
use vypr_wm::geometry::Rect;

fn frame(left: i32, top: i32, right: i32, bottom: i32) -> Rect {
    Rect { left, top, right, bottom }
}

#[test]
fn rounded_rect_excludes_corner_tip() {
    // Corner pixel (0, 0) is 10 away from the arc center (10, 10) on both axes.
    assert!(!is_inside_rounded_rect(0, 0, 0, 0, 40, 30, 10));
    assert!(is_inside_rounded_rect(10, 0, 0, 0, 40, 30, 10));
    assert!(is_inside_rounded_rect(3, 3, 0, 0, 40, 30, 10));
    assert!(!is_inside_rounded_rect(2, 2, 0, 0, 40, 30, 10));
}

#[test]
fn rounded_rect_bounds_are_half_open() {
    assert!(is_inside_rounded_rect(20, 15, 0, 0, 40, 30, 0));
    assert!(is_inside_rounded_rect(0, 0, 0, 0, 40, 30, 0));
    assert!(!is_inside_rounded_rect(40, 15, 0, 0, 40, 30, 0));
    assert!(!is_inside_rounded_rect(20, 30, 0, 0, 40, 30, 0));
    assert!(!is_inside_rounded_rect(-1, 15, 0, 0, 40, 30, 0));
}

#[test]
fn border_pixels_form_a_ring() {
    // 40 x 30 overlay, border 2: outer radius 10, inner cut-out from 3 to 37 / 27.
    assert!(is_border_pixel(20, 0, 40, 30, 2));
    assert!(is_border_pixel(20, 2, 40, 30, 2));
    assert!(!is_border_pixel(20, 3, 40, 30, 2));
    assert!(!is_border_pixel(20, 15, 40, 30, 2));
    assert!(is_border_pixel(0, 15, 40, 30, 2));
    assert!(is_border_pixel(39, 15, 40, 30, 2));
    assert!(!is_border_pixel(0, 0, 40, 30, 2));
}

#[test]
fn border_mask_matches_pixels() {
    let (w, h, bw) = (40, 30, 2);
    let mask = border_pixel_mask(w, h, bw);
    assert_eq!(mask.len(), (w * h) as usize);
    for py in 0..h {
        for px in 0..w {
            assert_eq!(mask[(py * w + px) as usize], is_border_pixel(px, py, w, h, bw));
        }
    }
    assert!(mask[20]);
    assert!(!mask[(15 * w + 20) as usize]);
}

#[test]
fn border_mask_of_empty_overlay_is_empty() {
    assert!(border_pixel_mask(0, 10, 2).is_empty());
    assert!(border_pixel_mask(10, 0, 2).is_empty());
}

#[test]
fn overlay_geometry_extends_frame_by_border() {
    let g = overlay_geometry(&frame(100, 50, 500, 350), 3);
    assert_eq!(g, OverlayGeometry { x: 97, y: 47, width: 406, height: 306 });
}

#[test]
fn update_lifecycle() {
    let mut mgr = BorderOverlayManager::new();
    assert!(!mgr.has_overlay(7));

    let f = frame(100, 50, 500, 350);
    let g = OverlayGeometry { x: 98, y: 48, width: 404, height: 304 };
    assert_eq!(mgr.plan_update(7, &f, 2), OverlayUpdate::Create(g));

    mgr.record_created(7, 0x1234, g);
    assert!(mgr.has_overlay(7));

    // Same size, new position: only a reposition.
    let moved = frame(200, 60, 600, 360);
    assert_eq!(
        mgr.plan_update(7, &moved, 2),
        OverlayUpdate::Reposition {
            handle: 0x1234,
            geometry: OverlayGeometry { x: 198, y: 58, width: 404, height: 304 },
        }
    );

    // New size: render again.
    let bigger = frame(100, 50, 600, 350);
    let g2 = OverlayGeometry { x: 98, y: 48, width: 504, height: 304 };
    assert_eq!(mgr.plan_update(7, &bigger, 2), OverlayUpdate::Render { handle: 0x1234, geometry: g2 });
    mgr.record_rendered(7, g2);
    assert_eq!(
        mgr.plan_update(7, &bigger, 2),
        OverlayUpdate::Reposition { handle: 0x1234, geometry: g2 }
    );
}

#[test]
fn update_skips_empty_overlay() {
    let mgr = BorderOverlayManager::new();
    // A frame of negative width larger than the borders.
    assert_eq!(mgr.plan_update(1, &frame(100, 100, 90, 200), 2), OverlayUpdate::Skip);
    assert_eq!(mgr.plan_update(1, &frame(100, 100, 100, 100), 0), OverlayUpdate::Skip);
}

#[test]
fn record_rendered_without_overlay_changes_nothing() {
    let mut mgr = BorderOverlayManager::new();
    mgr.record_rendered(3, OverlayGeometry { x: 0, y: 0, width: 10, height: 10 });
    assert!(!mgr.has_overlay(3));
}

#[test]
fn destroy_hide_show() {
    let mut mgr = BorderOverlayManager::new();
    let g = OverlayGeometry { x: 0, y: 0, width: 10, height: 10 };
    mgr.record_created(1, 11, g);
    mgr.record_created(2, 22, g);
    assert_eq!(mgr.hide_overlay(1), Some(11));
    assert_eq!(mgr.show(2), Some(22));
    assert_eq!(mgr.hide_overlay(3), None);
    assert_eq!(mgr.show(3), None);
    assert!(mgr.has_overlay(1));
    assert_eq!(mgr.destroy(1), Some(11));
    assert!(!mgr.has_overlay(1));
    assert_eq!(mgr.destroy(1), None);
    // A destroyed overlay is created again on the next update.
    assert_eq!(
        mgr.plan_update(1, &frame(0, 0, 10, 10), 0),
        OverlayUpdate::Create(OverlayGeometry { x: 0, y: 0, width: 10, height: 10 })
    );
}

#[test]
fn destroy_all_returns_every_handle() {
    let mut mgr = BorderOverlayManager::new();
    let g = OverlayGeometry { x: 0, y: 0, width: 10, height: 10 };
    mgr.record_created(1, 11, g);
    mgr.record_created(2, 22, g);
    mgr.record_created(3, 33, g);
    let mut handles = mgr.destroy_all();
    handles.sort();
    assert_eq!(handles, vec![11, 22, 33]);
    assert!(!mgr.has_overlay(1));
    assert!(!mgr.has_overlay(2));
    assert!(!mgr.has_overlay(3));
    assert!(mgr.destroy_all().is_empty());
}

#[test]
fn wide_border_radius_beyond_i32() {
    // A border so wide that its outer radius no longer fits an i32.
    let bw = i32::MAX - 4;
    assert!(!is_border_pixel(0, 0, 10, 10, bw));
    assert!(!is_inside_rounded_rect(0, 0, 0, 0, 10, 10, i64::from(bw) + 8));
}

#[test]
fn overlay_exists_until_destroyed() {
    let mut mgr = BorderOverlayManager::new();
    let g = OverlayGeometry { x: 0, y: 0, width: 10, height: 10 };
    mgr.record_created(1, 11, g);
    mgr.record_rendered(1, g);
    assert!(mgr.has_overlay(1));
    mgr.destroy(2);
    assert!(mgr.has_overlay(1));
    mgr.destroy_all();
    assert!(!mgr.has_overlay(1));
    mgr.record_rendered(1, g);
    assert!(!mgr.has_overlay(1));
    mgr.record_created(1, 12, g);
    assert!(mgr.has_overlay(1));
}

#[test]
fn update_leaves_other_targets_alone() {
    let mut mgr = BorderOverlayManager::new();
    let g = OverlayGeometry { x: 0, y: 0, width: 10, height: 10 };
    mgr.record_created(1, 11, g);
    let f = frame(0, 0, 50, 40);
    match mgr.plan_update(2, &f, 1) {
        OverlayUpdate::Create(g2) => mgr.record_created(2, 22, g2),
        other => panic!("unexpected {:?}", other),
    }
    assert_eq!(mgr.plan_update(1, &frame(0, 0, 10, 10), 0), OverlayUpdate::Reposition { handle: 11, geometry: g });
    // The identical update of target 2 now only repositions.
    assert_eq!(
        mgr.plan_update(2, &f, 1),
        OverlayUpdate::Reposition {
            handle: 22,
            geometry: OverlayGeometry { x: -1, y: -1, width: 52, height: 42 },
        }
    );
}
