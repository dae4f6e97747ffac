use brush_editor::geometry::{map_coordinate, Point, Rect, Size};
use brush_editor::viewport::{clamp_interval, Viewport, MAX_SCALE, MAX_SHRINK};

fn rect(x0: i32, y0: i32, x1: i32, y1: i32) -> Rect {
    Rect::new(Point::new(x0, y0), Point::new(x1, y1))
}

fn in_range(visible: &Rect, canvas: &Rect) -> bool {
    canvas.width() <= 30 * visible.width()
        && visible.width() <= 10 * canvas.width()
        && canvas.height() <= 30 * visible.height()
        && visible.height() <= 10 * canvas.height()
}

#[test]
fn rect_extents_do_not_overflow() {
    let r = rect(i32::MIN, i32::MIN, i32::MAX, i32::MAX);
    assert_eq!(r.width(), 4294967295);
    assert_eq!(r.height(), 4294967295);
    assert!(r.non_degenerate());
    assert!(r.holds(Point::new(0, 0)));
}

#[test]
fn rect_without_area_is_degenerate() {
    assert!(!rect(5, 0, 5, 10).non_degenerate());
    assert!(!rect(0, 10, 5, 10).non_degenerate());
    assert!(!rect(6, 0, 5, 10).non_degenerate());
    assert!(rect(5, 0, 6, 1).non_degenerate());
}

#[test]
fn rect_holds_its_border_and_nothing_outside() {
    let r = rect(0, 0, 10, 20);
    assert!(r.holds(Point::new(0, 0)));
    assert!(r.holds(Point::new(10, 20)));
    assert!(!r.holds(Point::new(11, 20)));
    assert!(!r.holds(Point::new(10, -1)));
}

#[test]
fn map_coordinate_scales_and_drops_the_fraction() {
    assert_eq!(map_coordinate(500, 0, 1000, 0, 500), 250);
    assert_eq!(map_coordinate(1, 0, 3, 0, 2), 0);
    assert_eq!(map_coordinate(2, 0, 3, 0, 2), 1);
    assert_eq!(map_coordinate(3, 0, 3, 0, 2), 2);
    assert_eq!(map_coordinate(15, 10, 20, -100, 100), 0);
    assert_eq!(map_coordinate(7, 7, 8, 40, 40), 40);
}

#[test]
fn map_coordinate_spans_the_whole_range() {
    assert_eq!(map_coordinate(i32::MAX, i32::MIN, i32::MAX, i32::MIN, i32::MAX), i32::MAX);
    assert_eq!(map_coordinate(i32::MIN, i32::MIN, i32::MAX, i32::MIN, i32::MAX), i32::MIN);
    assert_eq!(map_coordinate(0, i32::MIN, i32::MAX, i32::MIN, i32::MAX), 0);
}

#[test]
fn transform_maps_corner_to_corner() {
    let a = rect(0, 0, 10, 10);
    let b = rect(100, 200, 300, 600);
    assert_eq!(a.transform(&b, Point::new(0, 0)), Point::new(100, 200));
    assert_eq!(a.transform(&b, Point::new(10, 10)), Point::new(300, 600));
    assert_eq!(a.transform(&b, Point::new(5, 1)), Point::new(200, 240));
}

#[test]
fn initial_viewport_spans_the_content_size() {
    let v = Viewport::new(Size { width: 500, height: 500 });
    assert_eq!(v.visible_rect, rect(0, 0, 500, 500));
    assert_eq!(v.cursor_position, Point::new(0, 0));
    assert_eq!(v.last_content_bounds, None);
}

#[test]
fn initial_viewport_of_an_empty_surface_still_has_an_area() {
    let v = Viewport::new(Size { width: 0, height: -4 });
    assert_eq!(v.visible_rect, rect(0, 0, 1, 1));
}

#[test]
fn cursor_follows_the_formula() {
    let mut v = Viewport::new(Size { width: 500, height: 500 });
    v.visible_rect = rect(100, 50, 300, 150);
    let canvas = rect(10, 20, 410, 220);
    v.track_pointer(Some(Point::new(110, 70)), &canvas);
    // 100 + (110 - 10) * 200 / 400, 50 + (70 - 20) * 100 / 200
    assert_eq!(v.cursor_position, Point::new(150, 75));
    assert_eq!(v.visible_rect, rect(100, 50, 300, 150));
}

#[test]
fn cursor_holds_without_a_pointer() {
    let mut v = Viewport::new(Size { width: 500, height: 500 });
    let canvas = rect(0, 0, 1000, 1000);
    v.track_pointer(Some(Point::new(500, 250)), &canvas);
    assert_eq!(v.cursor_position, Point::new(250, 125));
    v.track_pointer(None, &canvas);
    assert_eq!(v.cursor_position, Point::new(250, 125));
}

#[test]
fn cursor_holds_for_a_pointer_off_the_canvas() {
    let mut v = Viewport::new(Size { width: 500, height: 500 });
    let canvas = rect(0, 0, 1000, 1000);
    v.track_pointer(Some(Point::new(500, 250)), &canvas);
    v.track_pointer(Some(Point::new(1001, 250)), &canvas);
    assert_eq!(v.cursor_position, Point::new(250, 125));
    v.track_pointer(Some(Point::new(-1, 0)), &canvas);
    assert_eq!(v.cursor_position, Point::new(250, 125));
}

#[test]
fn cursor_holds_on_a_canvas_without_area() {
    let mut v = Viewport::new(Size { width: 500, height: 500 });
    v.track_pointer(Some(Point::new(5, 5)), &rect(0, 0, 10, 10));
    assert_eq!(v.cursor_position, Point::new(250, 250));
    v.track_pointer(Some(Point::new(5, 5)), &rect(5, 0, 5, 10));
    assert_eq!(v.cursor_position, Point::new(250, 250));
}

#[test]
fn screen_and_document_mappings_answer_only_inside() {
    let v = Viewport::new(Size { width: 500, height: 500 });
    let canvas = rect(0, 0, 1000, 1000);
    assert_eq!(v.screen_to_document(&canvas, Point::new(1000, 0)), Some(Point::new(500, 0)));
    assert_eq!(v.screen_to_document(&canvas, Point::new(1001, 0)), None);
    assert_eq!(v.document_to_screen(&canvas, Point::new(250, 125)), Some(Point::new(500, 250)));
    assert_eq!(v.document_to_screen(&canvas, Point::new(501, 0)), None);
    assert_eq!(v.document_to_screen(&rect(0, 0, 0, 0), Point::new(1, 1)), None);
}

#[test]
fn round_trip_at_scale_one_or_more_loses_at_most_one_unit() {
    let mut v = Viewport::new(Size { width: 500, height: 500 });
    v.visible_rect = rect(-7, 3, 94, 60);
    let canvas = rect(13, 17, 330, 417);
    for x in -7..=94 {
        for y in 3..=60 {
            let d = Point::new(x, y);
            let s = v.document_to_screen(&canvas, d).unwrap();
            let back = v.screen_to_document(&canvas, s).unwrap();
            assert!(back.x <= d.x && d.x - back.x <= 1);
            assert!(back.y <= d.y && d.y - back.y <= 1);
        }
    }
}

#[test]
fn round_trip_zoomed_out_loses_less_than_a_canvas_unit() {
    let mut v = Viewport::new(Size { width: 500, height: 500 });
    v.visible_rect = rect(0, 0, 1000, 700);
    let canvas = rect(0, 0, 100, 100);
    for x in (0..=1000).step_by(7) {
        for y in (0..=700).step_by(11) {
            let d = Point::new(x, y);
            let s = v.document_to_screen(&canvas, d).unwrap();
            let back = v.screen_to_document(&canvas, s).unwrap();
            assert!(back.x <= d.x && ((d.x - back.x) as i64) * 100 < 1000 + 100);
            assert!(back.y <= d.y && ((d.y - back.y) as i64) * 100 < 700 + 100);
        }
    }
}

#[test]
fn round_trip_is_exact_at_scale_one() {
    let v = Viewport::new(Size { width: 500, height: 500 });
    let canvas = rect(40, 40, 540, 540);
    let d = Point::new(123, 456);
    let s = v.document_to_screen(&canvas, d).unwrap();
    assert_eq!(s, Point::new(163, 496));
    assert_eq!(v.screen_to_document(&canvas, s), Some(d));
}

#[test]
fn zoom_limits_are_thirty_and_a_tenth() {
    assert_eq!(MAX_SCALE, 30);
    assert_eq!(MAX_SHRINK, 10);
}

#[test]
fn clamp_interval_keeps_what_is_in_range() {
    assert_eq!(clamp_interval(0, 500, 500), (0, 500));
    assert_eq!(clamp_interval(-20, 30, 1500), (-20, 30));
    assert_eq!(clamp_interval(7, 5007, 500), (7, 5007));
}

#[test]
fn clamp_interval_widens_and_narrows_to_the_limits() {
    // 1500 canvas units over 49 document units is more than thirty to one
    assert_eq!(clamp_interval(-20, 29, 1500), (-20, 30));
    // ceil(1501 / 30) is 51
    assert_eq!(clamp_interval(0, 1, 1501), (0, 51));
    assert_eq!(clamp_interval(7, 5008, 500), (7, 5007));
    assert_eq!(clamp_interval(10, 10, 300), (10, 20));
    assert_eq!(clamp_interval(10, -10, 300), (10, 20));
}

#[test]
fn clamp_interval_stays_on_the_grid_at_its_end() {
    assert_eq!(clamp_interval(i32::MAX - 2, i32::MAX, 300), (i32::MAX - 10, i32::MAX));
    assert_eq!(clamp_interval(i32::MIN, i32::MAX, 4294967295), (i32::MIN, i32::MAX));
    assert_eq!(clamp_interval(i32::MIN, i32::MAX, 1), (i32::MIN, i32::MIN + 10));
}

#[test]
fn zoom_gesture_in_range_is_taken_as_it_is() {
    let mut v = Viewport::new(Size { width: 500, height: 500 });
    let canvas = rect(0, 0, 500, 500);
    v.zoom_pan(rect(-1000, 200, -900, 300), &canvas);
    assert_eq!(v.visible_rect, rect(-1000, 200, -900, 300));
}

#[test]
fn zoom_gestures_never_leave_the_range() {
    let mut v = Viewport::new(Size { width: 500, height: 500 });
    let canvas = rect(0, 0, 600, 300);
    let gestures = [
        rect(0, 0, 1, 1),
        rect(0, 0, 100000, 100000),
        rect(5, 5, 5, 5),
        rect(50, 50, 40, 40),
        rect(i32::MIN, i32::MIN, i32::MAX, i32::MAX),
        rect(i32::MAX, i32::MAX, i32::MAX, i32::MAX),
        rect(10, 10, 30, 3010),
    ];
    for g in gestures.iter() {
        v.zoom_pan(*g, &canvas);
        assert!(v.visible_rect.non_degenerate());
        assert!(in_range(&v.visible_rect, &canvas));
    }
    assert_eq!(v.visible_rect, rect(10, 10, 30, 3010));
}

#[test]
fn zoom_gesture_is_clamped_to_thirty_and_a_tenth() {
    let mut v = Viewport::new(Size { width: 500, height: 500 });
    let canvas = rect(0, 0, 600, 300);
    v.zoom_pan(rect(0, 0, 1, 1), &canvas);
    assert_eq!(v.visible_rect, rect(0, 0, 20, 10));
    v.zoom_pan(rect(-5, -5, 100000, 100000), &canvas);
    assert_eq!(v.visible_rect, rect(-5, -5, 5995, 2995));
}

#[test]
fn zoom_gesture_on_a_canvas_without_area_changes_nothing() {
    let mut v = Viewport::new(Size { width: 500, height: 500 });
    v.zoom_pan(rect(0, 0, 1, 1), &rect(0, 0, 0, 300));
    assert_eq!(v.visible_rect, rect(0, 0, 500, 500));
}

#[test]
fn panning_is_not_clamped() {
    let mut v = Viewport::new(Size { width: 500, height: 500 });
    let canvas = rect(0, 0, 500, 500);
    v.zoom_pan(rect(2000000, -3000000, 2000500, -2999500), &canvas);
    assert_eq!(v.visible_rect, rect(2000000, -3000000, 2000500, -2999500));
}

#[test]
fn fit_snaps_to_the_last_rendered_bounds() {
    let mut v = Viewport::new(Size { width: 500, height: 500 });
    assert_eq!(v.visible_rect, rect(0, 0, 500, 500));
    v.record_bounds(rect(0, 0, 100, 100));
    v.fit();
    assert_eq!(v.visible_rect, rect(0, 0, 100, 100));
}

#[test]
fn fit_takes_the_most_recent_bounds() {
    let mut v = Viewport::new(Size { width: 500, height: 500 });
    v.record_bounds(rect(0, 0, 100, 100));
    v.record_bounds(rect(3, 4, 50, 60));
    assert_eq!(v.last_content_bounds, Some(rect(3, 4, 50, 60)));
    v.fit();
    assert_eq!(v.visible_rect, rect(3, 4, 50, 60));
}

#[test]
fn fit_without_bounds_changes_nothing() {
    let mut v = Viewport::new(Size { width: 500, height: 500 });
    v.fit();
    assert_eq!(v.visible_rect, rect(0, 0, 500, 500));
    v.record_bounds(rect(10, 10, 10, 50));
    v.fit();
    assert_eq!(v.visible_rect, rect(0, 0, 500, 500));
}

#[test]
fn fit_is_not_clamped_to_the_zoom_range() {
    let mut v = Viewport::new(Size { width: 500, height: 500 });
    v.record_bounds(rect(0, 0, 1, 1));
    v.fit();
    assert_eq!(v.visible_rect, rect(0, 0, 1, 1));
}
