use text_hit::controller::{Controller, PaintPlan};
use text_hit::geometry::{centre_origin, place, relative_to, LayoutPoint, Point, Rect, Size, SCALE};
use text_hit::output::{report_line, text_file_arg, usage_line};

#[test]
fn origin_centres_block_in_window() {
    let o = centre_origin(500, 500, Size { width: 20480, height: 10240 });
    assert_eq!(o, Point { x: 245760, y: 250880 });
    assert_eq!(2 * o.x + 20480, 500 * SCALE);
    assert_eq!(2 * o.y + 10240, 500 * SCALE);
}

#[test]
fn origin_rounds_odd_halves_down() {
    let o = centre_origin(500, 300, Size { width: 20481, height: 3 });
    assert_eq!(o.x, 245759);
    assert_eq!(o.y, 153598);
    assert_eq!(2 * o.x + 20481, 500 * SCALE - 1);
}

#[test]
fn origin_of_block_wider_than_window_is_negative() {
    let o = centre_origin(10, 10, Size { width: 20481, height: 10240 });
    assert_eq!(o.x, -5121);
    assert_eq!(o.y, 0);
}

#[test]
fn origin_of_empty_block_is_window_middle() {
    let o = centre_origin(0, 7, Size { width: 0, height: 0 });
    assert_eq!(o, Point { x: 0, y: 3584 });
}

#[test]
fn relative_position_subtracts_origin() {
    let r = relative_to(Point { x: 1000, y: 50 }, Point { x: 400, y: 100 });
    assert_eq!(r, LayoutPoint { x: 600, y: -50 });
}

#[test]
fn relative_position_saturates() {
    let r = relative_to(Point { x: i64::MAX, y: i64::MIN }, Point { x: -5, y: 5 });
    assert_eq!(r, LayoutPoint { x: i32::MAX, y: i32::MIN });
}

#[test]
fn placed_rectangle_is_offset_by_origin() {
    let r = place(Rect { x: 1024, y: 0, width: 9000, height: 20000 }, Point { x: 245760, y: 250880 });
    assert_eq!(r, Rect { x: 246784, y: 250880, width: 9000, height: 20000 });
    let s = place(Rect { x: 1, y: -1, width: 0, height: 0 }, Point { x: i64::MAX, y: i64::MIN });
    assert_eq!(s.x, i64::MAX);
    assert_eq!(s.y, i64::MIN);
}

#[test]
fn new_controller_has_text_and_no_click() {
    let c = Controller::new(String::from("Hi"));
    assert_eq!(c.text(), "Hi");
    assert_eq!(c.pending(), None);
}

#[test]
fn paint_without_click_only_centres() {
    let mut c = Controller::new(String::from("Hi"));
    let p = c.paint(500, 500, Size { width: 20480, height: 10240 });
    assert_eq!(p, PaintPlan { origin: Point { x: 245760, y: 250880 }, query: None });
}

#[test]
fn second_paint_after_click_has_no_query() {
    let mut c = Controller::new(String::from("Hi"));
    let block = Size { width: 20480, height: 10240 };
    c.on_click(Point { x: 300000, y: 260000 });
    let first = c.paint(500, 500, block);
    assert_eq!(first.query, Some(LayoutPoint { x: 54240, y: 9120 }));
    assert_eq!(c.pending(), None);
    let second = c.paint(500, 500, block);
    assert_eq!(second.query, None);
    assert_eq!(c.text(), "Hi");
}

#[test]
fn later_click_replaces_pending_one() {
    let mut c = Controller::new(String::from("x"));
    c.on_click(Point { x: 1, y: 2 });
    c.on_click(Point { x: 3, y: 4 });
    assert_eq!(c.pending(), Some(Point { x: 3, y: 4 }));
    let p = c.paint(0, 0, Size { width: 0, height: 0 });
    assert_eq!(p.query, Some(LayoutPoint { x: 3, y: 4 }));
}

#[test]
fn take_click_clears_pending() {
    let mut c = Controller::new(String::from("x"));
    c.on_click(Point { x: 7, y: 8 });
    assert_eq!(c.take_click(), Some(Point { x: 7, y: 8 }));
    assert_eq!(c.take_click(), None);
}

#[test]
fn click_one_pixel_into_text_origin() {
    let mut c = Controller::new(String::from("Hi"));
    let block = Size { width: 20480, height: 20480 };
    let o = centre_origin(500, 500, block);
    c.on_click(Point { x: o.x + SCALE, y: o.y + 10240 });
    let p = c.paint(500, 500, block);
    assert_eq!(p.query, Some(LayoutPoint { x: 1024, y: 10240 }));
}

#[test]
fn report_line_for_hit_at_first_character() {
    assert_eq!(report_line(true, 0, 0), "true, 0i, 0t");
}

#[test]
fn report_line_for_miss_with_large_and_negative_values() {
    assert_eq!(report_line(false, 2147483647, -1), "false, 2147483647i, -1t");
    assert_eq!(report_line(true, -2147483648, 10), "true, -2147483648i, 10t");
    assert_eq!(report_line(false, 109, 1), "false, 109i, 1t");
}

#[test]
fn usage_line_names_program() {
    assert_eq!(usage_line("viewer"), "Usage: viewer <text-file>");
    assert_eq!(usage_line(""), "Usage:  <text-file>");
}

#[test]
fn text_file_arg_needs_exactly_one_argument() {
    let two = vec![String::from("viewer"), String::from("a.txt"), String::from("b.txt")];
    assert_eq!(text_file_arg(&two), None);
    let none = vec![String::from("viewer")];
    assert_eq!(text_file_arg(&none), None);
    assert_eq!(text_file_arg(&Vec::new()), None);
    let one = vec![String::from("viewer"), String::from("a.txt")];
    assert_eq!(text_file_arg(&one), Some(String::from("a.txt")));
}
