use map_engine::windows::{intersection, intersection2, Window};

fn scale(win: Window, factor: f64) -> Window {
    let extended_width = (win.width as f64 * factor).ceil() as usize;
    let extended_height = (win.height as f64 * factor).ceil() as usize;
    win.scaled(extended_width, extended_height)
}

#[test]
fn test_intersection() {
    let win1 = Window::new(0, 1, 256, 256);
    let win2 = Window::new(200, 201, 256, 256);
    let inter = intersection(&[win1, win2]);
    assert_eq!(inter, Some(Window::new(200, 201, 56, 56)));
}

#[test]
fn test_no_intersection() {
    let win1 = Window::new(0, 0, 256, 256);
    let win2 = Window::new(256, 256, 256, 256);
    let inter = intersection(&[win1, win2]);
    assert_eq!(inter, None);
}

#[test]
fn test_scale_window() {
    let win = scale(Window::new(0, 0, 100, 100), 1.02);
    assert_eq!(win, Window::new(-1, -1, 102, 102));
    assert_eq!(scale(win, 1.0 / 1.02), Window::new(0, 0, 100, 100));
}

#[test]
fn test_intersection2() {
    let w0 = Window::new(0, 0, 10, 10);
    let w1 = Window::new(11, 11, 10, 10);
    assert_eq!(intersection2(w0, w1), Window::new(0, 0, 0, 0));

    let w1 = Window::new(11, 11, 10, 10);
    let w0 = Window::new(0, 0, 10, 10);
    assert_eq!(intersection2(w0, w1), Window::new(0, 0, 0, 0));

    let w0 = Window::new(0, 0, 10, 10);
    let w1 = Window::new(5, 5, 10, 10);
    assert_eq!(intersection2(w0, w1), Window::new(5, 5, 5, 5));

    let w0 = Window::new(5, 5, 10, 10);
    let w1 = Window::new(5, 5, 10, 10);
    assert_eq!(intersection2(w0, w1), Window::new(5, 5, 10, 10));

    let w0 = Window::new(5, 5, 10, 10);
    let w1 = Window::new(5, 5, 10, 10);
    assert_eq!(intersection2(w0, w1), Window::new(5, 5, 10, 10));

    let w0 = Window::new(0, 0, 0, 0);
    let w1 = Window::new(0, 0, 0, 0);
    assert_eq!(intersection2(w0, w1), Window::new(0, 0, 0, 0));
}

#[test]
fn intersection_is_symmetric() {
    let a = Window::new(-5, 3, 20, 9);
    let b = Window::new(2, -4, 7, 30);
    assert_eq!(intersection(&[a, b]), intersection(&[b, a]));
    assert_eq!(intersection(&[a, b]), Some(Window::new(2, 3, 7, 9)));
    assert_eq!(intersection2(a, b), intersection2(b, a));
}

#[test]
fn intersection_is_idempotent() {
    let a = Window::new(-5, 3, 20, 9);
    assert_eq!(intersection(&[a, a]), Some(a));
    assert_eq!(intersection2(a, a), a);
}

#[test]
fn intersection_of_an_empty_window_with_itself_is_absent() {
    let a = Window::new(5, 5, 0, 10);
    assert_eq!(intersection2(a, a), Window::new(0, 0, 0, 0));
    assert_eq!(intersection(&[a, a]), None);
}

#[test]
fn intersection_of_no_window_is_absent() {
    assert_eq!(intersection(&[]), None);
}

#[test]
fn intersection_of_one_window_is_that_window() {
    let a = Window::new(3, 4, 5, 6);
    assert_eq!(intersection(&[a]), Some(a));
    assert_eq!(intersection(&[Window::default()]), None);
    let empty = Window::new(5, 5, 0, 10);
    assert_eq!(intersection(&[empty]), Some(empty));
}

#[test]
fn intersection_of_three_windows_lies_inside_each() {
    let a = Window::new(0, 0, 100, 100);
    let b = Window::new(50, 20, 100, 100);
    let c = Window::new(-10, 30, 70, 40);
    assert_eq!(intersection(&[a, b, c]), Some(Window::new(50, 30, 10, 40)));
}

#[test]
fn intersection_at_the_limits_of_the_machine() {
    let a = Window::new(isize::MAX, isize::MAX, usize::MAX, usize::MAX);
    let b = Window::new(isize::MIN, isize::MIN, usize::MAX, usize::MAX);
    assert_eq!(intersection2(a, b), Window::new(0, 0, 0, 0));
    let c = Window::new(isize::MAX - 1, 0, usize::MAX, 4);
    assert_eq!(intersection2(a, a), a);
    assert_eq!(
        intersection2(c, Window::new(isize::MAX, 1, 1, 1)),
        Window::new(isize::MAX, 1, 1, 1)
    );
}

#[test]
fn windows_intersect_when_they_share_a_pixel() {
    let a = Window::new(0, 0, 10, 10);
    assert!(a.intersects(&Window::new(9, 9, 5, 5)));
    assert!(!a.intersects(&Window::new(10, 9, 5, 5)));
    assert!(!a.intersects(&Window::new(0, 0, 0, 5)));
}

#[test]
fn toranges_gives_rows_then_columns() {
    let w = Window::new(-3, 7, 10, 20);
    assert_eq!(w.toranges(), ((7, 27), (-3, 7)));
}

#[test]
fn is_zero_when_either_side_is_zero() {
    assert!(Window::new(1, 2, 0, 5).is_zero());
    assert!(Window::new(1, 2, 5, 0).is_zero());
    assert!(!Window::new(1, 2, 5, 5).is_zero());
}

#[test]
fn default_window_is_all_zero() {
    assert_eq!(Window::default(), Window::new(0, 0, 0, 0));
}

#[test]
fn scaling_moves_rows_by_the_gain_in_width() {
    let win = Window::new(10, 10, 100, 50).scaled(110, 50);
    assert_eq!(win, Window::new(5, 5, 110, 50));
    let win = Window::new(10, 10, 100, 50).scaled(97, 80);
    assert_eq!(win, Window::new(11, 11, 97, 80));
}
