use daily_dashboard::layout::{
    centered_line, greeting_beside_calendar, monthly_grid, Calendar, Rect, GREETING_MIN_WIDTH,
    MONTHLY_HEIGHT, MONTHLY_WIDTH,
};

fn rect(x: u16, y: u16, width: u16, height: u16) -> Rect {
    Rect { x, y, width, height }
}

#[test]
fn month_grid_sits_in_the_top_right_corner() {
    let _calendar = Calendar::new();
    assert_eq!(monthly_grid(rect(2, 3, 60, 10)), rect(2 + 60 - MONTHLY_WIDTH, 3, MONTHLY_WIDTH, MONTHLY_HEIGHT));
    assert_eq!(monthly_grid(rect(0, 0, 10, 2)), rect(0, 0, 10, 2));
}

#[test]
fn greeting_goes_beside_only_when_both_fit() {
    let both = GREETING_MIN_WIDTH + MONTHLY_WIDTH;
    assert!(greeting_beside_calendar(both));
    assert!(!greeting_beside_calendar(both - 1));
}

#[test]
fn centered_line_is_in_the_middle() {
    assert_eq!(centered_line(rect(10, 4, 20, 9), 6), rect(17, 8, 6, 1));
    assert_eq!(centered_line(rect(10, 4, 4, 1), 6), rect(10, 4, 6, 1));
}
