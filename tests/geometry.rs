use skim_curses::margin::Margin;
use skim_curses::viewport::{Curses, Span};

fn fixed4(t: i32, r: i32, b: i32, l: i32) -> (Margin, Margin, Margin, Margin) {
    (Margin::Fixed(t), Margin::Fixed(r), Margin::Fixed(b), Margin::Fixed(l))
}

#[test]
fn margin_value_fixed_and_percent() {
    assert_eq!(Curses::parse_margin_string("10"), Margin::Fixed(10));
    assert_eq!(Curses::parse_margin_string("10%"), Margin::Percent(10));
    assert_eq!(Curses::parse_margin_string("-3"), Margin::Fixed(-3));
    assert_eq!(Curses::parse_margin_string("+5%"), Margin::Percent(5));
}

#[test]
fn margin_value_fallbacks() {
    assert_eq!(Curses::parse_margin_string("abc"), Margin::Fixed(0));
    assert_eq!(Curses::parse_margin_string(""), Margin::Fixed(0));
    assert_eq!(Curses::parse_margin_string("x%"), Margin::Percent(100));
    assert_eq!(Curses::parse_margin_string("%"), Margin::Percent(100));
    assert_eq!(Curses::parse_margin_string("99999999999"), Margin::Fixed(0));
    assert_eq!(Curses::parse_margin_string("2147483647"), Margin::Fixed(2147483647));
    assert_eq!(Curses::parse_margin_string("-2147483648%"), Margin::Percent(-2147483648));
}

#[test]
fn margin_list_by_count() {
    assert_eq!(Curses::parse_margin("1"), fixed4(1, 1, 1, 1));
    assert_eq!(Curses::parse_margin("1,2"), fixed4(1, 2, 1, 2));
    assert_eq!(Curses::parse_margin("1,2,3"), fixed4(1, 2, 3, 2));
    assert_eq!(Curses::parse_margin("1,2,3,4"), fixed4(1, 2, 3, 4));
    assert_eq!(Curses::parse_margin("1,2,3,4,5"), fixed4(0, 0, 0, 0));
    assert_eq!(Curses::parse_margin(""), fixed4(0, 0, 0, 0));
    assert_eq!(
        Curses::parse_margin("10%,3"),
        (Margin::Percent(10), Margin::Fixed(3), Margin::Percent(10), Margin::Fixed(3))
    );
}

#[test]
fn option_defaults() {
    assert_eq!(Curses::parse_margin_option(None), fixed4(0, 0, 0, 0));
    assert_eq!(Curses::parse_height_option(None), Margin::Percent(100));
    assert_eq!(Curses::parse_height_option(Some("40%")), Margin::Percent(40));
}

#[test]
fn viewport_inline_panel() {
    let margins = Curses::parse_margin("2,4");
    let c = Curses::new(margins, Margin::Percent(40), 50, 100, Some(10));
    assert_eq!(c.height_in_rows(50), 20);
    assert_eq!(c.start_y, 10);
    assert_eq!(c.top, 12);
    assert_eq!(c.bottom, 28);
    assert_eq!(c.left, 4);
    assert_eq!(c.right, 96);
    assert_eq!(c.get_maxyx(), (16, 92));
}

#[test]
fn viewport_start_row_fits_above_bottom() {
    let c = Curses::new(fixed4(0, 0, 0, 0), Margin::Fixed(10), 50, 80, Some(45));
    assert_eq!(c.start_y, 40);
    assert_eq!((c.top, c.bottom), (40, 50));
    let lost = Curses::new(fixed4(0, 0, 0, 0), Margin::Fixed(10), 50, 80, None);
    assert_eq!(lost.start_y, 0);
}

#[test]
fn viewport_full_screen() {
    let c = Curses::new(fixed4(1, 2, 3, 4), Margin::Percent(100), 24, 80, Some(7));
    assert_eq!(c.start_y, 0);
    assert_eq!((c.top, c.bottom, c.left, c.right), (1, 21, 4, 78));
    assert!(!c.restores_screen());
}

#[test]
fn viewport_oversized_margins_stay_inside() {
    let c = Curses::new(fixed4(30, 60, 30, 60), Margin::Percent(100), 24, 80, None);
    assert!(0 <= c.top && c.top <= c.bottom && c.bottom <= 24);
    assert!(0 <= c.left && c.left <= c.right && c.right <= 80);
}

#[test]
fn percent_margins_resolve_against_panel_and_width() {
    let m = (Margin::Percent(10), Margin::Percent(10), Margin::Percent(10), Margin::Percent(10));
    let c = Curses::new(m, Margin::Percent(50), 40, 200, Some(0));
    assert_eq!((c.top, c.bottom, c.left, c.right), (2, 18, 20, 180));
}

#[test]
fn reserved_rows_of_heights() {
    assert_eq!(Curses::reserved_rows(50, Margin::Percent(100)), None);
    assert_eq!(Curses::reserved_rows(50, Margin::Percent(40)), Some(20));
    assert_eq!(Curses::reserved_rows(50, Margin::Fixed(7)), Some(7));
    assert_eq!(Curses::reserved_rows(50, Margin::Fixed(70)), Some(50));
}

#[test]
fn resize_twice_is_idempotent() {
    let mut c = Curses::new(Curses::parse_margin("1,2"), Margin::Percent(60), 30, 90, Some(5));
    c.resize(40, 120);
    let first = (c.top, c.bottom, c.left, c.right);
    c.resize(40, 120);
    assert_eq!((c.top, c.bottom, c.left, c.right), first);
}

#[test]
fn coordinate_translation() {
    let c = Curses::new(fixed4(2, 4, 2, 4), Margin::Percent(100), 24, 80, None);
    assert_eq!(c.mv(0, 0), (2, 4));
    assert_eq!(c.mv(3, 5), (5, 9));
    assert_eq!(c.getyx(5, 9), (3, 5));
}

#[test]
fn erase_covers_viewport_rows_only() {
    let c = Curses::new(fixed4(2, 4, 2, 4), Margin::Percent(100), 10, 30, None);
    let spans = c.erase();
    assert_eq!(spans.len(), 6);
    for (i, s) in spans.iter().enumerate() {
        assert_eq!(*s, Span { row: 2 + i as i32, col: 4, width: 22 });
    }
    assert_eq!(c.clrtoeol(5), Span { row: 5, col: 4, width: 22 });
}

#[test]
fn erase_then_redraw_restores_screen() {
    let c = Curses::new(fixed4(1, 1, 1, 1), Margin::Percent(100), 4, 6, None);
    let mut screen: Vec<Vec<char>> = (0..4).map(|y| (0..6).map(|x| (b'a' + (y * 6 + x) as u8) as char).collect()).collect();
    let before = screen.clone();
    for s in c.erase() {
        for x in s.col..s.col + s.width {
            screen[s.row as usize][x as usize] = ' ';
        }
    }
    assert_ne!(screen, before);
    for y in c.top..c.bottom {
        for x in c.left..c.right {
            screen[y as usize][x as usize] = before[y as usize][x as usize];
        }
    }
    assert_eq!(screen, before);
}

#[test]
fn cursor_report_parsing() {
    assert_eq!(Curses::parse_cursor_report("\u{1b}[12;40R"), Some((11, 39)));
    assert_eq!(Curses::parse_cursor_report("\u{1b}[1;1R"), Some((0, 0)));
    assert_eq!(Curses::parse_cursor_report("\u{1b}[12R"), None);
    assert_eq!(Curses::parse_cursor_report("\u{1b}[a;2R"), None);
    assert_eq!(Curses::parse_cursor_report("\u{1b}[3;4"), None);
    assert_eq!(Curses::parse_cursor_report("R"), None);
    assert_eq!(Curses::parse_cursor_report("\u{1b}[2147483647;1R"), Some((2147483646, 0)));
}

#[test]
fn cursor_report_rejects_malformed() {
    assert_eq!(Curses::parse_cursor_report("ab1;1R"), None);
    assert_eq!(Curses::parse_cursor_report("\u{1b}(1;1R"), None);
    assert_eq!(Curses::parse_cursor_report("[[1;1R"), None);
    assert_eq!(Curses::parse_cursor_report("\u{1b}[+1;2R"), None);
    assert_eq!(Curses::parse_cursor_report("\u{1b}[1;-2R"), None);
    assert_eq!(Curses::parse_cursor_report("\u{1b}[0;5R"), None);
    assert_eq!(Curses::parse_cursor_report("\u{1b}[5;0R"), None);
    assert_eq!(Curses::parse_cursor_report("\u{1b}[1;2;3R"), None);
    assert_eq!(Curses::parse_cursor_report("\u{1b}[;5R"), None);
    assert_eq!(Curses::parse_cursor_report("\u{1b}[5;R"), None);
    assert_eq!(Curses::parse_cursor_report("\u{1b}[ 1;2R"), None);
    assert_eq!(Curses::parse_cursor_report("\u{1b}[2147483648;1R"), None);
    assert_eq!(Curses::parse_cursor_report("\u{1b}[R"), None);
    assert_eq!(Curses::parse_cursor_report(""), None);
}
