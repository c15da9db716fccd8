//! The viewport: a rectangle of the terminal that drawing is confined to,
//! computed from margins, a height and the terminal's size.
use vstd::prelude::*;

use crate::text::{all_digits, chars_of, digits_value, parse_i32, split_chars, split_spec, views_of};
use crate::margin::{
    margin_value_spec, margins_spec, parse_margin_list, parse_margin_value, zero_margins,
    Margin, Margins,
};

verus! {

/// Integer division by a positive divisor that rounds toward zero, as Rust's `/` does.
pub open spec fn trunc_div(a: int, d: int) -> int {
    if a >= 0 {
        a / d
    } else {
        -((-a) / d)
    }
}

pub open spec fn min_int(a: int, b: int) -> int {
    if a <= b {
        a
    } else {
        b
    }
}

pub open spec fn clamp(v: int, lo: int, hi: int) -> int {
    if v < lo {
        lo
    } else if v > hi {
        hi
    } else {
        v
    }
}

/// A margin measured against a dimension of `base` cells.
pub open spec fn resolve_margin(m: Margin, base: int) -> int {
    match m {
        Margin::Fixed(n) => n as int,
        Margin::Percent(p) => trunc_div(p * base, 100),
    }
}

pub open spec fn is_full_screen(height: Margin) -> bool {
    height == Margin::Percent(100)
}

/// Rows that the panel occupies on a terminal of `max_y` rows: its height,
/// at most the terminal's rows and never negative.
pub open spec fn height_rows_spec(height: Margin, max_y: int) -> int {
    if is_full_screen(height) {
        max_y
    } else {
        clamp(resolve_margin(height, max_y), 0, max_y)
    }
}

/// Rows an inline panel reserves at the bottom of the scrollback, within the
/// terminal's rows; `None` for a full-screen panel.
pub open spec fn reserved_rows_spec(height: Margin, max_y: int) -> Option<int> {
    if is_full_screen(height) {
        None
    } else {
        Some(clamp(resolve_margin(height, max_y), 0, max_y))
    }
}

/// The first row of the panel: 0 when full screen or when the cursor row is
/// unknown, else the cursor row, raised so the panel fits above the bottom.
pub open spec fn start_row_spec(height: Margin, max_y: int, cursor_row: Option<i32>) -> int {
    match reserved_rows_spec(height, max_y) {
        None => 0,
        Some(rows) => match cursor_row {
            None => 0,
            Some(y) => clamp(min_int(y as int, max_y - rows), 0, max_y),
        },
    }
}

/// A 0-based coordinate from a 1-based field of a cursor report: one or more
/// digits giving a value from 1 to `i32::MAX`.
pub open spec fn report_field(s: Seq<char>) -> Option<i32> {
    if s.len() > 0 && all_digits(s) && 1 <= digits_value(s) <= i32::MAX {
        Some((digits_value(s) - 1) as i32)
    } else {
        None
    }
}

/// The 0-based (row, column) in a terminal's cursor-position report, which is
/// exactly ESC, `[`, the row, `;`, the column and `R`. `None` for a report of
/// any other shape.
pub open spec fn cursor_report_spec(s: Seq<char>) -> Option<(i32, i32)> {
    if s.len() >= 3 && s[0] == '\x1b' && s[1] == '[' && s.last() == 'R' {
        let fields = split_spec(s.subrange(2, s.len() - 1), ';');
        if fields.len() == 2 {
            match (report_field(fields[0]), report_field(fields[1])) {
                (Some(y), Some(x)) => Some((y, x)),
                _ => None,
            }
        } else {
            None
        }
    } else {
        None
    }
}

/// The rectangle for the given configuration on a terminal of `max_y` rows and
/// `max_x` columns, held inside the terminal.
pub open spec fn rect_spec(
    start_y: int,
    height: Margin,
    m: Margins,
    max_y: int,
    max_x: int,
) -> (int, int, int, int) {
    let h = height_rows_spec(height, max_y);
    let top = clamp(start_y + resolve_margin(m.0, h), 0, max_y);
    let bottom = clamp(start_y + h - resolve_margin(m.2, h), top, max_y);
    let left = clamp(resolve_margin(m.3, max_x), 0, max_x);
    let right = clamp(max_x - resolve_margin(m.1, max_x), left, max_x);
    (top, bottom, left, right)
}

/// A run of `width` cells of row `row`, from column `col` on.
#[derive(PartialEq, Eq, Structural, Clone, Copy, Debug)]
pub struct Span {
    pub row: i32,
    pub col: i32,
    pub width: i32,
}

/// The screen state of a viewport: its configuration, the terminal size it was
/// last computed for, and the rectangle.
pub struct Curses {
    pub top: i32,
    pub bottom: i32,
    pub left: i32,
    pub right: i32,
    pub height: Margin,
    pub start_y: i32,
    pub margin_top: Margin,
    pub margin_bottom: Margin,
    pub margin_left: Margin,
    pub margin_right: Margin,
    pub rows: i32,
    pub cols: i32,
}

fn trunc_div_100(a: i64) -> (r: i64)
    requires
        a > i64::MIN,
    ensures
        r == trunc_div(a as int, 100),
{
    if a >= 0 {
        a / 100
    } else {
        -((-a) / 100)
    }
}

fn clamp_i64(v: i64, lo: i64, hi: i64) -> (r: i64)
    requires
        lo <= hi,
    ensures
        r == clamp(v as int, lo as int, hi as int),
{
    if v < lo {
        lo
    } else if v > hi {
        hi
    } else {
        v
    }
}

fn resolve(m: Margin, base: i64) -> (r: i64)
    requires
        -0x8000_0000 <= base <= 0x7fff_ffff,
    ensures
        r == resolve_margin(m, base as int),
        -0x4000_0000_0000_0000 <= r <= 0x4000_0000_0000_0000,
{
    match m {
        Margin::Fixed(n) => n as i64,
        Margin::Percent(p) => {
            assert(-0x4000_0000_0000_0000 <= p * base <= 0x4000_0000_0000_0000) by (nonlinear_arith)
                requires
                    -0x8000_0000 <= p <= 0x7fff_ffff,
                    -0x8000_0000 <= base <= 0x7fff_ffff,
            ;
            trunc_div_100(p as i64 * base)
        },
    }
}

fn report_coordinate(f: &[char]) -> (r: Option<i32>)
    ensures
        r == report_field(f@),
{
    if f.len() == 0 || !('0' <= f[0] && f[0] <= '9') {
        return None;
    }
    match parse_i32(f) {
        Some(v) => if v >= 1 {
            Some(v - 1)
        } else {
            None
        },
        None => None,
    }
}

impl Curses {
    /// `after` is `before` with its rectangle recomputed for a terminal of
    /// `max_y` rows and `max_x` columns; the configuration is kept.
    pub open spec fn resized(before: Curses, after: Curses, max_y: int, max_x: int) -> bool {
        &&& after.rect() == rect_spec(before.start_y as int, before.height, before.margins(), max_y, max_x)
        &&& after.rows == max_y
        &&& after.cols == max_x
        &&& after.start_y == before.start_y
        &&& after.height == before.height
        &&& after.margins() == before.margins()
    }

    /// `spans` blanks the viewport row by row, top to bottom, over its width.
    pub open spec fn erase_spans(&self, spans: Seq<Span>) -> bool {
        &&& spans.len() == self.bottom - self.top
        &&& forall|i: int|
            0 <= i < spans.len() ==> #[trigger] spans[i] == (Span {
                row: (self.top + i) as i32,
                col: self.left,
                width: (self.right - self.left) as i32,
            })
    }

    /// The cells of the viewport.
    pub open spec fn cells(&self) -> Set<(int, int)> {
        Set::new(|k: (int, int)| self.top <= k.0 < self.bottom && self.left <= k.1 < self.right)
    }

    pub open spec fn margins(&self) -> Margins {
        (self.margin_top, self.margin_right, self.margin_bottom, self.margin_left)
    }

    pub open spec fn rect(&self) -> (int, int, int, int) {
        (self.top as int, self.bottom as int, self.left as int, self.right as int)
    }

    /// The rectangle lies inside the terminal, with top <= bottom and left <= right.
    pub open spec fn wf(&self) -> bool {
        &&& 0 <= self.rows
        &&& 0 <= self.cols
        &&& 0 <= self.top <= self.bottom <= self.rows
        &&& 0 <= self.left <= self.right <= self.cols
        &&& self.rect() == rect_spec(
            self.start_y as int,
            self.height,
            self.margins(),
            self.rows as int,
            self.cols as int,
        )
    }

    /// The margins that the `margin` option gives; zero margins without it.
    pub fn parse_margin_option(margin: Option<&str>) -> (r: Margins)
        ensures
            r == match margin {
                Some(s) => margins_spec(s@),
                None => zero_margins(),
            },
    {
        match margin {
            Some(s) => Curses::parse_margin(s),
            None => (Margin::Fixed(0), Margin::Fixed(0), Margin::Fixed(0), Margin::Fixed(0)),
        }
    }

    /// The height that the `height` option gives; the full screen without it.
    pub fn parse_height_option(height: Option<&str>) -> (r: Margin)
        ensures
            r == match height {
                Some(s) => margin_value_spec(s@),
                None => Margin::Percent(100),
            },
    {
        match height {
            Some(s) => Curses::parse_margin_string(s),
            None => Margin::Percent(100),
        }
    }

    /// Parses one margin or height value: `n%` or `n`.
    pub fn parse_margin_string(margin: &str) -> (r: Margin)
        ensures
            r == margin_value_spec(margin@),
    {
        parse_margin_value(margin)
    }

    /// Parses a comma-separated margin list into (top, right, bottom, left).
    pub fn parse_margin(margin: &str) -> (r: Margins)
        ensures
            r == margins_spec(margin@),
    {
        parse_margin_list(margin)
    }

    /// How many rows an inline panel of this height reserves on a terminal of
    /// `max_y` rows; `None` for a full-screen panel, which reserves nothing.
    pub fn reserved_rows(max_y: i32, height: Margin) -> (r: Option<i32>)
        requires
            max_y >= 0,
        ensures
            r matches Some(v) ==> reserved_rows_spec(height, max_y as int) == Some(v as int),
            r is None ==> reserved_rows_spec(height, max_y as int) is None,
    {
        if height == Margin::Percent(100) {
            None
        } else {
            let rows = resolve(height, max_y as i64);
            Some(clamp_i64(rows, 0, max_y as i64) as i32)
        }
    }

    /// Reads the cursor position out of the terminal's answer to a
    /// cursor-position query.
    pub fn parse_cursor_report(report: &str) -> (r: Option<(i32, i32)>)
        ensures
            r == cursor_report_spec(report@),
    {
        let c = chars_of(report);
        let n = c.len();
        if n < 3 || c[0] != '\x1b' || c[1] != '[' || c[n - 1] != 'R' {
            return None;
        }
        let mut inner: Vec<char> = Vec::new();
        let mut i: usize = 2;
        while i < n - 1
            invariant
                n == c@.len(),
                n >= 3,
                2 <= i <= n - 1,
                inner@ == c@.subrange(2, i as int),
            decreases n - 1 - i,
        {
            inner.push(c[i]);
            i += 1;
            assert(inner@ == c@.subrange(2, i as int));
        }
        let fields = split_chars(inner.as_slice(), ';');
        let ghost f = split_spec(inner@, ';');
        assert(fields@.len() == f.len());
        assert(forall|k: int| 0 <= k < f.len() ==> f[k] == #[trigger] fields@[k]@) by {
            assert(views_of(fields@) == f);
        };
        if fields.len() != 2 {
            return None;
        }
        let y = match report_coordinate(fields[0].as_slice()) {
            Some(v) => v,
            None => return None,
        };
        let x = match report_coordinate(fields[1].as_slice()) {
            Some(v) => v,
            None => return None,
        };
        Some((y, x))
    }

    /// Sets up the viewport for a terminal of `max_y` rows and `max_x` columns.
    /// `cursor_row` is the 0-based row the cursor was found on, when known.
    pub fn new(
        margins: Margins,
        height: Margin,
        max_y: i32,
        max_x: i32,
        cursor_row: Option<i32>,
    ) -> (r: Curses)
        requires
            max_y >= 0,
            max_x >= 0,
        ensures
            r.wf(),
            r.margins() == margins,
            r.height == height,
            r.rows == max_y,
            r.cols == max_x,
            r.start_y == start_row_spec(height, max_y as int, cursor_row),
    {
        let (margin_top, margin_right, margin_bottom, margin_left) = margins;
        let start_y: i32 = match Curses::reserved_rows(max_y, height) {
            None => 0,
            Some(rows) => match cursor_row {
                None => 0,
                Some(y) => {
                    let lowest = max_y - rows;
                    let s = if y <= lowest { y } else { lowest };
                    if s < 0 { 0 } else { s }
                },
            },
        };
        let mut curses = Curses {
            top: 0,
            bottom: 0,
            left: 0,
            right: 0,
            height,
            start_y,
            margin_top,
            margin_bottom,
            margin_left,
            margin_right,
            rows: max_y,
            cols: max_x,
        };
        curses.resize(max_y, max_x);
        curses
    }

    /// Rows the panel occupies on a terminal of `max_y` rows.
    pub fn height_in_rows(&self, max_y: i32) -> (r: i32)
        requires
            max_y >= 0,
        ensures
            r == height_rows_spec(self.height, max_y as int),
    {
        if self.height == Margin::Percent(100) {
            max_y
        } else {
            let h = resolve(self.height, max_y as i64);
            clamp_i64(h, 0, max_y as i64) as i32
        }
    }

    /// Recomputes the rectangle for a terminal of `max_y` rows and `max_x` columns.
    pub fn resize(&mut self, max_y: i32, max_x: i32)
        requires
            max_y >= 0,
            max_x >= 0,
        ensures
            final(self).wf(),
            Curses::resized(*old(self), *final(self), max_y as int, max_x as int),
    {
        let h = self.height_in_rows(max_y) as i64;
        let start = self.start_y as i64;
        let top = clamp_i64(start + resolve(self.margin_top, h), 0, max_y as i64);
        let bottom = clamp_i64(start + h - resolve(self.margin_bottom, h), top, max_y as i64);
        let left = clamp_i64(resolve(self.margin_left, max_x as i64), 0, max_x as i64);
        let right = clamp_i64(max_x as i64 - resolve(self.margin_right, max_x as i64), left, max_x as i64);
        self.top = top as i32;
        self.bottom = bottom as i32;
        self.left = left as i32;
        self.right = right as i32;
        self.rows = max_y;
        self.cols = max_x;
    }

    /// The absolute position of the logical position (y, x).
    pub fn mv(&self, y: i32, x: i32) -> (r: (i32, i32))
        requires
            i32::MIN <= y + self.top <= i32::MAX,
            i32::MIN <= x + self.left <= i32::MAX,
        ensures
            r.0 == y + self.top,
            r.1 == x + self.left,
    {
        (y + self.top, x + self.left)
    }

    /// The number of rows and columns of the viewport.
    pub fn get_maxyx(&self) -> (r: (i32, i32))
        requires
            self.wf(),
        ensures
            r.0 == self.bottom - self.top,
            r.1 == self.right - self.left,
    {
        (self.bottom - self.top, self.right - self.left)
    }

    /// The logical position of the absolute position (y, x).
    pub fn getyx(&self, y: i32, x: i32) -> (r: (i32, i32))
        requires
            i32::MIN <= y - self.top <= i32::MAX,
            i32::MIN <= x - self.left <= i32::MAX,
        ensures
            r.0 == y - self.top,
            r.1 == x - self.left,
    {
        (y - self.top, x - self.left)
    }

    /// The cells that clearing to the end of row `y` overwrites with blanks:
    /// the viewport's own width of that row, nothing outside it.
    pub fn clrtoeol(&self, y: i32) -> (r: Span)
        requires
            self.wf(),
        ensures
            r == (Span { row: y, col: self.left, width: (self.right - self.left) as i32 }),
    {
        Span { row: y, col: self.left, width: self.right - self.left }
    }

    /// The cells that erasing the viewport overwrites with blanks: each of its
    /// rows, top to bottom, over the viewport's width.
    pub fn erase(&self) -> (r: Vec<Span>)
        requires
            self.wf(),
        ensures
            self.erase_spans(r@),
    {
        let mut r: Vec<Span> = Vec::new();
        let mut i: i32 = self.top;
        while i < self.bottom
            invariant
                self.wf(),
                self.top <= i <= self.bottom,
                r@.len() == i - self.top,
                forall|k: int|
                    0 <= k < r@.len() ==> #[trigger] r@[k] == (Span {
                        row: (self.top + k) as i32,
                        col: self.left,
                        width: (self.right - self.left) as i32,
                    }),
            decreases self.bottom - i,
        {
            r.push(Span { row: i, col: self.left, width: self.right - self.left });
            i += 1;
        }
        r
    }

    /// Whether closing must switch the terminal back to its previous screen
    /// buffer: only an inline panel left it.
    pub fn restores_screen(&self) -> (r: bool)
        ensures
            r == !is_full_screen(self.height),
    {
        self.height != Margin::Percent(100)
    }
}

/// The cells of a terminal of `rows` rows and `cols` columns.
pub open spec fn terminal_cells(rows: int, cols: int) -> Set<(int, int)> {
    Set::new(|k: (int, int)| 0 <= k.0 < rows && 0 <= k.1 < cols)
}

/// Whether one of `spans` holds the cell (y, x).
pub open spec fn covers(spans: Seq<Span>, y: int, x: int) -> bool {
    exists|i: int|
        0 <= i < spans.len() && spans[i].row == y && spans[i].col <= x < spans[i].col
            + spans[i].width
}

/// The screen after writing blanks over `spans`.
pub open spec fn blank_spans(screen: Map<(int, int), char>, spans: Seq<Span>) -> Map<
    (int, int),
    char,
> {
    Map::new(
        |k: (int, int)| screen.dom().contains(k) || covers(spans, k.0, k.1),
        |k: (int, int)|
            if covers(spans, k.0, k.1) {
                ' '
            } else {
                screen[k]
            },
    )
}

/// The screen after writing `content` over it.
pub open spec fn draw(screen: Map<(int, int), char>, content: Map<(int, int), char>) -> Map<
    (int, int),
    char,
> {
    screen.union_prefer_right(content)
}

/// Resizing twice for the same terminal size leaves the rectangle as the first
/// resize made it.
pub proof fn lemma_resize_idempotent(a: Curses, b: Curses, c: Curses, max_y: int, max_x: int)
    requires
        Curses::resized(a, b, max_y, max_x),
        Curses::resized(b, c, max_y, max_x),
    ensures
        c.rect() == b.rect(),
        c == b,
{
}

/// Erasing the viewport and then drawing what it held before leaves the
/// screen as it was.
pub proof fn lemma_erase_then_redraw(c: Curses, spans: Seq<Span>, screen: Map<(int, int), char>)
    requires
        c.wf(),
        c.erase_spans(spans),
        screen.dom() == terminal_cells(c.rows as int, c.cols as int),
    ensures
        draw(blank_spans(screen, spans), screen.restrict(c.cells())) == screen,
{
    assert forall|y: int, x: int| covers(spans, y, x) <==> c.cells().contains((y, x)) by {
        if c.cells().contains((y, x)) {
            let i = y - c.top;
            assert(spans[i].row == y);
        }
        if covers(spans, y, x) {
            let i = choose|i: int|
                0 <= i < spans.len() && spans[i].row == y && spans[i].col <= x < spans[i].col
                    + spans[i].width;
            assert(spans[i] == (Span {
                row: (c.top + i) as i32,
                col: c.left,
                width: (c.right - c.left) as i32,
            }));
        }
    }
    let after = draw(blank_spans(screen, spans), screen.restrict(c.cells()));
    assert forall|k: (int, int)| #[trigger] after.dom().contains(k) <==> screen.dom().contains(k) by {
        if covers(spans, k.0, k.1) {
            assert(c.cells().contains((k.0, k.1)));
        }
    }
    assert(after =~= screen);
}

} // verus!
