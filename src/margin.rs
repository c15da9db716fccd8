//! Margins and the grammar of margin and height options.
use vstd::prelude::*;

use crate::text::{chars_of, i32_value, parse_i32, split_chars, split_spec, views_of};

verus! {

/// An inset of one side of the viewport, or the height of the viewport:
/// rows/columns, or a percentage of the dimension it applies to.
#[derive(PartialEq, Eq, Structural, Clone, Copy, Debug)]
pub enum Margin {
    Fixed(i32),
    Percent(i32),
}

/// Four margins in the order top, right, bottom, left.
pub type Margins = (Margin, Margin, Margin, Margin);

pub open spec fn zero_margins() -> Margins {
    (Margin::Fixed(0), Margin::Fixed(0), Margin::Fixed(0), Margin::Fixed(0))
}

/// One margin value: `n%` is a percentage (100 when `n` does not parse),
/// anything else a fixed count (0 when it does not parse).
pub open spec fn margin_value_spec(s: Seq<char>) -> Margin {
    if s.len() > 0 && s.last() == '%' {
        Margin::Percent(
            match i32_value(s.drop_last()) {
                Some(v) => v,
                None => 100,
            },
        )
    } else {
        Margin::Fixed(
            match i32_value(s) {
                Some(v) => v,
                None => 0,
            },
        )
    }
}

/// A comma-separated margin list: one value for all sides; two for
/// (top/bottom, right/left); three for (top, right/left, bottom); four for
/// (top, right, bottom, left). Any other count gives zero margins.
pub open spec fn margins_spec(s: Seq<char>) -> Margins {
    let p = split_spec(s, ',');
    if p.len() == 1 {
        let m = margin_value_spec(p[0]);
        (m, m, m, m)
    } else if p.len() == 2 {
        let tb = margin_value_spec(p[0]);
        let rl = margin_value_spec(p[1]);
        (tb, rl, tb, rl)
    } else if p.len() == 3 {
        let rl = margin_value_spec(p[1]);
        (margin_value_spec(p[0]), rl, margin_value_spec(p[2]), rl)
    } else if p.len() == 4 {
        (margin_value_spec(p[0]), margin_value_spec(p[1]), margin_value_spec(p[2]), margin_value_spec(p[3]))
    } else {
        zero_margins()
    }
}

pub fn margin_of_chars(s: &[char]) -> (r: Margin)
    ensures
        r == margin_value_spec(s@),
{
    let n = s.len();
    if n > 0 && s[n - 1] == '%' {
        let num = slice_prefix(s, n - 1);
        assert(num@ == s@.drop_last());
        match parse_i32(num.as_slice()) {
            Some(v) => Margin::Percent(v),
            None => Margin::Percent(100),
        }
    } else {
        match parse_i32(s) {
            Some(v) => Margin::Fixed(v),
            None => Margin::Fixed(0),
        }
    }
}

fn slice_prefix(s: &[char], k: usize) -> (r: Vec<char>)
    requires
        k <= s@.len(),
    ensures
        r@ == s@.take(k as int),
{
    let mut r: Vec<char> = Vec::new();
    let mut i: usize = 0;
    while i < k
        invariant
            i <= k <= s@.len(),
            r@ == s@.take(i as int),
        decreases k - i,
    {
        r.push(s[i]);
        i += 1;
        assert(r@ == s@.take(i as int));
    }
    r
}

pub fn margins_of_chars(s: &[char]) -> (r: Margins)
    ensures
        r == margins_spec(s@),
{
    let parts = split_chars(s, ',');
    let ghost p = split_spec(s@, ',');
    assert(parts@.len() == p.len());
    assert(forall|i: int| 0 <= i < p.len() ==> p[i] == #[trigger] parts@[i]@) by {
        assert(views_of(parts@) == p);
    };
    if parts.len() == 1 {
        let m = margin_of_chars(parts[0].as_slice());
        (m, m, m, m)
    } else if parts.len() == 2 {
        let tb = margin_of_chars(parts[0].as_slice());
        let rl = margin_of_chars(parts[1].as_slice());
        (tb, rl, tb, rl)
    } else if parts.len() == 3 {
        let t = margin_of_chars(parts[0].as_slice());
        let rl = margin_of_chars(parts[1].as_slice());
        let b = margin_of_chars(parts[2].as_slice());
        (t, rl, b, rl)
    } else if parts.len() == 4 {
        let t = margin_of_chars(parts[0].as_slice());
        let r = margin_of_chars(parts[1].as_slice());
        let b = margin_of_chars(parts[2].as_slice());
        let l = margin_of_chars(parts[3].as_slice());
        (t, r, b, l)
    } else {
        (Margin::Fixed(0), Margin::Fixed(0), Margin::Fixed(0), Margin::Fixed(0))
    }
}

/// Parses one margin value.
pub fn parse_margin_value(s: &str) -> (r: Margin)
    ensures
        r == margin_value_spec(s@),
{
    let c = chars_of(s);
    margin_of_chars(c.as_slice())
}

/// Parses a margin list.
pub fn parse_margin_list(s: &str) -> (r: Margins)
    ensures
        r == margins_spec(s@),
{
    let c = chars_of(s);
    margins_of_chars(c.as_slice())
}

} // verus!
