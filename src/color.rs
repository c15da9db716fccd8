//! The color state of a session: the default colors, whether color is used,
//! the pairs of the fixed roles, and pairs allocated on demand.
use vstd::prelude::*;

use ncurses::attr_t;

use crate::theme::{
    dark256, dark256_spec, default16, default16_spec, shadow, shadow_spec, ColorTheme, COLOR_BLACK,
    COLOR_DEFAULT,
};

verus! {

/// Relies on ncurses::COLOR_PAIR: a pair number moved past the 8 bits of
/// the character.
#[verifier::external_body]
fn color_pair(n: i16) -> (r: attr_t)
    requires
        n > 0,
    ensures
        r == ((n as u32) << 8u32) as attr_t,
{
    ncurses::COLOR_PAIR(n)
}

/// Relies on ncurses::A_BOLD: bit 21 of an attribute.
#[verifier::external_body]
fn a_bold() -> (r: attr_t)
    ensures
        r == 0x20_0000u32 as attr_t,
{
    ncurses::A_BOLD()
}

/// Relies on ncurses::A_UNDERLINE: bit 17 of an attribute.
#[verifier::external_body]
fn a_underline() -> (r: attr_t)
    ensures
        r == 0x2_0000u32 as attr_t,
{
    ncurses::A_UNDERLINE()
}

/// Relies on ncurses::A_REVERSE: bit 18 of an attribute.
#[verifier::external_body]
fn a_reverse() -> (r: attr_t)
    ensures
        r == 0x4_0000u32 as attr_t,
{
    ncurses::A_REVERSE()
}

pub const COLOR_NORMAL: i16 = 0;
pub const COLOR_PROMPT: i16 = 1;
pub const COLOR_MATCHED: i16 = 2;
pub const COLOR_CURRENT: i16 = 3;
pub const COLOR_CURRENT_MATCH: i16 = 4;
pub const COLOR_SPINNER: i16 = 5;
pub const COLOR_INFO: i16 = 6;
pub const COLOR_CURSOR: i16 = 7;
pub const COLOR_SELECTED: i16 = 8;
pub const COLOR_HEADER: i16 = 9;
/// The first pair number handed out on demand; the ones below belong to the roles.
pub const COLOR_USER: i16 = 10;

/// What the terminal is to be told when color starts: the default colors,
/// whether to use its own defaults, and the pair (number, fg, bg) of each role.
pub struct PairPlan {
    pub fg: i16,
    pub bg: i16,
    pub use_default_colors: bool,
    pub assume_default: Option<(i16, i16)>,
    pub pairs: Vec<(i16, i16, i16)>,
}

/// The pairs of the fixed roles, with `bg` as the background of the plain roles.
pub open spec fn role_pairs_spec(base: ColorTheme, theme: ColorTheme, bg: i16) -> Seq<(i16, i16, i16)> {
    let current_bg = shadow_spec(base.current_bg, theme.current_bg);
    seq![
        (COLOR_PROMPT, shadow_spec(base.prompt, theme.prompt), bg),
        (COLOR_MATCHED, shadow_spec(base.matched, theme.matched), shadow_spec(base.matched_bg, theme.matched_bg)),
        (COLOR_CURRENT, shadow_spec(base.current, theme.current), current_bg),
        (COLOR_CURRENT_MATCH, shadow_spec(base.current_match, theme.current_match), shadow_spec(base.current_match_bg, theme.current_match_bg)),
        (COLOR_SPINNER, shadow_spec(base.spinner, theme.spinner), bg),
        (COLOR_INFO, shadow_spec(base.info, theme.info), bg),
        (COLOR_CURSOR, shadow_spec(base.cursor, theme.cursor), current_bg),
        (COLOR_SELECTED, shadow_spec(base.selected, theme.selected), current_bg),
        (COLOR_HEADER, shadow_spec(base.header, theme.header), shadow_spec(base.bg, theme.bg)),
    ]
}

/// The default foreground of `theme` over `base`.
pub open spec fn plan_fg(base: ColorTheme, theme: ColorTheme, is_black: bool) -> i16 {
    if !is_black && theme.use_default {
        COLOR_DEFAULT
    } else {
        shadow_spec(base.fg, theme.fg)
    }
}

/// The default background of `theme` over `base`: black when asked for.
pub open spec fn plan_bg(base: ColorTheme, theme: ColorTheme, is_black: bool) -> i16 {
    if is_black {
        COLOR_BLACK
    } else if theme.use_default {
        COLOR_DEFAULT
    } else {
        shadow_spec(base.bg, theme.bg)
    }
}

/// Plans the colors of `theme` laid over `base`.
pub fn init_pairs(base: &ColorTheme, theme: &ColorTheme, is_black: bool) -> (r: PairPlan)
    ensures
        r.fg == plan_fg(*base, *theme, is_black),
        r.bg == plan_bg(*base, *theme, is_black),
        r.use_default_colors == (!is_black && theme.use_default),
        r.assume_default == (if theme.use_default {
            None
        } else {
            Some((shadow_spec(base.fg, theme.fg), shadow_spec(base.bg, theme.bg)))
        }),
        r.pairs@ == role_pairs_spec(*base, *theme, r.bg),
{
    let mut fg = shadow(base.fg, theme.fg);
    let mut bg = shadow(base.bg, theme.bg);
    let mut use_default_colors = false;
    if is_black {
        bg = COLOR_BLACK;
    } else if theme.use_default {
        fg = COLOR_DEFAULT;
        bg = COLOR_DEFAULT;
        use_default_colors = true;
    }
    let assume_default = if !theme.use_default {
        Some((shadow(base.fg, theme.fg), shadow(base.bg, theme.bg)))
    } else {
        None
    };
    let current_bg = shadow(base.current_bg, theme.current_bg);
    let pairs = vec![
        (COLOR_PROMPT, shadow(base.prompt, theme.prompt), bg),
        (COLOR_MATCHED, shadow(base.matched, theme.matched), shadow(base.matched_bg, theme.matched_bg)),
        (COLOR_CURRENT, shadow(base.current, theme.current), current_bg),
        (COLOR_CURRENT_MATCH, shadow(base.current_match, theme.current_match), shadow(base.current_match_bg, theme.current_match_bg)),
        (COLOR_SPINNER, shadow(base.spinner, theme.spinner), bg),
        (COLOR_INFO, shadow(base.info, theme.info), bg),
        (COLOR_CURSOR, shadow(base.cursor, theme.cursor), current_bg),
        (COLOR_SELECTED, shadow(base.selected, theme.selected), current_bg),
        (COLOR_HEADER, shadow(base.header, theme.header), shadow(base.bg, theme.bg)),
    ];
    assert(pairs@ =~= role_pairs_spec(*base, *theme, bg));
    PairPlan { fg, bg, use_default_colors, assume_default, pairs }
}

/// The answer to a request for a pair.
#[derive(PartialEq, Eq, Structural, Clone, Copy, Debug)]
pub enum PairLookup {
    /// The pair with this number was allocated before.
    Cached(i16),
    /// A new pair (number, fg, bg): the terminal must be told of it.
    Fresh(i16, i16, i16),
    /// No pair number is left.
    Full,
}

/// The number a lookup hands out, if any.
pub open spec fn handle_of(r: PairLookup) -> Option<i16> {
    match r {
        PairLookup::Cached(n) => Some(n),
        PairLookup::Fresh(n, _, _) => Some(n),
        PairLookup::Full => None,
    }
}

/// The position of `key` in `pairs`, if it is there.
pub open spec fn index_of(pairs: Seq<(i16, i16)>, key: (i16, i16)) -> Option<int>
    decreases pairs.len(),
{
    if pairs.len() == 0 {
        None
    } else {
        match index_of(pairs.drop_last(), key) {
            Some(i) => Some(i),
            None => if pairs.last() == key {
                Some(pairs.len() - 1)
            } else {
                None
            },
        }
    }
}

/// Whether the pair number that would follow `pairs` is still free.
pub open spec fn has_room(pairs: Seq<(i16, i16)>, max_pairs: i32) -> bool {
    COLOR_USER + pairs.len() < max_pairs && COLOR_USER + pairs.len() <= i16::MAX
}

/// The answer to a request for `key` given the pairs allocated so far.
pub open spec fn lookup_spec(pairs: Seq<(i16, i16)>, max_pairs: i32, key: (i16, i16)) -> PairLookup {
    match index_of(pairs, key) {
        Some(i) => PairLookup::Cached((COLOR_USER + i) as i16),
        None => if has_room(pairs, max_pairs) {
            PairLookup::Fresh((COLOR_USER + pairs.len()) as i16, key.0, key.1)
        } else {
            PairLookup::Full
        },
    }
}

/// The pairs allocated after a request for `key`.
pub open spec fn pairs_after(pairs: Seq<(i16, i16)>, max_pairs: i32, key: (i16, i16)) -> Seq<(i16, i16)> {
    if index_of(pairs, key) is None && has_room(pairs, max_pairs) {
        pairs.push(key)
    } else {
        pairs
    }
}

pub open spec fn no_duplicates(pairs: Seq<(i16, i16)>) -> bool {
    forall|i: int, j: int| 0 <= i < j < pairs.len() ==> pairs[i] != pairs[j]
}

/// The default colors, whether color is used, and the pairs allocated on
/// demand, in the order they were first asked for.
pub struct ColorState {
    pub fg: i16,
    pub bg: i16,
    pub use_color: bool,
    pub max_pairs: i32,
    pub pairs: Vec<(i16, i16)>,
}

/// How a role is drawn: a pair number (0 for none) and text attributes.
#[derive(PartialEq, Eq, Structural, Clone, Copy, Debug)]
pub struct Style {
    pub pair: i16,
    pub bold: bool,
    pub underline: bool,
    pub reverse: bool,
}

/// The style of role `pair` on a color terminal: its pair (none for the
/// normal role), bold when asked for.
pub open spec fn attr_color_spec(pair: i16, is_bold: bool) -> Style {
    Style {
        pair: if pair > COLOR_NORMAL { pair } else { 0 },
        bold: is_bold,
        underline: false,
        reverse: false,
    }
}

/// The style of role `pair` without color: reverse video for the emphasized
/// normal role, underline for matches, both for the current match; bold when
/// asked for.
pub open spec fn attr_mono_spec(pair: i16, is_bold: bool) -> Style {
    Style {
        pair: 0,
        bold: is_bold,
        underline: pair == COLOR_MATCHED || pair == COLOR_CURRENT_MATCH,
        reverse: (pair == COLOR_NORMAL && is_bold) || pair == COLOR_CURRENT_MATCH,
    }
}

/// The style of role `pair` on a color terminal.
pub fn attr_color(pair: i16, is_bold: bool) -> (r: Style)
    ensures
        r == attr_color_spec(pair, is_bold),
{
    Style { pair: if pair > COLOR_NORMAL { pair } else { 0 }, bold: is_bold, underline: false, reverse: false }
}

/// The style of role `pair` without color: emphasis by reverse video and
/// underline.
pub fn attr_mono(pair: i16, is_bold: bool) -> (r: Style)
    ensures
        r == attr_mono_spec(pair, is_bold),
{
    let mut style = Style { pair: 0, bold: is_bold, underline: false, reverse: false };
    if pair == COLOR_NORMAL {
        if is_bold {
            style.reverse = true;
        }
    } else if pair == COLOR_MATCHED {
        style.underline = true;
    } else if pair == COLOR_CURRENT_MATCH {
        style.underline = true;
        style.reverse = true;
    }
    style
}

/// The attribute bits of pair `pair`; none for the pairs below 1.
pub open spec fn pair_bits(pair: i16) -> u32 {
    if pair > 0 {
        (pair as u32) << 8u32
    } else {
        0u32
    }
}

/// The terminal attribute bits of a style.
pub open spec fn style_bits(s: Style) -> u32 {
    pair_bits(s.pair) | (if s.bold {
        0x20_0000u32
    } else {
        0u32
    }) | (if s.underline {
        0x2_0000u32
    } else {
        0u32
    }) | (if s.reverse {
        0x4_0000u32
    } else {
        0u32
    })
}

fn pair_attr(pair: i16) -> (r: attr_t)
    ensures
        r == pair_bits(pair) as attr_t,
{
    if pair > 0 {
        color_pair(pair)
    } else {
        0
    }
}

/// The terminal attribute that draws text in `style`.
pub fn style_attr(style: Style) -> (r: attr_t)
    ensures
        r == style_bits(style) as attr_t,
{
    let p = pair_attr(style.pair);
    let b: attr_t = if style.bold { a_bold() } else { 0 };
    let u: attr_t = if style.underline { a_underline() } else { 0 };
    let v: attr_t = if style.reverse { a_reverse() } else { 0 };
    p | b | u | v
}

impl PairLookup {
    /// The attribute of the pair handed out; none when no pair was left.
    pub fn attr(&self) -> (r: attr_t)
        ensures
            r == (match handle_of(*self) {
                Some(n) => pair_bits(n) as attr_t,
                None => 0 as attr_t,
            }),
    {
        match self {
            PairLookup::Cached(n) => pair_attr(*n),
            PairLookup::Fresh(n, _, _) => pair_attr(*n),
            PairLookup::Full => 0,
        }
    }
}

impl ColorState {
    pub open spec fn wf(&self) -> bool {
        &&& no_duplicates(self.pairs@)
        &&& COLOR_USER + self.pairs@.len() <= i16::MAX + 1
    }

    /// The key a request for (`fg`, `bg`) is filed under: the default colors
    /// stand in for `COLOR_DEFAULT`.
    pub open spec fn key_of(&self, fg: i16, bg: i16) -> (i16, i16) {
        (
            if fg == COLOR_DEFAULT { self.fg } else { fg },
            if bg == COLOR_DEFAULT { self.bg } else { bg },
        )
    }

    /// The style of role `pair`, by color or by attributes.
    pub fn get_color(&self, pair: i16, is_bold: bool) -> (r: Style)
        ensures
            self.use_color ==> r == attr_color_spec(pair, is_bold),
            !self.use_color ==> r == attr_mono_spec(pair, is_bold),
    {
        if self.use_color {
            attr_color(pair, is_bold)
        } else {
            attr_mono(pair, is_bold)
        }
    }
}

/// The color state of a session: with a theme, color laid over the
/// preset that the terminal's `colors` allow, and the plan to set it up;
/// without one, no color.
pub fn init(theme: Option<&ColorTheme>, is_black: bool, colors: i32, max_pairs: i32) -> (r: (ColorState, Option<PairPlan>))
    ensures
        r.0.wf(),
        r.0.pairs@.len() == 0,
        r.0.max_pairs == max_pairs,
        r.0.use_color == theme.is_some(),
        match theme {
            None => r.0.fg == 7 && r.0.bg == 0 && r.1.is_none(),
            Some(t) => {
                let base = if colors >= 256 { dark256_spec() } else { default16_spec() };
                &&& r.1 matches Some(plan)
                &&& plan.fg == plan_fg(base, *t, is_black)
                &&& plan.bg == plan_bg(base, *t, is_black)
                &&& plan.use_default_colors == (!is_black && t.use_default)
                &&& plan.assume_default == (if t.use_default {
                    None
                } else {
                    Some((shadow_spec(base.fg, t.fg), shadow_spec(base.bg, t.bg)))
                })
                &&& plan.pairs@ == role_pairs_spec(base, *t, plan.bg)
                &&& r.0.fg == plan.fg
                &&& r.0.bg == plan.bg
            },
        },
{
    match theme {
        Some(t) => {
            let base = if colors >= 256 { dark256() } else { default16() };
            let plan = init_pairs(&base, t, is_black);
            let state = ColorState { fg: plan.fg, bg: plan.bg, use_color: true, max_pairs, pairs: Vec::new() };
            (state, Some(plan))
        },
        None => {
            let state = ColorState { fg: 7, bg: 0, use_color: false, max_pairs, pairs: Vec::new() };
            (state, None)
        },
    }
}

/// The pair for colors (`fg`, `bg`): the one allocated before for the same
/// colors, else the next free number.
pub fn get_color_pair(state: &mut ColorState, fg: i16, bg: i16) -> (r: PairLookup)
    requires
        old(state).wf(),
    ensures
        final(state).wf(),
        r == lookup_spec(old(state).pairs@, old(state).max_pairs, old(state).key_of(fg, bg)),
        final(state).pairs@ == pairs_after(old(state).pairs@, old(state).max_pairs, old(state).key_of(fg, bg)),
        final(state).fg == old(state).fg,
        final(state).bg == old(state).bg,
        final(state).use_color == old(state).use_color,
        final(state).max_pairs == old(state).max_pairs,
{
    let f = if fg == COLOR_DEFAULT { state.fg } else { fg };
    let b = if bg == COLOR_DEFAULT { state.bg } else { bg };
    let key = (f, b);
    let n = state.pairs.len();
    let mut i: usize = 0;
    while i < n
        invariant
            n == state.pairs@.len(),
            i <= n,
            index_of(state.pairs@.take(i as int), key) is None,
            COLOR_USER + n <= i16::MAX + 1,
            state.wf(),
            key == old(state).key_of(fg, bg),
            key == (f, b),
            *state == *old(state),
        decreases n - i,
    {
        assert(state.pairs@.take(i + 1).drop_last() == state.pairs@.take(i as int));
        assert(state.pairs@.take(i + 1).last() == state.pairs@[i as int]);
        let (pf, pb) = state.pairs[i];
        if pf == f && pb == b {
            assert(state.pairs@ =~= state.pairs@.take(i + 1) + state.pairs@.skip(i + 1));
            proof {
                lemma_index_of_prefix(state.pairs@.take(i + 1), state.pairs@.skip(i + 1), key);
            }
            return PairLookup::Cached(COLOR_USER + i as i16);
        }
        i += 1;
    }
    assert(state.pairs@.take(n as int) == state.pairs@);
    if COLOR_USER as i32 + (n as i32) < state.max_pairs && n <= 0x7ff5 {
        let number = COLOR_USER + n as i16;
        proof {
            lemma_index_of_none(state.pairs@, key);
        }
        state.pairs.push(key);
        PairLookup::Fresh(number, f, b)
    } else {
        PairLookup::Full
    }
}

proof fn lemma_index_of_prefix(a: Seq<(i16, i16)>, b: Seq<(i16, i16)>, key: (i16, i16))
    requires
        index_of(a, key) is Some,
    ensures
        index_of(a + b, key) == index_of(a, key),
    decreases b.len(),
{
    if b.len() > 0 {
        lemma_index_of_prefix(a, b.drop_last(), key);
        assert((a + b).drop_last() == a + b.drop_last());
    } else {
        assert(a + b == a);
    }
}

proof fn lemma_index_of_none(pairs: Seq<(i16, i16)>, key: (i16, i16))
    requires
        index_of(pairs, key) is None,
    ensures
        forall|i: int| 0 <= i < pairs.len() ==> pairs[i] != key,
    decreases pairs.len(),
{
    if pairs.len() > 0 {
        lemma_index_of_none(pairs.drop_last(), key);
        assert forall|i: int| 0 <= i < pairs.len() - 1 implies pairs[i] != key by {
            assert(pairs[i] == pairs.drop_last()[i]);
        }
    }
}

proof fn lemma_index_of_found(pairs: Seq<(i16, i16)>, key: (i16, i16))
    requires
        index_of(pairs, key) is Some,
    ensures
        0 <= index_of(pairs, key)->0 < pairs.len(),
        pairs[index_of(pairs, key)->0] == key,
    decreases pairs.len(),
{
    if index_of(pairs.drop_last(), key) is Some {
        lemma_index_of_found(pairs.drop_last(), key);
    }
}

/// A second request for the same colors gets the number the first one got,
/// from the cache.
pub proof fn lemma_pair_stable(pairs: Seq<(i16, i16)>, max_pairs: i32, key: (i16, i16))
    requires
        handle_of(lookup_spec(pairs, max_pairs, key)) is Some,
    ensures
        lookup_spec(pairs_after(pairs, max_pairs, key), max_pairs, key) == PairLookup::Cached(
            handle_of(lookup_spec(pairs, max_pairs, key))->0,
        ),
{
    if index_of(pairs, key) is None {
        let after = pairs.push(key);
        assert(after.drop_last() == pairs);
    }
}

/// Requests for two different color pairs, one after the other, get different
/// numbers.
pub proof fn lemma_pairs_distinct(pairs: Seq<(i16, i16)>, max_pairs: i32, k1: (i16, i16), k2: (i16, i16))
    requires
        k1 != k2,
        COLOR_USER + pairs.len() <= i16::MAX + 1,
        handle_of(lookup_spec(pairs, max_pairs, k1)) is Some,
        handle_of(lookup_spec(pairs_after(pairs, max_pairs, k1), max_pairs, k2)) is Some,
    ensures
        handle_of(lookup_spec(pairs, max_pairs, k1)) != handle_of(
            lookup_spec(pairs_after(pairs, max_pairs, k1), max_pairs, k2),
        ),
{
    let p1 = pairs_after(pairs, max_pairs, k1);
    if index_of(pairs, k1) is Some {
        lemma_index_of_found(pairs, k1);
    } else {
        assert(p1.drop_last() == pairs);
    }
    lemma_index_of_found(p1, k1);
    if index_of(p1, k2) is Some {
        lemma_index_of_found(p1, k2);
    }
    if index_of(p1, k1) is Some && index_of(p1, k2) is Some {
        assert(index_of(p1, k1)->0 != index_of(p1, k2)->0);
    }
}

/// A request for colors not yet cached, with a pair number left, gets the
/// number after all earlier ones, above the roles' numbers, and appends the
/// colors to the cache, keeping the earlier entries.
pub proof fn lemma_pair_fresh(pairs: Seq<(i16, i16)>, max_pairs: i32, key: (i16, i16))
    requires
        forall|i: int| 0 <= i < pairs.len() ==> pairs[i] != key,
        COLOR_USER + pairs.len() < max_pairs,
        COLOR_USER + pairs.len() <= i16::MAX,
    ensures
        lookup_spec(pairs, max_pairs, key) == PairLookup::Fresh(
            (COLOR_USER + pairs.len()) as i16,
            key.0,
            key.1,
        ),
        pairs_after(pairs, max_pairs, key) == pairs.push(key),
{
    lemma_absent_index_of(pairs, key);
}

proof fn lemma_absent_index_of(pairs: Seq<(i16, i16)>, key: (i16, i16))
    requires
        forall|i: int| 0 <= i < pairs.len() ==> pairs[i] != key,
    ensures
        index_of(pairs, key) is None,
    decreases pairs.len(),
{
    if pairs.len() > 0 {
        assert forall|i: int| 0 <= i < pairs.len() - 1 implies pairs.drop_last()[i] != key by {
            assert(pairs.drop_last()[i] == pairs[i]);
        }
        lemma_absent_index_of(pairs.drop_last(), key);
        assert(pairs[pairs.len() - 1] != key);
    }
}

/// With room for two more pairs, requests for two different color pairs, one
/// after the other, both get a number, and the numbers differ.
pub proof fn lemma_pairs_distinct_with_room(
    pairs: Seq<(i16, i16)>,
    max_pairs: i32,
    k1: (i16, i16),
    k2: (i16, i16),
)
    requires
        k1 != k2,
        COLOR_USER + pairs.len() + 1 < max_pairs,
        COLOR_USER + pairs.len() + 1 <= i16::MAX,
    ensures
        handle_of(lookup_spec(pairs, max_pairs, k1)) is Some,
        handle_of(lookup_spec(pairs_after(pairs, max_pairs, k1), max_pairs, k2)) is Some,
        handle_of(lookup_spec(pairs, max_pairs, k1)) != handle_of(
            lookup_spec(pairs_after(pairs, max_pairs, k1), max_pairs, k2),
        ),
{
    let p1 = pairs_after(pairs, max_pairs, k1);
    assert(p1.len() <= pairs.len() + 1);
    lemma_pairs_distinct(pairs, max_pairs, k1, k2);
}

} // verus!
