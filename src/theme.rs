//! Color themes: semantic roles, the built-in presets, and the grammar of
//! color options.
use vstd::prelude::*;

use crate::text::{chars_eq, chars_of, i16_value, parse_i16, split_chars, split_spec, views_of};

verus! {

pub const COLOR_BLACK: i16 = 0;
pub const COLOR_RED: i16 = 1;
pub const COLOR_GREEN: i16 = 2;
pub const COLOR_YELLOW: i16 = 3;
pub const COLOR_BLUE: i16 = 4;
pub const COLOR_MAGENTA: i16 = 5;
pub const COLOR_CYAN: i16 = 6;
pub const COLOR_WHITE: i16 = 7;

/// The terminal's own default color.
pub const COLOR_DEFAULT: i16 = -1;
/// A role that is not set and takes its color from the base theme.
pub const COLOR_UNDEFINED: i16 = -2;

/// A color for each semantic role; `use_default` asks for the terminal's own
/// default colors.
#[derive(PartialEq, Eq, Structural, Clone, Copy, Debug)]
pub struct ColorTheme {
    pub use_default: bool,
    pub fg: i16,
    pub bg: i16,
    pub matched: i16,
    pub matched_bg: i16,
    pub current: i16,
    pub current_bg: i16,
    pub current_match: i16,
    pub current_match_bg: i16,
    pub spinner: i16,
    pub info: i16,
    pub prompt: i16,
    pub cursor: i16,
    pub selected: i16,
    pub header: i16,
}

/// `x`, or `default` where `x` is not set.
pub open spec fn shadow_spec(default: i16, x: i16) -> i16 {
    if x == COLOR_UNDEFINED {
        default
    } else {
        x
    }
}

/// Resolves one role: the override unless it is unset, else the base color.
pub fn shadow(default: i16, x: i16) -> (r: i16)
    ensures
        r == shadow_spec(default, x),
{
    if x == COLOR_UNDEFINED {
        default
    } else {
        x
    }
}

pub open spec fn undefined_theme() -> ColorTheme {
    ColorTheme {
        use_default: true,
        fg: COLOR_UNDEFINED,
        bg: COLOR_UNDEFINED,
        matched: COLOR_UNDEFINED,
        matched_bg: COLOR_UNDEFINED,
        current: COLOR_UNDEFINED,
        current_bg: COLOR_UNDEFINED,
        current_match: COLOR_UNDEFINED,
        current_match_bg: COLOR_UNDEFINED,
        spinner: COLOR_UNDEFINED,
        info: COLOR_UNDEFINED,
        prompt: COLOR_UNDEFINED,
        cursor: COLOR_UNDEFINED,
        selected: COLOR_UNDEFINED,
        header: COLOR_UNDEFINED,
    }
}

/// A theme for 16-color terminals.
pub open spec fn default16_spec() -> ColorTheme {
    ColorTheme {
        use_default: true,
        fg: 15,
        bg: 0,
        matched: COLOR_GREEN,
        matched_bg: COLOR_BLACK,
        current: COLOR_YELLOW,
        current_bg: COLOR_BLACK,
        current_match: COLOR_GREEN,
        current_match_bg: COLOR_BLACK,
        spinner: COLOR_GREEN,
        info: COLOR_WHITE,
        prompt: COLOR_BLUE,
        cursor: COLOR_RED,
        selected: COLOR_MAGENTA,
        header: COLOR_CYAN,
    }
}

/// A theme for 16-color terminals.
pub fn default16() -> (r: ColorTheme)
    ensures
        r == default16_spec(),
{
    ColorTheme {
        use_default: true,
        fg: 15,
        bg: 0,
        matched: COLOR_GREEN,
        matched_bg: COLOR_BLACK,
        current: COLOR_YELLOW,
        current_bg: COLOR_BLACK,
        current_match: COLOR_GREEN,
        current_match_bg: COLOR_BLACK,
        spinner: COLOR_GREEN,
        info: COLOR_WHITE,
        prompt: COLOR_BLUE,
        cursor: COLOR_RED,
        selected: COLOR_MAGENTA,
        header: COLOR_CYAN,
    }
}

/// The dark theme for 256-color terminals.
pub open spec fn dark256_spec() -> ColorTheme {
    ColorTheme {
        use_default: true,
        fg: 15,
        bg: 0,
        matched: 108,
        matched_bg: 0,
        current: 254,
        current_bg: 236,
        current_match: 151,
        current_match_bg: 236,
        spinner: 148,
        info: 144,
        prompt: 110,
        cursor: 161,
        selected: 168,
        header: 109,
    }
}

/// The dark theme for 256-color terminals.
pub fn dark256() -> (r: ColorTheme)
    ensures
        r == dark256_spec(),
{
    ColorTheme {
        use_default: true,
        fg: 15,
        bg: 0,
        matched: 108,
        matched_bg: 0,
        current: 254,
        current_bg: 236,
        current_match: 151,
        current_match_bg: 236,
        spinner: 148,
        info: 144,
        prompt: 110,
        cursor: 161,
        selected: 168,
        header: 109,
    }
}

/// A Monokai-like theme for 256-color terminals.
pub open spec fn monokai256_spec() -> ColorTheme {
    ColorTheme {
        use_default: true,
        fg: 252,
        bg: 234,
        matched: 234,
        matched_bg: 186,
        current: 254,
        current_bg: 236,
        current_match: 234,
        current_match_bg: 186,
        spinner: 148,
        info: 144,
        prompt: 110,
        cursor: 161,
        selected: 168,
        header: 109,
    }
}

/// A Monokai-like theme for 256-color terminals.
pub fn monokai256() -> (r: ColorTheme)
    ensures
        r == monokai256_spec(),
{
    ColorTheme {
        use_default: true,
        fg: 252,
        bg: 234,
        matched: 234,
        matched_bg: 186,
        current: 254,
        current_bg: 236,
        current_match: 234,
        current_match_bg: 186,
        spinner: 148,
        info: 144,
        prompt: 110,
        cursor: 161,
        selected: 168,
        header: 109,
    }
}

/// A theme for light 256-color terminals.
pub open spec fn light256_spec() -> ColorTheme {
    ColorTheme {
        use_default: true,
        fg: 15,
        bg: 0,
        matched: 0,
        matched_bg: 220,
        current: 237,
        current_bg: 251,
        current_match: 66,
        current_match_bg: 251,
        spinner: 65,
        info: 101,
        prompt: 25,
        cursor: 161,
        selected: 168,
        header: 31,
    }
}

/// A theme for light 256-color terminals.
pub fn light256() -> (r: ColorTheme)
    ensures
        r == light256_spec(),
{
    ColorTheme {
        use_default: true,
        fg: 15,
        bg: 0,
        matched: 0,
        matched_bg: 220,
        current: 237,
        current_bg: 251,
        current_match: 66,
        current_match_bg: 251,
        spinner: 65,
        info: 101,
        prompt: 25,
        cursor: 161,
        selected: 168,
        header: 31,
    }
}

/// The preset that a bare name selects: `molokai`, `light`, `16`, and the dark
/// theme for any other name.
pub open spec fn preset_named(name: Seq<char>) -> ColorTheme {
    if name == "molokai"@ {
        monokai256_spec()
    } else if name == "light"@ {
        light256_spec()
    } else if name == "16"@ {
        default16_spec()
    } else {
        dark256_spec()
    }
}

/// `t` with the role named `key` set to `v`; `t` itself for an unknown key.
pub open spec fn set_role_spec(t: ColorTheme, key: Seq<char>, v: i16) -> ColorTheme {
    if key == "fg"@ {
        ColorTheme { fg: v, ..t }
    } else if key == "bg"@ {
        ColorTheme { bg: v, ..t }
    } else if key == "matched"@ {
        ColorTheme { matched: v, ..t }
    } else if key == "matched_bg"@ {
        ColorTheme { matched_bg: v, ..t }
    } else if key == "current"@ {
        ColorTheme { current: v, ..t }
    } else if key == "current_bg"@ {
        ColorTheme { current_bg: v, ..t }
    } else if key == "current_match"@ {
        ColorTheme { current_match: v, ..t }
    } else if key == "current_match_bg"@ {
        ColorTheme { current_match_bg: v, ..t }
    } else if key == "spinner"@ {
        ColorTheme { spinner: v, ..t }
    } else if key == "info"@ {
        ColorTheme { info: v, ..t }
    } else if key == "prompt"@ {
        ColorTheme { prompt: v, ..t }
    } else if key == "cursor"@ {
        ColorTheme { cursor: v, ..t }
    } else if key == "selected"@ {
        ColorTheme { selected: v, ..t }
    } else if key == "header"@ {
        ColorTheme { header: v, ..t }
    } else {
        t
    }
}

/// The color a role value gives: the integer it writes, or unset.
pub open spec fn role_value_spec(s: Seq<char>) -> i16 {
    match i16_value(s) {
        Some(v) => v,
        None => COLOR_UNDEFINED,
    }
}

/// One token of a color option: a bare name starts over from that preset;
/// `key:value` sets one role.
pub open spec fn apply_token(t: ColorTheme, token: Seq<char>) -> ColorTheme {
    let parts = split_spec(token, ':');
    if parts.len() < 2 {
        preset_named(parts[0])
    } else {
        set_role_spec(t, parts[0], role_value_spec(parts[1]))
    }
}

/// The theme that a list of tokens builds, left to right, from a theme with
/// every role unset.
pub open spec fn theme_of_tokens(tokens: Seq<Seq<char>>) -> ColorTheme
    decreases tokens.len(),
{
    if tokens.len() == 0 {
        undefined_theme()
    } else {
        apply_token(theme_of_tokens(tokens.drop_last()), tokens.last())
    }
}

/// The theme that a comma-separated color option describes.
pub open spec fn theme_spec(s: Seq<char>) -> ColorTheme {
    theme_of_tokens(split_spec(s, ','))
}

fn preset_of(name: &[char]) -> (r: ColorTheme)
    ensures
        r == preset_named(name@),
{
    if chars_eq(name, "molokai") {
        monokai256()
    } else if chars_eq(name, "light") {
        light256()
    } else if chars_eq(name, "16") {
        default16()
    } else {
        dark256()
    }
}

fn set_role(t: &mut ColorTheme, key: &[char], v: i16)
    ensures
        *final(t) == set_role_spec(*old(t), key@, v),
{
    if chars_eq(key, "fg") {
        t.fg = v;
    } else if chars_eq(key, "bg") {
        t.bg = v;
    } else if chars_eq(key, "matched") {
        t.matched = v;
    } else if chars_eq(key, "matched_bg") {
        t.matched_bg = v;
    } else if chars_eq(key, "current") {
        t.current = v;
    } else if chars_eq(key, "current_bg") {
        t.current_bg = v;
    } else if chars_eq(key, "current_match") {
        t.current_match = v;
    } else if chars_eq(key, "current_match_bg") {
        t.current_match_bg = v;
    } else if chars_eq(key, "spinner") {
        t.spinner = v;
    } else if chars_eq(key, "info") {
        t.info = v;
    } else if chars_eq(key, "prompt") {
        t.prompt = v;
    } else if chars_eq(key, "cursor") {
        t.cursor = v;
    } else if chars_eq(key, "selected") {
        t.selected = v;
    } else if chars_eq(key, "header") {
        t.header = v;
    }
}

impl ColorTheme {
    /// A theme with every role unset.
    pub fn new() -> (r: ColorTheme)
        ensures
            r == undefined_theme(),
    {
        ColorTheme {
            use_default: true,
            fg: COLOR_UNDEFINED,
            bg: COLOR_UNDEFINED,
            matched: COLOR_UNDEFINED,
            matched_bg: COLOR_UNDEFINED,
            current: COLOR_UNDEFINED,
            current_bg: COLOR_UNDEFINED,
            current_match: COLOR_UNDEFINED,
            current_match_bg: COLOR_UNDEFINED,
            spinner: COLOR_UNDEFINED,
            info: COLOR_UNDEFINED,
            prompt: COLOR_UNDEFINED,
            cursor: COLOR_UNDEFINED,
            selected: COLOR_UNDEFINED,
            header: COLOR_UNDEFINED,
        }
    }

    /// Builds a theme from a color option such as `molokai,fg:252,bg:-1`.
    pub fn from_options(color: &str) -> (r: ColorTheme)
        ensures
            r == theme_spec(color@),
    {
        let chars = chars_of(color);
        let tokens = split_chars(chars.as_slice(), ',');
        let ghost toks = split_spec(color@, ',');
        assert(tokens@.len() == toks.len());
        assert(forall|k: int| 0 <= k < toks.len() ==> toks[k] == #[trigger] tokens@[k]@) by {
            assert(views_of(tokens@) == toks);
        };
        let mut theme = ColorTheme::new();
        let mut i: usize = 0;
        while i < tokens.len()
            invariant
                i <= tokens@.len(),
                tokens@.len() == toks.len(),
                forall|k: int| 0 <= k < toks.len() ==> toks[k] == #[trigger] tokens@[k]@,
                theme == theme_of_tokens(toks.take(i as int)),
            decreases tokens@.len() - i,
        {
            assert(toks.take(i + 1).drop_last() == toks.take(i as int));
            let parts = split_chars(tokens[i].as_slice(), ':');
            let ghost ps = split_spec(tokens@[i as int]@, ':');
            proof {
                crate::text::lemma_split_nonempty(tokens@[i as int]@, ':');
            }
            assert(parts@.len() == ps.len());
            assert(forall|k: int| 0 <= k < ps.len() ==> ps[k] == #[trigger] parts@[k]@) by {
                assert(views_of(parts@) == ps);
            };
            if parts.len() < 2 {
                theme = preset_of(parts[0].as_slice());
            } else {
                let v = match parse_i16(parts[1].as_slice()) {
                    Some(v) => v,
                    None => COLOR_UNDEFINED,
                };
                set_role(&mut theme, parts[0].as_slice(), v);
            }
            i += 1;
        }
        assert(toks.take(toks.len() as int) == toks);
        theme
    }
}

} // verus!
