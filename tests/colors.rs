use skim_curses::color::{
    attr_color, attr_mono, get_color_pair, init, style_attr, init_pairs, ColorState, PairLookup, Style,
    COLOR_CURRENT_MATCH, COLOR_MATCHED, COLOR_NORMAL, COLOR_PROMPT,
};
use skim_curses::theme::{
    dark256, default16, light256, monokai256, shadow, ColorTheme, COLOR_BLACK, COLOR_DEFAULT,
    COLOR_UNDEFINED,
};

#[test]
fn shadow_resolution() {
    assert_eq!(shadow(5, COLOR_UNDEFINED), 5);
    assert_eq!(shadow(5, 7), 7);
    assert_eq!(shadow(5, COLOR_DEFAULT), COLOR_DEFAULT);
}

#[test]
fn theme_new_is_unset() {
    let t = ColorTheme::new();
    assert!(t.use_default);
    assert_eq!(t.fg, COLOR_UNDEFINED);
    assert_eq!(t.header, COLOR_UNDEFINED);
}

#[test]
fn theme_presets_by_name() {
    assert_eq!(ColorTheme::from_options("molokai"), monokai256());
    assert_eq!(ColorTheme::from_options("light"), light256());
    assert_eq!(ColorTheme::from_options("16"), default16());
    assert_eq!(ColorTheme::from_options("dark"), dark256());
    assert_eq!(ColorTheme::from_options("whatever"), dark256());
    assert_eq!(ColorTheme::from_options("fg"), dark256());
}

#[test]
fn theme_role_overrides() {
    let t = ColorTheme::from_options("fg:1,bg:-1,header:200");
    let mut want = ColorTheme::new();
    want.fg = 1;
    want.bg = -1;
    want.header = 200;
    assert_eq!(t, want);

    let t = ColorTheme::from_options("light,matched:9,unknown:4,cursor:x");
    let mut want = light256();
    want.matched = 9;
    want.cursor = COLOR_UNDEFINED;
    assert_eq!(t, want);
}

#[test]
fn theme_later_preset_discards_overrides() {
    assert_eq!(ColorTheme::from_options("fg:1,molokai"), monokai256());
    let t = ColorTheme::from_options("molokai,current_match_bg:3");
    assert_eq!(t.current_match_bg, 3);
    assert_eq!(t.fg, 252);
}

#[test]
fn pair_plan_with_terminal_defaults() {
    let base = dark256();
    let theme = ColorTheme::from_options("prompt:33");
    let plan = init_pairs(&base, &theme, false);
    assert_eq!((plan.fg, plan.bg), (COLOR_DEFAULT, COLOR_DEFAULT));
    assert!(plan.use_default_colors);
    assert_eq!(plan.assume_default, None);
    assert_eq!(plan.pairs.len(), 9);
    assert_eq!(plan.pairs[0], (COLOR_PROMPT, 33, COLOR_DEFAULT));
    assert_eq!(plan.pairs[1], (COLOR_MATCHED, 108, 0));
    assert_eq!(plan.pairs[8], (9, 109, 0));
}

#[test]
fn pair_plan_black_background() {
    let base = default16();
    let mut theme = ColorTheme::new();
    theme.use_default = false;
    theme.fg = 3;
    let plan = init_pairs(&base, &theme, true);
    assert_eq!((plan.fg, plan.bg), (3, COLOR_BLACK));
    assert!(!plan.use_default_colors);
    assert_eq!(plan.assume_default, Some((3, 0)));
    assert_eq!(plan.pairs[4], (5, 2, COLOR_BLACK));
}

#[test]
fn init_picks_preset_by_depth() {
    let theme = ColorTheme::from_options("light");
    let (state, plan) = init(Some(&theme), false, 256, 256);
    assert!(state.use_color);
    let plan = plan.unwrap();
    assert_eq!(plan.pairs[0], (COLOR_PROMPT, 25, COLOR_DEFAULT));
    let (mono, none) = init(None, false, 8, 64);
    assert!(!mono.use_color);
    assert!(none.is_none());
    assert_eq!((mono.fg, mono.bg), (7, 0));
}

fn fresh_state() -> ColorState {
    let mut theme = ColorTheme::new();
    theme.use_default = false;
    init(Some(&theme), false, 256, 256).0
}

#[test]
fn pair_is_stable() {
    let mut s = fresh_state();
    assert_eq!(get_color_pair(&mut s, 3, 0), PairLookup::Fresh(10, 3, 0));
    assert_eq!(get_color_pair(&mut s, 3, 0), PairLookup::Cached(10));
    assert_eq!(s.pairs.len(), 1);
}

#[test]
fn distinct_pairs_get_distinct_numbers() {
    let mut s = fresh_state();
    let a = get_color_pair(&mut s, 3, 0);
    let b = get_color_pair(&mut s, 0, 3);
    assert_eq!(a, PairLookup::Fresh(10, 3, 0));
    assert_eq!(b, PairLookup::Fresh(11, 0, 3));
}

#[test]
fn eleventh_pair_gets_twenty() {
    let mut s = fresh_state();
    for i in 0..10 {
        assert_eq!(get_color_pair(&mut s, i, 1), PairLookup::Fresh(10 + i, i, 1));
    }
    assert_eq!(get_color_pair(&mut s, 42, 1), PairLookup::Fresh(20, 42, 1));
    assert_eq!(get_color_pair(&mut s, 4, 1), PairLookup::Cached(14));
}

#[test]
fn default_color_resolves_to_active_defaults() {
    let mut s = fresh_state();
    assert_eq!((s.fg, s.bg), (15, 0));
    assert_eq!(get_color_pair(&mut s, COLOR_DEFAULT, 4), PairLookup::Fresh(10, 15, 4));
    assert_eq!(get_color_pair(&mut s, 15, 4), PairLookup::Cached(10));
    assert_eq!(get_color_pair(&mut s, 2, COLOR_DEFAULT), PairLookup::Fresh(11, 2, 0));
}

#[test]
fn pairs_run_out() {
    let mut theme = ColorTheme::new();
    theme.use_default = false;
    let mut s = init(Some(&theme), false, 256, 12).0;
    assert_eq!(get_color_pair(&mut s, 1, 1), PairLookup::Fresh(10, 1, 1));
    assert_eq!(get_color_pair(&mut s, 2, 1), PairLookup::Fresh(11, 2, 1));
    assert_eq!(get_color_pair(&mut s, 3, 1), PairLookup::Full);
    assert_eq!(get_color_pair(&mut s, 1, 1), PairLookup::Cached(10));
    assert_eq!(s.pairs.len(), 2);
}

#[test]
fn styles_with_and_without_color() {
    let plain = Style { pair: 0, bold: false, underline: false, reverse: false };
    assert_eq!(attr_color(COLOR_NORMAL, false), plain);
    assert_eq!(attr_color(COLOR_MATCHED, true), Style { pair: 2, bold: true, ..plain });
    assert_eq!(attr_mono(COLOR_NORMAL, true), Style { bold: true, reverse: true, ..plain });
    assert_eq!(attr_mono(COLOR_NORMAL, false), plain);
    assert_eq!(attr_mono(COLOR_MATCHED, false), Style { underline: true, ..plain });
    assert_eq!(attr_mono(COLOR_CURRENT_MATCH, false), Style { underline: true, reverse: true, ..plain });
    assert_eq!(attr_mono(COLOR_PROMPT, true), Style { bold: true, ..plain });
    let (mono, _) = init(None, false, 8, 64);
    assert_eq!(mono.get_color(COLOR_MATCHED, false), Style { underline: true, ..plain });
    let s = fresh_state();
    assert_eq!(s.get_color(COLOR_MATCHED, false), Style { pair: 2, ..plain });
}

#[test]
fn style_attributes() {
    let plain = Style { pair: 0, bold: false, underline: false, reverse: false };
    assert_eq!(style_attr(plain), 0);
    assert_eq!(style_attr(Style { pair: 2, bold: true, ..plain }), 0x200 | 0x20_0000);
    assert_eq!(
        style_attr(Style { pair: 2, bold: true, ..plain }),
        ncurses::COLOR_PAIR(2) | ncurses::A_BOLD()
    );
    assert_eq!(
        style_attr(Style { underline: true, reverse: true, ..plain }),
        ncurses::A_UNDERLINE() | ncurses::A_REVERSE()
    );
    assert_eq!(PairLookup::Cached(12).attr(), 12 << 8);
    assert_eq!(PairLookup::Fresh(10, 3, 0).attr(), ncurses::COLOR_PAIR(10));
    assert_eq!(PairLookup::Full.attr(), 0);
}
