use alacritty_conf::{
    is_loadable, merge, parse, read_existing, reconcile, render_file, selected_theme, ColorTheme, Config, Font, FontSize,
    Invert, PartialConfig, Theme, Window,
};

fn font(family: Option<&str>, size: u16) -> Font {
    Font::new(family, size)
}

#[test]
fn font_constructors_and_defaults() {
    let f = Font::new(Some("Iosevka"), 14);
    assert_eq!(f.family.as_deref(), Some("Iosevka"));
    assert_eq!(f.size, FontSize(14));
    assert_eq!(Font::default(), Font { family: None, size: FontSize(20) });
    assert_eq!(FontSize::default(), FontSize(20));
}

#[test]
fn partial_config_font_accessors() {
    let p = PartialConfig::new(Some(font(Some("Hack"), 11)), None, None);
    assert_eq!(p.font().unwrap().family.as_deref(), Some("Hack"));
    assert_eq!(p.font_size_or_default(), 11);
    let empty = PartialConfig::new(None, None, None);
    assert!(empty.font().is_none());
    assert_eq!(empty.font_size_or_default(), 20);
}

#[test]
fn merge_prefers_new_over_conflicting_old() {
    let new = PartialConfig::new(
        Some(font(Some("Iosevka"), 14)),
        Some(Theme::from(ColorTheme::Gruvbox)),
        Some(Window::new(100, 30)),
    );
    let old = PartialConfig::new(
        Some(font(Some("Hack"), 11)),
        Some(Theme::from(ColorTheme::Dracula)),
        Some(Window::new(120, 40)),
    );
    let c = merge(new, old);
    assert_eq!(c.font, font(Some("Iosevka"), 14));
    assert_eq!(c.theme, Theme::from(ColorTheme::Gruvbox));
    assert_eq!(c.dimensions, Window::new(100, 30));
}

#[test]
fn merge_takes_each_field_independently() {
    let new = PartialConfig::new(None, Some(Theme::from(ColorTheme::Kitty)), None);
    let old = PartialConfig::new(
        Some(font(None, 9)),
        Some(Theme::from(ColorTheme::Dracula)),
        Some(Window::new(120, 40)),
    );
    let c = merge(new, old);
    assert_eq!(c.font, font(None, 9));
    assert_eq!(c.theme, Theme::from(ColorTheme::Kitty));
    assert_eq!(c.dimensions, Window::new(120, 40));
}

#[test]
fn merge_font_is_atomic() {
    let new = PartialConfig::new(Some(font(Some("Iosevka"), 20)), None, None);
    let old = PartialConfig::new(Some(font(Some("Hack"), 11)), None, None);
    assert_eq!(merge(new, old).font, font(Some("Iosevka"), 20));
}

#[test]
fn merge_defaults_when_both_empty() {
    let c = merge(PartialConfig::new(None, None, None), PartialConfig::new(None, None, None));
    assert_eq!(c.font, Font { family: None, size: FontSize(20) });
    assert_eq!(c.theme, Theme::from(ColorTheme::Breeze));
    assert_eq!(c.dimensions, Window::new(80, 25));
    let d = Config::default();
    assert_eq!(d.font, c.font);
    assert_eq!(d.theme, c.theme);
    assert_eq!(d.dimensions, c.dimensions);
}

#[test]
fn from_fields_defaults_and_truncation() {
    let p = PartialConfig::from_fields(None, None, None, None);
    assert_eq!(p.font, Some(Font { family: None, size: FontSize(20) }));
    assert_eq!(p.theme, None);
    assert_eq!(p.dimensions, Some(Window::new(80, 25)));
    let q = PartialConfig::from_fields(Some("Mono"), Some(65536 + 12), Some(100), Some(-1));
    assert_eq!(q.font, Some(font(Some("Mono"), 12)));
    assert_eq!(q.dimensions, Some(Window::new(100, 65535)));
}

#[test]
fn parse_reads_font_and_window() {
    let src = "font:\n  normal:\n    family: Iosevka\n  size: 14\nwindow:\n  dimensions:\n    columns: 100\n    lines: 30\ncolors:\n  primary:\n    background: '#000000'\n";
    let p = parse(src).unwrap();
    assert_eq!(p.font, Some(font(Some("Iosevka"), 14)));
    assert_eq!(p.theme, None);
    assert_eq!(p.dimensions, Some(Window::new(100, 30)));
}

#[test]
fn parse_partial_dimensions_reset_both() {
    let src = "window:\n  dimensions:\n    columns: 100\n";
    let p = parse(src).unwrap();
    assert_eq!(p.dimensions, Some(Window::new(80, 25)));
    assert_eq!(p.font, Some(font(None, 20)));
    assert_eq!(p.theme, None);
}

#[test]
fn parse_defaults_non_integer_size() {
    let src = "font:\n  size: big\n";
    assert_eq!(parse(src).unwrap().font, Some(font(None, 20)));
    let src = "font:\n  size: 70000\n";
    assert_eq!(parse(src).unwrap().font, Some(font(None, 4464)));
}

#[test]
fn parse_fails_on_empty_or_malformed() {
    assert!(parse("").is_none());
    assert!(parse("font: [unclosed").is_none());
    assert!(parse("key: value\n  bad indent: : :\n\t").is_none());
}

#[test]
fn render_gruvbox_round_trip() {
    let c = merge(
        PartialConfig::new(
            Some(font(Some("Iosevka"), 14)),
            Some(Theme::from(ColorTheme::Gruvbox)),
            Some(Window::new(100, 30)),
        ),
        PartialConfig::new(None, None, None),
    );
    let text = c.to_string();
    assert!(text.contains("background: '#282828'"));
    assert!(text.contains("foreground: '#ebdbb2'"));
    assert!(text.contains("family: Iosevka"));
    assert!(text.contains("size: 14"));
    assert!(text.contains("columns: 100"));
    assert!(text.contains("lines: 30"));
    let back = parse(&text).unwrap();
    assert_eq!(back.font, Some(font(Some("Iosevka"), 14)));
    assert_eq!(back.dimensions, Some(Window::new(100, 30)));
}

#[test]
fn render_exact_layout() {
    let c = merge(
        PartialConfig::new(
            Some(font(Some("Iosevka"), 14)),
            Some(Theme::from(ColorTheme::Gruvbox)),
            Some(Window::new(100, 30)),
        ),
        PartialConfig::new(None, None, None),
    );
    let expected = "\
font:
    normal:
        family: Iosevka
    size: 14
window:
    dimensions:
        columns: 100
        lines: 30
colors:
    primary:
        background: '#282828'
        foreground: '#ebdbb2'
    normal:
        black:   '#282828'
        red:     '#cc241d'
        green:   '#98971a'
        yellow:  '#d79921'
        blue:    '#458588'
        magenta: '#b16286'
        cyan:    '#689d6a'
        white:   '#a89984'
    bright:
        black:   '#928374'
        red:     '#fb4934'
        green:   '#b8bb26'
        yellow:  '#fabd2f'
        blue:    '#83a598'
        magenta: '#d3869b'
        cyan:    '#8ec07c'
        white:   '#ebdbb2'";
    assert_eq!(c.to_string(), expected);
}

#[test]
fn render_font_without_family() {
    assert_eq!(Font::default().to_string(), "font:\n    size: 20");
    assert_eq!(font(Some("Fira Code"), 9).to_string(), "font:\n    normal:\n        family: Fira Code\n    size: 9");
    assert_eq!(FontSize(0).to_string(), "0");
    assert_eq!(FontSize(65535).to_string(), "65535");
}

#[test]
fn render_file_has_header() {
    let text = render_file("Mon, 19 Oct 2026 10:00:00 +0000", &Config::default());
    assert!(text.starts_with("# generated by alacritty-conf (Mon, 19 Oct 2026 10:00:00 +0000)\n\nfont:\n    size: 20\nwindow:"));
    assert!(text.contains("background: '#232627'"));
    assert!(text.ends_with("white:   '#ffffff'"));
}

#[test]
fn selected_theme_inverts_on_request() {
    let plain = selected_theme(ColorTheme::Gruvbox, false);
    assert_eq!(plain, Theme::from(ColorTheme::Gruvbox));
    let inverted = selected_theme(ColorTheme::Gruvbox, true);
    let mut expected = Theme::from(ColorTheme::Gruvbox);
    expected.invert();
    assert_eq!(inverted, expected);
    assert_eq!(inverted.background, rgb::RGB8 { r: 215, g: 215, b: 215 });
}

#[test]
fn reconcile_keeps_existing_font_parts() {
    let existing = parse("font:\n  normal:\n    family: Hack\n  size: 11\n").unwrap();
    let c = reconcile(None, None, Theme::from(ColorTheme::Kitty), Window::new(90, 20), Some(existing));
    assert_eq!(c.font, font(Some("Hack"), 11));
    assert_eq!(c.theme, Theme::from(ColorTheme::Kitty));
    assert_eq!(c.dimensions, Window::new(90, 20));

    let existing = parse("font:\n  normal:\n    family: Hack\n  size: 11\n").unwrap();
    let c = reconcile(None, Some(16), Theme::from(ColorTheme::Kitty), Window::new(90, 20), Some(existing));
    assert_eq!(c.font, font(Some("Hack"), 16));

    let existing = parse("font:\n  normal:\n    family: Hack\n  size: 11\n").unwrap();
    let c = reconcile(Some("Iosevka".to_string()), None, Theme::from(ColorTheme::Kitty), Window::new(90, 20), Some(existing));
    assert_eq!(c.font, font(Some("Iosevka"), 11));
}

#[test]
fn reconcile_without_existing_file_uses_request_and_defaults() {
    let c = reconcile(None, None, Theme::from(ColorTheme::Material), Window::new(80, 25), None);
    assert_eq!(c.font, font(None, 20));
    assert_eq!(c.theme, Theme::from(ColorTheme::Material));
    let c = reconcile(Some("Iosevka".to_string()), Some(14), Theme::from(ColorTheme::Material), Window::new(100, 30), None);
    assert_eq!(c.font, font(Some("Iosevka"), 14));
    assert_eq!(c.dimensions, Window::new(100, 30));
}

#[test]
fn read_existing_matches_parse_on_shallow_text() {
    let src = "font:\n  normal:\n    family: Hack\n  size: 11\nwindow:\n  dimensions:\n    columns: 90\n    lines: 20\n";
    let p = read_existing(src).unwrap();
    assert_eq!(p.font, Some(font(Some("Hack"), 11)));
    assert_eq!(p.dimensions, Some(Window::new(90, 20)));
    assert!(read_existing("").is_none());
    assert!(read_existing("font: [unclosed").is_none());
}

#[test]
fn read_existing_refuses_deep_text() {
    let deep = "- ".repeat(5000) + "a\n";
    assert!(!is_loadable(&deep));
    assert!(read_existing(&deep).is_none());
    let flow = "[".repeat(300) + &"]".repeat(300);
    assert!(read_existing(&flow).is_none());
    let just_over = "- ".repeat(127) + "a\n";
    assert!(!is_loadable(&just_over));
    assert!(read_existing(&just_over).is_none());
}

#[test]
fn read_existing_accepts_text_at_the_bound() {
    let sequences = "- ".repeat(126) + "a\n";
    assert!(is_loadable(&sequences));
    assert!(read_existing(&sequences).is_some());
    let mut mappings = String::new();
    for depth in 0..120 {
        mappings.push_str(&" ".repeat(depth));
        mappings.push_str("k:\n");
    }
    mappings.push_str(&" ".repeat(120));
    mappings.push_str("k: v\n");
    let p = read_existing(&mappings).unwrap();
    assert_eq!(p.font, Some(font(None, 20)));
}

#[test]
fn read_existing_accepts_long_flat_files() {
    let flat = "a: b\n".repeat(300) + "font:\n  normal:\n    family: Hack\n  size: 11\n";
    assert!(is_loadable(&flat));
    assert_eq!(read_existing(&flat).unwrap().font, Some(font(Some("Hack"), 11)));

    let mut bindings = String::from("font:\n  size: 13\nkey_bindings:\n");
    for i in 0..120 {
        bindings.push_str(&format!("  - {{ key: F{}, mods: Control|Shift, action: Paste }}\n", i));
    }
    assert!(is_loadable(&bindings));
    assert_eq!(read_existing(&bindings).unwrap().font, Some(font(None, 13)));

    let comments = format!("# {}\n", "[{ -: ?".repeat(200)).repeat(50) + "window:\n  dimensions:\n    columns: 90\n    lines: 20\n";
    assert!(is_loadable(&comments));
    assert_eq!(read_existing(&comments).unwrap().dimensions, Some(Window::new(90, 20)));
}
