use alacritty_conf::{to_hex, ColorTheme, ColorThemeParseError, Invert, Theme, ThemeColors};
use rgb::RGB8;

const ALL_PRESETS: [ColorTheme; 11] = [
    ColorTheme::Afterglow,
    ColorTheme::Argonaut,
    ColorTheme::AyuDark,
    ColorTheme::AyuMirage,
    ColorTheme::Base16DefaultDark,
    ColorTheme::Breeze,
    ColorTheme::Dracula,
    ColorTheme::Gruvbox,
    ColorTheme::Kitty,
    ColorTheme::Material,
    ColorTheme::MonokaiSoda,
];

fn palette_colors(p: &ThemeColors) -> [RGB8; 8] {
    [p.black, p.red, p.green, p.yellow, p.blue, p.magenta, p.cyan, p.white]
}

#[test]
fn gruvbox_palette_values() {
    let t = Theme::from(ColorTheme::Gruvbox);
    assert_eq!(t.background, RGB8 { r: 40, g: 40, b: 40 });
    assert_eq!(t.foreground, RGB8 { r: 235, g: 219, b: 178 });
    assert_eq!(t.normal.red, RGB8 { r: 204, g: 36, b: 29 });
    assert_eq!(t.bright.white, RGB8 { r: 235, g: 219, b: 178 });
}

#[test]
fn kitty_and_breeze_palette_values() {
    let k = Theme::from(ColorTheme::Kitty);
    assert_eq!(k.background, RGB8 { r: 0, g: 0, b: 0 });
    assert_eq!(k.foreground, RGB8 { r: 221, g: 221, b: 221 });
    assert_eq!(k.bright.green, RGB8 { r: 35, g: 253, b: 0 });
    let b = Theme::from(ColorTheme::Breeze);
    assert_eq!(b.background, RGB8 { r: 35, g: 38, b: 39 });
    assert_eq!(b.bright.white, RGB8 { r: 255, g: 255, b: 255 });
}

#[test]
fn every_preset_has_a_distinct_nonzero_theme() {
    let zero = Theme {
        background: RGB8 { r: 0, g: 0, b: 0 },
        foreground: RGB8 { r: 0, g: 0, b: 0 },
        normal: ThemeColors::default(),
        bright: ThemeColors::default(),
    };
    for (i, p) in ALL_PRESETS.iter().enumerate() {
        let t = Theme::from(*p);
        assert_ne!(t, zero);
        assert_ne!(t.background, t.foreground);
        for q in ALL_PRESETS.iter().skip(i + 1) {
            assert_ne!(t, Theme::from(*q));
        }
    }
}

#[test]
fn default_theme_is_breeze() {
    assert_eq!(Theme::default(), Theme::from(ColorTheme::Breeze));
}

#[test]
fn invert_color_channels() {
    let mut c = RGB8 { r: 0, g: 128, b: 255 };
    c.invert();
    assert_eq!(c, RGB8 { r: 255, g: 127, b: 0 });
}

#[test]
fn invert_theme_every_color() {
    let original = Theme::from(ColorTheme::Dracula);
    let mut t = original;
    t.invert();
    assert_eq!(t.background, RGB8 { r: 215, g: 213, b: 201 });
    assert_eq!(t.foreground, RGB8 { r: 7, g: 7, b: 13 });
    let before = palette_colors(&original.normal)
        .into_iter()
        .chain(palette_colors(&original.bright));
    let after = palette_colors(&t.normal).into_iter().chain(palette_colors(&t.bright));
    for (a, b) in before.zip(after) {
        assert_eq!(b, RGB8 { r: 255 - a.r, g: 255 - a.g, b: 255 - a.b });
    }
}

#[test]
fn invert_twice_is_identity_for_every_preset() {
    for p in ALL_PRESETS {
        let original = Theme::from(p);
        let mut t = original;
        t.invert();
        assert_ne!(t, original);
        t.invert();
        assert_eq!(t, original);
    }
}

#[test]
fn to_hex_encodes_lowercase_digits() {
    assert_eq!(to_hex(RGB8 { r: 40, g: 40, b: 40 }), "282828");
    assert_eq!(to_hex(RGB8 { r: 255, g: 0, b: 171 }), "ff00ab");
    assert_eq!(to_hex(RGB8 { r: 1, g: 2, b: 3 }), "010203");
}

#[test]
fn preset_names_ignore_case() {
    assert_eq!(ColorTheme::from_name("gruvbox"), Ok(ColorTheme::Gruvbox));
    assert_eq!(ColorTheme::from_name("GRUVBOX"), Ok(ColorTheme::Gruvbox));
    assert_eq!(ColorTheme::from_name("GruvBox"), Ok(ColorTheme::Gruvbox));
    assert_eq!("Ayu-Mirage".parse::<ColorTheme>(), Ok(ColorTheme::AyuMirage));
    assert_eq!("base16".parse::<ColorTheme>(), Ok(ColorTheme::Base16DefaultDark));
    assert_eq!("MONOKAI-SODA".parse::<ColorTheme>(), Ok(ColorTheme::MonokaiSoda));
}

#[test]
fn every_slug_names_its_preset() {
    let slugs = [
        "afterglow",
        "argonaut",
        "ayu-dark",
        "ayu-mirage",
        "base16",
        "breeze",
        "dracula",
        "gruvbox",
        "kitty",
        "material",
        "monokai-soda",
    ];
    for (slug, preset) in slugs.iter().zip(ALL_PRESETS) {
        assert_eq!(ColorTheme::from_name(slug), Ok(preset));
    }
}

#[test]
fn unknown_preset_keeps_original_text() {
    assert_eq!(
        ColorTheme::from_name("nonexistent"),
        Err(ColorThemeParseError::UnknownTheme("nonexistent".to_string()))
    );
    assert_eq!(
        ColorTheme::from_name("NonExistent"),
        Err(ColorThemeParseError::UnknownTheme("NonExistent".to_string()))
    );
    assert_eq!(
        ColorTheme::from_name(""),
        Err(ColorThemeParseError::UnknownTheme(String::new()))
    );
    assert_eq!(
        ColorTheme::from_name("gruvbox "),
        Err(ColorThemeParseError::UnknownTheme("gruvbox ".to_string()))
    );
    assert_eq!(
        ColorTheme::from_name("base16-default-dark"),
        Err(ColorThemeParseError::UnknownTheme("base16-default-dark".to_string()))
    );
}

#[test]
fn unknown_preset_message() {
    let e = ColorTheme::from_name("Solarized").unwrap_err();
    assert_eq!(e.to_string(), "Unknown theme: Solarized");
}
