//! Colour themes: palettes, the preset catalog, inversion, and preset names.

use crate::color::{inverted_channel, Invert};
use crate::text::{
    lemma_lowercases_to_ignores_case, lowercases_to, lowercases_to_exec, same_ignoring_ascii_case,
};
use rgb::RGB8;
use vstd::prelude::*;

verus! {

/// The eight named colours of a palette.
#[derive(Debug, Default, Copy, Clone, PartialEq, Eq)]
pub struct ThemeColors {
    pub black: RGB8,
    pub red: RGB8,
    pub green: RGB8,
    pub yellow: RGB8,
    pub blue: RGB8,
    pub magenta: RGB8,
    pub cyan: RGB8,
    pub white: RGB8,
}

impl Invert for ThemeColors {
    open spec fn inverted(self) -> ThemeColors {
        ThemeColors {
            black: self.black.inverted(),
            red: self.red.inverted(),
            green: self.green.inverted(),
            yellow: self.yellow.inverted(),
            blue: self.blue.inverted(),
            magenta: self.magenta.inverted(),
            cyan: self.cyan.inverted(),
            white: self.white.inverted(),
        }
    }

    fn invert(&mut self) {
        self.black.invert();
        self.red.invert();
        self.green.invert();
        self.yellow.invert();
        self.blue.invert();
        self.magenta.invert();
        self.cyan.invert();
        self.white.invert();
    }
}

/// A complete colour theme.
#[derive(Debug, Copy, Clone, PartialEq, Eq)]
pub struct Theme {
    /// Background color.
    pub background: RGB8,
    /// Foreground color.
    pub foreground: RGB8,
    /// Normal colors.
    pub normal: ThemeColors,
    /// Bright colors.
    pub bright: ThemeColors,
}

impl Invert for Theme {
    open spec fn inverted(self) -> Theme {
        Theme {
            background: self.background.inverted(),
            foreground: self.foreground.inverted(),
            normal: self.normal.inverted(),
            bright: self.bright.inverted(),
        }
    }

    fn invert(&mut self) {
        self.background.invert();
        self.foreground.invert();
        self.normal.invert();
        self.bright.invert();
    }
}

/// Inverting a theme twice gives back the theme, channel for channel.
pub proof fn lemma_invert_involutive(t: Theme)
    ensures
        t.inverted().inverted() == t,
{
    lemma_invert_colors_involutive(t.normal);
    lemma_invert_colors_involutive(t.bright);
    lemma_invert_color_involutive(t.background);
    lemma_invert_color_involutive(t.foreground);
}

/// Inverting a palette twice gives back the palette.
pub proof fn lemma_invert_colors_involutive(p: ThemeColors)
    ensures
        p.inverted().inverted() == p,
{
    lemma_invert_color_involutive(p.black);
    lemma_invert_color_involutive(p.red);
    lemma_invert_color_involutive(p.green);
    lemma_invert_color_involutive(p.yellow);
    lemma_invert_color_involutive(p.blue);
    lemma_invert_color_involutive(p.magenta);
    lemma_invert_color_involutive(p.cyan);
    lemma_invert_color_involutive(p.white);
}

/// Inverting a colour twice gives back the colour: `255 - (255 - x) == x`.
pub proof fn lemma_invert_color_involutive(c: RGB8)
    ensures
        c.inverted().inverted() == c,
{
    assert(inverted_channel(inverted_channel(c.r)) == c.r);
    assert(inverted_channel(inverted_channel(c.g)) == c.g);
    assert(inverted_channel(inverted_channel(c.b)) == c.b);
}

/// The named colour presets.
#[derive(Debug, Copy, Clone, PartialEq, Eq)]
pub enum ColorTheme {
    Afterglow,
    Argonaut,
    AyuDark,
    AyuMirage,
    Base16DefaultDark,
    Breeze,
    Dracula,
    Gruvbox,
    Kitty,
    Material,
    MonokaiSoda,
}

pub open spec fn spec_rgb8(r: u8, g: u8, b: u8) -> RGB8 {
    RGB8 { r, g, b }
}

/// A colour from its three channels.
#[verifier::when_used_as_spec(spec_rgb8)]
pub fn rgb8(r: u8, g: u8, b: u8) -> (c: RGB8)
    ensures
        c == spec_rgb8(r, g, b),
{
    RGB8 { r, g, b }
}

/// The palette of each preset.
pub open spec fn preset_theme(preset: ColorTheme) -> Theme {
    match preset {
        ColorTheme::Afterglow => Theme {
            background: rgb8(44, 44, 44),
            foreground: rgb8(214, 214, 214),
            normal: ThemeColors {
                black: rgb8(28, 28, 28),
                red: rgb8(188, 86, 83),
                green: rgb8(144, 157, 99),
                yellow: rgb8(235, 193, 122),
                blue: rgb8(126, 170, 199),
                magenta: rgb8(170, 98, 146),
                cyan: rgb8(134, 211, 206),
                white: rgb8(202, 202, 202),
            },
            bright: ThemeColors {
                black: rgb8(99, 99, 99),
                red: rgb8(188, 86, 83),
                green: rgb8(144, 157, 99),
                yellow: rgb8(235, 193, 122),
                blue: rgb8(126, 170, 199),
                magenta: rgb8(170, 98, 146),
                cyan: rgb8(134, 211, 206),
                white: rgb8(247, 247, 247),
            },
        },
        ColorTheme::Argonaut => Theme {
            background: rgb8(41, 44, 62),
            foreground: rgb8(235, 235, 235),
            normal: ThemeColors {
                black: rgb8(13, 13, 13),
                red: rgb8(255, 48, 27),
                green: rgb8(160, 229, 33),
                yellow: rgb8(255, 198, 32),
                blue: rgb8(27, 166, 250),
                magenta: rgb8(135, 99, 184),
                cyan: rgb8(33, 222, 239),
                white: rgb8(235, 235, 235),
            },
            bright: ThemeColors {
                black: rgb8(109, 112, 112),
                red: rgb8(255, 67, 82),
                green: rgb8(184, 228, 102),
                yellow: rgb8(255, 215, 80),
                blue: rgb8(27, 166, 250),
                magenta: rgb8(165, 120, 234),
                cyan: rgb8(115, 251, 241),
                white: rgb8(254, 254, 248),
            },
        },
        ColorTheme::AyuDark => Theme {
            background: rgb8(10, 14, 20),
            foreground: rgb8(179, 177, 173),
            normal: ThemeColors {
                black: rgb8(1, 6, 14),
                red: rgb8(234, 108, 115),
                green: rgb8(145, 179, 98),
                yellow: rgb8(249, 175, 79),
                blue: rgb8(83, 189, 250),
                magenta: rgb8(250, 233, 148),
                cyan: rgb8(144, 225, 198),
                white: rgb8(199, 199, 199),
            },
            bright: ThemeColors {
                black: rgb8(104, 104, 104),
                red: rgb8(240, 113, 120),
                green: rgb8(194, 217, 76),
                yellow: rgb8(255, 180, 84),
                blue: rgb8(89, 194, 255),
                magenta: rgb8(255, 238, 153),
                cyan: rgb8(149, 230, 203),
                white: rgb8(255, 255, 255),
            },
        },
        ColorTheme::Gruvbox => Theme {
            background: rgb8(40, 40, 40),
            foreground: rgb8(235, 219, 178),
            normal: ThemeColors {
                black: rgb8(40, 40, 40),
                red: rgb8(204, 36, 29),
                green: rgb8(152, 151, 26),
                yellow: rgb8(215, 153, 33),
                blue: rgb8(69, 133, 136),
                magenta: rgb8(177, 98, 134),
                cyan: rgb8(104, 157, 106),
                white: rgb8(168, 153, 132),
            },
            bright: ThemeColors {
                black: rgb8(146, 131, 116),
                red: rgb8(251, 73, 52),
                green: rgb8(184, 187, 38),
                yellow: rgb8(250, 189, 47),
                blue: rgb8(131, 165, 152),
                magenta: rgb8(211, 134, 155),
                cyan: rgb8(142, 192, 124),
                white: rgb8(235, 219, 178),
            },
        },
        ColorTheme::Material => Theme {
            background: rgb8(38, 50, 56),
            foreground: rgb8(238, 255, 255),
            normal: ThemeColors {
                black: rgb8(0, 0, 0),
                red: rgb8(229, 57, 53),
                green: rgb8(145, 184, 89),
                yellow: rgb8(255, 182, 44),
                blue: rgb8(97, 130, 184),
                magenta: rgb8(255, 83, 112),
                cyan: rgb8(57, 173, 181),
                white: rgb8(160, 160, 160),
            },
            bright: ThemeColors {
                black: rgb8(78, 78, 78),
                red: rgb8(255, 83, 112),
                green: rgb8(195, 232, 141),
                yellow: rgb8(255, 203, 107),
                blue: rgb8(130, 170, 255),
                magenta: rgb8(240, 113, 120),
                cyan: rgb8(137, 221, 255),
                white: rgb8(255, 255, 255),
            },
        },
        ColorTheme::MonokaiSoda => Theme {
            background: rgb8(26, 26, 26),
            foreground: rgb8(196, 197, 181),
            normal: ThemeColors {
                black: rgb8(26, 26, 26),
                red: rgb8(244, 0, 95),
                green: rgb8(152, 224, 36),
                yellow: rgb8(250, 132, 25),
                blue: rgb8(157, 101, 255),
                magenta: rgb8(244, 0, 95),
                cyan: rgb8(88, 209, 235),
                white: rgb8(196, 197, 181),
            },
            bright: ThemeColors {
                black: rgb8(98, 94, 76),
                red: rgb8(244, 0, 95),
                green: rgb8(152, 224, 36),
                yellow: rgb8(224, 213, 97),
                blue: rgb8(157, 101, 255),
                magenta: rgb8(244, 0, 95),
                cyan: rgb8(88, 209, 235),
                white: rgb8(246, 246, 239),
            },
        },
        ColorTheme::AyuMirage => Theme {
            background: rgb8(32, 39, 52),
            foreground: rgb8(203, 204, 198),
            normal: ThemeColors {
                black: rgb8(25, 30, 42),
                red: rgb8(255, 51, 51),
                green: rgb8(186, 230, 126),
                yellow: rgb8(255, 167, 89),
                blue: rgb8(115, 208, 255),
                magenta: rgb8(255, 213, 128),
                cyan: rgb8(149, 230, 203),
                white: rgb8(199, 199, 199),
            },
            bright: ThemeColors {
                black: rgb8(104, 104, 104),
                red: rgb8(242, 121, 131),
                green: rgb8(166, 204, 112),
                yellow: rgb8(255, 204, 102),
                blue: rgb8(92, 207, 230),
                magenta: rgb8(255, 238, 153),
                cyan: rgb8(149, 230, 203),
                white: rgb8(255, 255, 255),
            },
        },
        ColorTheme::Base16DefaultDark => Theme {
            background: rgb8(24, 24, 24),
            foreground: rgb8(216, 216, 216),
            normal: ThemeColors {
                black: rgb8(24, 24, 24),
                red: rgb8(171, 70, 66),
                green: rgb8(161, 181, 108),
                yellow: rgb8(247, 202, 136),
                blue: rgb8(124, 175, 194),
                magenta: rgb8(186, 139, 175),
                cyan: rgb8(134, 193, 185),
                white: rgb8(216, 216, 216),
            },
            bright: ThemeColors {
                black: rgb8(88, 88, 88),
                red: rgb8(171, 70, 66),
                green: rgb8(161, 181, 108),
                yellow: rgb8(247, 202, 136),
                blue: rgb8(124, 175, 194),
                magenta: rgb8(186, 139, 175),
                cyan: rgb8(134, 193, 185),
                white: rgb8(248, 248, 248),
            },
        },
        ColorTheme::Breeze => Theme {
            background: rgb8(35, 38, 39),
            foreground: rgb8(252, 252, 252),
            normal: ThemeColors {
                black: rgb8(35, 38, 39),
                red: rgb8(237, 21, 21),
                green: rgb8(17, 209, 22),
                yellow: rgb8(246, 116, 0),
                blue: rgb8(29, 153, 243),
                magenta: rgb8(155, 89, 182),
                cyan: rgb8(26, 188, 156),
                white: rgb8(252, 252, 252),
            },
            bright: ThemeColors {
                black: rgb8(127, 140, 141),
                red: rgb8(192, 57, 43),
                green: rgb8(28, 220, 154),
                yellow: rgb8(253, 188, 75),
                blue: rgb8(61, 174, 233),
                magenta: rgb8(142, 68, 173),
                cyan: rgb8(22, 160, 133),
                white: rgb8(255, 255, 255),
            },
        },
        ColorTheme::Dracula => Theme {
            background: rgb8(40, 42, 54),
            foreground: rgb8(248, 248, 242),
            normal: ThemeColors {
                black: rgb8(0, 0, 0),
                red: rgb8(255, 85, 85),
                green: rgb8(80, 250, 123),
                yellow: rgb8(241, 250, 140),
                blue: rgb8(202, 169, 250),
                magenta: rgb8(255, 121, 198),
                cyan: rgb8(139, 233, 253),
                white: rgb8(191, 191, 191),
            },
            bright: ThemeColors {
                black: rgb8(87, 91, 112),
                red: rgb8(255, 110, 103),
                green: rgb8(90, 247, 142),
                yellow: rgb8(244, 249, 157),
                blue: rgb8(202, 169, 250),
                magenta: rgb8(255, 146, 208),
                cyan: rgb8(154, 237, 254),
                white: rgb8(230, 230, 230),
            },
        },
        ColorTheme::Kitty => Theme {
            background: rgb8(0, 0, 0),
            foreground: rgb8(221, 221, 221),
            normal: ThemeColors {
                black: rgb8(0, 0, 0),
                red: rgb8(204, 4, 3),
                green: rgb8(25, 203, 0),
                yellow: rgb8(206, 203, 0),
                blue: rgb8(13, 115, 204),
                magenta: rgb8(203, 30, 209),
                cyan: rgb8(13, 205, 205),
                white: rgb8(221, 221, 221),
            },
            bright: ThemeColors {
                black: rgb8(118, 118, 118),
                red: rgb8(242, 32, 31),
                green: rgb8(35, 253, 0),
                yellow: rgb8(255, 253, 0),
                blue: rgb8(26, 143, 255),
                magenta: rgb8(253, 40, 255),
                cyan: rgb8(20, 255, 255),
                white: rgb8(255, 255, 255),
            },
        },
    }
}

impl From<ColorTheme> for Theme {
    fn from(preset: ColorTheme) -> (t: Theme)
        ensures
            t == preset_theme(preset),
    {
        match preset {
            ColorTheme::Afterglow => Theme {
                background: rgb8(44, 44, 44),
                foreground: rgb8(214, 214, 214),
                normal: ThemeColors {
                    black: rgb8(28, 28, 28),
                    red: rgb8(188, 86, 83),
                    green: rgb8(144, 157, 99),
                    yellow: rgb8(235, 193, 122),
                    blue: rgb8(126, 170, 199),
                    magenta: rgb8(170, 98, 146),
                    cyan: rgb8(134, 211, 206),
                    white: rgb8(202, 202, 202),
                },
                bright: ThemeColors {
                    black: rgb8(99, 99, 99),
                    red: rgb8(188, 86, 83),
                    green: rgb8(144, 157, 99),
                    yellow: rgb8(235, 193, 122),
                    blue: rgb8(126, 170, 199),
                    magenta: rgb8(170, 98, 146),
                    cyan: rgb8(134, 211, 206),
                    white: rgb8(247, 247, 247),
                },
            },
            ColorTheme::Argonaut => Theme {
                background: rgb8(41, 44, 62),
                foreground: rgb8(235, 235, 235),
                normal: ThemeColors {
                    black: rgb8(13, 13, 13),
                    red: rgb8(255, 48, 27),
                    green: rgb8(160, 229, 33),
                    yellow: rgb8(255, 198, 32),
                    blue: rgb8(27, 166, 250),
                    magenta: rgb8(135, 99, 184),
                    cyan: rgb8(33, 222, 239),
                    white: rgb8(235, 235, 235),
                },
                bright: ThemeColors {
                    black: rgb8(109, 112, 112),
                    red: rgb8(255, 67, 82),
                    green: rgb8(184, 228, 102),
                    yellow: rgb8(255, 215, 80),
                    blue: rgb8(27, 166, 250),
                    magenta: rgb8(165, 120, 234),
                    cyan: rgb8(115, 251, 241),
                    white: rgb8(254, 254, 248),
                },
            },
            ColorTheme::AyuDark => Theme {
                background: rgb8(10, 14, 20),
                foreground: rgb8(179, 177, 173),
                normal: ThemeColors {
                    black: rgb8(1, 6, 14),
                    red: rgb8(234, 108, 115),
                    green: rgb8(145, 179, 98),
                    yellow: rgb8(249, 175, 79),
                    blue: rgb8(83, 189, 250),
                    magenta: rgb8(250, 233, 148),
                    cyan: rgb8(144, 225, 198),
                    white: rgb8(199, 199, 199),
                },
                bright: ThemeColors {
                    black: rgb8(104, 104, 104),
                    red: rgb8(240, 113, 120),
                    green: rgb8(194, 217, 76),
                    yellow: rgb8(255, 180, 84),
                    blue: rgb8(89, 194, 255),
                    magenta: rgb8(255, 238, 153),
                    cyan: rgb8(149, 230, 203),
                    white: rgb8(255, 255, 255),
                },
            },
            ColorTheme::Gruvbox => Theme {
                background: rgb8(40, 40, 40),
                foreground: rgb8(235, 219, 178),
                normal: ThemeColors {
                    black: rgb8(40, 40, 40),
                    red: rgb8(204, 36, 29),
                    green: rgb8(152, 151, 26),
                    yellow: rgb8(215, 153, 33),
                    blue: rgb8(69, 133, 136),
                    magenta: rgb8(177, 98, 134),
                    cyan: rgb8(104, 157, 106),
                    white: rgb8(168, 153, 132),
                },
                bright: ThemeColors {
                    black: rgb8(146, 131, 116),
                    red: rgb8(251, 73, 52),
                    green: rgb8(184, 187, 38),
                    yellow: rgb8(250, 189, 47),
                    blue: rgb8(131, 165, 152),
                    magenta: rgb8(211, 134, 155),
                    cyan: rgb8(142, 192, 124),
                    white: rgb8(235, 219, 178),
                },
            },
            ColorTheme::Material => Theme {
                background: rgb8(38, 50, 56),
                foreground: rgb8(238, 255, 255),
                normal: ThemeColors {
                    black: rgb8(0, 0, 0),
                    red: rgb8(229, 57, 53),
                    green: rgb8(145, 184, 89),
                    yellow: rgb8(255, 182, 44),
                    blue: rgb8(97, 130, 184),
                    magenta: rgb8(255, 83, 112),
                    cyan: rgb8(57, 173, 181),
                    white: rgb8(160, 160, 160),
                },
                bright: ThemeColors {
                    black: rgb8(78, 78, 78),
                    red: rgb8(255, 83, 112),
                    green: rgb8(195, 232, 141),
                    yellow: rgb8(255, 203, 107),
                    blue: rgb8(130, 170, 255),
                    magenta: rgb8(240, 113, 120),
                    cyan: rgb8(137, 221, 255),
                    white: rgb8(255, 255, 255),
                },
            },
            ColorTheme::MonokaiSoda => Theme {
                background: rgb8(26, 26, 26),
                foreground: rgb8(196, 197, 181),
                normal: ThemeColors {
                    black: rgb8(26, 26, 26),
                    red: rgb8(244, 0, 95),
                    green: rgb8(152, 224, 36),
                    yellow: rgb8(250, 132, 25),
                    blue: rgb8(157, 101, 255),
                    magenta: rgb8(244, 0, 95),
                    cyan: rgb8(88, 209, 235),
                    white: rgb8(196, 197, 181),
                },
                bright: ThemeColors {
                    black: rgb8(98, 94, 76),
                    red: rgb8(244, 0, 95),
                    green: rgb8(152, 224, 36),
                    yellow: rgb8(224, 213, 97),
                    blue: rgb8(157, 101, 255),
                    magenta: rgb8(244, 0, 95),
                    cyan: rgb8(88, 209, 235),
                    white: rgb8(246, 246, 239),
                },
            },
            ColorTheme::AyuMirage => Theme {
                background: rgb8(32, 39, 52),
                foreground: rgb8(203, 204, 198),
                normal: ThemeColors {
                    black: rgb8(25, 30, 42),
                    red: rgb8(255, 51, 51),
                    green: rgb8(186, 230, 126),
                    yellow: rgb8(255, 167, 89),
                    blue: rgb8(115, 208, 255),
                    magenta: rgb8(255, 213, 128),
                    cyan: rgb8(149, 230, 203),
                    white: rgb8(199, 199, 199),
                },
                bright: ThemeColors {
                    black: rgb8(104, 104, 104),
                    red: rgb8(242, 121, 131),
                    green: rgb8(166, 204, 112),
                    yellow: rgb8(255, 204, 102),
                    blue: rgb8(92, 207, 230),
                    magenta: rgb8(255, 238, 153),
                    cyan: rgb8(149, 230, 203),
                    white: rgb8(255, 255, 255),
                },
            },
            ColorTheme::Base16DefaultDark => Theme {
                background: rgb8(24, 24, 24),
                foreground: rgb8(216, 216, 216),
                normal: ThemeColors {
                    black: rgb8(24, 24, 24),
                    red: rgb8(171, 70, 66),
                    green: rgb8(161, 181, 108),
                    yellow: rgb8(247, 202, 136),
                    blue: rgb8(124, 175, 194),
                    magenta: rgb8(186, 139, 175),
                    cyan: rgb8(134, 193, 185),
                    white: rgb8(216, 216, 216),
                },
                bright: ThemeColors {
                    black: rgb8(88, 88, 88),
                    red: rgb8(171, 70, 66),
                    green: rgb8(161, 181, 108),
                    yellow: rgb8(247, 202, 136),
                    blue: rgb8(124, 175, 194),
                    magenta: rgb8(186, 139, 175),
                    cyan: rgb8(134, 193, 185),
                    white: rgb8(248, 248, 248),
                },
            },
            ColorTheme::Breeze => Theme {
                background: rgb8(35, 38, 39),
                foreground: rgb8(252, 252, 252),
                normal: ThemeColors {
                    black: rgb8(35, 38, 39),
                    red: rgb8(237, 21, 21),
                    green: rgb8(17, 209, 22),
                    yellow: rgb8(246, 116, 0),
                    blue: rgb8(29, 153, 243),
                    magenta: rgb8(155, 89, 182),
                    cyan: rgb8(26, 188, 156),
                    white: rgb8(252, 252, 252),
                },
                bright: ThemeColors {
                    black: rgb8(127, 140, 141),
                    red: rgb8(192, 57, 43),
                    green: rgb8(28, 220, 154),
                    yellow: rgb8(253, 188, 75),
                    blue: rgb8(61, 174, 233),
                    magenta: rgb8(142, 68, 173),
                    cyan: rgb8(22, 160, 133),
                    white: rgb8(255, 255, 255),
                },
            },
            ColorTheme::Dracula => Theme {
                background: rgb8(40, 42, 54),
                foreground: rgb8(248, 248, 242),
                normal: ThemeColors {
                    black: rgb8(0, 0, 0),
                    red: rgb8(255, 85, 85),
                    green: rgb8(80, 250, 123),
                    yellow: rgb8(241, 250, 140),
                    blue: rgb8(202, 169, 250),
                    magenta: rgb8(255, 121, 198),
                    cyan: rgb8(139, 233, 253),
                    white: rgb8(191, 191, 191),
                },
                bright: ThemeColors {
                    black: rgb8(87, 91, 112),
                    red: rgb8(255, 110, 103),
                    green: rgb8(90, 247, 142),
                    yellow: rgb8(244, 249, 157),
                    blue: rgb8(202, 169, 250),
                    magenta: rgb8(255, 146, 208),
                    cyan: rgb8(154, 237, 254),
                    white: rgb8(230, 230, 230),
                },
            },
            ColorTheme::Kitty => Theme {
                background: rgb8(0, 0, 0),
                foreground: rgb8(221, 221, 221),
                normal: ThemeColors {
                    black: rgb8(0, 0, 0),
                    red: rgb8(204, 4, 3),
                    green: rgb8(25, 203, 0),
                    yellow: rgb8(206, 203, 0),
                    blue: rgb8(13, 115, 204),
                    magenta: rgb8(203, 30, 209),
                    cyan: rgb8(13, 205, 205),
                    white: rgb8(221, 221, 221),
                },
                bright: ThemeColors {
                    black: rgb8(118, 118, 118),
                    red: rgb8(242, 32, 31),
                    green: rgb8(35, 253, 0),
                    yellow: rgb8(255, 253, 0),
                    blue: rgb8(26, 143, 255),
                    magenta: rgb8(253, 40, 255),
                    cyan: rgb8(20, 255, 255),
                    white: rgb8(255, 255, 255),
                },
            },
        }
    }
}

impl vstd::std_specs::convert::FromSpecImpl<ColorTheme> for Theme {
    open spec fn obeys_from_spec() -> bool {
        true
    }

    open spec fn from_spec(preset: ColorTheme) -> Theme {
        preset_theme(preset)
    }
}

impl Default for Theme {
    /// The Breeze preset.
    fn default() -> (t: Theme)
        ensures
            t == preset_theme(ColorTheme::Breeze),
    {
        Theme::from(ColorTheme::Breeze)
    }
}

/// The preset that a name stands for: its slug, in any ASCII case.
pub open spec fn preset_named(s: Seq<char>) -> Option<ColorTheme> {
    if lowercases_to(s, "afterglow"@) {
        Some(ColorTheme::Afterglow)
    } else if lowercases_to(s, "argonaut"@) {
        Some(ColorTheme::Argonaut)
    } else if lowercases_to(s, "ayu-dark"@) {
        Some(ColorTheme::AyuDark)
    } else if lowercases_to(s, "ayu-mirage"@) {
        Some(ColorTheme::AyuMirage)
    } else if lowercases_to(s, "base16"@) {
        Some(ColorTheme::Base16DefaultDark)
    } else if lowercases_to(s, "breeze"@) {
        Some(ColorTheme::Breeze)
    } else if lowercases_to(s, "dracula"@) {
        Some(ColorTheme::Dracula)
    } else if lowercases_to(s, "kitty"@) {
        Some(ColorTheme::Kitty)
    } else if lowercases_to(s, "gruvbox"@) {
        Some(ColorTheme::Gruvbox)
    } else if lowercases_to(s, "material"@) {
        Some(ColorTheme::Material)
    } else if lowercases_to(s, "monokai-soda"@) {
        Some(ColorTheme::MonokaiSoda)
    } else {
        None
    }
}

/// Names that differ only in the case of ASCII letters stand for the same preset.
pub proof fn lemma_preset_name_ignores_case(s: Seq<char>, u: Seq<char>)
    requires
        s.len() == u.len(),
        forall|i: int| 0 <= i < s.len() ==> same_ignoring_ascii_case(#[trigger] s[i], u[i]),
    ensures
        preset_named(s) == preset_named(u),
{
    lemma_lowercases_to_ignores_case(s, u, "afterglow"@);
    lemma_lowercases_to_ignores_case(s, u, "argonaut"@);
    lemma_lowercases_to_ignores_case(s, u, "ayu-dark"@);
    lemma_lowercases_to_ignores_case(s, u, "ayu-mirage"@);
    lemma_lowercases_to_ignores_case(s, u, "base16"@);
    lemma_lowercases_to_ignores_case(s, u, "breeze"@);
    lemma_lowercases_to_ignores_case(s, u, "dracula"@);
    lemma_lowercases_to_ignores_case(s, u, "kitty"@);
    lemma_lowercases_to_ignores_case(s, u, "gruvbox"@);
    lemma_lowercases_to_ignores_case(s, u, "material"@);
    lemma_lowercases_to_ignores_case(s, u, "monokai-soda"@);
}

/// A name that is no preset's slug.
#[derive(Debug, PartialEq, Eq)]
pub enum ColorThemeParseError {
    /// Holds the name as it was given.
    UnknownTheme(String),
}

impl ColorThemeParseError {
    /// The message shown to the user.
    pub fn to_string(&self) -> (r: String)
        ensures
            match self {
                ColorThemeParseError::UnknownTheme(t) => r@ == "Unknown theme: "@ + t@,
            },
    {
        match self {
            ColorThemeParseError::UnknownTheme(t) => {
                let mut r = String::new();
                r.append("Unknown theme: ");
                r.append(t.as_str());
                r
            },
        }
    }
}

impl ColorTheme {
    /// The preset whose slug is `s` up to ASCII case; an unknown name is an
    /// error that carries `s` unchanged.
    pub fn from_name(s: &str) -> (r: Result<ColorTheme, ColorThemeParseError>)
        ensures
            match r {
                Ok(p) => preset_named(s@) == Some(p),
                Err(ColorThemeParseError::UnknownTheme(m)) => preset_named(s@) is None && m@ == s@,
            },
    {
        if lowercases_to_exec(s, "afterglow") {
            Ok(ColorTheme::Afterglow)
        } else if lowercases_to_exec(s, "argonaut") {
            Ok(ColorTheme::Argonaut)
        } else if lowercases_to_exec(s, "ayu-dark") {
            Ok(ColorTheme::AyuDark)
        } else if lowercases_to_exec(s, "ayu-mirage") {
            Ok(ColorTheme::AyuMirage)
        } else if lowercases_to_exec(s, "base16") {
            Ok(ColorTheme::Base16DefaultDark)
        } else if lowercases_to_exec(s, "breeze") {
            Ok(ColorTheme::Breeze)
        } else if lowercases_to_exec(s, "dracula") {
            Ok(ColorTheme::Dracula)
        } else if lowercases_to_exec(s, "kitty") {
            Ok(ColorTheme::Kitty)
        } else if lowercases_to_exec(s, "gruvbox") {
            Ok(ColorTheme::Gruvbox)
        } else if lowercases_to_exec(s, "material") {
            Ok(ColorTheme::Material)
        } else if lowercases_to_exec(s, "monokai-soda") {
            Ok(ColorTheme::MonokaiSoda)
        } else {
            Err(ColorThemeParseError::UnknownTheme(s.to_owned()))
        }
    }
}

impl std::str::FromStr for ColorTheme {
    type Err = ColorThemeParseError;

    fn from_str(s: &str) -> (r: Result<ColorTheme, ColorThemeParseError>)
        ensures
            match r {
                Ok(p) => preset_named(s@) == Some(p),
                Err(ColorThemeParseError::UnknownTheme(m)) => preset_named(s@) is None && m@ == s@,
            },
    {
        ColorTheme::from_name(s)
    }
}

} // verus!
