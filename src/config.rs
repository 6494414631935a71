//! Partial and resolved configurations, and how they are reconciled.

use crate::color::Invert;
use crate::font::{default_font, family_view, Font, FontSize, FontView};
use crate::theme::{preset_theme, ColorTheme, Theme};
use crate::window::{default_window, Window};
use vstd::prelude::*;

verus! {

/// A fully resolved configuration: every setting is known.
#[derive(Debug)]
pub struct Config {
    pub font: Font,
    pub theme: Theme,
    pub dimensions: Window,
}

/// What is known so far of a configuration: each setting may be missing.
#[derive(Debug)]
pub struct PartialConfig {
    pub font: Option<Font>,
    pub theme: Option<Theme>,
    pub dimensions: Option<Window>,
}

pub struct ConfigView {
    pub font: FontView,
    pub theme: Theme,
    pub dimensions: Window,
}

pub struct PartialConfigView {
    pub font: Option<FontView>,
    pub theme: Option<Theme>,
    pub dimensions: Option<Window>,
}

pub open spec fn font_option_view(font: Option<Font>) -> Option<FontView> {
    match font {
        Some(f) => Some(f@),
        None => None,
    }
}

impl View for Config {
    type V = ConfigView;

    open spec fn view(&self) -> ConfigView {
        ConfigView { font: self.font@, theme: self.theme, dimensions: self.dimensions }
    }
}

impl View for PartialConfig {
    type V = PartialConfigView;

    open spec fn view(&self) -> PartialConfigView {
        PartialConfigView {
            font: font_option_view(self.font),
            theme: self.theme,
            dimensions: self.dimensions,
        }
    }
}

/// The configuration used when nothing is known: default font, the Breeze
/// preset, the default window.
pub open spec fn default_config() -> ConfigView {
    ConfigView {
        font: default_font(),
        theme: preset_theme(ColorTheme::Breeze),
        dimensions: default_window(),
    }
}

impl Default for Config {
    fn default() -> (c: Config)
        ensures
            c@ == default_config(),
    {
        Config { font: Font::default(), theme: Theme::default(), dimensions: Window::default() }
    }
}

impl PartialConfig {
    pub fn new(font: Option<Font>, theme: Option<Theme>, dimensions: Option<Window>) -> (p:
        PartialConfig)
        ensures
            p.font == font,
            p.theme == theme,
            p.dimensions == dimensions,
    {
        PartialConfig { font, theme, dimensions }
    }

    pub fn font(&self) -> (f: Option<&Font>)
        ensures
            match f {
                Some(x) => self.font == Some(*x),
                None => self.font is None,
            },
    {
        self.font.as_ref()
    }

    /// The size of the known font, or the default size.
    pub fn font_size_or_default(&self) -> (s: u16)
        ensures
            s == match self.font {
                Some(f) => f.size.0,
                None => default_font().size,
            },
    {
        match &self.font {
            Some(f) => f.size,
            None => FontSize::default(),
        }.0
    }
}

/// Combines two partial configurations setting by setting: each setting comes
/// from `new` when it has one, else from `old`, else is the default. A font is
/// taken whole; its family and size are never mixed from the two sides.
pub fn merge(new: PartialConfig, old: PartialConfig) -> (c: Config)
    ensures
        new@.font matches Some(f) ==> c@.font == f,
        new@.font is None ==> (old@.font matches Some(f) ==> c@.font == f),
        new@.font is None && old@.font is None ==> c@.font == default_font(),
        new@.theme matches Some(t) ==> c@.theme == t,
        new@.theme is None ==> (old@.theme matches Some(t) ==> c@.theme == t),
        new@.theme is None && old@.theme is None ==> c@.theme == preset_theme(ColorTheme::Breeze),
        new@.dimensions matches Some(d) ==> c@.dimensions == d,
        new@.dimensions is None ==> (old@.dimensions matches Some(d) ==> c@.dimensions == d),
        new@.dimensions is None && old@.dimensions is None ==> c@.dimensions == default_window(),
{
    let PartialConfig { font: new_font, theme: new_theme, dimensions: new_dimensions } = new;
    let PartialConfig { font: old_font, theme: old_theme, dimensions: old_dimensions } = old;
    Config {
        font: match new_font {
            Some(f) => f,
            None => match old_font {
                Some(f) => f,
                None => Font::default(),
            },
        },
        theme: match new_theme {
            Some(t) => t,
            None => match old_theme {
                Some(t) => t,
                None => Theme::default(),
            },
        },
        dimensions: match new_dimensions {
            Some(d) => d,
            None => match old_dimensions {
                Some(d) => d,
                None => Window::default(),
            },
        },
    }
}

/// What the file reader makes of the values found in a document: the font
/// always (its size the low 16 bits of the value found, else 20), never a
/// theme, and the window always (both sizes' low 16 bits when both were found,
/// else the default window for both).
pub open spec fn fields_view(
    family: Option<Seq<char>>,
    size: Option<i64>,
    columns: Option<i64>,
    lines: Option<i64>,
) -> PartialConfigView {
    PartialConfigView {
        font: Some(
            FontView {
                family,
                size: match size {
                    Some(x) => x as u16,
                    None => default_font().size,
                },
            },
        ),
        theme: None,
        dimensions: Some(
            match (columns, lines) {
                (Some(c), Some(l)) => Window { width: c as u16, height: l as u16 },
                _ => default_window(),
            },
        ),
    }
}

impl PartialConfig {
    /// The partial configuration that the values found in a document stand for.
    pub fn from_fields(
        family: Option<&str>,
        size: Option<i64>,
        columns: Option<i64>,
        lines: Option<i64>,
    ) -> (p: PartialConfig)
        ensures
            p@ == fields_view(
                match family {
                    Some(s) => Some(s@),
                    None => None,
                },
                size,
                columns,
                lines,
            ),
    {
        let size: u16 = match size {
            Some(x) => #[verifier::truncate] (x as u16),
            None => FontSize::default().0,
        };
        let columns: Option<u16> = match columns {
            Some(x) => Some(#[verifier::truncate] (x as u16)),
            None => None,
        };
        let lines: Option<u16> = match lines {
            Some(x) => Some(#[verifier::truncate] (x as u16)),
            None => None,
        };
        PartialConfig {
            font: Some(Font::new(family, size)),
            theme: None,
            dimensions: Some(Window::new_or_default(columns, lines)),
        }
    }
}

/// The theme of a preset, inverted when asked.
pub fn selected_theme(preset: ColorTheme, invert: bool) -> (t: Theme)
    ensures
        t == if invert {
            preset_theme(preset).inverted()
        } else {
            preset_theme(preset)
        },
{
    let mut t = Theme::from(preset);
    if invert {
        t.invert();
    }
    t
}

/// The font asked for: the family given, else the family known from before;
/// the size given, else the size known from before, else 20.
pub open spec fn requested_font(
    family: Option<Seq<char>>,
    size: Option<u16>,
    previous: Option<FontView>,
) -> FontView {
    FontView {
        family: match family {
            Some(f) => Some(f),
            None => match previous {
                Some(p) => p.family,
                None => None,
            },
        },
        size: match size {
            Some(s) => s,
            None => match previous {
                Some(p) => p.size,
                None => default_font().size,
            },
        },
    }
}

/// Resolves the configuration to write from what was asked for and what the
/// existing file held, if it could be read. The font is built first from the
/// family and size asked for, each falling back on the existing file's; the
/// theme and dimensions asked for are always used.
pub fn reconcile(
    family: Option<String>,
    size: Option<u16>,
    theme: Theme,
    dimensions: Window,
    existing: Option<PartialConfig>,
) -> (c: Config)
    ensures
        c@.font == requested_font(
            family_view(family),
            size,
            match existing {
                Some(p) => p@.font,
                None => None,
            },
        ),
        c@.theme == theme,
        c@.dimensions == dimensions,
{
    let old = match existing {
        Some(p) => p,
        None => PartialConfig::new(None, None, None),
    };
    let family = match family {
        Some(f) => Some(f),
        None => match old.font() {
            Some(f) => match &f.family {
                Some(name) => Some(name.clone()),
                None => None,
            },
            None => None,
        },
    };
    let size = match size {
        Some(s) => s,
        None => old.font_size_or_default(),
    };
    let font = Font { family, size: FontSize(size) };
    merge(PartialConfig::new(Some(font), Some(theme), Some(dimensions)), old)
}

} // verus!
