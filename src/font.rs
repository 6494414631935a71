//! Font settings: an optional family and a size.

use crate::text::{decimal, push_decimal};
use vstd::prelude::*;

verus! {

/// A font size in points.
#[derive(Debug, Copy, Clone, PartialEq, Eq)]
pub struct FontSize(pub u16);

impl Default for FontSize {
    /// Twenty points.
    fn default() -> (s: FontSize)
        ensures
            s.0 == 20,
    {
        FontSize(20)
    }
}

impl FontSize {
    /// The size in decimal.
    pub fn to_string(&self) -> (r: String)
        ensures
            r@ == decimal(self.0 as nat),
    {
        let mut r = String::new();
        push_decimal(&mut r, self.0);
        assert(r@ =~= decimal(self.0 as nat));
        r
    }
}

/// A font family, which may be unknown, and a size.
#[derive(Debug, PartialEq, Eq)]
pub struct Font {
    /// Font family
    pub family: Option<String>,
    pub size: FontSize,
}

/// What a `Font` holds, as plain values.
pub struct FontView {
    pub family: Option<Seq<char>>,
    pub size: u16,
}

pub open spec fn family_view(family: Option<String>) -> Option<Seq<char>> {
    match family {
        Some(f) => Some(f@),
        None => None,
    }
}

impl View for Font {
    type V = FontView;

    open spec fn view(&self) -> FontView {
        FontView { family: family_view(self.family), size: self.size.0 }
    }
}

/// The default font: no family, size 20.
pub open spec fn default_font() -> FontView {
    FontView { family: None, size: 20 }
}

impl Default for Font {
    fn default() -> (f: Font)
        ensures
            f@ == default_font(),
    {
        Font { family: None, size: FontSize::default() }
    }
}

impl Font {
    pub fn new(family: Option<&str>, size: u16) -> (f: Font)
        ensures
            f@ == (FontView {
                family: match family {
                    Some(s) => Some(s@),
                    None => None,
                },
                size,
            }),
    {
        Font {
            family: match family {
                Some(f) => Some(f.to_owned()),
                None => None,
            },
            size: FontSize(size),
        }
    }
}

/// The font block of the configuration file; the `normal.family` entry is
/// there only when the family is known.
pub open spec fn font_text(f: FontView) -> Seq<char> {
    "font:"@ + match f.family {
        Some(name) => "\n    normal:\n        family: "@ + name,
        None => Seq::empty(),
    } + "\n    size: "@ + decimal(f.size as nat)
}

impl Font {
    /// The font block of the configuration file.
    pub fn to_string(&self) -> (r: String)
        ensures
            r@ == font_text(self@),
    {
        let mut r = String::new();
        r.append("font:");
        match &self.family {
            Some(name) => {
                r.append("\n    normal:\n        family: ");
                r.append(name.as_str());
            },
            None => {},
        }
        r.append("\n    size: ");
        push_decimal(&mut r, self.size.0);
        assert(r@ =~= font_text(self@));
        r
    }
}

} // verus!
