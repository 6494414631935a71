//! Window dimensions: construction, the `WxH` argument syntax, and rendering.

use crate::text::{decimal, parse_u16, parsed_u16, push_decimal};
use vstd::prelude::*;
use vstd::string::to_string_from_display_ensures;

verus! {

/// Window size in character cells.
#[derive(Debug, Copy, Clone, PartialEq, Eq)]
pub struct Window {
    pub width: u16,
    pub height: u16,
}

/// The default window: 80 columns, 25 lines.
pub open spec fn default_window() -> Window {
    Window { width: 80, height: 25 }
}

impl Default for Window {
    fn default() -> (w: Window)
        ensures
            w == default_window(),
    {
        Window::new(80, 25)
    }
}

impl Window {
    pub fn new(width: u16, height: u16) -> (w: Window)
        ensures
            w == (Window { width, height }),
    {
        Window { width, height }
    }

    /// Both sizes when both are given; otherwise the default window for both.
    pub fn new_or_default(width: Option<u16>, height: Option<u16>) -> (w: Window)
        ensures
            w == match (width, height) {
                (Some(x), Some(y)) => Window { width: x, height: y },
                _ => default_window(),
            },
    {
        match width {
            Some(w) => match height {
                Some(h) => Window::new(w, h),
                None => Window::default(),
            },
            None => Window::default(),
        }
    }
}

/// The pieces of `s` between the `'x'` characters, as `str::split('x')` gives
/// them: one more piece than there are `'x'`s.
pub open spec fn split_on_x(s: Seq<char>) -> Seq<Seq<char>>
    decreases s.len(),
{
    if s.len() == 0 {
        seq![Seq::empty()]
    } else {
        let p = split_on_x(s.drop_last());
        if s.last() == 'x' {
            p.push(Seq::empty())
        } else {
            p.update(p.len() - 1, p.last().push(s.last()))
        }
    }
}

/// The fields of a dimensions argument: every piece between the `'x'`s, empty
/// ones included, so an argument with two or more `'x'`s has three or more.
pub open spec fn dimension_fields(s: Seq<char>) -> Seq<Seq<char>> {
    split_on_x(s)
}

/// What reading `s` as `WxH` gives: exactly two fields (one `'x'`), each a
/// 16-bit unsigned integer; otherwise the error that names what went wrong
/// first.
pub open spec fn dimensions_outcome(s: Seq<char>, r: Result<Window, WindowSizeParseError>) -> bool {
    let f = dimension_fields(s);
    if f.len() != 2 {
        r matches Err(WindowSizeParseError::TooManyXs)
    } else if parsed_u16(f[0]) is None {
        r matches Err(WindowSizeParseError::IntParse(0, _))
    } else if parsed_u16(f[1]) is None {
        r matches Err(WindowSizeParseError::IntParse(1, _))
    } else {
        r matches Ok(w) && w == Window {
            width: parsed_u16(f[0]).unwrap(),
            height: parsed_u16(f[1]).unwrap(),
        }
    }
}

/// How the message for a field that failed to parse begins.
pub open spec fn int_parse_prefix(field: u8) -> Seq<char> {
    (if field == 0 {
        "first"@
    } else {
        "second"@
    }) + " integer failed to parse: "@
}

/// Why a dimensions argument was refused.
#[derive(Debug)]
pub enum WindowSizeParseError {
    /// The argument does not split into exactly two fields.
    TooManyXs,
    /// Field 0 (the width) or field 1 (the height) is not a 16-bit integer.
    IntParse(u8, std::num::ParseIntError),
}

impl WindowSizeParseError {
    /// The message shown to the user; for a field that failed to parse, it is
    /// followed by the integer parse error's own message.
    pub fn to_string(&self) -> (r: String)
        ensures
            match self {
                WindowSizeParseError::TooManyXs => r@
                    == "too many dimensions; only one 'x' delimiter is allowed"@,
                WindowSizeParseError::IntParse(i, e) => exists|detail: String|
                    #[trigger] to_string_from_display_ensures::<std::num::ParseIntError>(e, detail)
                        && r@ == int_parse_prefix(*i) + detail@,
            },
    {
        match self {
            WindowSizeParseError::TooManyXs => {
                let mut r = String::new();
                r.append("too many dimensions; only one 'x' delimiter is allowed");
                r
            },
            WindowSizeParseError::IntParse(i, e) => {
                let mut r = String::new();
                if *i == 0 {
                    r.append("first");
                } else {
                    r.append("second");
                }
                r.append(" integer failed to parse: ");
                let detail = e.to_string();
                r.append(detail.as_str());
                assert(r@ =~= int_parse_prefix(*i) + detail@);
                r
            },
        }
    }
}

impl Window {
    /// Reads `WxH`: the argument's fields (see `dimension_fields`) must be
    /// exactly two, each a 16-bit unsigned integer.
    pub fn from_dimensions(s: &str) -> (r: Result<Window, WindowSizeParseError>)
        ensures
            dimensions_outcome(s@, r),
    {
        let n = s.unicode_len();
        let mut bounds: Vec<(usize, usize)> = Vec::new();
        let mut start: usize = 0;
        let mut i: usize = 0;
        while i < n
            invariant
                n == s@.len(),
                start <= i <= n,
                bounds@.len() <= start,
                split_on_x(s@.subrange(0, i as int)).len() == bounds@.len() + 1,
                forall|k: int|
                    0 <= k < bounds@.len() ==> {
                        &&& (#[trigger] bounds@[k]).0 <= bounds@[k].1 <= start
                        &&& split_on_x(s@.subrange(0, i as int))[k] == s@.subrange(
                            bounds@[k].0 as int,
                            bounds@[k].1 as int,
                        )
                    },
                split_on_x(s@.subrange(0, i as int)).last() == s@.subrange(start as int, i as int),
            decreases n - i,
        {
            let ghost before = s@.subrange(0, i as int);
            let ghost after = s@.subrange(0, i + 1);
            assert(after.drop_last() =~= before);
            let c = s.get_char(i);
            if c == 'x' {
                bounds.push((start, i));
                start = i + 1;
                assert(s@.subrange(start as int, i + 1) =~= Seq::<char>::empty());
            } else {
                assert(s@.subrange(start as int, i + 1) =~= s@.subrange(start as int, i as int).push(
                    c,
                ));
            }
            i += 1;
        }
        assert(s@.subrange(0, n as int) =~= s@);
        if bounds.len() != 1 {
            return Err(WindowSizeParseError::TooManyXs);
        }
        let (a0, a1) = bounds[0];
        let (b0, b1) = (start, n);
        let first = s.substring_char(a0, a1);
        let second = s.substring_char(b0, b1);
        match parse_u16(first) {
            Ok(w) => match parse_u16(second) {
                Ok(h) => Ok(Window::new(w, h)),
                Err(e) => Err(WindowSizeParseError::IntParse(1, e)),
            },
            Err(e) => Err(WindowSizeParseError::IntParse(0, e)),
        }
    }
}

impl std::str::FromStr for Window {
    type Err = WindowSizeParseError;

    fn from_str(s: &str) -> (r: Result<Window, WindowSizeParseError>)
        ensures
            dimensions_outcome(s@, r),
    {
        Window::from_dimensions(s)
    }
}

/// The window block of the configuration file.
pub open spec fn window_text(w: Window) -> Seq<char> {
    "window:\n    dimensions:\n        columns: "@ + decimal(w.width as nat) + "\n        lines: "@
        + decimal(w.height as nat)
}

impl Window {
    /// The window block of the configuration file.
    pub fn to_string(&self) -> (r: String)
        ensures
            r@ == window_text(*self),
    {
        let mut r = String::new();
        r.append("window:\n    dimensions:\n        columns: ");
        push_decimal(&mut r, self.width);
        r.append("\n        lines: ");
        push_decimal(&mut r, self.height);
        assert(r@ =~= window_text(*self));
        r
    }
}

} // verus!
