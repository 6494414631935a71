//! The configuration file's text: a fixed layout, byte for byte.

use crate::color::{color_hex, to_hex};
use crate::config::{Config, ConfigView};
use crate::font::font_text;
use crate::theme::{Theme, ThemeColors};
use crate::window::window_text;
use rgb::RGB8;
use vstd::prelude::*;

verus! {

/// One colour entry: a new line, the indented key, and the colour as `'#rrggbb'`.
#[verifier::opaque]
pub open spec fn color_line(key: Seq<char>, c: RGB8) -> Seq<char> {
    "\n        "@ + key + "'#"@ + color_hex(c) + "'"@
}

/// The eight entries of a palette, keys padded to one column.
#[verifier::opaque]
pub open spec fn palette_text(p: ThemeColors) -> Seq<char> {
    color_line("black:   "@, p.black) + color_line("red:     "@, p.red) + color_line("green:   "@, p.green) + color_line("yellow:  "@, p.yellow) + color_line("blue:    "@, p.blue) + color_line("magenta: "@, p.magenta) + color_line("cyan:    "@, p.cyan) + color_line("white:   "@, p.white)
}

/// The colour block of the configuration file.
pub open spec fn colors_text(t: Theme) -> Seq<char> {
    "colors:\n    primary:"@ + color_line("background: "@, t.background) + color_line(
        "foreground: "@,
        t.foreground,
    ) + "\n    normal:"@ + palette_text(t.normal) + "\n    bright:"@ + palette_text(t.bright)
}

/// The configuration file's content: the font, window and colour blocks, one
/// after the other.
pub open spec fn config_text(c: ConfigView) -> Seq<char> {
    font_text(c.font) + "\n"@ + window_text(c.dimensions) + "\n"@ + colors_text(c.theme)
}

/// The whole file: a comment line that carries the time of generation, a
/// blank line, then the configuration.
pub open spec fn file_text(timestamp: Seq<char>, c: ConfigView) -> Seq<char> {
    "# generated by alacritty-conf ("@ + timestamp + ")\n\n"@ + config_text(c)
}

fn push_color_line(s: &mut String, key: &str, c: RGB8)
    ensures
        final(s)@ == old(s)@ + color_line(key@, c),
{
    reveal(color_line);
    s.append("\n        ");
    s.append(key);
    s.append("'#");
    let hex = to_hex(c);
    s.append(hex.as_str());
    s.append("'");
    assert(final(s)@ =~= old(s)@ + color_line(key@, c));
}

fn push_palette(s: &mut String, p: ThemeColors)
    ensures
        final(s)@ == old(s)@ + palette_text(p),
{
    push_color_line(s, "black:   ", p.black);
    push_color_line(s, "red:     ", p.red);
    push_color_line(s, "green:   ", p.green);
    push_color_line(s, "yellow:  ", p.yellow);
    push_color_line(s, "blue:    ", p.blue);
    push_color_line(s, "magenta: ", p.magenta);
    push_color_line(s, "cyan:    ", p.cyan);
    push_color_line(s, "white:   ", p.white);
    reveal(palette_text);
    assert(final(s)@ =~= old(s)@ + palette_text(p));
}

fn push_colors(s: &mut String, t: Theme)
    ensures
        final(s)@ == old(s)@ + colors_text(t),
{
    s.append("colors:\n    primary:");
    push_color_line(s, "background: ", t.background);
    push_color_line(s, "foreground: ", t.foreground);
    s.append("\n    normal:");
    push_palette(s, t.normal);
    s.append("\n    bright:");
    push_palette(s, t.bright);
    assert(final(s)@ =~= old(s)@ + colors_text(t));
}

impl Config {
    /// The configuration file's content.
    pub fn to_string(&self) -> (r: String)
        ensures
            r@ == config_text(self@),
    {
        let mut r = self.font.to_string();
        r.append("\n");
        let window = self.dimensions.to_string();
        r.append(window.as_str());
        r.append("\n");
        push_colors(&mut r, self.theme);
        assert(r@ =~= config_text(self@));
        r
    }
}

/// The whole file, headed by a comment that carries `timestamp`.
pub fn render_file(timestamp: &str, config: &Config) -> (r: String)
    ensures
        r@ == file_text(timestamp@, config@),
{
    let mut r = String::new();
    r.append("# generated by alacritty-conf (");
    r.append(timestamp);
    r.append(")\n\n");
    let body = config.to_string();
    r.append(body.as_str());
    assert(r@ =~= file_text(timestamp@, config@));
    r
}

} // verus!
