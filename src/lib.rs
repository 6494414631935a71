//! Generates and updates a terminal emulator's configuration file: colour
//! presets, font and window settings, layered over what an existing file
//! already holds, and rendered back in a fixed, stable layout.

mod color;
mod config;
mod font;
mod reader;
mod render;
mod text;
mod theme;
mod window;

pub use color::{color_hex, hex_digit, hex_text, inverted_channel, to_hex, Invert};
pub use config::{
    default_config, fields_view, font_option_view, merge, reconcile, requested_font,
    selected_theme, Config, ConfigView, PartialConfig, PartialConfigView,
};
pub use font::{default_font, family_view, font_text, Font, FontSize, FontView};
pub use reader::{
    document_fields, is_loadable, loadable, nesting_bound, parse, read_existing, scan, scan_byte,
    scan_start, scan_widest, yaml_document_count, yaml_i64_at, yaml_str_at, DepthScan,
    MAX_NESTING_DEPTH,
};
pub use render::{color_line, colors_text, config_text, file_text, palette_text, render_file};
pub use text::{
    all_ascii_digits, decimal, digit_char, digits_value, is_ascii_digit, is_ascii_upper,
    lemma_lowercases_to_ignores_case, lemma_lowers_to_ignores_case, lowercases_to, lowers_to,
    parsed_u16, same_ignoring_ascii_case, unsigned_digits,
};
pub use theme::{
    lemma_invert_color_involutive, lemma_invert_colors_involutive, lemma_invert_involutive,
    lemma_preset_name_ignores_case, preset_named, preset_theme, rgb8, spec_rgb8, ColorTheme,
    ColorThemeParseError, Theme, ThemeColors,
};
pub use window::{
    default_window, dimension_fields, dimensions_outcome, int_parse_prefix, split_on_x, window_text, Window,
    WindowSizeParseError,
};
