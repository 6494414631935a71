//! Reads back what the tool understands of an existing configuration file.

use crate::config::{fields_view, PartialConfig};
use vstd::prelude::*;
use vstd::string::StringSliceAdditionalSpecFns;
use yaml_rust::Yaml;

verus! {

/// A node of a loaded YAML document, carried through without looking inside.
#[verifier::external_type_specification]
#[verifier::external_body]
pub struct ExYaml(yaml_rust::Yaml);

/// What one pass over a text's bytes has gathered so far for bounding the
/// YAML loader's nesting depth.
pub struct DepthScan {
    /// Bytes on the current line (lines end at `\n`, where the loader's
    /// column count restarts).
    pub line_len: nat,
    /// A byte other than a space or tab has been seen on the current line.
    pub started: bool,
    /// The current line is a comment: its first such byte is `#`, and no lone
    /// `\r` has ended the comment since.
    pub comment: bool,
    /// The last byte was `\r`.
    pub after_cr: bool,
    /// The longest finished line that is not a comment.
    pub widest: nat,
    /// How many `[` or `{` bytes stand outside comment lines.
    pub opens: nat,
}

pub open spec fn scan_start() -> DepthScan {
    DepthScan { line_len: 0, started: false, comment: false, after_cr: false, widest: 0, opens: 0 }
}

/// The longest line that is not a comment, the current one included.
pub open spec fn scan_widest(s: DepthScan) -> nat {
    if !s.comment && s.line_len > s.widest {
        s.line_len
    } else {
        s.widest
    }
}

pub open spec fn scan_byte(s: DepthScan, b: u8) -> DepthScan {
    if b == 0x0a {
        DepthScan {
            line_len: 0,
            started: false,
            comment: false,
            after_cr: false,
            widest: scan_widest(s),
            opens: s.opens,
        }
    } else {
        let blank = b == 0x20 || b == 0x09;
        let comment = if s.after_cr {
            false
        } else if !s.started && !blank {
            b == 0x23
        } else {
            s.comment
        };
        DepthScan {
            line_len: s.line_len + 1,
            started: s.started || !blank,
            comment,
            after_cr: b == 0x0d,
            widest: s.widest,
            opens: if (b == 0x5b || b == 0x7b) && !comment {
                s.opens + 1
            } else {
                s.opens
            },
        }
    }
}

pub open spec fn scan(bytes: Seq<u8>) -> DepthScan
    decreases bytes.len(),
{
    if bytes.len() == 0 {
        scan_start()
    } else {
        scan_byte(scan(bytes.drop_last()), bytes.last())
    }
}

/// An upper bound on how deep the YAML loader's recursion goes on a text.
///
/// A block collection opens only at a column greater than the one around it,
/// but for one sequence without indentation per mapping, and only on a line
/// that is not a comment; columns count from the last `\n` and stay below
/// that line's length. So block nesting is at most twice the widest such line.
/// Each `[` or `{` opens one flow collection and at most one single-pair
/// mapping in it. A few more levels cover the document itself.
pub open spec fn nesting_bound(bytes: Seq<u8>) -> nat {
    let s = scan(bytes);
    2 * scan_widest(s) + 2 * s.opens + 4
}

/// The deepest nesting that a text may reach to be handed to the YAML loader,
/// whose recursion has no depth limit of its own.
pub const MAX_NESTING_DEPTH: usize = 512;

/// The text is shallow enough for the YAML loader.
pub open spec fn loadable(source: &str) -> bool {
    nesting_bound(source.spec_bytes()) <= MAX_NESTING_DEPTH
}

/// Whether the text is shallow enough for the YAML loader.
pub fn is_loadable(source: &str) -> (r: bool)
    ensures
        r == loadable(source),
{
    let bytes = source.as_bytes();
    let mut line_len: usize = 0;
    let mut started = false;
    let mut comment = false;
    let mut after_cr = false;
    let mut widest: usize = 0;
    let mut opens: usize = 0;
    let mut i: usize = 0;
    while i < bytes.len()
        invariant
            bytes@ == source.spec_bytes(),
            i <= bytes@.len(),
            line_len <= i,
            widest <= i,
            opens <= i,
            scan(bytes@.subrange(0, i as int)) == (DepthScan {
                line_len: line_len as nat,
                started,
                comment,
                after_cr,
                widest: widest as nat,
                opens: opens as nat,
            }),
        decreases bytes@.len() - i,
    {
        assert(bytes@.subrange(0, i + 1).drop_last() =~= bytes@.subrange(0, i as int));
        let b = bytes[i];
        if b == 0x0a {
            if !comment && line_len > widest {
                widest = line_len;
            }
            line_len = 0;
            started = false;
            comment = false;
            after_cr = false;
        } else {
            let blank = b == 0x20 || b == 0x09;
            if after_cr {
                comment = false;
            } else if !started && !blank {
                comment = b == 0x23;
            }
            line_len += 1;
            started = started || !blank;
            after_cr = b == 0x0d;
            if (b == 0x5b || b == 0x7b) && !comment {
                opens += 1;
            }
        }
        i += 1;
    }
    assert(bytes@.subrange(0, i as int) =~= bytes@);
    let w = if !comment && line_len > widest {
        line_len
    } else {
        widest
    };
    w <= 256 && opens <= 256 && 2 * w + 2 * opens + 4 <= MAX_NESTING_DEPTH
}

/// How many documents the YAML loader finds in a text, or `None` when the
/// text is not well-formed YAML.
pub uninterp spec fn yaml_document_count(source: Seq<char>) -> Option<nat>;

/// The string that the YAML loader finds at a path of keys from the root of a
/// text's first document, if that node is a string.
pub uninterp spec fn yaml_str_at(source: Seq<char>, path: Seq<Seq<char>>) -> Option<Seq<char>>;

/// The integer that the YAML loader finds at a path of keys from the root of a
/// text's first document, if that node is an integer.
pub uninterp spec fn yaml_i64_at(source: Seq<char>, path: Seq<Seq<char>>) -> Option<i64>;

/// Relies on `yaml_rust::YamlLoader::load_from_str`: the documents of the text
/// in order, or an error when it cannot be parsed; the outcome depends on the
/// text alone.
#[verifier::external_body]
fn load_documents(source: &str) -> (r: Option<Vec<Yaml>>)
    requires
        loadable(source),
    ensures
        match r {
            Some(docs) => yaml_document_count(source@) == Some(docs@.len()),
            None => yaml_document_count(source@) is None,
        },
{
    yaml_rust::YamlLoader::load_from_str(source).ok()
}

/// Relies on `yaml_rust::YamlLoader::load_from_str`, `yaml_rust::Yaml`'s
/// indexing by `&str` and `yaml_rust::Yaml::as_str`: the string node at
/// `path` in the text's first document.
#[verifier::external_body]
fn document_str_at(source: &str, path: [&str; 3]) -> (r: Option<String>)
    requires
        loadable(source),
    ensures
        match r {
            Some(v) => yaml_str_at(source@, seq![path[0]@, path[1]@, path[2]@]) == Some(v@),
            None => yaml_str_at(source@, seq![path[0]@, path[1]@, path[2]@]) is None,
        },
{
    let docs = yaml_rust::YamlLoader::load_from_str(source).ok()?;
    docs.first()?[path[0]][path[1]][path[2]].as_str().map(String::from)
}

/// Relies on `yaml_rust::YamlLoader::load_from_str`, `yaml_rust::Yaml`'s
/// indexing by `&str` and `yaml_rust::Yaml::as_i64`: the integer node at
/// `path` in the text's first document.
#[verifier::external_body]
fn document_i64_at(source: &str, path: [&str; 3]) -> (r: Option<i64>)
    requires
        loadable(source),
    ensures
        r == yaml_i64_at(source@, seq![path[0]@, path[1]@, path[2]@]),
{
    let docs = yaml_rust::YamlLoader::load_from_str(source).ok()?;
    docs.first()?[path[0]][path[1]][path[2]].as_i64()
}

/// Relies on `yaml_rust::YamlLoader::load_from_str`, `yaml_rust::Yaml`'s
/// indexing by `&str` and `yaml_rust::Yaml::as_i64`: the integer node at the
/// two-key `path` in the text's first document.
#[verifier::external_body]
fn document_i64_at_depth2(source: &str, path: [&str; 2]) -> (r: Option<i64>)
    requires
        loadable(source),
    ensures
        r == yaml_i64_at(source@, seq![path[0]@, path[1]@]),
{
    let docs = yaml_rust::YamlLoader::load_from_str(source).ok()?;
    docs.first()?[path[0]][path[1]].as_i64()
}

/// What `parse` makes of a loadable text that holds at least one document.
pub open spec fn document_fields(source: Seq<char>) -> crate::config::PartialConfigView {
    fields_view(
        yaml_str_at(source, seq!["font"@, "normal"@, "family"@]),
        yaml_i64_at(source, seq!["font"@, "size"@]),
        yaml_i64_at(source, seq!["window"@, "dimensions"@, "columns"@]),
        yaml_i64_at(source, seq!["window"@, "dimensions"@, "lines"@]),
    )
}

/// Reads the font and window settings of a configuration file's text.
///
/// Gives nothing when the text is not YAML or holds no document. Otherwise the
/// first document's `font.normal.family`, `font.size`,
/// `window.dimensions.columns` and `window.dimensions.lines` are looked up, and
/// what was found becomes a partial configuration as
/// `PartialConfig::from_fields` makes it: the font and window are always
/// there, with defaults for what was missing, and the theme never is.
pub fn parse(source: &str) -> (r: Option<PartialConfig>)
    requires
        loadable(source),
    ensures
        r is Some <==> (yaml_document_count(source@) matches Some(n) && n > 0),
        r matches Some(p) ==> p@ == document_fields(source@),
{
    let docs = match load_documents(source) {
        Some(d) => d,
        None => return None,
    };
    if docs.len() == 0 {
        return None;
    }
    let family = document_str_at(source, ["font", "normal", "family"]);
    let size = document_i64_at_depth2(source, ["font", "size"]);
    let columns = document_i64_at(source, ["window", "dimensions", "columns"]);
    let lines = document_i64_at(source, ["window", "dimensions", "lines"]);
    let family_str: Option<&str> = match &family {
        Some(f) => Some(f.as_str()),
        None => None,
    };
    let p = PartialConfig::from_fields(family_str, size, columns, lines);
    Some(p)
}

/// Reads an existing configuration file's text, as `parse` does, when it is
/// shallow enough for the YAML loader (see `nesting_bound`); a text nested
/// deeper gives nothing, as an unreadable one does.
pub fn read_existing(source: &str) -> (r: Option<PartialConfig>)
    ensures
        !loadable(source) ==> r is None,
        loadable(source) ==> (r is Some <==> (yaml_document_count(source@) matches Some(n) && n
            > 0)),
        loadable(source) ==> (r matches Some(p) ==> p@ == document_fields(source@)),
{
    if is_loadable(source) {
        parse(source)
    } else {
        None
    }
}

} // verus!
