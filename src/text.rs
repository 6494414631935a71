//! Character-level helpers: ASCII case folding, decimal digits, and the
//! integer syntax accepted for window dimensions.

use vstd::prelude::*;

verus! {

pub open spec fn is_ascii_upper(c: char) -> bool {
    'A' <= c && c <= 'Z'
}

/// `l` is what ASCII lowercasing makes of `c`.
pub open spec fn lowers_to(c: char, l: char) -> bool {
    if is_ascii_upper(c) {
        c as u32 + 32 == l as u32
    } else {
        c == l
    }
}

/// `t` is `s` with its ASCII capitals lowered.
pub open spec fn lowercases_to(s: Seq<char>, t: Seq<char>) -> bool {
    &&& s.len() == t.len()
    &&& forall|i: int| 0 <= i < s.len() ==> lowers_to(#[trigger] s[i], t[i])
}

/// The two characters are equal, or are the same ASCII letter in two cases.
pub open spec fn same_ignoring_ascii_case(a: char, b: char) -> bool {
    ||| a == b
    ||| is_ascii_upper(a) && a as u32 + 32 == b as u32
    ||| is_ascii_upper(b) && b as u32 + 32 == a as u32
}

/// Characters that agree up to ASCII case lower to the same character.
pub proof fn lemma_lowers_to_ignores_case(a: char, b: char, l: char)
    requires
        same_ignoring_ascii_case(a, b),
    ensures
        lowers_to(a, l) == lowers_to(b, l),
{
}

/// Strings that agree up to ASCII case lower to the same string.
pub proof fn lemma_lowercases_to_ignores_case(s: Seq<char>, u: Seq<char>, t: Seq<char>)
    requires
        s.len() == u.len(),
        forall|i: int| 0 <= i < s.len() ==> same_ignoring_ascii_case(#[trigger] s[i], u[i]),
    ensures
        lowercases_to(s, t) == lowercases_to(u, t),
{
    if s.len() == t.len() {
        assert forall|i: int| 0 <= i < s.len() implies #[trigger] lowers_to(s[i], t[i]) == lowers_to(
            u[i],
            t[i],
        ) by {
            lemma_lowers_to_ignores_case(s[i], u[i], t[i]);
        }
        if lowercases_to(s, t) {
            assert forall|i: int| 0 <= i < u.len() implies lowers_to(#[trigger] u[i], t[i]) by {
                assert(lowers_to(s[i], t[i]));
            }
        }
        if lowercases_to(u, t) {
            assert forall|i: int| 0 <= i < s.len() implies lowers_to(#[trigger] s[i], t[i]) by {
                assert(lowers_to(u[i], t[i]));
            }
        }
    }
}

/// Whether lowering the ASCII capitals of `s` gives `t`.
pub(crate) fn lowercases_to_exec(s: &str, t: &str) -> (r: bool)
    ensures
        r == lowercases_to(s@, t@),
{
    let n = s.unicode_len();
    if n != t.unicode_len() {
        return false;
    }
    let mut i: usize = 0;
    while i < n
        invariant
            n == s@.len(),
            n == t@.len(),
            i <= n,
            forall|k: int| 0 <= k < i ==> lowers_to(#[trigger] s@[k], t@[k]),
        decreases n - i,
    {
        let c = s.get_char(i);
        let l = t.get_char(i);
        let same = if 'A' <= c && c <= 'Z' {
            c as u32 + 32 == l as u32
        } else {
            c == l
        };
        if !same {
            return false;
        }
        i += 1;
    }
    true
}

/// The decimal digit character of a value below ten.
pub open spec fn digit_char(d: nat) -> char
    recommends
        d < 10,
{
    seq!['0', '1', '2', '3', '4', '5', '6', '7', '8', '9'][d as int]
}

/// The decimal notation of `n`, without sign or leading zeros.
pub open spec fn decimal(n: nat) -> Seq<char>
    decreases n,
{
    if n < 10 {
        seq![digit_char(n)]
    } else {
        decimal(n / 10).push(digit_char(n % 10))
    }
}

fn digit_str(d: u16) -> (r: &'static str)
    requires
        d < 10,
    ensures
        r@ == seq![digit_char(d as nat)],
{
    proof {
        reveal_strlit("0");
        reveal_strlit("1");
        reveal_strlit("2");
        reveal_strlit("3");
        reveal_strlit("4");
        reveal_strlit("5");
        reveal_strlit("6");
        reveal_strlit("7");
        reveal_strlit("8");
        reveal_strlit("9");
    }
    let r = match d {
        0 => "0",
        1 => "1",
        2 => "2",
        3 => "3",
        4 => "4",
        5 => "5",
        6 => "6",
        7 => "7",
        8 => "8",
        _ => "9",
    };
    assert(r@ =~= seq![digit_char(d as nat)]);
    r
}

/// Appends the decimal notation of `n`.
pub(crate) fn push_decimal(s: &mut String, n: u16)
    ensures
        final(s)@ == old(s)@ + decimal(n as nat),
    decreases n,
{
    if n >= 10 {
        push_decimal(s, n / 10);
    }
    s.append(digit_str(n % 10));
    assert(final(s)@ =~= old(s)@ + decimal(n as nat));
}

pub open spec fn is_ascii_digit(c: char) -> bool {
    '0' <= c && c <= '9'
}

/// The value of a string of decimal digits.
pub open spec fn digits_value(d: Seq<char>) -> nat
    decreases d.len(),
{
    if d.len() == 0 {
        0
    } else {
        digits_value(d.drop_last()) * 10 + (d.last() as u32 - '0' as u32) as nat
    }
}

/// Every character is an ASCII digit.
pub open spec fn all_ascii_digits(d: Seq<char>) -> bool {
    forall|i: int| 0 <= i < d.len() ==> is_ascii_digit(#[trigger] d[i])
}

/// What follows an optional leading `+`.
pub open spec fn unsigned_digits(s: Seq<char>) -> Seq<char> {
    if s.len() > 0 && s[0] == '+' {
        s.drop_first()
    } else {
        s
    }
}

/// What reading `s` as a 16-bit unsigned integer gives: an optional `+`,
/// then one or more ASCII digits whose value is at most 65535.
pub open spec fn parsed_u16(s: Seq<char>) -> Option<u16> {
    let d = unsigned_digits(s);
    if d.len() > 0 && all_ascii_digits(d) && digits_value(d) <= 65535 {
        Some(digits_value(d) as u16)
    } else {
        None
    }
}

/// std's integer parse error, carried in `WindowSizeParseError` as it came.
#[verifier::external_type_specification]
#[verifier::external_body]
pub struct ExParseIntError(std::num::ParseIntError);

/// Relies on `<u16 as std::str::FromStr>::from_str`, which accepts exactly an
/// optional `+` followed by one or more ASCII digits whose value fits in 16 bits.
#[verifier::external_body]
pub(crate) fn parse_u16(s: &str) -> (r: Result<u16, std::num::ParseIntError>)
    ensures
        match r {
            Ok(v) => parsed_u16(s@) == Some(v),
            Err(_) => parsed_u16(s@) is None,
        },
{
    s.parse::<u16>()
}

} // verus!
