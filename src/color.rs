//! The colour model: 8-bit RGB triples, their hex encoding and inversion.

use rgb::RGB8;
use vstd::prelude::*;

verus! {

/// `rgb`'s pixel type: three public channels, read and written as plain fields.
#[verifier::external_type_specification]
#[verifier::reject_recursive_types(T)]
pub struct ExRgb<T>(rgb::Rgb<T>);

/// The lowercase hex digit of a value below sixteen.
pub open spec fn hex_digit(n: u8) -> char
    recommends
        n < 16,
{
    seq!['0', '1', '2', '3', '4', '5', '6', '7', '8', '9', 'a', 'b', 'c', 'd', 'e', 'f'][n as int]
}

/// Two lowercase hex digits per byte, high nibble first, with no separators.
pub open spec fn hex_text(bytes: Seq<u8>) -> Seq<char>
    decreases bytes.len(),
{
    if bytes.len() == 0 {
        Seq::empty()
    } else {
        seq![hex_digit(bytes[0] / 16), hex_digit(bytes[0] % 16)] + hex_text(bytes.drop_first())
    }
}

/// The six hex digits of a colour: red, green, blue.
pub open spec fn color_hex(c: RGB8) -> Seq<char> {
    hex_text(seq![c.r, c.g, c.b])
}

/// Relies on `hex::encode`: each byte becomes two lowercase hex digits, high
/// nibble first, in the order of the input.
#[verifier::external_body]
fn hex_encode(bytes: &[u8]) -> (r: String)
    ensures
        r@ == hex_text(bytes@),
{
    hex::encode(bytes)
}

/// The colour as six lowercase hex digits (`rrggbb`), without a leading `#`.
pub fn to_hex(c: RGB8) -> (r: String)
    ensures
        r@ == color_hex(c),
{
    let bytes: [u8; 3] = [c.r, c.g, c.b];
    let r = hex_encode(&bytes);
    assert(bytes@ =~= seq![c.r, c.g, c.b]);
    r
}

/// A channel mirrored around the middle of its range.
pub open spec fn inverted_channel(x: u8) -> u8 {
    (255 - x) as u8
}

/// Values whose colours can be inverted channel by channel.
pub trait Invert: Sized {
    /// The value with every channel `x` of every colour replaced by `255 - x`.
    spec fn inverted(self) -> Self;

    /// Inverts every channel of every colour in place.
    fn invert(&mut self)
        ensures
            *final(self) == (*old(self)).inverted(),
    ;
}

impl Invert for RGB8 {
    open spec fn inverted(self) -> RGB8 {
        RGB8 { r: inverted_channel(self.r), g: inverted_channel(self.g), b: inverted_channel(self.b) }
    }

    fn invert(&mut self) {
        self.r = 255 - self.r;
        self.g = 255 - self.g;
        self.b = 255 - self.b;
    }
}

} // verus!
