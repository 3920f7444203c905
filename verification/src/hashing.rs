//! Keccak-256 hashing and lowercase hexadecimal rendering.
//!
//! The hash itself is computed by an outside crate; its output is referred to
//! in contracts through the uninterpreted name `keccak_of`.  Hexadecimal
//! rendering is the library's own verified logic.

use vstd::prelude::*;

verus! {

/// The Keccak-256 digest of a byte sequence.  The digest is a pure function
/// of its input alone; its 32-byte value is not written out here.
pub uninterp spec fn keccak_of(input: Seq<u8>) -> Seq<u8>;

/// Relies on `ethers_core::utils::keccak256`: the Keccak-256 digest of the
/// input, always 32 bytes, depending on the input bytes alone.
#[verifier::external_body]
pub(crate) fn keccak256(bytes: &Vec<u8>) -> (r: Vec<u8>)
    ensures
        r@ == keccak_of(bytes@),
        r@.len() == 32,
{
    ethers_core::utils::keccak256(bytes.as_slice()).to_vec()
}

/// The ASCII code of the lowercase hexadecimal digit for a nibble.
pub open spec fn hex_digit_ascii(n: u8) -> u8 {
    if n < 10 {
        (48 + n) as u8
    } else {
        (87 + n) as u8
    }
}

/// The lowercase hexadecimal rendering of a byte sequence, as ASCII codes,
/// two digits per byte, high nibble first.
pub open spec fn hex_ascii(bytes: Seq<u8>) -> Seq<u8> {
    Seq::new(
        bytes.len() * 2,
        |i: int|
            if i % 2 == 0 {
                hex_digit_ascii(bytes[i / 2] / 16)
            } else {
                hex_digit_ascii(bytes[i / 2] % 16)
            },
    )
}

/// Every ASCII code produced by `hex_ascii` is a printable hex digit.
pub proof fn lemma_hex_ascii_printable(bytes: Seq<u8>)
    ensures
        forall|i: int|
            0 <= i < hex_ascii(bytes).len() ==> 48 <= #[trigger] hex_ascii(bytes)[i] <= 102,
{
}

/// Renders bytes as lowercase hexadecimal ASCII codes.
pub fn hex_lower(bytes: &Vec<u8>) -> (r: Vec<u8>)
    requires
        bytes@.len() * 2 <= usize::MAX,
    ensures
        r@ == hex_ascii(bytes@),
{
    let mut out: Vec<u8> = Vec::new();
    let mut i: usize = 0;
    while i < bytes.len()
        invariant
            0 <= i <= bytes@.len(),
            bytes@.len() * 2 <= usize::MAX,
            out@.len() == 2 * i,
            forall|j: int| 0 <= j < 2 * i ==> out@[j] == hex_ascii(bytes@)[j],
        decreases bytes@.len() - i,
    {
        let b = bytes[i];
        out.push(hex_digit(b / 16));
        out.push(hex_digit(b % 16));
        i = i + 1;
    }
    proof {
        assert(out@ =~= hex_ascii(bytes@));
    }
    out
}

/// The characters with the same code points as a sequence of ASCII codes.
pub open spec fn ascii_chars(bytes: Seq<u8>) -> Seq<char> {
    bytes.map_values(|b: u8| b as char)
}

/// Relies on `String::from_utf8`: bytes below 0x80 are valid UTF-8 and
/// decode to the characters with the same code points.
#[verifier::external_body]
pub(crate) fn ascii_to_string(bytes: Vec<u8>) -> (r: String)
    requires
        forall|i: int| 0 <= i < bytes@.len() ==> bytes@[i] < 128,
    ensures
        r@ == ascii_chars(bytes@),
{
    String::from_utf8(bytes).unwrap_or_default()
}

/// The `0x`-prefixed lowercase hexadecimal text of a byte sequence.
pub open spec fn hex_text(bytes: Seq<u8>) -> Seq<char> {
    ascii_chars(seq![48u8, 120u8] + hex_ascii(bytes))
}

/// Renders bytes as `0x`-prefixed lowercase hexadecimal text, as a signed
/// payload or a hash is put on the wire.
pub fn hex_string(bytes: &Vec<u8>) -> (r: String)
    requires
        bytes@.len() * 2 + 2 <= usize::MAX,
    ensures
        r@ == hex_text(bytes@),
{
    let mut out: Vec<u8> = Vec::new();
    out.push(48);
    out.push(120);
    let mut digits = hex_lower(bytes);
    out.append(&mut digits);
    proof {
        lemma_hex_ascii_printable(bytes@);
        assert(out@ =~= seq![48u8, 120u8] + hex_ascii(bytes@));
    }
    ascii_to_string(out)
}

/// The lowercase hexadecimal digit for a nibble.
fn hex_digit(n: u8) -> (r: u8)
    requires
        n < 16,
    ensures
        r == hex_digit_ascii(n),
{
    if n < 10 {
        48 + n
    } else {
        87 + n
    }
}

} // verus!
