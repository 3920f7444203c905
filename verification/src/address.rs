//! Account address derivation.
//!
//! A remotely derived public key arrives as SEC1 bytes (compressed or
//! uncompressed).  The key is parsed and re-encoded to the uncompressed
//! 65-byte form by an outside elliptic-curve crate; the Keccak-256 hash of
//! the 64 coordinate bytes is truncated to its low 20 bytes, which are then
//! rendered as case-checksummed hexadecimal text.

use vstd::prelude::*;

use crate::hashing::ascii_chars;
use crate::hashing::ascii_to_string;
use crate::hashing::hex_ascii;
use crate::hashing::hex_lower;
use crate::hashing::keccak256;
use crate::hashing::keccak_of;
use crate::hashing::lemma_hex_ascii_printable;

use ethers_core::k256::elliptic_curve::sec1::ToEncodedPoint;

verus! {

/// The parsed SEC1 point of the secp256k1 curve, re-encoded in uncompressed
/// form: `None` for malformed encodings or points off the curve, otherwise
/// the 65-byte sequence beginning with the marker byte `0x04`.
pub uninterp spec fn sec1_point_of(input: Seq<u8>) -> Option<Seq<u8>>;

/// Relies on `k256::PublicKey::from_sec1_bytes` (reached through
/// `ethers_core::k256`) to parse a compressed or uncompressed SEC1 encoding
/// of a secp256k1 point, rejecting malformed bytes and invalid curve points,
/// and on `PublicKey::to_encoded_point(false)` to re-encode the parsed point
/// in the uncompressed 65-byte SEC1 form with leading marker byte `0x04`.
/// Both are functions of the input bytes alone.
#[verifier::external_body]
fn decompress_sec1(bytes: &Vec<u8>) -> (r: Option<Vec<u8>>)
    ensures
        r is Some <==> sec1_point_of(bytes@) is Some,
        r matches Some(p) ==> Some(p@) == sec1_point_of(bytes@),
        r matches Some(p) ==> p@.len() == 65 && p@[0] == 4u8,
{
    match ethers_core::k256::PublicKey::from_sec1_bytes(bytes.as_slice()) {
        Ok(pk) => Some(pk.to_encoded_point(false).as_bytes().to_vec()),
        Err(_) => None,
    }
}

/// A public key as handed back by the remote signer: SEC1-encoded point
/// bytes together with the derivation chain code.  Consumed transiently by
/// address derivation; never persisted.
pub struct PublicKeyMaterial {
    pub bytes: Vec<u8>,
    pub chain_code: Vec<u8>,
}

/// Address derivation failures.
#[derive(Clone, Copy, Debug, PartialEq, Eq, Structural)]
pub enum AddressError {
    /// The key bytes are not a valid SEC1 encoding of a curve point.
    MalformedKey,
}

/// A derived account: the raw 20-byte address and its checksummed rendering.
pub struct AccountAddress {
    pub bytes: Vec<u8>,
    pub text: String,
}

/// The raw 20-byte address of a valid SEC1 key: the low 20 bytes of the
/// Keccak-256 hash of the 64 coordinate bytes of the uncompressed point.
pub open spec fn address_bytes_of(key: Seq<u8>) -> Seq<u8>
    recommends
        sec1_point_of(key) is Some,
{
    keccak_of(sec1_point_of(key).unwrap().subrange(1, 65)).subrange(12, 32)
}

/// The checksum nibble that governs the casing of hex digit `i`.
pub open spec fn checksum_nibble(hash: Seq<u8>, i: int) -> u8 {
    if i % 2 == 0 {
        hash[i / 2] / 16
    } else {
        hash[i / 2] % 16
    }
}

/// A lowercase hex digit, uppercased when its checksum nibble is 8 or more.
pub open spec fn cased_digit(c: u8, nibble: u8) -> u8 {
    if 97 <= c <= 102 && nibble >= 8 {
        (c - 32) as u8
    } else {
        c
    }
}

/// The case-checksummed ASCII rendering of a raw address: `0x`, then the 40
/// lowercase hex digits, each uppercased exactly when the corresponding
/// nibble of the Keccak-256 hash of the lowercase digits is 8 or more.
pub open spec fn checksum_ascii(addr: Seq<u8>) -> Seq<u8> {
    let hx = hex_ascii(addr);
    let hash = keccak_of(hx);
    seq![48u8, 120u8] + Seq::new(hx.len(), |i: int| cased_digit(hx[i], checksum_nibble(hash, i)))
}

/// The checksummed text of a raw address, as characters.
pub open spec fn checksum_text(addr: Seq<u8>) -> Seq<char> {
    ascii_chars(checksum_ascii(addr))
}

/// What it means for an account to be the one derived from `key`.
pub open spec fn derived_from(a: AccountAddress, key: Seq<u8>) -> bool {
    &&& sec1_point_of(key) is Some
    &&& a.bytes@ == address_bytes_of(key)
    &&& a.bytes@.len() == 20
    &&& a.text@ == checksum_text(a.bytes@)
}

/// Every ASCII code of a checksummed rendering is printable (below 0x80).
proof fn lemma_checksum_ascii_printable(addr: Seq<u8>)
    ensures
        forall|i: int|
            0 <= i < checksum_ascii(addr).len() ==> #[trigger] checksum_ascii(addr)[i] < 128,
{
    lemma_hex_ascii_printable(addr);
}

/// Copies the bytes of `v` between `start` and `end`.
pub fn copy_range(v: &Vec<u8>, start: usize, end: usize) -> (r: Vec<u8>)
    requires
        start <= end <= v@.len(),
    ensures
        r@ == v@.subrange(start as int, end as int),
{
    let mut out: Vec<u8> = Vec::new();
    let mut i: usize = start;
    while i < end
        invariant
            start <= i <= end <= v@.len(),
            out@.len() == i - start,
            forall|j: int| 0 <= j < i - start ==> out@[j] == v@[start + j],
        decreases end - i,
    {
        out.push(v[i]);
        i = i + 1;
    }
    proof {
        assert(out@ =~= v@.subrange(start as int, end as int));
    }
    out
}

/// Renders a raw 20-byte address as its case-checksummed text.
pub fn checksum_string(addr: &Vec<u8>) -> (r: String)
    requires
        addr@.len() == 20,
    ensures
        r@ == checksum_text(addr@),
{
    let hx = hex_lower(addr);
    let hash = keccak256(&hx);
    let mut out: Vec<u8> = Vec::new();
    out.push(48);
    out.push(120);
    let ghost target = checksum_ascii(addr@);
    let mut i: usize = 0;
    while i < hx.len()
        invariant
            0 <= i <= hx@.len(),
            hx@ == hex_ascii(addr@),
            hash@ == keccak_of(hx@),
            hash@.len() == 32,
            addr@.len() == 20,
            target == checksum_ascii(addr@),
            out@.len() == i + 2,
            out@[0] == 48 && out@[1] == 120,
            forall|j: int| 0 <= j < i ==> #[trigger] out@[j + 2] == target[j + 2],
        decreases hx@.len() - i,
    {
        let c = hx[i];
        let h = hash[i / 2];
        let nibble = if i % 2 == 0 {
            h / 16
        } else {
            h % 16
        };
        let d = if 97 <= c && c <= 102 && nibble >= 8 {
            c - 32
        } else {
            c
        };
        out.push(d);
        i = i + 1;
    }
    proof {
        assert forall|k: int| 0 <= k < out@.len() implies out@[k] == checksum_ascii(addr@)[k] by {
            if k >= 2 {
                assert(out@[(k - 2) + 2] == target[(k - 2) + 2]);
            }
        }
        assert(out@ =~= checksum_ascii(addr@));
        lemma_checksum_ascii_printable(addr@);
    }
    ascii_to_string(out)
}

/// Derives the account address of a SEC1-encoded public key: the key is
/// decompressed to the uncompressed 65-byte point, the 64 coordinate bytes
/// are hashed with Keccak-256, the low 20 bytes of the digest form the raw
/// address, and the text is its case-checksummed rendering.  Malformed key
/// bytes are rejected with `MalformedKey`; no partial address is returned.
pub fn derive_address(material: &PublicKeyMaterial) -> (r: Result<AccountAddress, AddressError>)
    ensures
        r matches Ok(a) ==> derived_from(a, material.bytes@),
        r is Ok <==> sec1_point_of(material.bytes@) is Some,
        r matches Err(e) ==> e == AddressError::MalformedKey,
{
    match decompress_sec1(&material.bytes) {
        None => Err(AddressError::MalformedKey),
        Some(point) => {
            let coords = copy_range(&point, 1, 65);
            let digest = keccak256(&coords);
            let raw = copy_range(&digest, 12, 32);
            let text = checksum_string(&raw);
            Ok(AccountAddress { bytes: raw, text })
        },
    }
}

/// Address derivation is deterministic: two accounts derived from the same
/// SEC1 key bytes agree in both their raw bytes and their checksummed text.
pub proof fn lemma_derive_deterministic(a1: AccountAddress, a2: AccountAddress, key: Seq<u8>)
    requires
        derived_from(a1, key),
        derived_from(a2, key),
    ensures
        a1.bytes@ == a2.bytes@,
        a1.text@ == a2.text@,
{
}

} // verus!
