//! RLP encoding primitives.
//!
//! The ledger's canonical transaction serialization is recursive length
//! prefixing: a byte string of up to 55 bytes is prefixed with `0x80` plus
//! its length (a single byte below `0x80` stands for itself), and a list
//! payload is prefixed with `0xc0` plus its length, or with `0xf8` and a
//! length byte when it exceeds 55 bytes.  Integers are encoded as minimal
//! big-endian byte strings.  Transactions here stay far below the sizes that
//! need longer length-of-length forms, so those are not encoded.

use vstd::prelude::*;

verus! {

/// The minimal big-endian byte string of a natural number: empty for zero,
/// no leading zero bytes otherwise.
pub open spec fn be_bytes(n: nat) -> Seq<u8>
    decreases n,
{
    if n == 0 {
        Seq::empty()
    } else {
        be_bytes(n / 256).push((n % 256) as u8)
    }
}

/// 256 to the `k`-th power.
pub open spec fn pow256(k: nat) -> nat
    decreases k,
{
    if k == 0 {
        1
    } else {
        256 * pow256((k - 1) as nat)
    }
}

/// A number below `256^k` needs at most `k` big-endian bytes.
pub proof fn lemma_be_bytes_len(n: nat, k: nat)
    requires
        n < pow256(k),
    ensures
        be_bytes(n).len() <= k,
    decreases k,
{
    if n > 0 {
        assert(pow256(0) == 1);
        if k == 0 {
        } else {
            assert(pow256(k) == 256 * pow256((k - 1) as nat));
            assert(n / 256 < pow256((k - 1) as nat)) by (nonlinear_arith)
                requires
                    n < pow256(k),
                    pow256(k) == 256 * pow256((k - 1) as nat),
            ;
            lemma_be_bytes_len(n / 256, (k - 1) as nat);
        }
    }
}

/// Every `u128` needs at most 16 big-endian bytes.
pub proof fn lemma_be_bytes_len_u128(n: u128)
    ensures
        be_bytes(n as nat).len() <= 16,
{
    reveal_with_fuel(pow256, 17);
    lemma_be_bytes_len(n as nat, 16);
}

/// The minimal big-endian bytes of a `u128`.
pub fn uint_be_bytes(n: u128) -> (r: Vec<u8>)
    ensures
        r@ == be_bytes(n as nat),
    decreases n,
{
    if n == 0 {
        Vec::new()
    } else {
        let mut v = uint_be_bytes(n / 256);
        v.push((n % 256) as u8);
        v
    }
}

/// The RLP encoding of a byte string of at most 55 bytes.
pub open spec fn rlp_str(payload: Seq<u8>) -> Seq<u8>
    recommends
        payload.len() <= 55,
{
    if payload.len() == 1 && payload[0] < 128 {
        payload
    } else {
        seq![(128 + payload.len()) as u8] + payload
    }
}

/// The RLP encoding of a natural number: its minimal big-endian bytes as a
/// string.
pub open spec fn rlp_uint(n: nat) -> Seq<u8>
    recommends
        n < pow256(55),
{
    rlp_str(be_bytes(n))
}

/// The RLP encoding of a list from its already-encoded payload, for payloads
/// shorter than 256 bytes.
pub open spec fn rlp_list(payload: Seq<u8>) -> Seq<u8>
    recommends
        payload.len() < 256,
{
    if payload.len() <= 55 {
        seq![(192 + payload.len()) as u8] + payload
    } else {
        seq![248u8, payload.len() as u8] + payload
    }
}

/// Appends the RLP encoding of the byte string `payload` to `out`.
pub fn rlp_append_str(out: &mut Vec<u8>, payload: &Vec<u8>)
    requires
        payload@.len() <= 55,
        old(out)@.len() + 56 <= usize::MAX,
    ensures
        final(out)@ == old(out)@ + rlp_str(payload@),
{
    let ghost pre = out@;
    if payload.len() == 1 && payload[0] < 128 {
        out.push(payload[0]);
    } else {
        out.push(128 + payload.len() as u8);
        let mut i: usize = 0;
        while i < payload.len()
            invariant
                0 <= i <= payload@.len() <= 55,
                out@.len() == pre.len() + 1 + i,
                out@ == pre + seq![(128 + payload@.len()) as u8] + payload@.take(i as int),
            decreases payload@.len() - i,
        {
            out.push(payload[i]);
            proof {
                assert(pre + seq![(128 + payload@.len()) as u8] + payload@.take(i + 1) =~= (pre
                    + seq![(128 + payload@.len()) as u8] + payload@.take(i as int)).push(
                    payload@[i as int],
                ));
            }
            i = i + 1;
        }
        proof {
            assert(payload@.take(payload@.len() as int) =~= payload@);
            assert(pre + seq![(128 + payload@.len()) as u8] + payload@ =~= pre + rlp_str(
                payload@,
            ));
        }
    }
    proof {
        if payload@.len() == 1 && payload@[0] < 128 {
            assert(final(out)@ =~= pre + rlp_str(payload@));
        }
    }
}

/// Appends the RLP encoding of the integer `n` to `out`.
pub fn rlp_append_uint(out: &mut Vec<u8>, n: u128)
    requires
        old(out)@.len() + 56 <= usize::MAX,
    ensures
        final(out)@ == old(out)@ + rlp_uint(n as nat),
        rlp_uint(n as nat).len() <= 17,
{
    proof {
        lemma_be_bytes_len_u128(n);
    }
    let bytes = uint_be_bytes(n);
    rlp_append_str(out, &bytes);
}

/// Wraps an encoded payload of fewer than 256 bytes as an RLP list.
pub fn rlp_wrap_list(payload: Vec<u8>) -> (r: Vec<u8>)
    requires
        payload@.len() < 256,
    ensures
        r@ == rlp_list(payload@),
{
    let mut out: Vec<u8> = Vec::new();
    if payload.len() <= 55 {
        out.push(192 + payload.len() as u8);
    } else {
        out.push(248);
        out.push(payload.len() as u8);
    }
    let ghost header = out@;
    let mut i: usize = 0;
    while i < payload.len()
        invariant
            0 <= i <= payload@.len() < 256,
            out@ == header + payload@.take(i as int),
        decreases payload@.len() - i,
    {
        out.push(payload[i]);
        proof {
            assert(header + payload@.take(i + 1) =~= (header + payload@.take(i as int)).push(
                payload@[i as int],
            ));
        }
        i = i + 1;
    }
    proof {
        assert(payload@.take(payload@.len() as int) =~= payload@);
        assert(out@ =~= rlp_list(payload@));
    }
    out
}

/// A byte string with its leading zero bytes removed.
pub open spec fn trim_zeros(s: Seq<u8>) -> Seq<u8>
    decreases s.len(),
{
    if s.len() > 0 && s[0] == 0 {
        trim_zeros(s.drop_first())
    } else {
        s
    }
}

/// `trim_zeros` keeps exactly the suffix from the first nonzero byte.
proof fn lemma_trim_zeros_at(s: Seq<u8>, i: int)
    requires
        0 <= i <= s.len(),
        forall|j: int| 0 <= j < i ==> s[j] == 0,
        i < s.len() ==> s[i] != 0,
    ensures
        trim_zeros(s) == s.subrange(i, s.len() as int),
    decreases i,
{
    if i == 0 {
        if s.len() == 0 || s[0] != 0 {
            assert(s.subrange(0, s.len() as int) =~= s);
        } else {
            assert(s.subrange(0, s.len() as int) =~= s);
        }
    } else {
        lemma_trim_zeros_at(s.drop_first(), i - 1);
        assert(s.drop_first().subrange(i - 1, s.drop_first().len() as int) =~= s.subrange(
            i,
            s.len() as int,
        ));
    }
}

/// Removes the leading zero bytes of `v`.
pub fn strip_leading_zeros(v: &Vec<u8>) -> (r: Vec<u8>)
    ensures
        r@ == trim_zeros(v@),
{
    let mut i: usize = 0;
    while i < v.len() && v[i] == 0
        invariant
            0 <= i <= v@.len(),
            forall|j: int| 0 <= j < i ==> v@[j] == 0,
        decreases v@.len() - i,
    {
        i = i + 1;
    }
    proof {
        lemma_trim_zeros_at(v@, i as int);
    }
    crate::address::copy_range(v, i, v.len())
}

/// Trimming never lengthens a byte string.
pub proof fn lemma_trim_zeros_len(s: Seq<u8>)
    ensures
        trim_zeros(s).len() <= s.len(),
    decreases s.len(),
{
    if s.len() > 0 && s[0] == 0 {
        lemma_trim_zeros_len(s.drop_first());
    }
}

} // verus!
