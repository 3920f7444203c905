//! Legacy transaction assembly and canonical digests.
//!
//! An unsigned transaction is RLP-encoded with the chain id and two empty
//! integers in the signature slots, as replay protection requires; its
//! Keccak-256 hash is the digest handed to the remote signer.  The signed
//! transaction replaces those slots with the recovery value `v` and the
//! minimally encoded `r` and `s` components of the 65-byte signature.

use vstd::prelude::*;

use crate::hashing::keccak256;
use crate::hashing::keccak_of;
use crate::rlp::rlp_append_str;
use crate::rlp::rlp_append_uint;
use crate::rlp::rlp_list;
use crate::rlp::rlp_str;
use crate::rlp::rlp_uint;
use crate::rlp::rlp_wrap_list;
use crate::rlp::strip_leading_zeros;
use crate::rlp::lemma_trim_zeros_len;
use crate::rlp::trim_zeros;
use crate::address::copy_range;

verus! {

/// A value transfer to sign and submit: recipient, amount, sequencing nonce,
/// gas terms and the chain the transaction is replay-protected for.
/// Immutable once built.
pub struct TransactionRequest {
    pub to: Vec<u8>,
    pub value: u128,
    pub nonce: u64,
    pub gas_price: u128,
    pub gas_limit: u64,
    pub chain_id: u64,
}

/// The mathematical content of a transaction request.
pub ghost struct TxView {
    pub to: Seq<u8>,
    pub value: u128,
    pub nonce: u64,
    pub gas_price: u128,
    pub gas_limit: u64,
    pub chain_id: u64,
}

impl TxView {
    /// A well-formed transaction carries a raw 20-byte recipient address.
    pub open spec fn wf(&self) -> bool {
        self.to.len() == 20
    }
}

impl View for TransactionRequest {
    type V = TxView;

    open spec fn view(&self) -> TxView {
        TxView {
            to: self.to@,
            value: self.value,
            nonce: self.nonce,
            gas_price: self.gas_price,
            gas_limit: self.gas_limit,
            chain_id: self.chain_id,
        }
    }
}

/// The encoded fields shared by the unsigned and the signed form: nonce, gas
/// price, gas limit, recipient, value and the empty data field.
pub open spec fn common_fields(tx: TxView) -> Seq<u8> {
    rlp_uint(tx.nonce as nat) + rlp_uint(tx.gas_price as nat) + rlp_uint(tx.gas_limit as nat)
        + rlp_str(tx.to) + rlp_uint(tx.value as nat) + rlp_str(Seq::empty())
}

/// The encoded fields of the unsigned transaction: the common fields, then
/// the chain id and two zero integers in the signature slots.
pub open spec fn unsigned_fields(tx: TxView) -> Seq<u8> {
    common_fields(tx) + rlp_uint(tx.chain_id as nat) + rlp_uint(0) + rlp_uint(0)
}

/// The full RLP encoding of the unsigned transaction.
pub open spec fn unsigned_tx_rlp(tx: TxView) -> Seq<u8> {
    rlp_list(unsigned_fields(tx))
}

/// The canonical signing digest: the Keccak-256 hash of the unsigned
/// encoding.
pub open spec fn signing_digest_of(tx: TxView) -> Seq<u8> {
    keccak_of(unsigned_tx_rlp(tx))
}

/// The recovery parity encoded in the last signature byte, which arrives
/// either as 0 or 1, or in the legacy 27 or 28 form.
pub open spec fn sig_parity(b: u8) -> nat {
    if b >= 27 {
        (b - 27) as nat
    } else {
        b as nat
    }
}

/// The replay-protected recovery value of the signed transaction.
pub open spec fn sig_v(chain_id: u64, recovery: u8) -> nat {
    (2 * chain_id + 35 + sig_parity(recovery)) as nat
}

/// The encoded fields of the signed transaction: the common fields, then the
/// recovery value and the minimally encoded `r` and `s` components of the
/// 65-byte signature.
pub open spec fn signed_fields(tx: TxView, sig: Seq<u8>) -> Seq<u8>
    recommends
        sig.len() == 65,
{
    common_fields(tx) + rlp_uint(sig_v(tx.chain_id, sig[64])) + rlp_str(
        trim_zeros(sig.subrange(0, 32)),
    ) + rlp_str(trim_zeros(sig.subrange(32, 64)))
}

/// The full RLP encoding of the signed transaction.
pub open spec fn signed_tx_rlp(tx: TxView, sig: Seq<u8>) -> Seq<u8>
    recommends
        sig.len() == 65,
{
    rlp_list(signed_fields(tx, sig))
}

/// Appends the common fields to an empty buffer.
fn append_common(out: &mut Vec<u8>, tx: &TransactionRequest)
    requires
        tx@.wf(),
        old(out)@.len() == 0,
    ensures
        final(out)@ == common_fields(tx@),
        final(out)@.len() <= 90,
{
    rlp_append_uint(out, tx.nonce as u128);
    rlp_append_uint(out, tx.gas_price);
    rlp_append_uint(out, tx.gas_limit as u128);
    rlp_append_str(out, &tx.to);
    rlp_append_uint(out, tx.value);
    let empty: Vec<u8> = Vec::new();
    rlp_append_str(out, &empty);
    proof {
        assert(rlp_str(tx.to@).len() == 21);
        assert(rlp_str(Seq::<u8>::empty()).len() == 1);
        assert(final(out)@ =~= common_fields(tx@));
    }
}

/// RLP-encodes the unsigned transaction.
pub fn encode_unsigned(tx: &TransactionRequest) -> (r: Vec<u8>)
    requires
        tx@.wf(),
    ensures
        r@ == unsigned_tx_rlp(tx@),
{
    let mut out: Vec<u8> = Vec::new();
    append_common(&mut out, tx);
    rlp_append_uint(&mut out, tx.chain_id as u128);
    rlp_append_uint(&mut out, 0);
    rlp_append_uint(&mut out, 0);
    proof {
        assert(rlp_uint(0).len() == 1);
        assert(out@ =~= unsigned_fields(tx@));
    }
    rlp_wrap_list(out)
}

/// Computes the canonical signing digest of the transaction.
pub fn signing_digest(tx: &TransactionRequest) -> (r: Vec<u8>)
    requires
        tx@.wf(),
    ensures
        r@ == signing_digest_of(tx@),
        r@.len() == 32,
{
    let encoded = encode_unsigned(tx);
    keccak256(&encoded)
}

/// RLP-encodes the signed transaction from the request and the 65-byte
/// signature `r || s || recovery` handed back by the remote signer.
pub fn encode_signed(tx: &TransactionRequest, sig: &Vec<u8>) -> (r: Vec<u8>)
    requires
        tx@.wf(),
        sig@.len() == 65,
    ensures
        r@ == signed_tx_rlp(tx@, sig@),
{
    let mut out: Vec<u8> = Vec::new();
    append_common(&mut out, tx);
    let recovery = sig[64];
    let parity: u128 = if recovery >= 27 {
        (recovery - 27) as u128
    } else {
        recovery as u128
    };
    let v: u128 = 2 * (tx.chain_id as u128) + 35 + parity;
    rlp_append_uint(&mut out, v);
    let r_raw = copy_range(sig, 0, 32);
    let r_min = strip_leading_zeros(&r_raw);
    proof {
        lemma_trim_zeros_len(r_raw@);
    }
    rlp_append_str(&mut out, &r_min);
    let s_raw = copy_range(sig, 32, 64);
    let s_min = strip_leading_zeros(&s_raw);
    proof {
        lemma_trim_zeros_len(s_raw@);
    }
    rlp_append_str(&mut out, &s_min);
    proof {
        assert(out@ =~= signed_fields(tx@, sig@));
    }
    rlp_wrap_list(out)
}

} // verus!
