//! The transaction execution state machine.
//!
//! One transaction attempt walks the phases deriving-address, quoting-fee,
//! awaiting-nonce, signing, submitting and awaiting-confirmation, ending in
//! success or a classified failure.  Every remote interaction (signer or
//! relay) is a suspension point: `step` consumes the phase and the remote
//! outcome, decides the next phase, and names the next remote action for the
//! host to perform.  The nonce cache advances only when a transaction is
//! confirmed on-ledger, never on mere submission, so a failed attempt can
//! retry with the same nonce.

use vstd::prelude::*;

use crate::address::AccountAddress;
use crate::address::AddressError;
use crate::address::PublicKeyMaterial;
use crate::address::address_bytes_of;
use crate::address::derive_address;
use crate::address::sec1_point_of;
use crate::nonce::NonceSequencer;
use crate::nonce::next_nonce_spec;
use crate::nonce::record_spec;
use crate::transaction::TransactionRequest;
use crate::transaction::TxView;
use crate::transaction::encode_signed;
use crate::transaction::signed_tx_rlp;
use crate::transaction::signing_digest;
use crate::transaction::signing_digest_of;

verus! {

/// The fixed terms of the default transfer: amount, gas terms and chain.
/// The recipient is the sender's own account, as the self-funding flow uses.
#[derive(Clone, Copy)]
pub struct ExecConfig {
    pub value: u128,
    pub gas_price: u128,
    pub gas_limit: u64,
    pub chain_id: u64,
}

/// A failure of the remote threshold signer, distinguished so the caller
/// can decide between retry and abort.
#[derive(Clone, Copy, Debug, PartialEq, Eq, Structural)]
pub enum SignerError {
    /// The signing service could not be reached (transport or timeout).
    Unavailable,
    /// The signing service answered with an explicit refusal.
    Rejected,
}

/// Why a transaction attempt ended without a confirmed transaction.
#[derive(Debug)]
pub enum FailureReason {
    /// The relay could not quote the cost of the submission call.
    FeeQuoteUnavailable,
    /// The remote signer could not be reached.
    RemoteSignerUnavailable,
    /// The remote signer refused the request.
    RemoteSignerRejected,
    /// The remote key bytes are not a valid SEC1 curve point.
    MalformedKey,
    /// The ledger rejected the submission, with its own message.
    SubmissionRejected(String),
    /// Submitted, but not yet observable by hash: retryable, and the nonce
    /// cache is untouched so a retry reuses the same nonce.
    Unconfirmed,
}

/// Equality of failure reasons up to the text carried by a rejection.
pub open spec fn failure_like(a: FailureReason, b: FailureReason) -> bool {
    match (a, b) {
        (FailureReason::FeeQuoteUnavailable, FailureReason::FeeQuoteUnavailable) => true,
        (FailureReason::RemoteSignerUnavailable, FailureReason::RemoteSignerUnavailable) => true,
        (FailureReason::RemoteSignerRejected, FailureReason::RemoteSignerRejected) => true,
        (FailureReason::MalformedKey, FailureReason::MalformedKey) => true,
        (FailureReason::SubmissionRejected(m1), FailureReason::SubmissionRejected(m2)) => m1@
            == m2@,
        (FailureReason::Unconfirmed, FailureReason::Unconfirmed) => true,
        _ => false,
    }
}

/// A transaction as the ledger reports it when looked up by hash: the hash
/// and the nonce actually recorded on-ledger.
pub struct ConfirmedTransaction {
    pub hash: String,
    pub nonce: u64,
}

/// The terminal outcome of one attempt.
pub enum TxStatus {
    Success,
    Failed(FailureReason),
}

/// What the caller receives: the transaction hash on success, an empty hash
/// otherwise, and the classified status.  No failure ever fabricates a hash.
pub struct TransactionResult {
    pub hash: String,
    pub status: TxStatus,
}

/// Where one transaction attempt stands.
pub enum ExecPhase {
    /// Nothing started yet.
    Idle,
    /// The remote public key is being derived.
    DerivingAddress,
    /// The sender is known; the relay is quoting the submission cost.
    QuotingFee { sender: Vec<u8> },
    /// No cached nonce existed; the relay is reporting the transaction count.
    AwaitingNonce { sender: Vec<u8>, fee: u128 },
    /// The remote signer is signing the canonical digest.
    Signing { sender: Vec<u8>, fee: u128, nonce: u64 },
    /// The signed payload is being broadcast, paying the quoted fee.
    Submitting { sender: Vec<u8>, nonce: u64 },
    /// Submission returned a provisional hash; the ledger is being asked for
    /// the transaction by that hash.
    AwaitingConfirmation { sender: Vec<u8>, nonce: u64, hash: String },
    /// The transaction was observed on-ledger.
    Succeeded { hash: String },
    /// The attempt ended without a confirmed transaction.
    Failed { reason: FailureReason },
}

/// What a remote interaction came back with.
pub enum ExecEvent {
    /// Begin an attempt.
    Start,
    /// The signer's answer to the public-key derivation.
    KeyDerived(Result<PublicKeyMaterial, SignerError>),
    /// The relay's answer to the fee quote, in cycles.
    FeeQuoted(Result<u128, String>),
    /// The relay's answer to the transaction-count query.
    CountObserved(Result<u64, String>),
    /// The signer's answer to the digest signature request: 65 bytes
    /// `r || s || recovery` on success.
    Signed(Result<Vec<u8>, SignerError>),
    /// The relay's answer to the broadcast: the provisional hash, or the
    /// ledger's rejection message.
    Submitted(Result<String, String>),
    /// The relay's answer to the get-by-hash lookup.
    Confirmed(Result<Option<ConfirmedTransaction>, String>),
}

/// The remote action the host must perform next, if any.
pub enum ExecAction {
    /// Ask the remote signer for the public key.
    DeriveKey,
    /// Ask the relay to quote the submission cost.
    QuoteFee,
    /// Ask the relay for the account's transaction count.
    QueryTransactionCount { account: Vec<u8> },
    /// Ask the remote signer to sign this 32-byte digest.
    RequestSignature { digest: Vec<u8> },
    /// Broadcast this signed payload, paying the quoted cycles.
    SubmitPayload { payload: Vec<u8>, cycles: u128 },
    /// Ask the relay for the transaction with this hash.
    LookupTransaction { hash: String },
    /// The attempt is over.
    Halt,
}

/// The transaction the executor assembles: a transfer of the configured
/// value from the sender to itself, under the given nonce.
pub open spec fn tx_view_of(config: ExecConfig, sender: Seq<u8>, nonce: u64) -> TxView {
    TxView {
        to: sender,
        value: config.value,
        nonce,
        gas_price: config.gas_price,
        gas_limit: config.gas_limit,
        chain_id: config.chain_id,
    }
}

/// Every sender address a phase carries is a raw 20-byte address.
pub open spec fn phase_wf(phase: ExecPhase) -> bool {
    match phase {
        ExecPhase::QuotingFee { sender } => sender@.len() == 20,
        ExecPhase::AwaitingNonce { sender, .. } => sender@.len() == 20,
        ExecPhase::Signing { sender, .. } => sender@.len() == 20,
        ExecPhase::Submitting { sender, .. } => sender@.len() == 20,
        ExecPhase::AwaitingConfirmation { sender, .. } => sender@.len() == 20,
        _ => true,
    }
}

/// The event kinds that can answer each phase.
pub open spec fn event_fits(phase: ExecPhase, event: ExecEvent) -> bool {
    match (phase, event) {
        (ExecPhase::Idle, ExecEvent::Start) => true,
        (ExecPhase::DerivingAddress, ExecEvent::KeyDerived(_)) => true,
        (ExecPhase::QuotingFee { .. }, ExecEvent::FeeQuoted(_)) => true,
        (ExecPhase::AwaitingNonce { .. }, ExecEvent::CountObserved(_)) => true,
        (ExecPhase::Signing { .. }, ExecEvent::Signed(_)) => true,
        (ExecPhase::Submitting { .. }, ExecEvent::Submitted(_)) => true,
        (ExecPhase::AwaitingConfirmation { .. }, ExecEvent::Confirmed(_)) => true,
        _ => false,
    }
}

/// The cached nonce of the account a phase is about, if any, is below
/// `u64::MAX`, so one past it still fits.  Machine limit only.
pub open spec fn cache_ok(phase: ExecPhase, m: Map<Seq<u8>, u64>) -> bool {
    match phase {
        ExecPhase::QuotingFee { sender } => m.contains_key(sender@) ==> m[sender@] < u64::MAX,
        ExecPhase::AwaitingNonce { sender, .. } => m.contains_key(sender@) ==> m[sender@]
            < u64::MAX,
        _ => true,
    }
}

/// The outcome is a terminal failure with this reason, the attempt halts,
/// and the nonce cache is exactly as before.
pub open spec fn failed_outcome(
    p2: ExecPhase,
    a2: ExecAction,
    m: Map<Seq<u8>, u64>,
    m2: Map<Seq<u8>, u64>,
    reason: FailureReason,
) -> bool {
    &&& match p2 {
        ExecPhase::Failed { reason: r } => failure_like(r, reason),
        _ => false,
    }
    &&& a2 == ExecAction::Halt
    &&& m2 == m
}

/// The full transition relation of the executor: what phase, action and
/// nonce cache each (phase, event) pair leads to.
pub open spec fn step_post(
    phase: ExecPhase,
    event: ExecEvent,
    m: Map<Seq<u8>, u64>,
    config: ExecConfig,
    p2: ExecPhase,
    a2: ExecAction,
    m2: Map<Seq<u8>, u64>,
) -> bool {
    match (phase, event) {
        (ExecPhase::Idle, ExecEvent::Start) => {
            &&& p2 is DerivingAddress
            &&& a2 == ExecAction::DeriveKey
            &&& m2 == m
        },
        (ExecPhase::DerivingAddress, ExecEvent::KeyDerived(res)) => match res {
            Ok(material) => {
                if sec1_point_of(material.bytes@) is Some {
                    &&& match p2 {
                        ExecPhase::QuotingFee { sender } => sender@ == address_bytes_of(
                            material.bytes@,
                        ),
                        _ => false,
                    }
                    &&& a2 == ExecAction::QuoteFee
                    &&& m2 == m
                } else {
                    failed_outcome(p2, a2, m, m2, FailureReason::MalformedKey)
                }
            },
            Err(SignerError::Unavailable) => failed_outcome(
                p2,
                a2,
                m,
                m2,
                FailureReason::RemoteSignerUnavailable,
            ),
            Err(SignerError::Rejected) => failed_outcome(
                p2,
                a2,
                m,
                m2,
                FailureReason::RemoteSignerRejected,
            ),
        },
        (ExecPhase::QuotingFee { sender }, ExecEvent::FeeQuoted(res)) => match res {
            Ok(cycles) => {
                if m.contains_key(sender@) {
                    let nonce = (m[sender@] + 1) as u64;
                    &&& match p2 {
                        ExecPhase::Signing { sender: s2, fee, nonce: n2 } => s2@ == sender@ && fee
                            == cycles && n2 == nonce,
                        _ => false,
                    }
                    &&& match a2 {
                        ExecAction::RequestSignature { digest } => digest@ == signing_digest_of(
                            tx_view_of(config, sender@, nonce),
                        ),
                        _ => false,
                    }
                    &&& m2 == m
                } else {
                    &&& match p2 {
                        ExecPhase::AwaitingNonce { sender: s2, fee } => s2@ == sender@ && fee
                            == cycles,
                        _ => false,
                    }
                    &&& match a2 {
                        ExecAction::QueryTransactionCount { account } => account@ == sender@,
                        _ => false,
                    }
                    &&& m2 == m
                }
            },
            Err(_) => failed_outcome(p2, a2, m, m2, FailureReason::FeeQuoteUnavailable),
        },
        (ExecPhase::AwaitingNonce { sender, fee }, ExecEvent::CountObserved(res)) => {
            let observed = match res {
                Ok(c) => c,
                Err(_) => 0u64,
            };
            let nonce = next_nonce_spec(m, sender@, observed);
            &&& match p2 {
                ExecPhase::Signing { sender: s2, fee: f2, nonce: n2 } => s2@ == sender@ && f2 == fee
                    && n2 == nonce,
                _ => false,
            }
            &&& match a2 {
                ExecAction::RequestSignature { digest } => digest@ == signing_digest_of(
                    tx_view_of(config, sender@, nonce),
                ),
                _ => false,
            }
            &&& m2 == m
        },
        (ExecPhase::Signing { sender, fee, nonce }, ExecEvent::Signed(res)) => match res {
            Ok(sig) => {
                if sig@.len() == 65 {
                    &&& match p2 {
                        ExecPhase::Submitting { sender: s2, nonce: n2 } => s2@ == sender@ && n2
                            == nonce,
                        _ => false,
                    }
                    &&& match a2 {
                        ExecAction::SubmitPayload { payload, cycles } => payload@ == signed_tx_rlp(
                            tx_view_of(config, sender@, nonce),
                            sig@,
                        ) && cycles == fee,
                        _ => false,
                    }
                    &&& m2 == m
                } else {
                    failed_outcome(p2, a2, m, m2, FailureReason::RemoteSignerRejected)
                }
            },
            Err(SignerError::Unavailable) => failed_outcome(
                p2,
                a2,
                m,
                m2,
                FailureReason::RemoteSignerUnavailable,
            ),
            Err(SignerError::Rejected) => failed_outcome(
                p2,
                a2,
                m,
                m2,
                FailureReason::RemoteSignerRejected,
            ),
        },
        (ExecPhase::Submitting { sender, nonce }, ExecEvent::Submitted(res)) => match res {
            Ok(hash) => {
                &&& match p2 {
                    ExecPhase::AwaitingConfirmation { sender: s2, nonce: n2, hash: h2 } => s2@
                        == sender@ && n2 == nonce && h2@ == hash@,
                    _ => false,
                }
                &&& match a2 {
                    ExecAction::LookupTransaction { hash: h } => h@ == hash@,
                    _ => false,
                }
                &&& m2 == m
            },
            Err(msg) => failed_outcome(p2, a2, m, m2, FailureReason::SubmissionRejected(msg)),
        },
        (ExecPhase::AwaitingConfirmation { sender, nonce, hash }, ExecEvent::Confirmed(res)) => match res {
            Ok(Some(found)) => {
                &&& match p2 {
                    ExecPhase::Succeeded { hash: h2 } => h2@ == found.hash@,
                    _ => false,
                }
                &&& a2 == ExecAction::Halt
                &&& m2 == record_spec(m, sender@, found.nonce)
            },
            Ok(None) => failed_outcome(p2, a2, m, m2, FailureReason::Unconfirmed),
            Err(_) => failed_outcome(p2, a2, m, m2, FailureReason::Unconfirmed),
        },
        _ => true,
    }
}

/// Builds the transaction the executor signs and submits.
fn make_tx(config: &ExecConfig, sender: &Vec<u8>, nonce: u64) -> (r: TransactionRequest)
    requires
        sender@.len() == 20,
    ensures
        r@ == tx_view_of(*config, sender@, nonce),
        r@.wf(),
{
    TransactionRequest {
        to: sender.clone(),
        value: config.value,
        nonce,
        gas_price: config.gas_price,
        gas_limit: config.gas_limit,
        chain_id: config.chain_id,
    }
}

/// Advances one transaction attempt by one remote outcome.  Consumes the
/// current phase and the event that answered it, updates the nonce cache
/// exactly where the transition relation says, and names the next remote
/// action for the host.  Only a confirmed on-ledger transaction advances the
/// cache, with the nonce the ledger reports, not the locally assembled one.
pub fn step(
    phase: ExecPhase,
    event: ExecEvent,
    config: &ExecConfig,
    nonces: &mut NonceSequencer,
) -> (r: (ExecPhase, ExecAction))
    requires
        phase_wf(phase),
        event_fits(phase, event),
        cache_ok(phase, old(nonces)@),
    ensures
        step_post(phase, event, old(nonces)@, *config, r.0, r.1, final(nonces)@),
        phase_wf(r.0),
{
    match (phase, event) {
        (ExecPhase::Idle, ExecEvent::Start) => (ExecPhase::DerivingAddress, ExecAction::DeriveKey),
        (ExecPhase::DerivingAddress, ExecEvent::KeyDerived(res)) => match res {
            Ok(material) => match derive_address(&material) {
                Ok(account) => {
                    let AccountAddress { bytes, text: _ } = account;
                    (ExecPhase::QuotingFee { sender: bytes }, ExecAction::QuoteFee)
                },
                Err(AddressError::MalformedKey) => (
                    ExecPhase::Failed { reason: FailureReason::MalformedKey },
                    ExecAction::Halt,
                ),
            },
            Err(SignerError::Unavailable) => (
                ExecPhase::Failed { reason: FailureReason::RemoteSignerUnavailable },
                ExecAction::Halt,
            ),
            Err(SignerError::Rejected) => (
                ExecPhase::Failed { reason: FailureReason::RemoteSignerRejected },
                ExecAction::Halt,
            ),
        },
        (ExecPhase::QuotingFee { sender }, ExecEvent::FeeQuoted(res)) => match res {
            Ok(cycles) => match nonces.cached(&sender) {
                Some(last) => {
                    let nonce = last + 1;
                    let tx = make_tx(config, &sender, nonce);
                    let digest = signing_digest(&tx);
                    (
                        ExecPhase::Signing { sender, fee: cycles, nonce },
                        ExecAction::RequestSignature { digest },
                    )
                },
                None => {
                    let account = sender.clone();
                    (
                        ExecPhase::AwaitingNonce { sender, fee: cycles },
                        ExecAction::QueryTransactionCount { account },
                    )
                },
            },
            Err(_) => (
                ExecPhase::Failed { reason: FailureReason::FeeQuoteUnavailable },
                ExecAction::Halt,
            ),
        },
        (ExecPhase::AwaitingNonce { sender, fee }, ExecEvent::CountObserved(res)) => {
            let observed = match res {
                Ok(c) => c,
                Err(_) => 0,
            };
            let nonce = nonces.next_nonce(&sender, observed);
            let tx = make_tx(config, &sender, nonce);
            let digest = signing_digest(&tx);
            (ExecPhase::Signing { sender, fee, nonce }, ExecAction::RequestSignature { digest })
        },
        (ExecPhase::Signing { sender, fee, nonce }, ExecEvent::Signed(res)) => match res {
            Ok(sig) => {
                if sig.len() == 65 {
                    let tx = make_tx(config, &sender, nonce);
                    let payload = encode_signed(&tx, &sig);
                    (
                        ExecPhase::Submitting { sender, nonce },
                        ExecAction::SubmitPayload { payload, cycles: fee },
                    )
                } else {
                    (
                        ExecPhase::Failed { reason: FailureReason::RemoteSignerRejected },
                        ExecAction::Halt,
                    )
                }
            },
            Err(SignerError::Unavailable) => (
                ExecPhase::Failed { reason: FailureReason::RemoteSignerUnavailable },
                ExecAction::Halt,
            ),
            Err(SignerError::Rejected) => (
                ExecPhase::Failed { reason: FailureReason::RemoteSignerRejected },
                ExecAction::Halt,
            ),
        },
        (ExecPhase::Submitting { sender, nonce }, ExecEvent::Submitted(res)) => match res {
            Ok(hash) => {
                let lookup_hash = hash.clone();
                (
                    ExecPhase::AwaitingConfirmation { sender, nonce, hash },
                    ExecAction::LookupTransaction { hash: lookup_hash },
                )
            },
            Err(msg) => (
                ExecPhase::Failed { reason: FailureReason::SubmissionRejected(msg) },
                ExecAction::Halt,
            ),
        },
        (ExecPhase::AwaitingConfirmation { sender, nonce: _, hash: _ }, ExecEvent::Confirmed(res)) => match res {
            Ok(found) => match found {
                Some(confirmed) => {
                    nonces.record_confirmed(&sender, confirmed.nonce);
                    (ExecPhase::Succeeded { hash: confirmed.hash }, ExecAction::Halt)
                },
                None => (
                    ExecPhase::Failed { reason: FailureReason::Unconfirmed },
                    ExecAction::Halt,
                ),
            },
            Err(_) => (ExecPhase::Failed { reason: FailureReason::Unconfirmed }, ExecAction::Halt),
        },
        // Unreachable: `event_fits` admits no other pairing.
        _ => (ExecPhase::Idle, ExecAction::Halt),
    }
}

/// Reads the terminal outcome of an attempt: the hash and a success status
/// when the transaction was confirmed, an empty hash and the failure reason
/// otherwise, and nothing when the attempt is still under way.  No failure
/// path ever carries a fabricated hash.
pub fn result_of(phase: ExecPhase) -> (r: Option<TransactionResult>)
    ensures
        phase matches ExecPhase::Succeeded { hash } ==> (r matches Some(t) && t.hash@ == hash@ && (
        t.status matches TxStatus::Success)),
        phase matches ExecPhase::Failed { reason } ==> (r matches Some(t) && t.hash@.len() == 0 && (
        t.status matches TxStatus::Failed(f) && failure_like(f, reason))),
        !(phase is Succeeded) && !(phase is Failed) ==> r is None,
{
    match phase {
        ExecPhase::Succeeded { hash } => Some(
            TransactionResult { hash, status: TxStatus::Success },
        ),
        ExecPhase::Failed { reason } => Some(
            TransactionResult { hash: String::new(), status: TxStatus::Failed(reason) },
        ),
        _ => None,
    }
}

/// A fee-quote failure is terminal with no irreversible effect: the attempt
/// ends as `FeeQuoteUnavailable` and the nonce cache is exactly as before
/// the attempt touched it.
pub proof fn lemma_fee_failure_preserves_cache(
    phase: ExecPhase,
    event: ExecEvent,
    m: Map<Seq<u8>, u64>,
    config: ExecConfig,
    p2: ExecPhase,
    a2: ExecAction,
    m2: Map<Seq<u8>, u64>,
)
    requires
        phase matches ExecPhase::QuotingFee { .. },
        event matches ExecEvent::FeeQuoted(res) && res is Err,
        step_post(phase, event, m, config, p2, a2, m2),
    ensures
        match p2 {
            ExecPhase::Failed { reason } => reason is FeeQuoteUnavailable,
            _ => false,
        },
        m2 == m,
{
}

/// A submission whose get-by-hash lookup finds nothing ends as the
/// retryable `Unconfirmed`, and the nonce cache is untouched, so a retry
/// reuses the same nonce rather than skipping ahead.
pub proof fn lemma_unconfirmed_preserves_cache(
    phase: ExecPhase,
    event: ExecEvent,
    m: Map<Seq<u8>, u64>,
    config: ExecConfig,
    p2: ExecPhase,
    a2: ExecAction,
    m2: Map<Seq<u8>, u64>,
)
    requires
        phase matches ExecPhase::AwaitingConfirmation { .. },
        event matches ExecEvent::Confirmed(res) && !(res matches Ok(Some(_))),
        step_post(phase, event, m, config, p2, a2, m2),
    ensures
        match p2 {
            ExecPhase::Failed { reason } => reason is Unconfirmed,
            _ => false,
        },
        m2 == m,
{
}

/// The nonce cache advances only when a transaction is confirmed on-ledger:
/// every other outcome of every phase leaves it exactly as it was.
pub proof fn lemma_only_confirmation_advances_cache(
    phase: ExecPhase,
    event: ExecEvent,
    m: Map<Seq<u8>, u64>,
    config: ExecConfig,
    p2: ExecPhase,
    a2: ExecAction,
    m2: Map<Seq<u8>, u64>,
)
    requires
        event_fits(phase, event),
        !(event matches ExecEvent::Confirmed(res) && res matches Ok(Some(_))),
        step_post(phase, event, m, config, p2, a2, m2),
    ensures
        m2 == m,
{
}

} // verus!
