use eth_backend::address::PublicKeyMaterial;
use eth_backend::executor::{
    step, result_of, ConfirmedTransaction, ExecAction, ExecConfig, ExecEvent, ExecPhase,
    FailureReason, SignerError, TransactionResult, TxStatus,
};
use eth_backend::nonce::NonceSequencer;
use eth_backend::transaction::{signing_digest, TransactionRequest};

fn hx(s: &str) -> Vec<u8> {
    let digits: Vec<u8> = s
        .bytes()
        .map(|b| match b {
            b'0'..=b'9' => b - b'0',
            b'a'..=b'f' => b - b'a' + 10,
            b'A'..=b'F' => b - b'A' + 10,
            _ => panic!("not a hex digit"),
        })
        .collect();
    digits.chunks(2).map(|p| p[0] * 16 + p[1]).collect()
}

fn config() -> ExecConfig {
    ExecConfig { value: 100, gas_price: 0, gas_limit: 21_000, chain_id: 11_155_111 }
}

fn generator_key() -> Vec<u8> {
    let mut bytes = vec![0x04u8];
    bytes.extend_from_slice(&hx(
        "79BE667EF9DCBBAC55A06295CE870B07029BFCDB2DCE28D959F2815B16F81798",
    ));
    bytes.extend_from_slice(&hx(
        "483ADA7726A3C4655DA4FBFC0E1108A8FD17B448A68554199C47D08FFB10D4B8",
    ));
    bytes
}

fn sender_of_generator() -> Vec<u8> {
    hx("7e5f4552091a69125d5dfcb7b8c2659029395bdf")
}

#[test]
fn full_flow_succeeds_and_records_ledger_nonce() {
    let cfg = config();
    let mut nonces = NonceSequencer::new();

    let (phase, action) = step(ExecPhase::Idle, ExecEvent::Start, &cfg, &mut nonces);
    assert!(matches!(phase, ExecPhase::DerivingAddress));
    assert!(matches!(action, ExecAction::DeriveKey));

    let material = PublicKeyMaterial { bytes: generator_key(), chain_code: vec![] };
    let (phase, action) = step(phase, ExecEvent::KeyDerived(Ok(material)), &cfg, &mut nonces);
    match &phase {
        ExecPhase::QuotingFee { sender } => assert_eq!(*sender, sender_of_generator()),
        _ => panic!("expected QuotingFee"),
    }
    assert!(matches!(action, ExecAction::QuoteFee));

    // No cache: the executor must ask the relay for the transaction count.
    let (phase, action) = step(phase, ExecEvent::FeeQuoted(Ok(5_000)), &cfg, &mut nonces);
    match &phase {
        ExecPhase::AwaitingNonce { sender, fee } => {
            assert_eq!(*sender, sender_of_generator());
            assert_eq!(*fee, 5_000);
        },
        _ => panic!("expected AwaitingNonce"),
    }
    match &action {
        ExecAction::QueryTransactionCount { account } => {
            assert_eq!(*account, sender_of_generator())
        },
        _ => panic!("expected QueryTransactionCount"),
    }

    let (phase, action) = step(phase, ExecEvent::CountObserved(Ok(0)), &cfg, &mut nonces);
    match &phase {
        ExecPhase::Signing { nonce, fee, .. } => {
            assert_eq!(*nonce, 0);
            assert_eq!(*fee, 5_000);
        },
        _ => panic!("expected Signing"),
    }
    let expected_digest = signing_digest(&TransactionRequest {
        to: sender_of_generator(),
        value: 100,
        nonce: 0,
        gas_price: 0,
        gas_limit: 21_000,
        chain_id: 11_155_111,
    });
    match &action {
        ExecAction::RequestSignature { digest } => assert_eq!(*digest, expected_digest),
        _ => panic!("expected RequestSignature"),
    }

    let mut sig = vec![0x11u8; 64];
    sig.push(0);
    let (phase, action) = step(phase, ExecEvent::Signed(Ok(sig)), &cfg, &mut nonces);
    assert!(matches!(phase, ExecPhase::Submitting { .. }));
    match &action {
        ExecAction::SubmitPayload { payload, cycles } => {
            assert!(!payload.is_empty());
            assert_eq!(*cycles, 5_000);
        },
        _ => panic!("expected SubmitPayload"),
    }

    let (phase, action) =
        step(phase, ExecEvent::Submitted(Ok("0x1234567890".to_string())), &cfg, &mut nonces);
    match &phase {
        ExecPhase::AwaitingConfirmation { hash, nonce, .. } => {
            assert_eq!(hash, "0x1234567890");
            assert_eq!(*nonce, 0);
        },
        _ => panic!("expected AwaitingConfirmation"),
    }
    match &action {
        ExecAction::LookupTransaction { hash } => assert_eq!(hash, "0x1234567890"),
        _ => panic!("expected LookupTransaction"),
    }

    // The ledger is authoritative for the consumed nonce.
    let confirmed = ConfirmedTransaction { hash: "0x1234567890".to_string(), nonce: 0 };
    let (phase, action) =
        step(phase, ExecEvent::Confirmed(Ok(Some(confirmed))), &cfg, &mut nonces);
    match &phase {
        ExecPhase::Succeeded { hash } => assert_eq!(hash, "0x1234567890"),
        _ => panic!("expected Succeeded"),
    }
    assert!(matches!(action, ExecAction::Halt));
    assert_eq!(nonces.cached(&sender_of_generator()), Some(0));

    match result_of(phase) {
        Some(TransactionResult { hash, status: TxStatus::Success }) => {
            assert_eq!(hash, "0x1234567890")
        },
        _ => panic!("expected a successful result"),
    }
}

#[test]
fn cached_nonce_skips_the_count_query() {
    let cfg = config();
    let mut nonces = NonceSequencer::new();
    let sender = sender_of_generator();
    nonces.record_confirmed(&sender, 6);

    let (phase, action) = step(
        ExecPhase::QuotingFee { sender: sender.clone() },
        ExecEvent::FeeQuoted(Ok(9)),
        &cfg,
        &mut nonces,
    );
    match &phase {
        ExecPhase::Signing { nonce, .. } => assert_eq!(*nonce, 7),
        _ => panic!("expected Signing"),
    }
    assert!(matches!(action, ExecAction::RequestSignature { .. }));
}

#[test]
fn fee_quote_failure_is_terminal_and_cache_is_untouched() {
    let cfg = config();
    let mut nonces = NonceSequencer::new();
    let sender = sender_of_generator();
    nonces.record_confirmed(&sender, 3);

    let (phase, action) = step(
        ExecPhase::QuotingFee { sender: sender.clone() },
        ExecEvent::FeeQuoted(Err("relay overloaded".to_string())),
        &cfg,
        &mut nonces,
    );
    assert!(matches!(
        phase,
        ExecPhase::Failed { reason: FailureReason::FeeQuoteUnavailable }
    ));
    assert!(matches!(action, ExecAction::Halt));
    assert_eq!(nonces.cached(&sender), Some(3));
}

#[test]
fn unconfirmed_lookup_is_retryable_and_cache_is_untouched() {
    let cfg = config();
    let mut nonces = NonceSequencer::new();
    let sender = sender_of_generator();
    nonces.record_confirmed(&sender, 8);

    let (phase, action) = step(
        ExecPhase::AwaitingConfirmation {
            sender: sender.clone(),
            nonce: 9,
            hash: "0xfeed".to_string(),
        },
        ExecEvent::Confirmed(Ok(None)),
        &cfg,
        &mut nonces,
    );
    assert!(matches!(phase, ExecPhase::Failed { reason: FailureReason::Unconfirmed }));
    assert!(matches!(action, ExecAction::Halt));
    assert_eq!(nonces.cached(&sender), Some(8));

    match result_of(phase) {
        Some(TransactionResult { hash, status: TxStatus::Failed(FailureReason::Unconfirmed) }) => {
            assert_eq!(hash, "")
        },
        _ => panic!("expected an unconfirmed failure result"),
    }
}

#[test]
fn signing_failure_does_not_consume_the_nonce() {
    let cfg = config();
    let mut nonces = NonceSequencer::new();
    let sender = sender_of_generator();
    nonces.record_confirmed(&sender, 1);

    let (phase, _) = step(
        ExecPhase::Signing { sender: sender.clone(), fee: 9, nonce: 2 },
        ExecEvent::Signed(Err(SignerError::Rejected)),
        &cfg,
        &mut nonces,
    );
    assert!(matches!(
        phase,
        ExecPhase::Failed { reason: FailureReason::RemoteSignerRejected }
    ));
    // The nonce was never used, so a retry reissues 2.
    assert_eq!(nonces.next_nonce(&sender, 0), 2);
}

#[test]
fn submission_rejection_carries_the_ledger_message() {
    let cfg = config();
    let mut nonces = NonceSequencer::new();
    let sender = sender_of_generator();

    let (phase, _) = step(
        ExecPhase::Submitting { sender, nonce: 0 },
        ExecEvent::Submitted(Err("nonce too low".to_string())),
        &cfg,
        &mut nonces,
    );
    match phase {
        ExecPhase::Failed { reason: FailureReason::SubmissionRejected(msg) } => {
            assert_eq!(msg, "nonce too low")
        },
        _ => panic!("expected SubmissionRejected"),
    }
}

#[test]
fn malformed_remote_key_fails_cleanly() {
    let cfg = config();
    let mut nonces = NonceSequencer::new();
    let material = PublicKeyMaterial { bytes: vec![1, 2, 3], chain_code: vec![] };
    let (phase, action) = step(
        ExecPhase::DerivingAddress,
        ExecEvent::KeyDerived(Ok(material)),
        &cfg,
        &mut nonces,
    );
    assert!(matches!(phase, ExecPhase::Failed { reason: FailureReason::MalformedKey }));
    assert!(matches!(action, ExecAction::Halt));
}

#[test]
fn signer_unavailable_is_distinguished_from_rejection() {
    let cfg = config();
    let mut nonces = NonceSequencer::new();
    let (phase, _) = step(
        ExecPhase::DerivingAddress,
        ExecEvent::KeyDerived(Err(SignerError::Unavailable)),
        &cfg,
        &mut nonces,
    );
    assert!(matches!(
        phase,
        ExecPhase::Failed { reason: FailureReason::RemoteSignerUnavailable }
    ));
}
