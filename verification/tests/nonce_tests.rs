use eth_backend::nonce::NonceSequencer;

fn account_a() -> Vec<u8> {
    vec![0xaa; 20]
}

fn account_b() -> Vec<u8> {
    vec![0xbb; 20]
}

#[test]
fn fresh_account_uses_observed_count_then_advances() {
    let mut seq = NonceSequencer::new();
    let a = account_a();
    // Fresh account, relay reports transaction count 0.
    assert_eq!(seq.next_nonce(&a, 0), 0);
    // The transaction with nonce 0 confirms.
    seq.record_confirmed(&a, 0);
    assert_eq!(seq.next_nonce(&a, 0), 1);
}

#[test]
fn confirmed_sequence_is_strictly_increasing() {
    let mut seq = NonceSequencer::new();
    let a = account_a();
    let n0 = seq.next_nonce(&a, 7);
    assert_eq!(n0, 7);
    seq.record_confirmed(&a, n0);
    let n1 = seq.next_nonce(&a, 7);
    assert_eq!(n1, n0 + 1);
    seq.record_confirmed(&a, n1);
    let n2 = seq.next_nonce(&a, 7);
    assert_eq!(n2, n1 + 1);
}

#[test]
fn retry_without_confirmation_reuses_nonce() {
    let mut seq = NonceSequencer::new();
    let a = account_a();
    seq.record_confirmed(&a, 4);
    let first = seq.next_nonce(&a, 0);
    // Signing or submission failed: nothing recorded.
    let second = seq.next_nonce(&a, 0);
    assert_eq!(first, 5);
    assert_eq!(second, first);
}

#[test]
fn cache_never_regresses() {
    let mut seq = NonceSequencer::new();
    let a = account_a();
    seq.record_confirmed(&a, 5);
    seq.record_confirmed(&a, 3);
    assert_eq!(seq.cached(&a), Some(5));
}

#[test]
fn recording_again_is_idempotent() {
    let mut seq = NonceSequencer::new();
    let a = account_a();
    seq.record_confirmed(&a, 2);
    seq.record_confirmed(&a, 2);
    assert_eq!(seq.cached(&a), Some(2));
}

#[test]
fn accounts_are_sequenced_independently() {
    let mut seq = NonceSequencer::new();
    let a = account_a();
    let b = account_b();
    seq.record_confirmed(&a, 9);
    assert_eq!(seq.cached(&b), None);
    assert_eq!(seq.next_nonce(&b, 3), 3);
    seq.record_confirmed(&b, 3);
    assert_eq!(seq.next_nonce(&a, 0), 10);
    assert_eq!(seq.next_nonce(&b, 0), 4);
}
