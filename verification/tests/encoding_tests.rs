use eth_backend::transaction::{encode_signed, encode_unsigned, signing_digest, TransactionRequest};

fn hx(s: &str) -> Vec<u8> {
    let digits: Vec<u8> = s
        .bytes()
        .map(|b| match b {
            b'0'..=b'9' => b - b'0',
            b'a'..=b'f' => b - b'a' + 10,
            b'A'..=b'F' => b - b'A' + 10,
            _ => panic!("not a hex digit"),
        })
        .collect();
    digits.chunks(2).map(|p| p[0] * 16 + p[1]).collect()
}

// The worked replay-protection example: nonce 9, gas price 20 gwei, gas
// limit 21000, a self-style transfer of 1 ether to 0x3535...35 on chain 1.
fn example_tx() -> TransactionRequest {
    TransactionRequest {
        to: vec![0x35; 20],
        value: 1_000_000_000_000_000_000,
        nonce: 9,
        gas_price: 20_000_000_000,
        gas_limit: 21_000,
        chain_id: 1,
    }
}

#[test]
fn unsigned_encoding_matches_reference_vector() {
    let expected = hx(
        "ec098504a817c800825208943535353535353535353535353535353535353535880de0b6b3a764000080018080",
    );
    assert_eq!(encode_unsigned(&example_tx()), expected);
}

#[test]
fn signing_digest_matches_reference_vector() {
    let expected = hx("daf5a779ae972f972197303d7b574746c7ef83eadac0f2791ad23db92e4c8e53");
    assert_eq!(signing_digest(&example_tx()), expected);
}

#[test]
fn signing_digest_is_keccak_of_encoding() {
    let tx = example_tx();
    let encoded = encode_unsigned(&tx);
    let digest = ethers_core::utils::keccak256(&encoded);
    assert_eq!(signing_digest(&tx), digest.to_vec());
}

#[test]
fn signed_encoding_matches_reference_vector() {
    let mut sig = hx("28ef61340bd939bc2195fe537567866003e1a15d3c71ff63e1590620aa636276");
    sig.extend_from_slice(&hx("67cbe9d8997f761aecb703304b3800ccf555c9f3dc64214b297fb1966a3b6d83"));
    sig.push(0); // recovery parity 0, so v = 1 * 2 + 35 + 0 = 37 = 0x25
    let expected = hx(
        "f86c098504a817c800825208943535353535353535353535353535353535353535880de0b6b3a764000080\
         25a028ef61340bd939bc2195fe537567866003e1a15d3c71ff63e1590620aa636276a067cbe9d8997f761a\
         ecb703304b3800ccf555c9f3dc64214b297fb1966a3b6d83",
    );
    assert_eq!(encode_signed(&example_tx(), &sig), expected);
}

#[test]
fn legacy_27_28_recovery_bytes_mean_the_same_parity() {
    let tx = example_tx();
    let mut sig_new = vec![0x11u8; 64];
    sig_new.push(1);
    let mut sig_legacy = vec![0x11u8; 64];
    sig_legacy.push(28);
    assert_eq!(encode_signed(&tx, &sig_new), encode_signed(&tx, &sig_legacy));
}

#[test]
fn zero_values_encode_minimally() {
    let tx = TransactionRequest {
        to: vec![0x00; 20],
        value: 0,
        nonce: 0,
        gas_price: 0,
        gas_limit: 0,
        chain_id: 1,
    };
    // Every integer field is the empty string 0x80; the recipient is a
    // 20-byte string with prefix 0x94; the 29-byte payload takes the short
    // list header 0xdd.
    let expected = hx(
        "dd8080809400000000000000000000000000000000000000008080018080",
    );
    assert_eq!(encode_unsigned(&tx), expected);
}
