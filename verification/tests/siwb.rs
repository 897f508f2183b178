use ic_siwb_provider::challenge_from_entropy;
use ic_siwb_provider::generate_challenge;
use ic_siwb_provider::get_service_info;
use ic_siwb_provider::hex_decode;
use ic_siwb_provider::hex_encode;
use ic_siwb_provider::ping;
use ic_siwb_provider::set_status;
use ic_siwb_provider::verify_signature;

use k256::ecdsa::SigningKey;
use k256::ecdsa::VerifyingKey;
use sha2::Digest;

/// Builds a valid (signature_hex, pubkey_hex) pair for a message: a 65-byte
/// recoverable ECDSA signature over the SHA-256 digest of the message, and the
/// signer's compressed SEC1 public key, both hex-encoded.
fn sign_message(sk_bytes: &[u8; 32], message: &str) -> (String, String) {
    let sk = SigningKey::from_slice(sk_bytes).expect("key bytes in range");
    let digest = sha2::Sha256::digest(message.as_bytes());
    let (sig, recid) = sk
        .sign_prehash_recoverable(&digest)
        .expect("signing succeeds");
    assert!(recid.to_byte() <= 1);
    let mut sig_bytes = sig.to_bytes().to_vec();
    sig_bytes.push(recid.to_byte());
    let vk = VerifyingKey::from(&sk);
    let pk_hex = hex::encode(vk.to_encoded_point(true).as_bytes());
    (hex::encode(&sig_bytes), pk_hex)
}

#[test]
fn valid_triples_verify() {
    let keys: [[u8; 32]; 2] = [[0x11; 32], [0x42; 32]];
    let messages = ["login:alice:nonce123", "", "hello \u{00e9}\u{4e16}"];
    for key in &keys {
        for message in &messages {
            let (sig_hex, pk_hex) = sign_message(key, message);
            assert!(verify_signature(
                message.to_string(),
                sig_hex,
                pk_hex
            ));
        }
    }
}

#[test]
fn known_message_scenario() {
    let message = "login:alice:nonce123";
    let (sig_hex, pk_hex) = sign_message(&[0x11; 32], message);
    assert_eq!(sig_hex.len(), 130);
    assert_eq!(pk_hex.len(), 66);
    assert!(verify_signature(message.to_string(), sig_hex, pk_hex));
}

#[test]
fn flipped_signature_byte_fails() {
    let message = "login:alice:nonce123";
    let (sig_hex, pk_hex) = sign_message(&[0x11; 32], message);
    // Alter each hex digit of the signature in turn; every altered signature
    // must be rejected.
    for pos in [0usize, 1, 63, 64, 127] {
        let mut chars: Vec<char> = sig_hex.chars().collect();
        chars[pos] = if chars[pos] == '0' { '1' } else { '0' };
        let altered: String = chars.iter().collect();
        if altered == sig_hex {
            continue;
        }
        assert!(!verify_signature(
            message.to_string(),
            altered,
            pk_hex.clone()
        ));
    }
}

#[test]
fn uncompressed_pubkey_verifies() {
    // The claimed key may come in uncompressed SEC1 form; it is canonicalized
    // before the comparison against the recovered key.
    let message = "login:alice:nonce123";
    let sk = SigningKey::from_slice(&[0x11; 32]).expect("key bytes in range");
    let digest = sha2::Sha256::digest(message.as_bytes());
    let (sig, recid) = sk
        .sign_prehash_recoverable(&digest)
        .expect("signing succeeds");
    let mut sig_bytes = sig.to_bytes().to_vec();
    sig_bytes.push(recid.to_byte());
    let vk = VerifyingKey::from(&sk);
    let pk_hex = hex::encode(vk.to_encoded_point(false).as_bytes());
    assert_eq!(pk_hex.len(), 130);
    assert!(verify_signature(
        message.to_string(),
        hex::encode(&sig_bytes),
        pk_hex
    ));
}

#[test]
fn unrelated_pubkey_fails() {
    let message = "login:alice:nonce123";
    let (sig_hex, _) = sign_message(&[0x11; 32], message);
    let (_, other_pk_hex) = sign_message(&[0x42; 32], message);
    assert!(!verify_signature(
        message.to_string(),
        sig_hex,
        other_pk_hex
    ));
}

#[test]
fn invalid_recovery_id_fails() {
    let message = "login:alice:nonce123";
    let (sig_hex, pk_hex) = sign_message(&[0x11; 32], message);
    // Set the recovery-id byte (the last byte, so the last two hex digits)
    // to 2: rejected at the decode stage.
    let altered = format!("{}02", &sig_hex[..sig_hex.len() - 2]);
    assert!(!verify_signature(message.to_string(), altered, pk_hex));
}

#[test]
fn invalid_hex_signature_fails() {
    assert!(!verify_signature(
        "login:alice:nonce123".to_string(),
        "zz".to_string(),
        "02".to_string()
    ));
}

#[test]
fn malformed_inputs_fail() {
    let message = "login:alice:nonce123";
    let (sig_hex, pk_hex) = sign_message(&[0x11; 32], message);

    // Empty strings everywhere.
    assert!(!verify_signature(String::new(), String::new(), String::new()));
    // Empty signature against a valid key.
    assert!(!verify_signature(
        message.to_string(),
        String::new(),
        pk_hex.clone()
    ));
    // Odd-length and non-hex signature fields.
    assert!(!verify_signature(
        message.to_string(),
        sig_hex[..sig_hex.len() - 1].to_string(),
        pk_hex.clone()
    ));
    assert!(!verify_signature(
        message.to_string(),
        format!("g{}", &sig_hex[1..]),
        pk_hex.clone()
    ));
    // A signature of 64 bytes (no recovery-id byte) is the wrong length.
    assert!(!verify_signature(
        message.to_string(),
        sig_hex[..128].to_string(),
        pk_hex.clone()
    ));
    // Non-hex public key.
    assert!(!verify_signature(
        message.to_string(),
        sig_hex.clone(),
        "not hex".to_string()
    ));
    // Well-formed hex that is no valid curve point.
    let bad_point = format!("02{}", "ff".repeat(32));
    assert!(!verify_signature(message.to_string(), sig_hex, bad_point));
}

#[test]
fn hex_encode_exact() {
    assert_eq!(hex_encode(&[0xde, 0xad, 0xbe, 0xef]), "deadbeef");
    assert_eq!(hex_encode(&[]), "");
    assert_eq!(hex_encode(&[0x00, 0x01, 0x0f]), "00010f");
}

#[test]
fn hex_encode_matches_reference() {
    let bytes: Vec<u8> = (0u16..=255).map(|b| b as u8).collect();
    assert_eq!(hex_encode(&bytes), hex::encode(&bytes));
}

#[test]
fn hex_decode_exact() {
    assert_eq!(
        hex_decode("deadbeef"),
        Some(vec![0xde, 0xad, 0xbe, 0xef])
    );
    assert_eq!(
        hex_decode("DEadBEef"),
        Some(vec![0xde, 0xad, 0xbe, 0xef])
    );
    assert_eq!(hex_decode(""), Some(vec![]));
    assert_eq!(hex_decode("abc"), None);
    assert_eq!(hex_decode("zz"), None);
    assert_eq!(hex_decode("0 "), None);
    assert_eq!(hex_decode("d\u{00e9}"), None);
}

#[test]
fn hex_round_trip() {
    let bytes: Vec<u8> = (0u16..=255).map(|b| b as u8).collect();
    assert_eq!(hex_decode(&hex_encode(&bytes)), Some(bytes));
}

#[test]
fn challenge_from_known_entropy() {
    let entropy: Vec<u8> = (0u8..32).collect();
    assert_eq!(
        challenge_from_entropy(&entropy),
        Some("000102030405060708090a0b0c0d0e0f".to_string())
    );
    let exactly_16: Vec<u8> = vec![0xab; 16];
    assert_eq!(
        challenge_from_entropy(&exactly_16),
        Some("ab".repeat(16))
    );
    let too_short: Vec<u8> = vec![0xab; 15];
    assert_eq!(challenge_from_entropy(&too_short), None);
}

#[test]
fn generated_challenges_differ_and_decode() {
    let a = generate_challenge().expect("entropy source available");
    let b = generate_challenge().expect("entropy source available");
    assert_ne!(a, b);
    for challenge in [&a, &b] {
        assert_eq!(challenge.len(), 32);
        assert!(challenge
            .chars()
            .all(|c| c.is_ascii_hexdigit() && !c.is_ascii_uppercase()));
        let decoded = hex::decode(challenge).expect("valid hex");
        assert_eq!(decoded.len(), 16);
    }
}

#[test]
fn service_info_reports() {
    let info = get_service_info();
    assert_eq!(info.name, "ic_siwb_provider");
    assert_eq!(info.version, "0.1.0");
    assert_eq!(info.status, "operational");

    let updated = set_status("maintenance".to_string());
    assert_eq!(updated.name, "ic_siwb_provider");
    assert_eq!(updated.version, "0.1.0");
    assert_eq!(updated.status, "maintenance");

    assert_eq!(ping(), "pong");
}
