use nitro_enclave::framing::{decode_frame, encode_frame, frame_payload_len, MAX_FRAME_PAYLOAD};
use nitro_enclave::keygen::{
    attestation_claim, attestation_due, complete_keygen, keygen_claim, no_key_response, KeygenResponse,
};
use nitro_enclave::keys::{unseal_key, unseal_reply, KeyError, SecretKey, KEY_SIZE};
use nitro_enclave::peer::{secure_attempt, verify_peer, ConnectError, PeerStatus};
use nitro_enclave::session::{
    attempt_event, start, step, DriverAction, DriverEvent, DriverState, RETRY_INTERVAL_SECS,
};

const RFC8032_SEED: [u8; 32] = [
    157, 97, 177, 157, 239, 253, 90, 96, 186, 132, 74, 244, 146, 236, 44, 196, 68, 73, 197, 105,
    123, 50, 105, 25, 112, 59, 172, 3, 28, 174, 127, 96,
];
const RFC8032_PUBLIC: [u8; 32] = [
    215, 90, 152, 1, 130, 177, 10, 183, 213, 75, 254, 211, 201, 100, 7, 58, 14, 225, 114, 243,
    218, 166, 35, 37, 175, 2, 26, 104, 247, 7, 81, 26,
];

#[test]
fn frame_has_little_endian_length_prefix() {
    let payload = vec![7u8; 300];
    let frame = encode_frame(&payload).unwrap();
    assert_eq!(frame.len(), 302);
    assert_eq!(&frame[..2], &[44u8, 1u8]);
    assert_eq!(frame_payload_len([44, 1]), 300);
    assert_eq!(decode_frame(&frame).unwrap(), payload);
}

#[test]
fn frame_round_trip_empty_and_largest() {
    let empty: Vec<u8> = Vec::new();
    let frame = encode_frame(&empty).unwrap();
    assert_eq!(frame, vec![0u8, 0u8]);
    assert_eq!(decode_frame(&frame).unwrap(), empty);
    let largest = vec![1u8; MAX_FRAME_PAYLOAD];
    let frame = encode_frame(&largest).unwrap();
    assert_eq!(&frame[..2], &[255u8, 255u8]);
    assert_eq!(decode_frame(&frame).unwrap(), largest);
}

#[test]
fn frame_too_long_is_refused() {
    let payload = vec![0u8; MAX_FRAME_PAYLOAD + 1];
    assert!(encode_frame(&payload).is_none());
}

#[test]
fn frame_with_wrong_length_is_refused() {
    assert!(decode_frame(&[]).is_none());
    assert!(decode_frame(&[3]).is_none());
    assert!(decode_frame(&[3, 0, 1, 2]).is_none());
    assert!(decode_frame(&[1, 0, 1, 2]).is_none());
}

#[test]
fn peer_matching_fingerprint_is_verified() {
    let id = [9u8; 20];
    assert_eq!(verify_peer(Some(id), &id), Ok(PeerStatus::Verified));
}

#[test]
fn peer_without_expected_fingerprint_is_unverified() {
    assert_eq!(verify_peer(None, &[1u8; 20]), Ok(PeerStatus::Unverified));
}

#[test]
fn peer_mismatch_at_every_position_fails() {
    let expected = [0x5au8; 20];
    for i in 0..20 {
        let mut actual = expected;
        actual[i] ^= 1;
        assert_eq!(verify_peer(Some(expected), &actual), Err(ConnectError::PeerMismatch));
    }
}

#[test]
fn secure_attempt_passes_socket_and_handshake_failures_through() {
    assert_eq!(secure_attempt(Err(ConnectError::Socket), Some([0u8; 20])), Err(ConnectError::Socket));
    assert_eq!(secure_attempt(Err(ConnectError::Handshake), None), Err(ConnectError::Handshake));
    assert_eq!(secure_attempt(Ok([2u8; 20]), Some([3u8; 20])), Err(ConnectError::PeerMismatch));
    assert_eq!(secure_attempt(Ok([2u8; 20]), Some([2u8; 20])), Ok(PeerStatus::Verified));
}

#[test]
fn unseal_wrong_length_is_invalid_and_scrubbed() {
    for len in [0usize, 1, 31, 33, 64] {
        let mut plaintext = vec![0xa5u8; len];
        let r = unseal_key(&mut plaintext);
        assert!(matches!(r, Err(KeyError::InvalidKey)));
        assert!(plaintext.iter().all(|b| *b == 0));
        assert!(plaintext.is_empty());
    }
}

#[test]
fn unseal_derives_public_key_and_scrubs_sentinel() {
    let mut plaintext = RFC8032_SEED.to_vec();
    assert_eq!(plaintext.len(), KEY_SIZE);
    let key = unseal_key(&mut plaintext).unwrap();
    assert_eq!(key.public_key(), RFC8032_PUBLIC);
    assert!(plaintext.is_empty());
    assert_eq!(key.seed(), &RFC8032_SEED);
}

#[test]
fn unseal_reply_failure_is_access_error() {
    assert!(matches!(unseal_reply(None), Err(KeyError::Access)));
    assert!(matches!(unseal_reply(Some(vec![1u8; 16])), Err(KeyError::InvalidKey)));
    let key = unseal_reply(Some(RFC8032_SEED.to_vec())).unwrap();
    assert_eq!(key.public_key(), RFC8032_PUBLIC);
}

#[test]
fn sealed_generated_key_unseals_to_same_public_key() {
    let generated = SecretKey::generate().unwrap();
    // a sealing service that hands back what it sealed
    let sealed = generated.seed().to_vec();
    let unsealed = unseal_reply(Some(sealed)).unwrap();
    assert_eq!(unsealed.public_key(), generated.public_key());
    assert_eq!(
        generated.signing_key().verification_key().to_bytes(),
        generated.public_key()
    );
}

#[test]
fn claim_layout() {
    let claim = attestation_claim(b"PK", b"KID");
    assert_eq!(claim, br#"{"pubkey":"PK","key_id":"KID"}"#.to_vec());
}

#[test]
fn keygen_claim_encodes_public_key_and_key_id() {
    let claim = keygen_claim(&RFC8032_PUBLIC, b"abc");
    let expected = r#"{"pubkey":"11qYAYKxCrfVS/7TyWQHOg7hcvPapiMlrwIaaPcHURo=","key_id":"YWJj"}"#;
    assert_eq!(String::from_utf8(claim).unwrap(), expected);
}

#[test]
fn keygen_success_response() {
    let key = SecretKey::generate().unwrap();
    let public = key.public_key();
    let claim = keygen_claim(&public, "abc".as_bytes());
    let pk64 = String::from_utf8(subtle_encoding::base64::encode(public)).unwrap();
    assert_eq!(
        String::from_utf8(claim).unwrap(),
        format!("{{\"pubkey\":\"{}\",\"key_id\":\"YWJj\"}}", pk64)
    );
    let r = complete_keygen(key, Ok(vec![1, 2, 3]), Some(vec![4, 5]));
    match r {
        KeygenResponse::Success { encrypted_secret, public_key, attestation_doc } => {
            assert_eq!(public_key.len(), 32);
            assert_eq!(public_key, public.to_vec());
            assert!(!encrypted_secret.is_empty());
            assert!(!attestation_doc.is_empty());
        }
        KeygenResponse::Failure { .. } => panic!("expected success"),
    }
}

#[test]
fn keygen_sealing_failure_reports_message() {
    let key = SecretKey::generate().unwrap();
    match complete_keygen(key, Err("AccessDenied".to_string()), None) {
        KeygenResponse::Failure { message } => assert_eq!(message, "AccessDenied"),
        KeygenResponse::Success { .. } => panic!("expected failure"),
    }
}

#[test]
fn keygen_without_attestation_fails() {
    let key = SecretKey::generate().unwrap();
    match complete_keygen(key, Ok(vec![1]), None) {
        KeygenResponse::Failure { message } => {
            assert_eq!(message, "failed to obtain an attestation document")
        }
        KeygenResponse::Success { .. } => panic!("expected failure"),
    }
}

#[test]
fn driver_reconnects_after_failures() {
    let (mut state, mut action) = start();
    assert_eq!(action, DriverAction::Connect);
    let mut slept = 0u64;
    let mut runs = 0u64;
    let events = [
        DriverEvent::ConnectFailed(ConnectError::Socket),
        DriverEvent::ConnectFailed(ConnectError::Handshake),
        DriverEvent::ConnectFailed(ConnectError::PeerMismatch),
        DriverEvent::Connected,
    ];
    for ev in events {
        let (s, a) = step(state, ev);
        state = s;
        action = a;
        if action == DriverAction::SleepThenConnect {
            slept += RETRY_INTERVAL_SECS;
        }
        if action == DriverAction::RunSession {
            runs += 1;
        }
    }
    assert_eq!(state, DriverState::Running);
    assert_eq!(action, DriverAction::RunSession);
    assert_eq!(slept, 3);
    assert_eq!(runs, 1);
}

#[test]
fn driver_reconnects_when_session_ends() {
    assert_eq!(
        step(DriverState::Running, DriverEvent::SessionEnded),
        (DriverState::Connecting, DriverAction::Connect)
    );
    assert_eq!(
        step(DriverState::Connecting, DriverEvent::ConnectFailed(ConnectError::PeerMismatch)),
        (DriverState::Connecting, DriverAction::SleepThenConnect)
    );
}

#[test]
fn attempt_events() {
    let ok: Result<u8, ConnectError> = Ok(1);
    let err: Result<u8, ConnectError> = Err(ConnectError::Socket);
    assert_eq!(attempt_event(&ok), DriverEvent::Connected);
    assert_eq!(attempt_event(&err), DriverEvent::ConnectFailed(ConnectError::Socket));
}

#[test]
fn peer_mismatch_attempt_is_retried() {
    let attempt = secure_attempt(Ok([1u8; 20]), Some([2u8; 20]));
    let event = attempt_event(&attempt);
    assert_eq!(event, DriverEvent::ConnectFailed(ConnectError::PeerMismatch));
    assert_eq!(
        step(DriverState::Connecting, event),
        (DriverState::Connecting, DriverAction::SleepThenConnect)
    );
}

#[test]
fn attestation_only_after_sealing() {
    assert!(attestation_due(&Ok(vec![1u8])));
    assert!(!attestation_due(&Err("denied".to_string())));
}

#[test]
fn no_key_is_a_failure_response() {
    match no_key_response() {
        KeygenResponse::Failure { message } => {
            assert_eq!(message, "failed to generate a key: no secure randomness")
        }
        KeygenResponse::Success { .. } => panic!("expected failure"),
    }
}

#[test]
fn generated_keys_differ() {
    let a = SecretKey::generate().unwrap();
    let b = SecretKey::generate().unwrap();
    assert_ne!(a.public_key(), b.public_key());
    assert_eq!(a.signing_key().verification_key().to_bytes(), a.public_key());
}

#[test]
fn base64_pads_short_groups() {
    let claim = keygen_claim(&[0u8; 32], b"a");
    let text = String::from_utf8(claim).unwrap();
    assert!(text.ends_with(r#""key_id":"YQ=="}"#));
    assert!(text.starts_with(r#"{"pubkey":"AAAAAAAAAAAAAAAAAAAAAAAAAAAAAAAAAAAAAAAAAAA=""#));
}
