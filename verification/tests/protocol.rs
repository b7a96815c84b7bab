use arcbio::protocol::AuthEvent;
use arcbio::protocol::BioAuthState;
use arcbio::protocol::ErrorCode;
use arcbio::protocol::Pubkey;
use arcbio::protocol::RequestStatus;
use arcbio::protocol::VerifyBiometricOutput;

use arcium_anchor::prelude::ArgumentRef;

const PROGRAM_ID: [u8; 32] = [11; 32];

fn owner(tag: u8) -> Pubkey {
    Pubkey { bytes: [tag; 32] }
}

fn shares(tag: u8) -> [[u8; 32]; 4] {
    [[tag; 32], [tag + 1; 32], [tag + 2; 32], [tag + 3; 32]]
}

fn output_block(value: u64) -> [u8; 32] {
    // Only the first eight bytes carry the integer; the rest of the slot is
    // ciphertext padding the decoder must ignore.
    let mut block = [0xEE; 32];
    block[..8].copy_from_slice(&value.to_le_bytes());
    block
}

fn output(score: u64, decision: u64) -> VerifyBiometricOutput {
    VerifyBiometricOutput {
        encryption_key: [9; 32],
        nonce: 77,
        ciphertexts: [output_block(score), output_block(decision)],
    }
}

/// A state with the circuit configured and one template enrolled.
fn ready_state() -> BioAuthState {
    let mut s = BioAuthState::new(PROGRAM_ID);
    s.init_bio_config().unwrap();
    s.register_biometrics(owner(1), shares(10)).unwrap();
    s
}

#[test]
fn init_pins_the_real_computation_definition_offset() {
    let mut s = BioAuthState::new(PROGRAM_ID);
    assert!(s.comp_def.is_none());
    s.init_bio_config().unwrap();
    assert_eq!(s.comp_def, Some(arcium_anchor::comp_def_offset("verify_biometric")));
    assert_eq!(s.init_bio_config(), Err(ErrorCode::AlreadyInitialized));
}

#[test]
fn enrollment_stores_template_and_real_derivation_bump() {
    let mut s = BioAuthState::new(PROGRAM_ID);
    s.register_biometrics(owner(1), shares(10)).unwrap();
    assert_eq!(s.profiles.len(), 1);
    assert_eq!(s.profiles[0].owner.bytes, [1; 32]);
    assert_eq!(s.profiles[0].encrypted_template, shares(10));

    let program = anchor_lang::prelude::Pubkey::new_from_array(PROGRAM_ID);
    let (_, bump) = anchor_lang::prelude::Pubkey::try_find_program_address(
        &[b"bio_auth", &[1; 32]],
        &program,
    )
    .unwrap();
    assert_eq!(s.profiles[0].bump, bump);
}

#[test]
fn re_enrollment_fails_and_leaves_the_template_unchanged() {
    let mut s = BioAuthState::new(PROGRAM_ID);
    s.register_biometrics(owner(1), shares(10)).unwrap();
    let r = s.register_biometrics(owner(1), shares(200));
    assert_eq!(r, Err(ErrorCode::AlreadyRegistered));
    assert_eq!(s.profiles.len(), 1);
    assert_eq!(s.profiles[0].encrypted_template, shares(10));

    // A different owner still enrolls fine.
    s.register_biometrics(owner(2), shares(20)).unwrap();
    assert_eq!(s.profiles.len(), 2);
}

#[test]
fn request_validation_errors_are_exact() {
    let mut s = BioAuthState::new(PROGRAM_ID);
    s.register_biometrics(owner(1), shares(10)).unwrap();
    // Configuration missing.
    let r = s.request_authentication(1, &owner(1), shares(30), [5; 32], 99);
    assert_eq!(r.err(), Some(ErrorCode::ClusterNotSet));

    s.init_bio_config().unwrap();
    assert_eq!(s.signer_bump, None);
    // No template for this owner.
    let r = s.request_authentication(1, &owner(2), shares(30), [5; 32], 99);
    assert_eq!(r.err(), Some(ErrorCode::ProfileNotFound));
    assert_eq!(s.requests.len(), 0);

    // Fresh offset succeeds; the same offset can never be used again.
    s.request_authentication(1, &owner(1), shares(30), [5; 32], 99).unwrap();
    let r = s.request_authentication(1, &owner(1), shares(40), [5; 32], 100);
    assert_eq!(r.err(), Some(ErrorCode::OffsetAlreadyUsed));
    assert_eq!(s.requests.len(), 1);
}

#[test]
fn request_builds_the_payload_in_the_fixed_circuit_order() {
    let mut s = ready_state();
    let pubkey = [5; 32];
    let nonce: u128 = 0xABCDEF;
    let req = s.request_authentication(42, &owner(1), shares(30), pubkey, nonce).unwrap();

    assert_eq!(req.offset, 42);
    assert_eq!(req.callback_offset, 42);
    assert_eq!(req.comp_def, arcium_anchor::comp_def_offset("verify_biometric"));
    assert_eq!(req.node_count, 1);

    // Inspect the real ArgumentList the network would receive: the
    // re-encryption key, the nonce, the four template ciphertexts, then the
    // four attempt ciphertexts, in that order.
    let args = &req.args;
    assert_eq!(args.args.len(), 10);
    assert!(matches!(args.args[0], ArgumentRef::X25519Pubkey(0)));
    assert!(matches!(args.args[1], ArgumentRef::PlaintextU128(0)));
    for i in 0..8u8 {
        assert!(matches!(args.args[2 + i as usize], ArgumentRef::EncryptedU64(x) if x == i + 1));
    }
    let template = shares(10);
    let attempt = shares(30);
    assert_eq!(args.byte_arrays.len(), 9);
    assert_eq!(args.byte_arrays[0], pubkey);
    for i in 0..4 {
        assert_eq!(args.byte_arrays[1 + i], template[i]);
        assert_eq!(args.byte_arrays[5 + i], attempt[i]);
    }
    assert_eq!(args.values_128_bit, vec![nonce]);
    assert!(args.plaintext_numbers.is_empty());
    assert!(args.accounts.is_empty());

    // The signer authority was lazily derived, with the real bump seed.
    let program = anchor_lang::prelude::Pubkey::new_from_array(PROGRAM_ID);
    let (_, signer_bump) = anchor_lang::prelude::Pubkey::try_find_program_address(
        &[b"ArciumSignerAccount"],
        &program,
    )
    .unwrap();
    assert_eq!(s.signer_bump, Some(signer_bump));

    // The request is now pending under its offset.
    assert_eq!(s.requests.len(), 1);
    assert_eq!(s.requests[0].offset, 42);
    assert!(matches!(s.requests[0].status, RequestStatus::Pending));
}

#[test]
fn verified_callback_decodes_and_emits_exactly_one_event() {
    let mut s = ready_state();
    s.request_authentication(42, &owner(1), shares(30), [5; 32], 99).unwrap();

    let event: AuthEvent = s
        .verify_biometric_callback(42, &output(3, 1), true, 1_700_000_000)
        .unwrap();
    assert_eq!(event.user.bytes, [1; 32]);
    assert_eq!(event.score, 3);
    assert!(event.success);
    assert_eq!(event.timestamp, 1_700_000_000);

    match s.requests[0].status {
        RequestStatus::Verified(o) => {
            assert_eq!(o.match_score, 3);
            assert!(o.is_authenticated);
        }
        _ => panic!("request should be Verified"),
    }

    // A second delivery for the same offset is rejected unchanged.
    let r = s.verify_biometric_callback(42, &output(4, 1), true, 1_700_000_001);
    assert_eq!(r.err(), Some(ErrorCode::RequestNotPending));
    assert!(matches!(s.requests[0].status, RequestStatus::Verified(_)));
}

#[test]
fn non_threshold_decision_is_reported_as_failure() {
    let mut s = ready_state();
    s.request_authentication(7, &owner(1), shares(30), [5; 32], 99).unwrap();
    let event = s.verify_biometric_callback(7, &output(2, 0), true, 10).unwrap();
    assert_eq!(event.score, 2);
    assert!(!event.success);
    // Only a literal 1 in the decision slot counts as authenticated.
    let mut s = ready_state();
    s.request_authentication(8, &owner(1), shares(30), [5; 32], 99).unwrap();
    let event = s.verify_biometric_callback(8, &output(4, 2), true, 10).unwrap();
    assert!(!event.success);
}

#[test]
fn failed_signature_aborts_without_event_or_decode() {
    let mut s = ready_state();
    s.request_authentication(42, &owner(1), shares(30), [5; 32], 99).unwrap();

    let r = s.verify_biometric_callback(42, &output(4, 1), false, 10);
    assert_eq!(r.err(), Some(ErrorCode::AbortedComputation));
    // Terminal, with nothing decoded or stored: Aborted carries no outcome.
    assert!(matches!(s.requests[0].status, RequestStatus::Aborted));

    // The transition is terminal: even a validly signed retry is rejected.
    let r = s.verify_biometric_callback(42, &output(4, 1), true, 11);
    assert_eq!(r.err(), Some(ErrorCode::RequestNotPending));
    assert!(matches!(s.requests[0].status, RequestStatus::Aborted));
}

#[test]
fn callback_only_touches_the_request_with_its_own_offset() {
    let mut s = ready_state();
    s.register_biometrics(owner(2), shares(20)).unwrap();
    s.request_authentication(1, &owner(1), shares(30), [5; 32], 99).unwrap();
    s.request_authentication(2, &owner(2), shares(40), [5; 32], 100).unwrap();

    // A callback for an offset nobody queued is rejected outright.
    let r = s.verify_biometric_callback(3, &output(4, 1), true, 10);
    assert_eq!(r.err(), Some(ErrorCode::UnknownOffset));
    assert!(matches!(s.requests[0].status, RequestStatus::Pending));
    assert!(matches!(s.requests[1].status, RequestStatus::Pending));

    // A valid callback for offset 1 satisfies that request only: the one
    // queued under offset 2 stays pending, and the event names the user who
    // queued offset 1.
    let event = s.verify_biometric_callback(1, &output(4, 1), true, 10).unwrap();
    assert_eq!(event.user.bytes, [1; 32]);
    assert!(matches!(s.requests[0].status, RequestStatus::Verified(_)));
    assert!(matches!(s.requests[1].status, RequestStatus::Pending));
}
