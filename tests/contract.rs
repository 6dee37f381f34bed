use test_contract::client::{register_key, verify_proof};
use test_contract::ids::{
    EXTENSION_ID, STORE_KEY_EXT_ID, STORE_KEY_FUNC_ID, STORE_KEY_SUCCESS, VERIFY_EXT_ID,
    VERIFY_FUNC_ID, VERIFY_SUCCESS,
};
use test_contract::outcome::{CallError, ProtocolError, RegisterKeyError, VerifyError};
use test_contract::registry::SubstituteRegistry;
use test_contract::outcome::{store_key_outcome, verify_outcome};
use test_contract::wire::{
    decode_store_key, decode_verify, encode_store_key, encode_verify, CallResponse, DecodeError,
};
use test_contract::TestContract;

#[test]
fn store_key_works() {
    let mut reg = SubstituteRegistry::new();
    reg.register(STORE_KEY_EXT_ID, STORE_KEY_SUCCESS);
    TestContract::new().call_store_key(&mut reg, &[0; 32]).unwrap();
}

#[test]
fn verify_works() {
    let mut reg = SubstituteRegistry::new();
    reg.register(VERIFY_EXT_ID, VERIFY_SUCCESS);
    TestContract::new().call_verify(&mut reg).unwrap();
}

#[test]
fn store_key_sends_zero_arguments() {
    let mut reg = SubstituteRegistry::new();
    reg.register(STORE_KEY_EXT_ID, STORE_KEY_SUCCESS);
    let caller = [7u8; 32];
    assert_eq!(TestContract::new().call_store_key(&mut reg, &caller), Ok(()));
    let calls = reg.received_calls();
    assert_eq!(calls.len(), 1);
    assert_eq!(calls[0].op, STORE_KEY_EXT_ID);
    let mut expected = vec![7u8; 32];
    expected.extend_from_slice(&[0u8; 8]);
    expected.push(128);
    expected.extend_from_slice(&[0u8; 32]);
    assert_eq!(calls[0].input, expected);
}

#[test]
fn verify_sends_zero_arguments() {
    let mut reg = SubstituteRegistry::new();
    reg.register(VERIFY_EXT_ID, VERIFY_SUCCESS);
    assert_eq!(TestContract::new().call_verify(&mut reg), Ok(()));
    let calls = reg.received_calls();
    assert_eq!(calls.len(), 1);
    assert_eq!(calls[0].op, VERIFY_EXT_ID);
    assert_eq!(calls[0].input.len(), 134);
    assert_eq!(calls[0].input[8], 164);
    assert_eq!(&calls[0].input[50..52], &[73, 1]);
    let args = decode_verify(&calls[0].input).unwrap();
    assert_eq!(args.id, [0u8; 8]);
    assert_eq!(args.proof, vec![0u8; 41]);
    assert_eq!(args.public_input, vec![0u8; 82]);
}

#[test]
fn store_key_failure_carries_its_code() {
    let mut reg = SubstituteRegistry::new();
    reg.register(STORE_KEY_EXT_ID, 1);
    let r = register_key(&mut reg, &[0; 32], &[0; 8], &vec![0; 32]);
    assert_eq!(r, Err(CallError::Operation(RegisterKeyError { code: 1 })));
}

#[test]
fn verify_failure_carries_its_code() {
    let mut reg = SubstituteRegistry::new();
    reg.register(VERIFY_EXT_ID, 11001);
    let r = verify_proof(&mut reg, &[0; 8], &vec![0; 41], &vec![0; 82]);
    assert_eq!(r, Err(CallError::Operation(VerifyError { code: 11001 })));
}

#[test]
fn verify_without_substitute_fails() {
    let mut reg = SubstituteRegistry::new();
    reg.register(STORE_KEY_EXT_ID, STORE_KEY_SUCCESS);
    let r = TestContract::new().call_verify(&mut reg);
    assert_eq!(
        r,
        Err(CallError::Protocol(ProtocolError::Unregistered { op: VERIFY_EXT_ID }))
    );
    assert!(reg.received_calls().is_empty());
}

#[test]
fn register_key_without_substitute_fails() {
    let mut reg = SubstituteRegistry::new();
    let r = register_key(&mut reg, &[0; 32], &[0; 8], &Vec::new());
    assert_eq!(
        r,
        Err(CallError::Protocol(ProtocolError::Unregistered { op: STORE_KEY_EXT_ID }))
    );
    assert!(reg.received_calls().is_empty());
}

#[test]
fn a_substitute_answers_only_its_own_selector() {
    let mut reg = SubstituteRegistry::new();
    reg.register(VERIFY_EXT_ID, VERIFY_SUCCESS);
    assert!(reg.is_registered(VERIFY_EXT_ID));
    assert!(!reg.is_registered(STORE_KEY_EXT_ID));
    let r = TestContract::new().call_store_key(&mut reg, &[0; 32]);
    assert_eq!(
        r,
        Err(CallError::Protocol(ProtocolError::Unregistered { op: STORE_KEY_EXT_ID }))
    );
}

#[test]
fn re_registering_replaces_the_substitute() {
    let mut reg = SubstituteRegistry::new();
    reg.register(STORE_KEY_EXT_ID, 3);
    reg.register(STORE_KEY_EXT_ID, STORE_KEY_SUCCESS);
    assert_eq!(TestContract::new().call_store_key(&mut reg, &[0; 32]), Ok(()));
    reg.register(STORE_KEY_EXT_ID, 5);
    assert_eq!(
        TestContract::new().call_store_key(&mut reg, &[0; 32]),
        Err(CallError::Operation(RegisterKeyError { code: 5 }))
    );
    assert_eq!(reg.received_calls().len(), 2);
}

#[test]
fn clear_removes_every_substitute() {
    let mut reg = SubstituteRegistry::new();
    reg.register(STORE_KEY_EXT_ID, STORE_KEY_SUCCESS);
    reg.register(VERIFY_EXT_ID, VERIFY_SUCCESS);
    assert_eq!(TestContract::new().call_verify(&mut reg), Ok(()));
    reg.clear();
    assert!(reg.received_calls().is_empty());
    assert!(!reg.is_registered(STORE_KEY_EXT_ID));
    assert_eq!(
        TestContract::new().call_verify(&mut reg),
        Err(CallError::Protocol(ProtocolError::Unregistered { op: VERIFY_EXT_ID }))
    );
}

#[test]
fn selectors_combine_extension_and_function() {
    assert_eq!(STORE_KEY_EXT_ID, (EXTENSION_ID << 16) | STORE_KEY_FUNC_ID);
    assert_eq!(VERIFY_EXT_ID, (EXTENSION_ID << 16) | VERIFY_FUNC_ID);
    assert_ne!(STORE_KEY_EXT_ID, VERIFY_EXT_ID);
}

#[test]
fn store_key_round_trip() {
    let caller: [u8; 32] = core::array::from_fn(|i| i as u8);
    let id = [9u8, 8, 7, 6, 5, 4, 3, 2];
    let key: Vec<u8> = (0..300u32).map(|i| (i % 251) as u8).collect();
    let req = encode_store_key(&caller, &id, &key);
    assert_eq!(req.op, STORE_KEY_EXT_ID);
    assert_eq!(&req.input[40..42], &[177, 4]);
    assert_eq!(req.input.len(), 342);
    let args = decode_store_key(&req.input).unwrap();
    assert_eq!(args.caller, caller);
    assert_eq!(args.id, id);
    assert_eq!(args.key, key);
}

#[test]
fn store_key_round_trip_with_empty_key() {
    let req = encode_store_key(&[1; 32], &[2; 8], &Vec::new());
    assert_eq!(req.input.len(), 41);
    assert_eq!(req.input[40], 0);
    let args = decode_store_key(&req.input).unwrap();
    assert_eq!(args.caller, [1; 32]);
    assert_eq!(args.id, [2; 8]);
    assert!(args.key.is_empty());
}

#[test]
fn verify_round_trip_with_empty_material() {
    let req = encode_verify(&[3; 8], &Vec::new(), &Vec::new());
    assert_eq!(req.op, VERIFY_EXT_ID);
    assert_eq!(req.input, vec![3, 3, 3, 3, 3, 3, 3, 3, 0, 0]);
    let args = decode_verify(&req.input).unwrap();
    assert_eq!(args.id, [3; 8]);
    assert!(args.proof.is_empty());
    assert!(args.public_input.is_empty());
}

#[test]
fn verify_round_trip() {
    let proof = vec![1u8, 2, 3];
    let public_input = vec![4u8; 70000];
    let req = encode_verify(&[5; 8], &proof, &public_input);
    assert_eq!(req.input[8], 12);
    assert_eq!(&req.input[12..16], &[194, 69, 4, 0]);
    let args = decode_verify(&req.input).unwrap();
    assert_eq!(args.proof, proof);
    assert_eq!(args.public_input, public_input);
}

#[test]
fn decoding_a_short_buffer_is_truncated() {
    assert_eq!(decode_store_key(&vec![0; 39]).err(), Some(DecodeError {}));
    assert_eq!(decode_store_key(&vec![0; 40]).err(), Some(DecodeError {}));
    let mut input = vec![0u8; 40];
    input.extend_from_slice(&[20, 1, 2]);
    assert_eq!(decode_store_key(&input).err(), Some(DecodeError {}));
    assert_eq!(decode_verify(&vec![0; 7]).err(), Some(DecodeError {}));
    assert_eq!(decode_verify(&vec![0; 9]).err(), Some(DecodeError {}));
    let mut input = vec![0u8; 40];
    input.extend_from_slice(&[3, 0, 0, 0, 64]);
    assert_eq!(decode_store_key(&input).err(), Some(DecodeError {}));
}

#[test]
fn decoding_extra_bytes_is_refused() {
    let mut req = encode_store_key(&[0; 32], &[0; 8], &vec![1, 2]);
    req.input.push(0);
    assert_eq!(decode_store_key(&req.input).err(), Some(DecodeError {}));
    let mut req = encode_verify(&[0; 8], &vec![1], &vec![2]);
    req.input.push(9);
    assert_eq!(decode_verify(&req.input).err(), Some(DecodeError {}));
}

#[test]
fn success_with_output_is_success() {
    let answer = Ok(CallResponse { status: STORE_KEY_SUCCESS, output: vec![1] });
    assert_eq!(store_key_outcome(answer), Ok(()));
    let answer = Ok(CallResponse { status: VERIFY_SUCCESS, output: vec![0, 0] });
    assert_eq!(verify_outcome(answer), Ok(()));
}

#[test]
fn failure_status_with_output_keeps_its_code() {
    let answer = Ok(CallResponse { status: 10002, output: vec![1] });
    assert_eq!(
        store_key_outcome(answer),
        Err(CallError::Operation(RegisterKeyError::from_code(10002)))
    );
    assert_eq!(RegisterKeyError::from_code(10002).code, 10002);
    assert_eq!(VerifyError::from_code(7).code, 7);
}

#[test]
fn outcome_passes_protocol_failures_through() {
    let e = ProtocolError::Unregistered { op: 12 };
    assert_eq!(verify_outcome(Err(e)), Err(CallError::Protocol(e)));
    assert_eq!(
        verify_outcome(Ok(CallResponse { status: VERIFY_SUCCESS, output: Vec::new() })),
        Ok(())
    );
}

#[test]
fn decoding_a_non_canonical_length_is_refused() {
    let mut input = vec![0u8; 40];
    input.extend_from_slice(&[5, 0, 1]);
    assert_eq!(decode_store_key(&input).err(), Some(DecodeError {}));
    let mut input = vec![0u8; 40];
    input.extend_from_slice(&[2, 1, 0, 0]);
    assert_eq!(decode_store_key(&input).err(), Some(DecodeError {}));
    let mut input = vec![0u8; 40];
    input.extend_from_slice(&[3, 255, 255, 255, 63]);
    assert_eq!(decode_store_key(&input).err(), Some(DecodeError {}));
    let mut input = vec![0u8; 8];
    input.push(7);
    assert_eq!(decode_verify(&input).err(), Some(DecodeError {}));
}

#[test]
fn four_byte_length_form() {
    let key = vec![0u8; 16384];
    let req = encode_store_key(&[0; 32], &[0; 8], &key);
    assert_eq!(&req.input[40..44], &[2, 0, 1, 0]);
    assert_eq!(decode_store_key(&req.input).unwrap().key.len(), 16384);
    let key = vec![0u8; 16383];
    let req = encode_store_key(&[0; 32], &[0; 8], &key);
    assert_eq!(&req.input[40..42], &[253, 255]);
}

#[test]
fn field_boundaries_are_explicit() {
    let a = encode_verify(&[0; 8], &Vec::new(), &vec![1]);
    let b = encode_verify(&[0; 8], &vec![1], &Vec::new());
    assert_ne!(a.input, b.input);
    assert_eq!(decode_verify(&a.input).unwrap().public_input, vec![1]);
    assert_eq!(decode_verify(&b.input).unwrap().proof, vec![1]);
}

#[test]
fn substitute_output_is_not_read() {
    let mut reg = SubstituteRegistry::new();
    reg.register_with_output(STORE_KEY_EXT_ID, STORE_KEY_SUCCESS, vec![1, 2]);
    assert_eq!(TestContract::new().call_store_key(&mut reg, &[0; 32]), Ok(()));
    reg.register_with_output(VERIFY_EXT_ID, 11002, vec![9]);
    assert_eq!(
        TestContract::new().call_verify(&mut reg),
        Err(CallError::Operation(VerifyError { code: 11002 }))
    );
    reg.register_with_output(VERIFY_EXT_ID, VERIFY_SUCCESS, Vec::new());
    assert_eq!(TestContract::new().call_verify(&mut reg), Ok(()));
}

#[test]
fn substitute_answers_by_argument_bytes() {
    let refused = encode_store_key(&[7; 32], &[0; 8], &vec![0; 32]).input;
    let mut reg = SubstituteRegistry::new();
    reg.register_with_answers(
        STORE_KEY_EXT_ID,
        STORE_KEY_SUCCESS,
        Vec::new(),
        vec![(refused.clone(), 10002), (refused, 10003)],
    );
    assert_eq!(
        TestContract::new().call_store_key(&mut reg, &[7; 32]),
        Err(CallError::Operation(RegisterKeyError { code: 10002 }))
    );
    assert_eq!(TestContract::new().call_store_key(&mut reg, &[8; 32]), Ok(()));
    assert_eq!(reg.received_calls().len(), 2);
}
