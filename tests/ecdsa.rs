use rule_example::crypto::ecdsa::algorithm_of_code;
use rule_example::crypto::ecdsa::interpret_result;
use rule_example::crypto::ecdsa::outcome_code;
use rule_example::crypto::ecdsa::prepare_call;
use rule_example::crypto::ecdsa::EcdsaAlgorithmn;

#[test]
fn wire_codes_are_fixed() {
    assert_eq!(EcdsaAlgorithmn::P256.code(), 1);
    assert_eq!(EcdsaAlgorithmn::Secp256k1.code(), 2);
}

#[test]
fn secp256k1_code_independent_of_p256() {
    let sig = [9u8, 8, 7];
    let digest = [1u8, 2, 3, 4];
    let key = [4u8, 5];
    let k1 = prepare_call(&sig, &digest, &key, EcdsaAlgorithmn::Secp256k1);
    let p = prepare_call(&sig, &digest, &key, EcdsaAlgorithmn::P256);
    assert_eq!(k1.code, 2);
    assert_eq!(p.code, 1);
    assert_ne!(k1.code, p.code);
    assert_eq!(algorithm_of_code(2), Some(EcdsaAlgorithmn::Secp256k1));
    assert_eq!(algorithm_of_code(1), Some(EcdsaAlgorithmn::P256));
}

#[test]
fn codes_without_algorithm() {
    assert_eq!(algorithm_of_code(0), None);
    assert_eq!(algorithm_of_code(3), None);
    assert_eq!(algorithm_of_code(-1), None);
}

#[test]
fn prepared_call_passes_material_unchanged() {
    let sig = [0x30u8, 0x44, 0x02];
    let digest = [0xaau8; 32];
    let key = [0x04u8, 0x11, 0x22];
    let call = prepare_call(&sig, &digest, &key, EcdsaAlgorithmn::P256);
    assert_eq!(call.signature, &sig[..]);
    assert_eq!(call.digest, &digest[..]);
    assert_eq!(call.pubkey, &key[..]);
}

#[test]
fn only_one_means_valid() {
    assert!(interpret_result(1));
    assert!(!interpret_result(0));
    assert!(!interpret_result(2));
    assert!(!interpret_result(-1));
    assert!(!interpret_result(i32::MIN));
    assert!(!interpret_result(i32::MAX));
}

#[test]
fn interpretation_is_idempotent() {
    for r in [-7i32, 0, 1, 2, 99] {
        assert_eq!(interpret_result(r), interpret_result(r));
    }
}

#[test]
fn valid_host_answer_reports_one() {
    assert_eq!(outcome_code(interpret_result(1)), 1);
}

#[test]
fn rejected_host_answer_reports_zero() {
    assert_eq!(outcome_code(interpret_result(0)), 0);
    assert_eq!(outcome_code(interpret_result(-3)), 0);
}
