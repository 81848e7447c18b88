use ring::rand::SystemRandom;
use ring::signature::KeyPair;
use ring::signature::{
    EcdsaKeyPair, ECDSA_P256_SHA256_ASN1_SIGNING, ECDSA_P384_SHA384_ASN1_SIGNING,
};
use sgx_ecc::ring_ecc::{ring_ecc_sign_test, sign_outcome, verify_signature, Context, RingEccError};

fn pkcs8_for(alg: &'static ring::signature::EcdsaSigningAlgorithm) -> Vec<u8> {
    let rng = SystemRandom::new();
    EcdsaKeyPair::generate_pkcs8(alg, &rng).unwrap().as_ref().to_vec()
}

#[test]
fn ring_ecc_test() {
    let mut ctx = Context::new();
    ring_ecc_sign_test(&mut ctx).unwrap();
}

#[test]
fn new_context_holds_no_key() {
    let ctx = Context::new();
    assert!(!ctx.holds_key());
}

#[test]
fn key_create_then_sign() {
    let mut ctx = Context::new();
    assert_eq!(ctx.ring_ecc_key_create(), Ok(()));
    assert!(ctx.holds_key());
    assert_eq!(ctx.ring_ecc_sign(b"hello world"), Ok(()));
    assert_eq!(ctx.ring_ecc_sign(b""), Ok(()));
}

#[test]
fn key_create_twice_keeps_the_key() {
    let mut ctx = Context::new();
    assert_eq!(ctx.ring_ecc_key_create(), Ok(()));
    assert_eq!(ctx.ring_ecc_key_create(), Ok(()));
    assert!(ctx.holds_key());
    assert_eq!(ctx.ring_ecc_sign(b"to sign"), Ok(()));
}

#[test]
fn sign_test_twice_on_one_context() {
    let mut ctx = Context::new();
    assert_eq!(ring_ecc_sign_test(&mut ctx), Ok(()));
    assert_eq!(ring_ecc_sign_test(&mut ctx), Ok(()));
    assert!(ctx.holds_key());
}

#[test]
fn install_p256_document() {
    let mut ctx = Context::new();
    assert_eq!(ctx.install_pkcs8(&pkcs8_for(&ECDSA_P256_SHA256_ASN1_SIGNING)), Ok(()));
    assert!(ctx.holds_key());
    assert_eq!(ctx.ring_ecc_sign(b"hello world"), Ok(()));
}

#[test]
fn install_p384_document_is_rejected() {
    let mut ctx = Context::new();
    assert_eq!(
        ctx.install_pkcs8(&pkcs8_for(&ECDSA_P384_SHA384_ASN1_SIGNING)),
        Err(RingEccError::KeyRejected)
    );
    assert!(!ctx.holds_key());
}

#[test]
fn install_garbage_is_rejected() {
    let mut ctx = Context::new();
    assert_eq!(ctx.install_pkcs8(&[1, 2, 3]), Err(RingEccError::KeyRejected));
    assert_eq!(ctx.install_pkcs8(&[]), Err(RingEccError::KeyRejected));
    assert!(!ctx.holds_key());
}

#[test]
fn rejected_document_keeps_the_held_key() {
    let mut ctx = Context::new();
    assert_eq!(ctx.ring_ecc_key_create(), Ok(()));
    assert_eq!(ctx.install_pkcs8(&[0x30, 0x00]), Err(RingEccError::KeyRejected));
    assert!(ctx.holds_key());
    assert_eq!(ctx.ring_ecc_sign(b"still signs"), Ok(()));
}

fn public_key_of(pkcs8: &[u8]) -> Vec<u8> {
    let rng = SystemRandom::new();
    let kp = EcdsaKeyPair::from_pkcs8(&ECDSA_P256_SHA256_ASN1_SIGNING, pkcs8, &rng).unwrap();
    kp.public_key().as_ref().to_vec()
}

#[test]
fn installed_key_is_the_documents_key() {
    let doc = pkcs8_for(&ECDSA_P256_SHA256_ASN1_SIGNING);
    let mut ctx = Context::new();
    assert_eq!(ctx.public_key_bytes(), None);
    assert_eq!(ctx.install_pkcs8(&doc), Ok(()));
    let pk = ctx.public_key_bytes().unwrap();
    assert_eq!(pk, public_key_of(&doc));
    assert_eq!(pk.len(), 65);
    assert_eq!(pk[0], 4);
}

#[test]
fn created_key_is_an_uncompressed_point_and_stays() {
    let mut ctx = Context::new();
    assert_eq!(ctx.ring_ecc_key_create(), Ok(()));
    let pk = ctx.public_key_bytes().unwrap();
    assert_eq!(pk.len(), 65);
    assert_eq!(pk[0], 4);
    assert_eq!(ctx.ring_ecc_key_create(), Ok(()));
    assert_eq!(ctx.ring_ecc_sign(b"hello world"), Ok(()));
    assert_eq!(ctx.public_key_bytes().unwrap(), pk);
}

#[test]
fn install_generated_outcomes() {
    let mut ctx = Context::new();
    assert_eq!(
        ctx.install_generated(Err(ring::error::Unspecified)),
        Err(RingEccError::KeyGeneration)
    );
    assert!(!ctx.holds_key());
    assert_eq!(ctx.install_generated(Ok(vec![1, 2, 3])), Err(RingEccError::KeyRejected));
    assert!(!ctx.holds_key());
    let doc = pkcs8_for(&ECDSA_P256_SHA256_ASN1_SIGNING);
    assert_eq!(ctx.install_generated(Ok(doc.clone())), Ok(()));
    assert_eq!(ctx.public_key_bytes().unwrap(), public_key_of(&doc));
}

#[test]
fn sign_outcome_maps_rings_failure() {
    assert_eq!(sign_outcome(Ok(vec![0x30, 0x06])), Ok(()));
    assert_eq!(sign_outcome(Ok(vec![])), Ok(()));
    assert_eq!(sign_outcome(Err(ring::error::Unspecified)), Err(RingEccError::Signing));
}

#[test]
fn verify_signature_follows_ring() {
    let doc = pkcs8_for(&ECDSA_P256_SHA256_ASN1_SIGNING);
    let rng = SystemRandom::new();
    let kp = EcdsaKeyPair::from_pkcs8(&ECDSA_P256_SHA256_ASN1_SIGNING, &doc, &rng).unwrap();
    let sig = kp.sign(&rng, b"hello world").unwrap();
    let pk = kp.public_key().as_ref().to_vec();
    assert!(verify_signature(&pk, b"hello world", sig.as_ref()));
    assert!(!verify_signature(&pk, b"hello worle", sig.as_ref()));
    assert!(!verify_signature(&pk, b"", sig.as_ref()));
    assert!(!verify_signature(&pk, b"hello world", &[]));
    let other = public_key_of(&pkcs8_for(&ECDSA_P256_SHA256_ASN1_SIGNING));
    assert!(!verify_signature(&other, b"hello world", sig.as_ref()));
}
