//! ECDSA P-256 keys and signatures through `ring`.
//!
//! A context holds at most one key pair together with its public key. Key
//! creation and signing each call `ring` once; what follows a given outcome
//! of that call is decided by a verified function that takes the outcome as
//! an argument (`install_generated`, `install_key_pair`, `sign_outcome`).

use ring::error::{KeyRejected, Unspecified};
use ring::rand::SystemRandom;
use ring::signature::{EcdsaKeyPair, KeyPair, UnparsedPublicKey};
use vstd::prelude::*;

verus! {

#[verifier::external_type_specification]
#[verifier::external_body]
pub struct ExEcdsaKeyPair(EcdsaKeyPair);

#[verifier::external_type_specification]
#[verifier::external_body]
pub struct ExSystemRandom(SystemRandom);

#[verifier::external_type_specification]
#[verifier::external_body]
pub struct ExUnspecified(Unspecified);

#[verifier::external_type_specification]
#[verifier::external_body]
pub struct ExKeyRejected(KeyRejected);

/// The ECDSA algorithms that keys of this library are made for.
#[derive(Clone, Copy, PartialEq, Eq, Debug)]
pub enum SigningAlgorithm {
    /// ECDSA over the P-256 curve with SHA-256, signatures in ASN.1 DER.
    EcdsaP256Sha256Asn1,
}

/// Why a `ring` operation of this module failed.
#[derive(Clone, Copy, PartialEq, Eq, Debug)]
pub enum RingEccError {
    /// `ring` could not generate a fresh PKCS#8 key document.
    KeyGeneration,
    /// `ring` refused to build a key pair from the PKCS#8 document.
    KeyRejected,
    /// `ring` could not produce a signature.
    Signing,
}

/// The public key that `ring`'s `EcdsaKeyPair::from_pkcs8` finds in the
/// PKCS#8 document `pkcs8` for `alg`, when it accepts the document.
pub uninterp spec fn pkcs8_public_key(alg: SigningAlgorithm, pkcs8: Seq<u8>) -> Seq<u8>;

/// Whether `ring`'s `UnparsedPublicKey::verify`, with the verification
/// algorithm that matches `alg`, accepts `signature` as a signature of
/// `message` under `public_key`.
pub uninterp spec fn ecdsa_verifies(
    alg: SigningAlgorithm,
    public_key: Seq<u8>,
    message: Seq<u8>,
    signature: Seq<u8>,
) -> bool;

/// A P-256 public key in the uncompressed form of SEC 1: the byte 4 and then
/// both coordinates, 32 bytes each.
pub open spec fn is_uncompressed_p256_point(public_key: Seq<u8>) -> bool {
    public_key.len() == 65 && public_key[0] == 4
}

/// The bytes of "hello world", which the sign test signs.
pub open spec fn hello_world() -> Seq<u8> {
    seq![104u8, 101u8, 108u8, 108u8, 111u8, 32u8, 119u8, 111u8, 114u8, 108u8, 100u8]
}

/// An ECDSA P-256 key pair of `ring`, with its public key as bytes.
pub struct P256KeyPair {
    key_pair: EcdsaKeyPair,
    public_key: Vec<u8>,
}

impl P256KeyPair {
    /// `ring` gives every P-256 public key in uncompressed form.
    #[verifier::type_invariant]
    spec fn public_key_uncompressed(self) -> bool {
        is_uncompressed_p256_point(self.public_key@)
    }

    /// The public key of the pair.
    pub closed spec fn public_key(&self) -> Seq<u8> {
        self.public_key@
    }
}

/// `ring::rand::SystemRandom::new`: builds a handle on the operating
/// system's random number generator. Nothing is claimed of it.
#[verifier::external_body]
fn system_random() -> SystemRandom {
    SystemRandom::new()
}

/// `ring::signature::EcdsaKeyPair::generate_pkcs8`: draws a fresh private
/// key for `alg` and returns it serialized as a PKCS#8 v1 document. The
/// outcome rests on the random number generator, so nothing is claimed of it.
#[verifier::external_body]
fn generate_pkcs8(alg: SigningAlgorithm, rng: &SystemRandom) -> Result<Vec<u8>, Unspecified> {
    let alg = match alg {
        SigningAlgorithm::EcdsaP256Sha256Asn1 => &ring::signature::ECDSA_P256_SHA256_ASN1_SIGNING,
    };
    match EcdsaKeyPair::generate_pkcs8(alg, rng) {
        Ok(doc) => Ok(doc.as_ref().to_vec()),
        Err(e) => Err(e),
    }
}

/// `ring::signature::EcdsaKeyPair::from_pkcs8`, with the public key of the
/// pair read through `KeyPair::public_key`. Claimed: an accepted document
/// gives a key pair whose public key is the one named by `pkcs8_public_key`
/// (`ring` takes it from the document and checks it against the private
/// key), in the uncompressed form that `ring` documents for P-256. Whether
/// the document is accepted is not claimed: `ring` also draws a random nonce
/// key here.
#[verifier::external_body]
fn key_pair_from_pkcs8(alg: SigningAlgorithm, pkcs8: &[u8], rng: &SystemRandom) -> (r: Result<
    P256KeyPair,
    KeyRejected,
>)
    ensures
        r matches Ok(k) ==> k.public_key() == pkcs8_public_key(alg, pkcs8@)
            && is_uncompressed_p256_point(k.public_key()),
{
    let ring_alg = match alg {
        SigningAlgorithm::EcdsaP256Sha256Asn1 => &ring::signature::ECDSA_P256_SHA256_ASN1_SIGNING,
    };
    match EcdsaKeyPair::from_pkcs8(ring_alg, pkcs8, rng) {
        Ok(key_pair) => {
            let public_key = key_pair.public_key().as_ref().to_vec();
            Ok(P256KeyPair { key_pair, public_key })
        },
        Err(e) => Err(e),
    }
}

/// `ring::signature::EcdsaKeyPair::sign`, with the signature returned as
/// bytes. Claimed: a signature that `ring` returns verifies, under the
/// pair's public key, as a signature of `message`. The signature itself rests
/// on a random nonce and whether signing succeeds on the random number
/// generator; neither is claimed.
#[verifier::external_body]
fn sign_message(key: &P256KeyPair, rng: &SystemRandom, message: &[u8]) -> (r: Result<
    Vec<u8>,
    Unspecified,
>)
    ensures
        r matches Ok(sig) ==> ecdsa_verifies(
            SigningAlgorithm::EcdsaP256Sha256Asn1,
            key.public_key(),
            message@,
            sig@,
        ),
{
    match key.key_pair.sign(rng, message) {
        Ok(sig) => Ok(sig.as_ref().to_vec()),
        Err(e) => Err(e),
    }
}

/// `ring::signature::UnparsedPublicKey::verify` with the verification
/// algorithm that matches `alg`: whether `signature` is a valid signature of
/// `message` under `public_key`. Claimed: the answer is the one named by
/// `ecdsa_verifies`.
#[verifier::external_body]
fn verify_with(alg: SigningAlgorithm, public_key: &[u8], message: &[u8], signature: &[u8]) -> (r:
    bool)
    ensures
        r == ecdsa_verifies(alg, public_key@, message@, signature@),
{
    let ring_alg = match alg {
        SigningAlgorithm::EcdsaP256Sha256Asn1 => &ring::signature::ECDSA_P256_SHA256_ASN1,
    };
    UnparsedPublicKey::new(ring_alg, public_key).verify(message, signature).is_ok()
}

/// Whether `signature` is an ECDSA P-256 SHA-256 (ASN.1) signature of
/// `message` under the uncompressed public key `public_key`.
pub fn verify_signature(public_key: &[u8], message: &[u8], signature: &[u8]) -> (r: bool)
    ensures
        r == ecdsa_verifies(SigningAlgorithm::EcdsaP256Sha256Asn1, public_key@, message@, signature@),
{
    verify_with(SigningAlgorithm::EcdsaP256Sha256Asn1, public_key, message, signature)
}

/// Turns the outcome of one `ring` signing into this module's result: a
/// failure of `ring` is the `Signing` error.
pub fn sign_outcome(signed: Result<Vec<u8>, Unspecified>) -> (r: Result<(), RingEccError>)
    ensures
        r is Ok <==> signed is Ok,
        r is Err ==> r == Err::<(), RingEccError>(RingEccError::Signing),
{
    match signed {
        Ok(_) => Ok(()),
        Err(_) => Err(RingEccError::Signing),
    }
}

/// Holds at most one ECDSA P-256 key pair, made on first demand and then
/// used for every signature.
pub struct Context {
    key: Option<P256KeyPair>,
}

impl Context {
    /// Every key pair held has its public key in uncompressed form.
    #[verifier::type_invariant]
    spec fn held_key_uncompressed(self) -> bool {
        self.key matches Some(k) ==> is_uncompressed_p256_point(k.public_key())
    }

    /// The public key of the key pair held, if any.
    pub closed spec fn public_key(&self) -> Option<Seq<u8>> {
        match self.key {
            Some(k) => Some(k.public_key()),
            None => None,
        }
    }

    /// Whether the context holds a key pair.
    pub open spec fn has_key(&self) -> bool {
        self.public_key() is Some
    }

    /// An empty context: no key pair yet.
    pub fn new() -> (ctx: Context)
        ensures
            ctx.public_key() is None,
    {
        Context { key: None }
    }

    /// Whether the context holds a key pair.
    pub fn holds_key(&self) -> (r: bool)
        ensures
            r == self.has_key(),
    {
        self.key.is_some()
    }

    /// The public key of the key pair held, if any.
    pub fn public_key_bytes(&self) -> (r: Option<Vec<u8>>)
        ensures
            r matches Some(v) ==> self.public_key() == Some(v@),
            r is None <==> self.public_key() is None,
            r matches Some(v) ==> is_uncompressed_p256_point(v@),
    {
        proof {
            use_type_invariant(self);
        }
        match &self.key {
            Some(k) => Some(k.public_key.clone()),
            None => None,
        }
    }

    /// Makes a P-256 key pair, unless the context already holds one. The key
    /// pair made is the one of a PKCS#8 document that `ring` generated.
    pub fn ring_ecc_key_create(&mut self) -> (r: Result<(), RingEccError>)
        ensures
            old(self).has_key() ==> r is Ok && *final(self) == *old(self),
            !old(self).has_key() && r is Ok ==> exists|doc: Seq<u8>|
                final(self).public_key() == Some(
                    #[trigger] pkcs8_public_key(SigningAlgorithm::EcdsaP256Sha256Asn1, doc),
                ),
            r is Ok ==> final(self).has_key() && is_uncompressed_p256_point(
                final(self).public_key().unwrap(),
            ),
            r is Err ==> *final(self) == *old(self),
            r matches Err(e) ==> e == RingEccError::KeyGeneration || e == RingEccError::KeyRejected,
    {
        proof {
            use_type_invariant(&*self);
        }
        if self.key.is_some() {
            return Ok(());
        }
        let rng = system_random();
        let generated = generate_pkcs8(SigningAlgorithm::EcdsaP256Sha256Asn1, &rng);
        let ghost doc = generated->Ok_0@;
        let r = self.install_generated(generated);
        proof {
            if r is Ok {
                assert(self.public_key() == Some(
                    pkcs8_public_key(SigningAlgorithm::EcdsaP256Sha256Asn1, doc),
                ));
            }
        }
        r
    }

    /// Makes the key pair of the PKCS#8 document that `ring` generated the
    /// context's key pair; a failed generation, or a document that `ring`
    /// refuses, leaves the context as it was.
    pub fn install_generated(&mut self, generated: Result<Vec<u8>, Unspecified>) -> (r: Result<
        (),
        RingEccError,
    >)
        ensures
            generated is Err ==> r == Err::<(), RingEccError>(RingEccError::KeyGeneration)
                && *final(self) == *old(self),
            generated matches Ok(doc) ==> (r is Ok ==> final(self).public_key() == Some(
                pkcs8_public_key(SigningAlgorithm::EcdsaP256Sha256Asn1, doc@),
            ) && is_uncompressed_p256_point(final(self).public_key().unwrap())),
            generated is Ok ==> (r is Err ==> r == Err::<(), RingEccError>(
                RingEccError::KeyRejected,
            ) && *final(self) == *old(self)),
    {
        match generated {
            Ok(doc) => self.install_pkcs8(doc.as_slice()),
            Err(_) => Err(RingEccError::KeyGeneration),
        }
    }

    /// Builds a P-256 key pair from the PKCS#8 document `pkcs8` and makes it
    /// the key pair of the context; a refused document leaves the context as
    /// it was.
    pub fn install_pkcs8(&mut self, pkcs8: &[u8]) -> (r: Result<(), RingEccError>)
        ensures
            r is Ok ==> final(self).public_key() == Some(
                pkcs8_public_key(SigningAlgorithm::EcdsaP256Sha256Asn1, pkcs8@),
            ),
            r is Ok ==> is_uncompressed_p256_point(final(self).public_key().unwrap()),
            r is Err ==> r == Err::<(), RingEccError>(RingEccError::KeyRejected) && *final(self)
                == *old(self),
    {
        let rng = system_random();
        let made = key_pair_from_pkcs8(SigningAlgorithm::EcdsaP256Sha256Asn1, pkcs8, &rng);
        self.install_key_pair(made)
    }

    /// Makes the key pair that `ring` built the context's key pair; a
    /// refusal by `ring` leaves the context as it was.
    pub fn install_key_pair(&mut self, made: Result<P256KeyPair, KeyRejected>) -> (r: Result<
        (),
        RingEccError,
    >)
        ensures
            made matches Ok(k) ==> r is Ok && final(self).public_key() == Some(k.public_key())
                && is_uncompressed_p256_point(k.public_key()),
            made is Err ==> r == Err::<(), RingEccError>(RingEccError::KeyRejected) && *final(self)
                == *old(self),
    {
        match made {
            Ok(key_pair) => {
                proof {
                    use_type_invariant(&key_pair);
                }
                self.key = Some(key_pair);
                Ok(())
            },
            Err(_) => Err(RingEccError::KeyRejected),
        }
    }

    /// Signs `data` with the key pair of the context. On success a signature
    /// of exactly `data` was made that verifies under the held public key.
    pub fn ring_ecc_sign(&self, data: &[u8]) -> (r: Result<(), RingEccError>)
        requires
            self.has_key(),
        ensures
            r is Ok ==> exists|sig: Seq<u8>|
                #[trigger] ecdsa_verifies(
                    SigningAlgorithm::EcdsaP256Sha256Asn1,
                    self.public_key().unwrap(),
                    data@,
                    sig,
                ),
            r is Err ==> r == Err::<(), RingEccError>(RingEccError::Signing),
    {
        let rng = system_random();
        match &self.key {
            Some(key_pair) => {
                let signed = sign_message(key_pair, &rng, data);
                proof {
                    if signed is Ok {
                        assert(ecdsa_verifies(
                            SigningAlgorithm::EcdsaP256Sha256Asn1,
                            self.public_key().unwrap(),
                            data@,
                            signed->Ok_0@,
                        ));
                    }
                }
                sign_outcome(signed)
            },
            None => Err(RingEccError::Signing),
        }
    }
}

/// Makes the key pair of `ctx` if it holds none, then signs the bytes of
/// "hello world" with it.
pub fn ring_ecc_sign_test(ctx: &mut Context) -> (r: Result<(), RingEccError>)
    ensures
        r is Ok ==> is_uncompressed_p256_point(final(ctx).public_key().unwrap()),
        r is Ok ==> final(ctx).has_key() && exists|sig: Seq<u8>|
            #[trigger] ecdsa_verifies(
                SigningAlgorithm::EcdsaP256Sha256Asn1,
                final(ctx).public_key().unwrap(),
                hello_world(),
                sig,
            ),
        old(ctx).has_key() ==> *final(ctx) == *old(ctx),
        (r matches Err(e) && e != RingEccError::Signing) ==> *final(ctx) == *old(ctx),
        old(ctx).has_key() ==> (r matches Err(e) ==> e == RingEccError::Signing),
        r == Err::<(), RingEccError>(RingEccError::Signing) ==> final(ctx).has_key(),
{
    let data: [u8; 11] = [104u8, 101u8, 108u8, 108u8, 111u8, 32u8, 119u8, 111u8, 114u8, 108u8, 100u8];
    assert(data@ =~= hello_world());
    match ctx.ring_ecc_key_create() {
        Ok(()) => {},
        Err(e) => return Err(e),
    }
    ctx.ring_ecc_sign(data.as_slice())
}

} // verus!
