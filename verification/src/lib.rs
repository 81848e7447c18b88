//! Key management and signing for an ECDSA benchmark that runs inside and
//! outside an SGX enclave.
//!
//! `ring_ecc` holds a `ring` key pair and signs with it. `openssl_ecc` takes
//! the decisions around OpenSSL's C calls (which curve to ask for, when a key
//! is kept or replaced, when a returned pointer is a failure), while the
//! calls themselves are made by the application at the FFI edge.

pub mod openssl_ecc;
pub mod ring_ecc;
