# sgx_ecc

ECDSA P-256 key management and signing for a benchmark that compares OpenSSL
and `ring`, inside and outside an SGX enclave.

- `src/ring_ecc.rs`: a context that holds at most one `ring` key pair, makes
  it on first demand and signs with it (verified with Verus; the `ring` calls
  stand behind trusted wrappers).
- `src/openssl_ecc.rs`: the decisions around OpenSSL's C calls: which curve
  to ask for, whether a held key is kept or replaced, when a returned pointer
  or return code means failure, and what to pass to `ECDSA_do_sign`
  (verified with Verus).
- `app/`: the benchmark program: the OpenSSL FFI calls, the enclave entry
  points and their SGX status codes, enclave start-up through `sgx_urts`,
  and timing through `bma-benchmark`.
- `tests/`: tests of both modules, run against the real `ring`.
