//! Enclave-side logic of a validator signing-key guardian: message framing,
//! peer verification, key unsealing with scrubbing, the keygen attestation
//! claim, and the reconnecting session driver.

pub mod framing;
pub mod keygen;
pub mod keys;
pub mod peer;
pub mod session;
