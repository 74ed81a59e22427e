//! Signing-key material: unsealing with scrubbing of every intermediate
//! buffer, fresh generation, and the public part of a key.

use vstd::prelude::*;

verus! {

/// Length of an Ed25519 seed, the raw form of a signing key.
pub const KEY_SIZE: usize = 32;

#[verifier::external_type_specification]
#[verifier::external_body]
pub struct ExSigningKey(ed25519_consensus::SigningKey);

/// The Ed25519 verification key (compressed point) that a 32-byte seed
/// derives.
pub uninterp spec fn ed25519_public(seed: Seq<u8>) -> Seq<u8>;

/// Why a sealed key could not be turned into a signing key.
#[derive(Clone, Copy, Debug, PartialEq, Eq, Structural)]
pub enum KeyError {
    /// The sealing service could not be reached or refused the call.
    Access,
    /// The unsealed bytes do not form a signing key.
    InvalidKey,
}

/// A signing key and its public part. Its fields are private: the public
/// part is always the one that the key's seed derives.
pub struct SecretKey {
    key: ed25519_consensus::SigningKey,
    public: [u8; 32],
}

impl SecretKey {
    /// The public part of the key.
    pub closed spec fn public_view(&self) -> Seq<u8> {
        self.public@
    }

    /// The public part of the key, as bytes.
    pub fn public_key(&self) -> (r: [u8; 32])
        ensures
            r@ == self.public_view(),
    {
        self.public
    }

    /// The key for the signing session and the channel handshake.
    pub fn signing_key(&self) -> &ed25519_consensus::SigningKey {
        &self.key
    }

    /// Hands the key over to the signing session.
    pub fn into_signing_key(self) -> ed25519_consensus::SigningKey {
        self.key
    }

    /// Generates a fresh key from a seed drawn from the operating system's
    /// secure random source; `None` when the source fails. The seed buffer
    /// is scrubbed on both paths.
    pub fn generate() -> (r: Option<SecretKey>)
        ensures
            r matches Some(k) ==> exists|s: Seq<u8>| s.len() == KEY_SIZE && k.public_view() == ed25519_public(s),
    {
        let mut seed: Vec<u8> = Vec::new();
        let mut i: usize = 0;
        while i < KEY_SIZE
            invariant
                i <= KEY_SIZE,
                seed@.len() == i,
            decreases KEY_SIZE - i,
        {
            seed.push(0u8);
            i = i + 1;
        }
        if !os_fill_random(&mut seed) {
            scrub_buffer(&mut seed);
            return None;
        }
        let ghost drawn = seed@;
        match unseal_key(&mut seed) {
            Ok(k) => {
                assert(drawn.len() == KEY_SIZE && k.public_view() == ed25519_public(drawn));
                Some(k)
            },
            Err(_) => None,
        }
    }

    /// The raw seed, to be handed to the sealing service. Its public part is
    /// the key's.
    pub fn seed(&self) -> (r: &[u8; 32])
        ensures
            ed25519_public(r@) == self.public_view(),
    {
        seed_bytes(self)
    }

    /// Overwrites the seed and the secret scalar with zeros and drops the key.
    pub fn destroy(self) {
        scrub_key(self)
    }
}

/// Relies on `ed25519_consensus::SigningKey::try_from(&[u8])`, which accepts
/// exactly 32 bytes and takes them as the seed, and on `verification_key`,
/// which is derived from the seed alone.
#[verifier::external_body]
fn signing_key_from_slice(b: &[u8]) -> (r: Option<SecretKey>)
    ensures
        r is Some <==> b@.len() == KEY_SIZE,
        r matches Some(k) ==> k.public_view() == ed25519_public(b@),
{
    match ed25519_consensus::SigningKey::try_from(b) {
        Ok(key) => {
            let public = key.verification_key().to_bytes();
            Some(SecretKey { key, public })
        },
        Err(_) => None,
    }
}

/// Relies on `rand_core::RngCore::try_fill_bytes` for `rand_core::OsRng`:
/// it fills the buffer in place from the OS source, and reports a failure of
/// that source as an error instead of panicking.
#[verifier::external_body]
fn os_fill_random(buf: &mut Vec<u8>) -> (r: bool)
    ensures
        final(buf)@.len() == old(buf)@.len(),
{
    rand_core::RngCore::try_fill_bytes(&mut rand_core::OsRng, buf.as_mut_slice()).is_ok()
}

/// Relies on `ed25519_consensus::SigningKey::as_bytes`: the seed that the
/// key was made from. Every `SecretKey` comes from `signing_key_from_slice`
/// above, which takes `public` from that same key's `verification_key`.
#[verifier::external_body]
fn seed_bytes(k: &SecretKey) -> (r: &[u8; 32])
    ensures
        ed25519_public(r@) == k.public_view(),
{
    k.key.as_bytes()
}

/// Relies on `zeroize::Zeroize` for `ed25519_consensus::SigningKey`: it
/// overwrites the seed and the secret scalar.
#[verifier::external_body]
fn scrub_key(k: SecretKey) {
    let mut key = k.key;
    zeroize::Zeroize::zeroize(&mut key);
}

/// Relies on `zeroize::Zeroize` for `Vec<u8>`: it zeroes the elements and the
/// spare capacity, then clears the vector.
#[verifier::external_body]
fn scrub_buffer(b: &mut Vec<u8>)
    ensures
        final(b)@.len() == 0,
{
    zeroize::Zeroize::zeroize(b);
}

/// What unsealing yields from the decrypted bytes: the public part of the
/// key, or the error.
pub open spec fn unsealed_public(plaintext: Seq<u8>) -> Result<Seq<u8>, KeyError> {
    if plaintext.len() == KEY_SIZE {
        Ok(ed25519_public(plaintext))
    } else {
        Err(KeyError::InvalidKey)
    }
}

/// Turns the bytes that the sealing service decrypted into a signing key,
/// and scrubs the buffer that held them on every path.
pub fn unseal_key(plaintext: &mut Vec<u8>) -> (r: Result<SecretKey, KeyError>)
    ensures
        final(plaintext)@.len() == 0,
        r matches Ok(k) ==> unsealed_public(old(plaintext)@) == Ok::<Seq<u8>, KeyError>(k.public_view()),
        r matches Err(e) ==> unsealed_public(old(plaintext)@) == Err::<Seq<u8>, KeyError>(e),
{
    let key = signing_key_from_slice(plaintext.as_slice());
    scrub_buffer(plaintext);
    match key {
        Some(k) => Ok(k),
        None => Err(KeyError::InvalidKey),
    }
}

/// What unsealing yields from the sealing service's reply, `None` standing
/// for a failed call.
pub open spec fn reply_public(reply: Option<Vec<u8>>) -> Result<Seq<u8>, KeyError> {
    match reply {
        None => Err(KeyError::Access),
        Some(p) => unsealed_public(p@),
    }
}

/// Turns the sealing service's reply into a signing key: a failed call is an
/// access error; the decrypted bytes are scrubbed before this returns.
pub fn unseal_reply(reply: Option<Vec<u8>>) -> (r: Result<SecretKey, KeyError>)
    ensures
        r matches Ok(k) ==> reply_public(reply) == Ok::<Seq<u8>, KeyError>(k.public_view()),
        r matches Err(e) ==> reply_public(reply) == Err::<Seq<u8>, KeyError>(e),
{
    match reply {
        None => Err(KeyError::Access),
        Some(v) => {
            let mut plaintext = v;
            unseal_key(&mut plaintext)
        },
    }
}

/// Unsealing fails with an invalid-key error on every buffer whose length is
/// not the key size.
pub proof fn lemma_wrong_length_is_invalid(plaintext: Seq<u8>)
    requires
        plaintext.len() != KEY_SIZE,
    ensures
        unsealed_public(plaintext) == Err::<Seq<u8>, KeyError>(KeyError::InvalidKey),
{
}

/// Sealing a generated key and unsealing it again gives back its public
/// part, provided the sealing service returns the bytes it was given.
pub proof fn lemma_seal_unseal_keeps_public(generated_public: Seq<u8>, seed: Seq<u8>, decrypted: Vec<u8>)
    requires
        ed25519_public(seed) == generated_public,
        seed.len() == KEY_SIZE,
        decrypted@ == seed,
    ensures
        reply_public(Some(decrypted)) == Ok::<Seq<u8>, KeyError>(generated_public),
{
}

} // verus!
