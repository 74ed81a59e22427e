//! Validator peer verification after a secure-channel handshake.

use vstd::prelude::*;

verus! {

/// Length of a peer fingerprint (a node ID) in bytes.
pub const PEER_ID_LEN: usize = 20;

/// Compares two byte strings without short-circuiting on their contents.
///
/// Relies on `subtle::ConstantTimeEq::ct_eq` for `[u8]`: it yields the
/// choice 1 exactly when both slices have the same length and bytes, and
/// `bool::from` maps that choice to `true`.
#[verifier::external_body]
fn ct_bytes_eq(a: &[u8], b: &[u8]) -> (r: bool)
    ensures
        r == (a@ == b@),
{
    bool::from(subtle::ConstantTimeEq::ct_eq(a, b))
}

/// How the validator's identity stands once a secure channel is up.
#[derive(Clone, Copy, Debug, PartialEq, Eq, Structural)]
pub enum PeerStatus {
    /// The remote fingerprint equals the configured one.
    Verified,
    /// No fingerprint was configured: the peer is accepted with a warning.
    Unverified,
}

/// Why one attempt at a validator connection failed. Every variant is
/// retried by the session driver; none ends the process.
#[derive(Clone, Copy, Debug, PartialEq, Eq, Structural)]
pub enum ConnectError {
    /// The raw socket could not be opened.
    Socket,
    /// The secure-channel handshake failed.
    Handshake,
    /// The remote fingerprint differs from the configured one.
    PeerMismatch,
}

/// The outcome of checking a remote fingerprint against the configured one.
pub open spec fn peer_check(expected: Option<[u8; 20]>, actual: Seq<u8>) -> Result<PeerStatus, ConnectError> {
    match expected {
        None => Ok(PeerStatus::Unverified),
        Some(e) => if e@ == actual {
            Ok(PeerStatus::Verified)
        } else {
            Err(ConnectError::PeerMismatch)
        },
    }
}

/// Checks the remote fingerprint `actual` against the optional configured
/// fingerprint `expected`, in constant time.
pub fn verify_peer(expected: Option<[u8; 20]>, actual: &[u8; 20]) -> (r: Result<PeerStatus, ConnectError>)
    ensures
        r == peer_check(expected, actual@),
{
    match expected {
        None => Ok(PeerStatus::Unverified),
        Some(e) => {
            if ct_bytes_eq(e.as_slice(), actual.as_slice()) {
                Ok(PeerStatus::Verified)
            } else {
                Err(ConnectError::PeerMismatch)
            }
        },
    }
}

/// The outcome of one attempt at a secure channel, from what the socket and
/// the handshake gave (the remote fingerprint, or the failure) and the
/// configured fingerprint.
pub fn secure_attempt(handshake: Result<[u8; 20], ConnectError>, expected: Option<[u8; 20]>) -> (r: Result<PeerStatus, ConnectError>)
    ensures
        handshake matches Err(e) ==> r == Err::<PeerStatus, ConnectError>(e),
        handshake matches Ok(actual) ==> r == peer_check(expected, actual@),
{
    match handshake {
        Err(e) => Err(e),
        Ok(actual) => verify_peer(expected, &actual),
    }
}

/// Fingerprints that differ in any byte never pass verification, whichever
/// byte differs first.
pub proof fn lemma_mismatch_rejected(expected: [u8; 20], actual: [u8; 20], i: int)
    requires
        0 <= i < 20,
        expected@[i] != actual@[i],
    ensures
        peer_check(Some(expected), actual@) == Err::<PeerStatus, ConnectError>(ConnectError::PeerMismatch),
{
    assert(expected@ != actual@);
}

} // verus!
