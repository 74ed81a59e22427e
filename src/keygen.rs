//! Key generation: the claim bound into the attestation document, and the
//! response handed back to the host.

use vstd::prelude::*;
use crate::keys::SecretKey;

verus! {

/// The symbol of a six-bit value in the standard base64 alphabet
/// (`A-Z`, `a-z`, `0-9`, `+`, `/`).
pub open spec fn base64_symbol(v: int) -> u8 {
    if v < 26 {
        (65 + v) as u8
    } else if v < 52 {
        (97 + v - 26) as u8
    } else if v < 62 {
        (48 + v - 52) as u8
    } else if v == 62 {
        43u8
    } else {
        47u8
    }
}

/// Standard base64 with `=` padding: each group of three bytes becomes four
/// symbols; a last group of one or two bytes is padded to four.
pub open spec fn base64_of(b: Seq<u8>) -> Seq<u8>
    decreases b.len(),
{
    if b.len() == 0 {
        Seq::empty()
    } else if b.len() == 1 {
        seq![base64_symbol((b[0] as int) / 4), base64_symbol(((b[0] as int) % 4) * 16), 61u8, 61u8]
    } else if b.len() == 2 {
        seq![
            base64_symbol((b[0] as int) / 4),
            base64_symbol(((b[0] as int) % 4) * 16 + (b[1] as int) / 16),
            base64_symbol(((b[1] as int) % 16) * 4),
            61u8,
        ]
    } else {
        seq![
            base64_symbol((b[0] as int) / 4),
            base64_symbol(((b[0] as int) % 4) * 16 + (b[1] as int) / 16),
            base64_symbol(((b[1] as int) % 16) * 4 + (b[2] as int) / 64),
            base64_symbol((b[2] as int) % 64),
        ] + base64_of(b.subrange(3, b.len() as int))
    }
}

/// Relies on `subtle_encoding::base64::encode`: the standard (RFC 4648),
/// padded base64 encoding of the input.
#[verifier::external_body]
fn base64_encode(b: &[u8]) -> (r: Vec<u8>)
    ensures
        r@ == base64_of(b@),
{
    subtle_encoding::base64::encode(b)
}

/// `{"pubkey":"`
pub open spec fn claim_head() -> Seq<u8> {
    seq![123u8, 34, 112, 117, 98, 107, 101, 121, 34, 58, 34]
}

/// `","key_id":"`
pub open spec fn claim_middle() -> Seq<u8> {
    seq![34u8, 44, 34, 107, 101, 121, 95, 105, 100, 34, 58, 34]
}

/// `"}`
pub open spec fn claim_tail() -> Seq<u8> {
    seq![34u8, 125]
}

/// The JSON claim `{"pubkey":"<pk>","key_id":"<kid>"}` over two encoded
/// strings.
pub open spec fn claim_of(pubkey_b64: Seq<u8>, key_id_b64: Seq<u8>) -> Seq<u8> {
    claim_head() + pubkey_b64 + claim_middle() + key_id_b64 + claim_tail()
}

fn append(out: &mut Vec<u8>, s: &[u8])
    ensures
        final(out)@ == old(out)@ + s@,
{
    let mut i: usize = 0;
    while i < s.len()
        invariant
            i <= s@.len(),
            out@ == old(out)@ + s@.subrange(0, i as int),
        decreases s@.len() - i,
    {
        out.push(s[i]);
        i = i + 1;
        assert(out@ =~= old(out)@ + s@.subrange(0, i as int));
    }
    assert(s@.subrange(0, s@.len() as int) =~= s@);
}

/// Builds the claim from the already encoded public key and key ID.
pub fn attestation_claim(pubkey_b64: &[u8], key_id_b64: &[u8]) -> (r: Vec<u8>)
    ensures
        r@ == claim_of(pubkey_b64@, key_id_b64@),
{
    let head: [u8; 11] = [123, 34, 112, 117, 98, 107, 101, 121, 34, 58, 34];
    let middle: [u8; 12] = [34, 44, 34, 107, 101, 121, 95, 105, 100, 34, 58, 34];
    let tail: [u8; 2] = [34, 125];
    assert(head@ =~= claim_head());
    assert(middle@ =~= claim_middle());
    assert(tail@ =~= claim_tail());
    let mut out: Vec<u8> = Vec::new();
    append(&mut out, head.as_slice());
    append(&mut out, pubkey_b64);
    append(&mut out, middle.as_slice());
    append(&mut out, key_id_b64);
    append(&mut out, tail.as_slice());
    out
}

/// The claim that binds a freshly generated public key and the ID of the
/// key it was sealed under into the attestation document, both in base64.
pub fn keygen_claim(public_key: &[u8; 32], key_id: &[u8]) -> (r: Vec<u8>)
    ensures
        r@ == claim_of(base64_of(public_key@), base64_of(key_id@)),
{
    let pk = base64_encode(public_key.as_slice());
    let kid = base64_encode(key_id);
    attestation_claim(pk.as_slice(), kid.as_slice())
}

/// Whether the attestation document is to be requested: only once the new
/// key has been sealed.
pub fn attestation_due(sealed: &Result<Vec<u8>, String>) -> (r: bool)
    ensures
        r == sealed is Ok,
{
    sealed.is_ok()
}

/// The message when no key could be generated.
pub open spec fn no_key_message() -> Seq<char> {
    "failed to generate a key: no secure randomness"@
}

/// The response when no key could be generated.
pub fn no_key_response() -> (r: KeygenResponse)
    ensures
        r matches KeygenResponse::Failure { message } && message@ == no_key_message(),
{
    let message = "failed to generate a key: no secure randomness".to_owned();
    proof {
        reveal_strlit("failed to generate a key: no secure randomness");
    }
    KeygenResponse::Failure { message }
}

/// The answer to a keygen request.
#[derive(Clone, Debug)]
pub enum KeygenResponse {
    /// The sealed key, its public part and the attestation document.
    Success { encrypted_secret: Vec<u8>, public_key: Vec<u8>, attestation_doc: Vec<u8> },
    /// A human-readable reason.
    Failure { message: String },
}

/// The message when the attestation device answers with anything but a
/// document.
pub open spec fn no_attestation_message() -> Seq<char> {
    "failed to obtain an attestation document"@
}

/// Whether `r` is the response for these inputs: fields compared by their
/// views.
pub open spec fn is_keygen_response(
    r: KeygenResponse,
    public_key: Seq<u8>,
    sealed: Result<Vec<u8>, String>,
    attestation: Option<Vec<u8>>,
) -> bool {
    match sealed {
        Err(m) => r matches KeygenResponse::Failure { message } && message@ == m@,
        Ok(ct) => match attestation {
            Some(doc) => match r {
                KeygenResponse::Success { encrypted_secret, public_key: pk, attestation_doc } =>
                    encrypted_secret@ == ct@ && pk@ == public_key && attestation_doc@ == doc@,
                _ => false,
            },
            None => r matches KeygenResponse::Failure { message } && message@ == no_attestation_message(),
        },
    }
}

/// Finishes a keygen request: scrubs the generated key, whatever the outcome,
/// and builds the response from the sealing result (`Err` holding the
/// service's error message) and the attestation document.
pub fn complete_keygen(
    key: SecretKey,
    sealed: Result<Vec<u8>, String>,
    attestation: Option<Vec<u8>>,
) -> (r: KeygenResponse)
    ensures
        is_keygen_response(r, key.public_view(), sealed, attestation),
{
    let public = key.public_key();
    key.destroy();
    match sealed {
        Err(m) => KeygenResponse::Failure { message: m },
        Ok(ct) => match attestation {
            Some(doc) => {
                let mut pk: Vec<u8> = Vec::new();
                append(&mut pk, public.as_slice());
                KeygenResponse::Success { encrypted_secret: ct, public_key: pk, attestation_doc: doc }
            },
            None => {
                let message = "failed to obtain an attestation document".to_owned();
                proof {
                    reveal_strlit("failed to obtain an attestation document");
                }
                KeygenResponse::Failure { message }
            },
        },
    }
}

} // verus!
