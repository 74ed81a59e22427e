//! Length-prefixed framing: a 16-bit little-endian length, then the payload.

use vstd::prelude::*;

verus! {

/// Largest payload that a two-byte length prefix can announce.
pub const MAX_FRAME_PAYLOAD: usize = 0xffff;

/// The length announced by a two-byte little-endian header.
pub open spec fn header_len(lo: u8, hi: u8) -> nat {
    lo as nat + 256 * (hi as nat)
}

/// The frame that carries `p`.
pub open spec fn frame_of(p: Seq<u8>) -> Seq<u8> {
    seq![(p.len() % 256) as u8, (p.len() / 256) as u8] + p
}

/// The payload of a buffer that holds exactly one whole frame.
pub open spec fn payload_of(buf: Seq<u8>) -> Option<Seq<u8>> {
    if buf.len() >= 2 && buf.len() == 2 + header_len(buf[0], buf[1]) {
        Some(buf.subrange(2, buf.len() as int))
    } else {
        None
    }
}

/// Reads the payload length from a frame header.
pub fn frame_payload_len(header: [u8; 2]) -> (r: u16)
    ensures
        r as nat == header_len(header[0], header[1]),
{
    (header[0] as u16) + 256 * (header[1] as u16)
}

/// Frames `payload`; `None` when it is too long for the length prefix.
pub fn encode_frame(payload: &[u8]) -> (r: Option<Vec<u8>>)
    ensures
        r is Some <==> payload@.len() <= MAX_FRAME_PAYLOAD,
        r matches Some(f) ==> f@ == frame_of(payload@),
{
    let n = payload.len();
    if n > MAX_FRAME_PAYLOAD {
        return None;
    }
    let mut out: Vec<u8> = Vec::with_capacity(n + 2);
    out.push((n % 256) as u8);
    out.push((n / 256) as u8);
    let mut i: usize = 0;
    while i < n
        invariant
            i <= n,
            n == payload@.len(),
            n <= MAX_FRAME_PAYLOAD,
            out@ == seq![(n % 256) as u8, (n / 256) as u8] + payload@.subrange(0, i as int),
        decreases n - i,
    {
        out.push(payload[i]);
        i = i + 1;
        assert(payload@.subrange(0, i as int) =~= payload@.subrange(0, i - 1 as int).push(
            payload@[i - 1],
        ));
        assert(out@ =~= seq![(n % 256) as u8, (n / 256) as u8] + payload@.subrange(0, i as int));
    }
    assert(payload@.subrange(0, n as int) =~= payload@);
    Some(out)
}

/// Takes the payload out of a buffer that holds exactly one whole frame;
/// `None` when the buffer is shorter or longer than its header announces.
pub fn decode_frame(buf: &[u8]) -> (r: Option<Vec<u8>>)
    ensures
        r matches Some(p) ==> payload_of(buf@) == Some(p@),
        r is None ==> payload_of(buf@) is None,
{
    if buf.len() < 2 {
        return None;
    }
    let len = frame_payload_len([buf[0], buf[1]]) as usize;
    if buf.len() - 2 != len {
        return None;
    }
    let mut out: Vec<u8> = Vec::with_capacity(len);
    let mut i: usize = 2;
    while i < buf.len()
        invariant
            2 <= i <= buf@.len(),
            out@ == buf@.subrange(2, i as int),
        decreases buf@.len() - i,
    {
        out.push(buf[i]);
        i = i + 1;
        assert(out@ =~= buf@.subrange(2, i as int));
    }
    Some(out)
}

/// Framing round trip: a payload short enough to frame comes back unchanged
/// from the frame that carries it.
pub proof fn lemma_frame_round_trip(p: Seq<u8>)
    requires
        p.len() <= MAX_FRAME_PAYLOAD,
    ensures
        payload_of(frame_of(p)) == Some(p),
{
    let f = frame_of(p);
    assert(f[0] as nat + 256 * (f[1] as nat) == p.len());
    assert(f.subrange(2, f.len() as int) =~= p);
}

} // verus!
