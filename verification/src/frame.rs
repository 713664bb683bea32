//! Frames: what one read of a stream or one datagram delivers, and the fixed
//! acknowledgment sent in reply.

use vstd::prelude::*;
use vstd::slice::slice_subrange;
use vstd::string::StringSliceAdditionalSpecFns;
use vstd::utf8::*;

verus! {

/// The most bytes one frame can hold, and the size of a session's scratch
/// buffer: 64 KiB.
pub const MAX_FRAME_LEN: usize = 65536;

/// The acknowledgment payload: the three ASCII bytes `ACK`.
pub open spec fn ack_frame() -> Seq<u8> {
    seq![0x41u8, 0x43u8, 0x4Bu8]
}

/// What a single read into a buffer of `MAX_FRAME_LEN` bytes keeps of a
/// payload: all of it when it fits, else its first `MAX_FRAME_LEN` bytes.
pub open spec fn clipped(payload: Seq<u8>) -> Seq<u8> {
    if payload.len() <= MAX_FRAME_LEN {
        payload
    } else {
        payload.subrange(0, MAX_FRAME_LEN as int)
    }
}

/// `n` is the length of the longest prefix of `bytes` that is valid UTF-8.
pub open spec fn is_longest_valid_prefix(bytes: Seq<u8>, n: int) -> bool {
    &&& 0 <= n <= bytes.len()
    &&& valid_utf8(bytes.subrange(0, n))
    &&& forall|j: int| n < j <= bytes.len() ==> !valid_utf8(#[trigger] bytes.subrange(0, j))
}

/// The length of the longest prefix of `bytes` that is valid UTF-8.
pub open spec fn valid_prefix_len(bytes: Seq<u8>) -> int {
    choose|n: int| is_longest_valid_prefix(bytes, n)
}

/// At most one length is that of the longest valid prefix.
pub proof fn lemma_longest_valid_prefix_unique(bytes: Seq<u8>, n: int, m: int)
    requires
        is_longest_valid_prefix(bytes, n),
        is_longest_valid_prefix(bytes, m),
    ensures
        n == m,
{
    if n < m {
        assert(!valid_utf8(bytes.subrange(0, m)));
    } else if m < n {
        assert(!valid_utf8(bytes.subrange(0, n)));
    }
}

/// A payload that is not valid UTF-8.
#[derive(Debug, Clone, Copy, PartialEq, Eq, Structural)]
pub struct ProtocolDecodeError {
    /// How many leading bytes of the payload were valid UTF-8.
    pub valid_up_to: usize,
}

/// Builds the acknowledgment payload.
pub fn ack() -> (payload: Vec<u8>)
    ensures
        payload@ == ack_frame(),
{
    let payload = vec![0x41u8, 0x43u8, 0x4Bu8];
    assert(payload@ =~= ack_frame());
    payload
}

/// `std::str::from_utf8`: succeeds exactly on valid UTF-8 and then returns the
/// same bytes as a string slice; on failure reports `Utf8Error::valid_up_to`,
/// the length of the longest valid prefix.
#[verifier::external_body]
fn utf8_text(bytes: &[u8]) -> (text: Result<&str, usize>)
    ensures
        text is Ok <==> valid_utf8(bytes@),
        text matches Ok(s) ==> s.spec_bytes() == bytes@,
        text matches Err(n) ==> is_longest_valid_prefix(bytes@, n as int),
{
    match std::str::from_utf8(bytes) {
        Ok(s) => Ok(s),
        Err(e) => Err(e.valid_up_to()),
    }
}

/// Decodes a payload as UTF-8 text: the text when the payload is valid
/// UTF-8, else the error that says how far it was valid.
pub fn decode_frame(bytes: &[u8]) -> (text: Result<&str, ProtocolDecodeError>)
    ensures
        text is Ok <==> valid_utf8(bytes@),
        text matches Ok(s) ==> s@ == decode_utf8(bytes@),
        text matches Err(e) ==> e.valid_up_to == valid_prefix_len(bytes@)
            && is_longest_valid_prefix(bytes@, e.valid_up_to as int),
{
    match utf8_text(bytes) {
        Ok(s) => {
            proof {
                encode_utf8_decode_utf8(s@);
            }
            Ok(s)
        },
        Err(n) => {
            proof {
                lemma_longest_valid_prefix_unique(bytes@, n as int, valid_prefix_len(bytes@));
            }
            Err(ProtocolDecodeError { valid_up_to: n })
        },
    }
}

/// The part of `payload` that one read delivers: at most `MAX_FRAME_LEN`
/// bytes, taken from the front.
pub fn clip(payload: &[u8]) -> (frame: &[u8])
    ensures
        frame@ == clipped(payload@),
{
    if payload.len() <= MAX_FRAME_LEN {
        payload
    } else {
        slice_subrange(payload, 0, MAX_FRAME_LEN)
    }
}

} // verus!
