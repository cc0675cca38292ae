//! Turning the bytes that the backend wrote into an output buffer into text.

use vstd::prelude::*;
use vstd::utf8::{decode_utf8, valid_utf8};

verus! {

/// The size of the buffer that receives backend output: room for 4096 tokens
/// of 6 bytes each on average.
pub const MAX_OUTPUT_BUFFER_SIZE: usize = 24576;

/// What `String::from_utf8_lossy` makes of a byte sequence.
pub uninterp spec fn utf8_lossy(bytes: Seq<u8>) -> Seq<char>;

/// Relies on `String::from_utf8_lossy`: the result depends on the bytes alone,
/// is empty for no bytes, and is the decoded text where the bytes are valid
/// UTF-8 (invalid sequences become U+FFFD otherwise).
#[verifier::external_body]
fn lossy_text(bytes: &[u8]) -> (r: String)
    ensures
        r@ == utf8_lossy(bytes@),
        bytes@.len() == 0 ==> r@.len() == 0,
        valid_utf8(bytes@) ==> r@ == decode_utf8(bytes@),
{
    String::from_utf8_lossy(bytes).into_owned()
}

/// How many bytes of a buffer of `buffer_len` bytes are read when the
/// backend reports `reported` bytes of output: never more than the buffer
/// holds, nor more than the fixed maximum.
pub open spec fn kept_len(buffer_len: nat, reported: nat) -> nat {
    let capped = if reported < MAX_OUTPUT_BUFFER_SIZE { reported } else {
        MAX_OUTPUT_BUFFER_SIZE as nat
    };
    if capped < buffer_len { capped } else { buffer_len }
}

/// Decodes the output that the backend wrote into `buffer`, of which it
/// reported `reported` bytes. Bytes past the fixed maximum (or past the
/// buffer) are dropped without error, and an incomplete or invalid sequence
/// at the cut is decoded lossily.
pub fn decode_output(buffer: &Vec<u8>, reported: usize) -> (r: String)
    ensures
        r@ == utf8_lossy(buffer@.subrange(0, kept_len(buffer@.len(), reported as nat) as int)),
        valid_utf8(buffer@.subrange(0, kept_len(buffer@.len(), reported as nat) as int)) ==> r@
            == decode_utf8(buffer@.subrange(0, kept_len(buffer@.len(), reported as nat) as int)),
        reported == 0 ==> r@.len() == 0,
{
    let mut size: usize = if reported < MAX_OUTPUT_BUFFER_SIZE {
        reported
    } else {
        MAX_OUTPUT_BUFFER_SIZE
    };
    if buffer.len() < size {
        size = buffer.len();
    }
    let kept = vstd::slice::slice_subrange(buffer.as_slice(), 0, size);
    lossy_text(kept)
}

} // verus!
