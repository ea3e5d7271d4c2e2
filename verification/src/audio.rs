//! Audio payloads: base64 on the wire, and the silence that closes a
//! response.

use vstd::prelude::*;

verus! {

/// Samples per second of the audio that the peer sends.
pub const SAMPLE_RATE: usize = 48_000;

/// Bytes of one sample: 16 bits, one channel.
pub const BYTES_PER_SAMPLE: usize = 2;

/// One second of silence at `sample_rate`: that many samples of two zero
/// bytes each.
pub open spec fn silence_of(sample_rate: nat) -> Seq<u8> {
    Seq::new(sample_rate * 2, |i: int| 0u8)
}

/// The silence that follows a finished response.
pub open spec fn closing_silence() -> Seq<u8> {
    silence_of(48_000)
}

/// One second of silence at `sample_rate`.
pub fn silence(sample_rate: usize) -> (block: Vec<u8>)
    requires
        sample_rate * 2 <= usize::MAX,
    ensures
        block@ == silence_of(sample_rate as nat),
{
    let block = vec![0u8; sample_rate * BYTES_PER_SAMPLE];
    assert(block@ =~= silence_of(sample_rate as nat));
    block
}

/// The bytes that a base64 text stands for, or nothing where the text is not
/// base64.
pub uninterp spec fn base64_decoded(text: Seq<char>) -> Option<Seq<u8>>;

/// The base64 text that stands for some bytes.
pub uninterp spec fn base64_encoded(bytes: Seq<u8>) -> Seq<char>;

/// Decodes with `base64::decode`, the standard alphabet with padding. The
/// contract gives the outcome its name, [`base64_decoded`]: the same text
/// always decodes alike, and nothing more is claimed of it.
#[verifier::external_body]
#[allow(deprecated)]
pub(crate) fn decode_base64(text: &str) -> (bytes: Option<Vec<u8>>)
    ensures
        match bytes {
            Some(b) => base64_decoded(text@) == Some(b@),
            None => base64_decoded(text@) is None,
        },
{
    base64::decode(text).ok()
}

/// Encodes with `base64::encode`, the standard alphabet with padding. The
/// contract gives the result its name, [`base64_encoded`]: the same bytes
/// always encode alike, and nothing more is claimed of it.
#[verifier::external_body]
#[allow(deprecated)]
pub(crate) fn encode_base64(bytes: &Vec<u8>) -> (text: String)
    ensures
        text@ == base64_encoded(bytes@),
{
    base64::encode(bytes)
}

} // verus!
