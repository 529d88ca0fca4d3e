use vstd::prelude::*;

use crate::errors::RpcError;

verus! {

/// The text that `base64::encode` renders a byte sequence into: the standard
/// alphabet with padding and no line wrapping. The rendering depends on the
/// bytes alone; its exact shape is not restated here.
pub uninterp spec fn b64_of(bytes: Seq<u8>) -> Seq<char>;

/// What `base64::decode` yields on a text: `Some` of the decoded bytes when
/// the text is valid standard base64, `None` otherwise. The result depends
/// on the text alone.
pub uninterp spec fn b64_bytes_of(text: Seq<char>) -> Option<Seq<u8>>;

/// Relies on `base64::encode`: renders bytes in the standard alphabet, and
/// `base64::decode` on that rendering gives back exactly the input bytes.
#[verifier::external_body]
fn b64_encode(bytes: &Vec<u8>) -> (r: String)
    ensures
        r@ == b64_of(bytes@),
        b64_bytes_of(r@) == Some(bytes@),
{
    base64::encode(bytes)
}

/// Relies on `base64::decode`: succeeds exactly on valid standard-alphabet
/// base64 text, and then yields the bytes the text encodes.
#[verifier::external_body]
fn b64_decode(text: &String) -> (r: Option<Vec<u8>>)
    ensures
        match r {
            Some(v) => b64_bytes_of(text@) == Some(v@),
            None => b64_bytes_of(text@) is None,
        },
{
    match base64::decode(text) {
        Ok(v) => Some(v),
        Err(_) => None,
    }
}

/// A size-guarded text envelope for binary file content: the byte count the
/// sender declared, beside the base64 rendering of the bytes.
#[derive(Debug)]
pub struct Base64File {
    pub unencoded_size: usize,
    pub base64: String,
}

impl Base64File {
    /// What decoding this envelope yields: the encoded bytes when the text
    /// is valid and its decoded length equals the declared size, nothing
    /// otherwise. Decoding never succeeds partially.
    pub open spec fn decode_spec(self) -> Option<Seq<u8>> {
        match b64_bytes_of(self.base64@) {
            Some(b) => if b.len() == self.unencoded_size {
                Some(b)
            } else {
                None
            },
            None => None,
        }
    }

    /// Builds the envelope for a byte sequence: the declared size records the
    /// byte count exactly, and decoding the envelope gives back exactly the
    /// input bytes (the round trip).
    pub fn encode(bytes: &Vec<u8>) -> (r: Base64File)
        ensures
            r.unencoded_size == bytes@.len(),
            r.base64@ == b64_of(bytes@),
            r.decode_spec() == Some(bytes@),
    {
        let unencoded_size = bytes.len();
        let base64 = b64_encode(bytes);
        Base64File { unencoded_size, base64 }
    }

    /// Decodes the envelope. Fails with `DecodeError` exactly when the text
    /// violates the alphabet or the decoded length does not equal the
    /// declared size: a truncated or corrupted envelope is a loud, total
    /// failure, never a silently truncated or padded buffer.
    pub fn decode(self) -> (r: Result<Vec<u8>, RpcError>)
        ensures
            match r {
                Ok(v) => self.decode_spec() == Some(v@),
                Err(e) => self.decode_spec() is None && e == RpcError::DecodeError,
            },
    {
        match b64_decode(&self.base64) {
            Some(v) => {
                if v.len() == self.unencoded_size {
                    Ok(v)
                } else {
                    Err(RpcError::DecodeError)
                }
            },
            None => Err(RpcError::DecodeError),
        }
    }
}

/// Round trip: an envelope whose text is a rendering that decodes to bytes
/// `b`, and whose declared size is `b`'s length, decodes to exactly `b`.
/// `encode`'s contract establishes both premises for every byte sequence,
/// so decoding what `encode` produced yields exactly its input.
pub proof fn lemma_round_trip(f: Base64File, b: Seq<u8>)
    requires
        b64_bytes_of(f.base64@) == Some(b),
        f.unencoded_size == b.len(),
    ensures
        f.decode_spec() == Some(b),
{
}

} // verus!
