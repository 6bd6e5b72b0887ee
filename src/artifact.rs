//! The fetched artifact: the handshake that asks for it, and the decoding of
//! the compressed stream that answers.
use vstd::prelude::*;

verus! {

/// Port on which the artifact host listens.
pub const FETCH_PORT: u16 = 4433;

/// Why an attempt to load a new guest failed. None of these is fatal: the
/// active instance, if any, keeps running.
#[derive(Debug, Clone, PartialEq, Eq)]
pub enum ArtifactError {
    /// The connection or the stream failed; the text says how.
    Transport(String),
    /// The payload is not one complete brotli stream.
    Decode,
    /// The binary could not be compiled, linked or instantiated.
    Load(String),
}

/// std's I/O error, which the brotli reader returns on malformed input.
#[verifier::external_type_specification]
#[verifier::external_body]
pub struct ExIoError(std::io::Error);

/// The bytes that brotli decoding yields from `compressed`, or `None` where
/// it is not one complete, well-formed brotli stream.
pub uninterp spec fn brotli_decoded(compressed: Seq<u8>) -> Option<Seq<u8>>;

/// Relies on brotli::Decompressor (the reader of brotli-decompressor), read to
/// its end with std's `Read::read_to_end`: it decodes one brotli stream, and
/// fails where the input is cut short, malformed, or followed by other bytes.
/// The outcome depends on the compressed bytes alone.
#[verifier::external_body]
fn brotli_decompress(compressed: &[u8]) -> (r: Result<Vec<u8>, std::io::Error>)
    ensures
        r is Ok <==> brotli_decoded(compressed@) is Some,
        r is Ok ==> brotli_decoded(compressed@) == Some(r->Ok_0@),
{
    let mut decoded = Vec::new();
    let mut reader = brotli::Decompressor::new(compressed, 4096);
    match std::io::Read::read_to_end(&mut reader, &mut decoded) {
        Ok(_) => Ok(decoded),
        Err(e) => Err(e),
    }
}

/// The handshake token written to the stream before the artifact is read:
/// the ASCII bytes of "WASM".
pub fn handshake_token() -> (r: Vec<u8>)
    ensures
        r@ == seq![0x57u8, 0x41u8, 0x53u8, 0x4du8],
{
    vec![0x57u8, 0x41u8, 0x53u8, 0x4du8]
}

/// The component binary that a fetched payload carries, or why it carries none.
pub open spec fn decoded_artifact(compressed: Seq<u8>) -> Result<Seq<u8>, ArtifactError> {
    match brotli_decoded(compressed) {
        Some(raw) => Ok(raw),
        None => Err(ArtifactError::Decode),
    }
}

/// Decodes a fetched payload into the component binary it carries.
pub fn decode_artifact(compressed: &[u8]) -> (r: Result<Vec<u8>, ArtifactError>)
    ensures
        match r {
            Ok(raw) => decoded_artifact(compressed@) == Ok::<Seq<u8>, ArtifactError>(raw@),
            Err(e) => decoded_artifact(compressed@) == Err::<Seq<u8>, ArtifactError>(e),
        },
{
    match brotli_decompress(compressed) {
        Ok(raw) => Ok(raw),
        Err(_) => Err(ArtifactError::Decode),
    }
}

} // verus!
