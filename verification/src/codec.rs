//! Decoding an artifact's content inside this process.
//!
//! The four decoding routines belong to other crates and are not verified
//! here. Each is called through one small function whose contract gives the
//! routine's result a name; everything around those calls is verified against
//! the names.

use crate::failure::{Failure, FailureView};
use crate::format::Codec;
use std::io::Read;
use vstd::prelude::*;

verus! {

/// What `zstd::stream::decode_all` makes of `input`: the decoded bytes, or
/// `None` where it reports an error.
pub uninterp spec fn zstd_decoded(input: Seq<u8>) -> Option<Seq<u8>>;

/// What reading a `flate2::read::MultiGzDecoder` over `input` to its end
/// yields: the decoded bytes of all members, or `None` where it reports an
/// error.
pub uninterp spec fn gzip_decoded(input: Seq<u8>) -> Option<Seq<u8>>;

/// What reading a `flate2::read::ZlibDecoder` over `input` to its end yields:
/// the decoded bytes, or `None` where it reports an error.
pub uninterp spec fn zlib_decoded(input: Seq<u8>) -> Option<Seq<u8>>;

/// What the `zip` crate reads from the entry at `index` of the archive
/// `input`: the entry's decoded bytes, or `None` where opening the archive,
/// finding the entry or reading it reports an error.
pub uninterp spec fn zip_entry_decoded(input: Seq<u8>, index: usize) -> Option<Seq<u8>>;

/// Whether a decoding routine's `outcome` is the one that `named` stands for.
pub open spec fn agrees(outcome: Result<Vec<u8>, std::io::Error>, named: Option<Seq<u8>>) -> bool {
    match outcome {
        Ok(bytes) => named == Some(bytes@),
        Err(_) => named is None,
    }
}

/// Calls `zstd::stream::decode_all` on `input`. Trusted: the routine returns
/// on every input, and its result depends on the input alone.
#[verifier::external_body]
fn zstd_decode(input: &[u8]) -> (outcome: Result<Vec<u8>, std::io::Error>)
    ensures
        agrees(outcome, zstd_decoded(input@)),
{
    zstd::stream::decode_all(input)
}

/// Reads a `flate2::read::MultiGzDecoder` over `input` to its end. Trusted:
/// the reader returns on every input, and what it yields depends on the input
/// alone.
#[verifier::external_body]
fn gzip_decode(input: &[u8]) -> (outcome: Result<Vec<u8>, std::io::Error>)
    ensures
        agrees(outcome, gzip_decoded(input@)),
{
    let mut bytes = Vec::new();
    match flate2::read::MultiGzDecoder::new(input).read_to_end(&mut bytes) {
        Ok(_) => Ok(bytes),
        Err(cause) => Err(cause),
    }
}

/// Reads a `flate2::read::ZlibDecoder` over `input` to its end. Trusted: the
/// reader returns on every input, and what it yields depends on the input
/// alone.
#[verifier::external_body]
fn zlib_decode(input: &[u8]) -> (outcome: Result<Vec<u8>, std::io::Error>)
    ensures
        agrees(outcome, zlib_decoded(input@)),
{
    let mut bytes = Vec::new();
    match flate2::read::ZlibDecoder::new(input).read_to_end(&mut bytes) {
        Ok(_) => Ok(bytes),
        Err(cause) => Err(cause),
    }
}

/// Opens `input` with `zip::ZipArchive::new`, takes the entry at `index` with
/// `ZipArchive::by_index` and reads it to its end; an error of the `zip` crate
/// is converted as the crate itself converts it. Trusted: these calls return
/// on every input, and what they yield depends on the input and the index
/// alone.
#[verifier::external_body]
fn zip_entry_decode(input: &[u8], index: usize) -> (outcome: Result<Vec<u8>, std::io::Error>)
    ensures
        agrees(outcome, zip_entry_decoded(input@, index)),
{
    let mut archive = match zip::ZipArchive::new(std::io::Cursor::new(input)) {
        Ok(archive) => archive,
        Err(cause) => return Err(std::io::Error::from(cause)),
    };
    let mut entry = match archive.by_index(index) {
        Ok(entry) => entry,
        Err(cause) => return Err(std::io::Error::from(cause)),
    };
    let mut bytes = Vec::new();
    match entry.read_to_end(&mut bytes) {
        Ok(_) => Ok(bytes),
        Err(cause) => Err(cause),
    }
}

/// The entry of a zip archive that stands for the artifact: the first.
pub const ZIP_ENTRY: usize = 0;

/// The decoded content of `input` under `codec`, or `None` where the codec's
/// routine rejects `input`.
pub open spec fn spec_decode(codec: Codec, input: Seq<u8>) -> Option<Seq<u8>> {
    match codec {
        Codec::Zstd => zstd_decoded(input),
        Codec::Gzip => gzip_decoded(input),
        Codec::Zlib => zlib_decoded(input),
        Codec::Zip => zip_entry_decoded(input, 0),
    }
}

/// What becomes of a decoding routine's outcome: the decoded bytes as they
/// are, or a failure that names the codec and wraps the routine's error.
pub open spec fn spec_settle(codec: Codec, outcome: Result<Vec<u8>, std::io::Error>) -> Result<
    Vec<u8>,
    Failure,
> {
    match outcome {
        Ok(bytes) => Ok(bytes),
        Err(cause) => Err(Failure::Decode { codec, cause }),
    }
}

/// Turns the outcome of a decoding routine into the gateway's terms.
pub fn settle(codec: Codec, outcome: Result<Vec<u8>, std::io::Error>) -> (settled: Result<
    Vec<u8>,
    Failure,
>)
    ensures
        settled == spec_settle(codec, outcome),
{
    match outcome {
        Ok(bytes) => Ok(bytes),
        Err(cause) => Err(Failure::Decode { codec, cause }),
    }
}

/// Runs the decoding routine of `codec` on the whole of `input`.
///
/// Succeeds exactly when the routine accepts `input`, with the bytes it
/// produced; otherwise the routine's own error comes back.
pub fn decode_raw(codec: Codec, input: &[u8]) -> (outcome: Result<Vec<u8>, std::io::Error>)
    ensures
        agrees(outcome, spec_decode(codec, input@)),
{
    match codec {
        Codec::Zstd => zstd_decode(input),
        Codec::Gzip => gzip_decode(input),
        Codec::Zlib => zlib_decode(input),
        Codec::Zip => zip_entry_decode(input, ZIP_ENTRY),
    }
}

/// Decodes the whole of `input` under `codec`.
///
/// Succeeds exactly when the codec's routine accepts `input`, with the bytes
/// it produced; otherwise fails with `Failure::Decode` for this codec.
pub fn decode(codec: Codec, input: &[u8]) -> (decoded: Result<Vec<u8>, Failure>)
    ensures
        match decoded {
            Ok(bytes) => spec_decode(codec, input@) == Some(bytes@),
            Err(failure) => spec_decode(codec, input@) is None && failure@ == (FailureView::Decode {
                codec,
            }),
        },
{
    settle(codec, decode_raw(codec, input))
}

} // verus!
