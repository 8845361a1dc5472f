//! Recognising a compression format by the leading bytes of an artifact,
//! and choosing how an artifact of that format is decoded.

use vstd::prelude::*;

verus! {

/// The compression formats that an artifact can be recognised as.
///
/// `Uncompressed` stands for every artifact that carries none of the five
/// signatures, including those too short to carry one.
#[derive(Clone, Copy, Debug, PartialEq, Eq, Structural)]
pub enum Compression {
    Zstd,
    Gzip,
    Zlib,
    Zip,
    Cab,
    Uncompressed,
}

/// The formats that are decoded inside this process.
#[derive(Clone, Copy, Debug, PartialEq, Eq, Structural)]
pub enum Codec {
    Zstd,
    Gzip,
    Zlib,
    Zip,
}

/// How a compressed artifact is decoded.
#[derive(Clone, Copy, Debug, PartialEq, Eq, Structural)]
pub enum Decoder {
    /// By a decoding routine linked into this process.
    Library(Codec),
    /// By a command-line tool running as a child process.
    Tool,
}

/// Number of leading bytes that a signature spans.
pub const SIGNATURE_LEN: usize = 4;

/// Whether `bytes` begins with the signature of `kind`.
///
/// Gzip fixes two bytes and zlib fixes the first and allows three values of
/// the second; the remaining bytes of the four are free. The other formats fix
/// all four. Nothing carries the signature of `Uncompressed`.
pub open spec fn has_signature(kind: Compression, bytes: Seq<u8>) -> bool {
    bytes.len() >= 4 && match kind {
        Compression::Zstd => bytes[0] == 0x28 && bytes[1] == 0xb5 && bytes[2] == 0x2f && bytes[3]
            == 0xfd,
        Compression::Gzip => bytes[0] == 0x1f && bytes[1] == 0x8b,
        Compression::Zlib => bytes[0] == 0x78 && (bytes[1] == 0x01 || bytes[1] == 0x9c || bytes[1]
            == 0xda),
        Compression::Zip => bytes[0] == 0x50 && bytes[1] == 0x4b && bytes[2] == 0x03 && bytes[3]
            == 0x04,
        Compression::Cab => bytes[0] == 0x4d && bytes[1] == 0x53 && bytes[2] == 0x43 && bytes[3]
            == 0x46,
        Compression::Uncompressed => false,
    }
}

/// The format that `bytes` is recognised as: the first format, in the order
/// zstd, gzip, zlib, zip, cab, whose signature `bytes` begins with, and
/// `Uncompressed` if there is none.
pub open spec fn spec_classify(bytes: Seq<u8>) -> Compression {
    if has_signature(Compression::Zstd, bytes) {
        Compression::Zstd
    } else if has_signature(Compression::Gzip, bytes) {
        Compression::Gzip
    } else if has_signature(Compression::Zlib, bytes) {
        Compression::Zlib
    } else if has_signature(Compression::Zip, bytes) {
        Compression::Zip
    } else if has_signature(Compression::Cab, bytes) {
        Compression::Cab
    } else {
        Compression::Uncompressed
    }
}

/// The name under which a format is counted.
pub open spec fn spec_tag(kind: Compression) -> Seq<char> {
    match kind {
        Compression::Zstd => "zstd"@,
        Compression::Gzip => "gzip"@,
        Compression::Zlib => "zlib"@,
        Compression::Zip => "zip"@,
        Compression::Cab => "cab"@,
        Compression::Uncompressed => "none"@,
    }
}

/// The decoder for each format; `None` for an artifact that needs no decoding.
pub open spec fn spec_decoder(kind: Compression) -> Option<Decoder> {
    match kind {
        Compression::Zstd => Some(Decoder::Library(Codec::Zstd)),
        Compression::Gzip => Some(Decoder::Library(Codec::Gzip)),
        Compression::Zlib => Some(Decoder::Library(Codec::Zlib)),
        Compression::Zip => Some(Decoder::Library(Codec::Zip)),
        Compression::Cab => Some(Decoder::Tool),
        Compression::Uncompressed => None,
    }
}

/// Classifies an artifact by its leading bytes.
///
/// Only the first four bytes are read, and nothing is written: the bytes are
/// the same after the call as before it.
pub fn classify(bytes: &[u8]) -> (kind: Compression)
    ensures
        kind == spec_classify(bytes@),
        bytes@.len() < 4 ==> kind == Compression::Uncompressed,
        kind != Compression::Uncompressed <==> has_signature(kind, bytes@),
{
    if bytes.len() < SIGNATURE_LEN {
        return Compression::Uncompressed;
    }
    let b0: u8 = bytes[0];
    let b1: u8 = bytes[1];
    let b2: u8 = bytes[2];
    let b3: u8 = bytes[3];
    if b0 == 0x28 && b1 == 0xb5 && b2 == 0x2f && b3 == 0xfd {
        Compression::Zstd
    } else if b0 == 0x1f && b1 == 0x8b {
        Compression::Gzip
    } else if b0 == 0x78 && (b1 == 0x01 || b1 == 0x9c || b1 == 0xda) {
        Compression::Zlib
    } else if b0 == 0x50 && b1 == 0x4b && b2 == 0x03 && b3 == 0x04 {
        Compression::Zip
    } else if b0 == 0x4d && b1 == 0x53 && b2 == 0x43 && b3 == 0x46 {
        Compression::Cab
    } else {
        Compression::Uncompressed
    }
}

impl Compression {
    /// The name under which this format is counted.
    pub fn tag(&self) -> (name: &'static str)
        ensures
            name@ == spec_tag(*self),
    {
        match self {
            Compression::Zstd => "zstd",
            Compression::Gzip => "gzip",
            Compression::Zlib => "zlib",
            Compression::Zip => "zip",
            Compression::Cab => "cab",
            Compression::Uncompressed => "none",
        }
    }

    /// How an artifact of this format is decoded, if it needs decoding.
    pub fn decoder(&self) -> (decoder: Option<Decoder>)
        ensures
            decoder == spec_decoder(*self),
            decoder is None <==> *self == Compression::Uncompressed,
    {
        match self {
            Compression::Zstd => Some(Decoder::Library(Codec::Zstd)),
            Compression::Gzip => Some(Decoder::Library(Codec::Gzip)),
            Compression::Zlib => Some(Decoder::Library(Codec::Zlib)),
            Compression::Zip => Some(Decoder::Library(Codec::Zip)),
            Compression::Cab => Some(Decoder::Tool),
            Compression::Uncompressed => None,
        }
    }
}

/// An artifact shorter than a signature is never recognised as compressed.
pub proof fn lemma_short_is_uncompressed(bytes: Seq<u8>)
    requires
        bytes.len() < 4,
    ensures
        spec_classify(bytes) == Compression::Uncompressed,
{
}

/// No artifact carries the signatures of two formats, so the order in which
/// the signatures are tried does not change the result.
pub proof fn lemma_signatures_exclude_each_other(a: Compression, b: Compression, bytes: Seq<u8>)
    requires
        has_signature(a, bytes),
        has_signature(b, bytes),
    ensures
        a == b,
{
}

/// An artifact is recognised as a compressed format exactly when it begins
/// with that format's signature.
pub proof fn lemma_classified_by_signature(kind: Compression, bytes: Seq<u8>)
    ensures
        kind != Compression::Uncompressed ==> (spec_classify(bytes) == kind <==> has_signature(
            kind,
            bytes,
        )),
        spec_classify(bytes) == Compression::Uncompressed <==> forall|k: Compression|
            !has_signature(k, bytes),
{
    if spec_classify(bytes) == Compression::Uncompressed {
        assert forall|k: Compression| !has_signature(k, bytes) by {}
    } else {
        assert(has_signature(spec_classify(bytes), bytes));
    }
}

/// The classification depends on the first four bytes alone: two artifacts
/// that agree on them are classified alike, whatever follows.
pub proof fn lemma_classified_by_prefix(a: Seq<u8>, b: Seq<u8>)
    requires
        a.len() >= 4,
        b.len() >= 4,
        a.subrange(0, 4) == b.subrange(0, 4),
    ensures
        spec_classify(a) == spec_classify(b),
        spec_classify(a) == spec_classify(a.subrange(0, 4)),
{
    let p = a.subrange(0, 4);
    let q = b.subrange(0, 4);
    assert(p[0] == a[0] && p[1] == a[1] && p[2] == a[2] && p[3] == a[3]);
    assert(q[0] == b[0] && q[1] == b[1] && q[2] == b[2] && q[3] == b[3]);
}

/// The table of signatures, format by format, over the bytes that each fixes.
pub proof fn lemma_signature_table(bytes: Seq<u8>)
    requires
        bytes.len() >= 4,
    ensures
        bytes[0] == 0x28 && bytes[1] == 0xb5 && bytes[2] == 0x2f && bytes[3] == 0xfd
            ==> spec_classify(bytes) == Compression::Zstd,
        bytes[0] == 0x1f && bytes[1] == 0x8b ==> spec_classify(bytes) == Compression::Gzip,
        bytes[0] == 0x78 && (bytes[1] == 0x01 || bytes[1] == 0x9c || bytes[1] == 0xda)
            ==> spec_classify(bytes) == Compression::Zlib,
        bytes[0] == 0x50 && bytes[1] == 0x4b && bytes[2] == 0x03 && bytes[3] == 0x04
            ==> spec_classify(bytes) == Compression::Zip,
        bytes[0] == 0x4d && bytes[1] == 0x53 && bytes[2] == 0x43 && bytes[3] == 0x46
            ==> spec_classify(bytes) == Compression::Cab,
{
}

} // verus!
