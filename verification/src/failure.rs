//! The ways in which decompressing an artifact fails.

use crate::format::Codec;
use vstd::prelude::*;

verus! {

/// `std::io::Error`, carried through as the cause of a failure. Nothing is
/// known of what is inside one.
#[verifier::external_type_specification]
#[verifier::external_body]
pub struct ExIoError(std::io::Error);

/// Why an artifact could not be decompressed.
#[derive(Debug)]
pub enum Failure {
    /// A file operation on the artifact or on its replacement failed.
    Resource { cause: std::io::Error },
    /// The artifact's path has no parent directory to hold a replacement.
    NoParent,
    /// The decoding routine rejected the artifact's content.
    Decode { codec: Codec, cause: std::io::Error },
    /// The command-line tool did not exit successfully. `stderr` is what it
    /// wrote to its standard error, `message` the report made of both.
    Tool { tool: String, stderr: String, message: String },
    /// An event arrived that the gateway was not waiting for.
    Unexpected,
}

/// The class of input/output error under which a failure is reported.
#[derive(Clone, Copy, Debug, PartialEq, Eq, Structural)]
pub enum FailureKind {
    /// Reported as the cause itself, with the cause's own class.
    Inherited,
    NotFound,
    InvalidData,
    InvalidInput,
}

/// A failure without the causes that only the running program can hold: what
/// the decoding routine reported is left out, the rest is kept.
pub enum FailureView {
    Resource { cause: std::io::Error },
    NoParent,
    Decode { codec: Codec },
    Tool { tool: Seq<char>, stderr: Seq<char>, message: Seq<char> },
    Unexpected,
}

impl View for Failure {
    type V = FailureView;

    open spec fn view(&self) -> FailureView {
        match *self {
            Failure::Resource { cause } => FailureView::Resource { cause },
            Failure::NoParent => FailureView::NoParent,
            Failure::Decode { codec, cause } => FailureView::Decode { codec },
            Failure::Tool { tool, stderr, message } => FailureView::Tool {
                tool: tool@,
                stderr: stderr@,
                message: message@,
            },
            Failure::Unexpected => FailureView::Unexpected,
        }
    }
}

impl FailureView {
    /// The class under which each failure is reported.
    pub open spec fn kind(self) -> FailureKind {
        match self {
            FailureView::Resource { .. } => FailureKind::Inherited,
            FailureView::NoParent => FailureKind::NotFound,
            FailureView::Decode { .. } => FailureKind::Inherited,
            FailureView::Tool { .. } => FailureKind::InvalidData,
            FailureView::Unexpected => FailureKind::InvalidInput,
        }
    }
}

impl Failure {
    /// The class under which this failure is reported.
    pub fn kind(&self) -> (kind: FailureKind)
        ensures
            kind == self@.kind(),
    {
        match self {
            Failure::Resource { .. } => FailureKind::Inherited,
            Failure::NoParent => FailureKind::NotFound,
            Failure::Decode { .. } => FailureKind::Inherited,
            Failure::Tool { .. } => FailureKind::InvalidData,
            Failure::Unexpected => FailureKind::InvalidInput,
        }
    }
}

} // verus!
