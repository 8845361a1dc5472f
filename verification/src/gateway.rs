//! The decompression gateway: one artifact, taken from "just downloaded" to
//! "known to hold uncompressed content".
//!
//! The gateway touches no file and starts no process. It is a state machine:
//! a driver tells it what happened (an [`Event`]) and is told what to do next
//! (an [`Action`]). All decisions are taken here; the driver only carries
//! them out.
//!
//! A run goes as follows. The driver flushes the artifact to storage, rewinds
//! it and reports its size. An artifact too short for a signature is kept as
//! it is. Otherwise the driver reads the leading bytes and rewinds again; the
//! gateway classifies them. An uncompressed artifact is kept. For a
//! compressed one the driver creates a temporary file beside the artifact,
//! and then either hands over the artifact's content, receives the decoded
//! content and writes it to that file, or runs the unpacking tool. Only when
//! that has succeeded does the gateway ask for the swap, after which the
//! caller's handle stands for the new file and the old one is released.

use crate::codec::{decode, spec_decode};
use crate::failure::{Failure, FailureView};
use crate::format::{classify, spec_classify, spec_decoder, Codec, Compression, Decoder};
use crate::place::{is_proper_prefix, parent_of, path_parent, sibling_directory};
use crate::tool::{
    cab_command, failure_message, from_utf8_lossy, spec_cab_command, spec_failure_message,
    spec_tool_name, tool_name, utf8_lossy, CabCommand, CabCommandView, Platform,
};
use vstd::prelude::*;
use vstd::string::StringExecFns;

verus! {

/// What the gateway is waiting for.
#[derive(Debug)]
pub enum Phase {
    /// For the artifact's size.
    Measuring,
    /// For the artifact's leading bytes.
    Sniffing,
    /// For the temporary file that is to hold the decoded content.
    Reserving { decoder: Decoder },
    /// For the artifact's whole content. `scratch` is the temporary file.
    Loading { codec: Codec, scratch: String },
    /// For the decoded content to be written to `scratch`.
    Storing { scratch: String },
    /// For the tool to exit. `scratch` is the temporary file.
    Extracting { scratch: String },
    /// For nothing: the run is over.
    Done,
}

/// What happened since the last action.
#[derive(Debug)]
pub enum Event {
    /// The artifact was flushed to storage and rewound; it is `len` bytes long.
    Measured { len: u64 },
    /// The artifact's leading bytes were read, and the artifact rewound.
    Sniffed { prefix: Vec<u8> },
    /// A temporary file was created at `path`.
    Reserved { path: String },
    /// The artifact's whole content was read.
    Loaded { content: Vec<u8> },
    /// The decoded content was written to the temporary file.
    Stored,
    /// The tool exited; `stderr` is what it wrote to its standard error.
    Exited { success: bool, stderr: Vec<u8> },
    /// The last action could not be carried out.
    Failed { cause: std::io::Error },
}

/// What the driver is to do next. `Keep`, `Swap` and `Fail` end the run.
#[derive(Debug)]
pub enum Action {
    /// Rewind the artifact, read its first four bytes, rewind it again.
    ReadPrefix,
    /// Create a temporary file in `dir`.
    Reserve { dir: String },
    /// Read the artifact's whole content.
    Load,
    /// Write `content` to the temporary file.
    Store { content: Vec<u8> },
    /// Run `command` and wait for it to exit, capturing both of its streams.
    Run { command: CabCommand },
    /// Succeed, leaving the artifact as it is.
    Keep,
    /// Exchange the caller's handle with the temporary file, then succeed.
    Swap,
    /// Fail, leaving the artifact as it is and releasing the temporary file.
    Fail { failure: Failure },
}

/// The state of one run.
#[derive(Debug)]
pub struct Gateway {
    host: Platform,
    artifact: String,
    parent: Option<String>,
    kind: Option<Compression>,
    phase: Phase,
}

/// A phase, with paths as plain text.
pub enum PhaseView {
    Measuring,
    Sniffing,
    Reserving { decoder: Decoder },
    Loading { codec: Codec, scratch: Seq<char> },
    Storing { scratch: Seq<char> },
    Extracting { scratch: Seq<char> },
    Done,
}

/// An event, with bytes and paths as plain sequences.
pub enum EventView {
    Measured { len: u64 },
    Sniffed { prefix: Seq<u8> },
    Reserved { path: Seq<char> },
    Loaded { content: Seq<u8> },
    Stored,
    Exited { success: bool, stderr: Seq<u8> },
    Failed { cause: std::io::Error },
}

/// An action, with bytes and paths as plain sequences. Of a failure it holds
/// what `FailureView` holds.
pub enum ActionView {
    ReadPrefix,
    Reserve { dir: Seq<char> },
    Load,
    Store { content: Seq<u8> },
    Run { command: CabCommandView },
    Keep,
    Swap,
    Fail { failure: FailureView },
}

/// The state of one run, as plain values.
pub struct GatewayView {
    /// The platform whose tool would be run.
    pub host: Platform,
    /// The path of the file that the caller's handle stands for.
    pub artifact: Seq<char>,
    /// The directory that held the artifact when the run began, if any.
    pub parent: Option<Seq<char>>,
    /// The format that the artifact was recognised as, once it is known.
    pub kind: Option<Compression>,
    /// What the run is waiting for.
    pub phase: PhaseView,
}

impl View for Phase {
    type V = PhaseView;

    open spec fn view(&self) -> PhaseView {
        match *self {
            Phase::Measuring => PhaseView::Measuring,
            Phase::Sniffing => PhaseView::Sniffing,
            Phase::Reserving { decoder } => PhaseView::Reserving { decoder },
            Phase::Loading { codec, scratch } => PhaseView::Loading { codec, scratch: scratch@ },
            Phase::Storing { scratch } => PhaseView::Storing { scratch: scratch@ },
            Phase::Extracting { scratch } => PhaseView::Extracting { scratch: scratch@ },
            Phase::Done => PhaseView::Done,
        }
    }
}

impl View for Event {
    type V = EventView;

    open spec fn view(&self) -> EventView {
        match *self {
            Event::Measured { len } => EventView::Measured { len },
            Event::Sniffed { prefix } => EventView::Sniffed { prefix: prefix@ },
            Event::Reserved { path } => EventView::Reserved { path: path@ },
            Event::Loaded { content } => EventView::Loaded { content: content@ },
            Event::Stored => EventView::Stored,
            Event::Exited { success, stderr } => EventView::Exited { success, stderr: stderr@ },
            Event::Failed { cause } => EventView::Failed { cause },
        }
    }
}

impl View for Action {
    type V = ActionView;

    open spec fn view(&self) -> ActionView {
        match *self {
            Action::ReadPrefix => ActionView::ReadPrefix,
            Action::Reserve { dir } => ActionView::Reserve { dir: dir@ },
            Action::Load => ActionView::Load,
            Action::Store { content } => ActionView::Store { content: content@ },
            Action::Run { command } => ActionView::Run { command: command@ },
            Action::Keep => ActionView::Keep,
            Action::Swap => ActionView::Swap,
            Action::Fail { failure } => ActionView::Fail { failure: failure@ },
        }
    }
}

/// The text of an optional string.
pub open spec fn text_of(text: Option<String>) -> Option<Seq<char>> {
    match text {
        Some(t) => Some(t@),
        None => None,
    }
}

impl View for Gateway {
    type V = GatewayView;

    closed spec fn view(&self) -> GatewayView {
        GatewayView {
            host: self.host,
            artifact: self.artifact@,
            parent: text_of(self.parent),
            kind: self.kind,
            phase: self.phase@,
        }
    }
}

impl PhaseView {
    /// The temporary file that is held in this phase, if any.
    pub open spec fn scratch(self) -> Option<Seq<char>> {
        match self {
            PhaseView::Loading { scratch, .. } => Some(scratch),
            PhaseView::Storing { scratch } => Some(scratch),
            PhaseView::Extracting { scratch } => Some(scratch),
            _ => None,
        }
    }

    /// How many events a run in this phase can still take.
    pub open spec fn remaining(self) -> nat {
        match self {
            PhaseView::Measuring => 5,
            PhaseView::Sniffing => 4,
            PhaseView::Reserving { .. } => 3,
            PhaseView::Loading { .. } => 2,
            PhaseView::Storing { .. } => 1,
            PhaseView::Extracting { .. } => 1,
            PhaseView::Done => 0,
        }
    }
}

impl ActionView {
    /// Whether the action ends the run.
    pub open spec fn ends_run(self) -> bool {
        self is Keep || self is Swap || self is Fail
    }

    /// Whether carrying the action out leaves every file as it is, the
    /// artifact and any other.
    pub open spec fn only_reads(self) -> bool {
        self is ReadPrefix || self is Load || self is Keep
    }
}

impl GatewayView {
    /// The state in which a run on `artifact` begins.
    pub open spec fn start(host: Platform, artifact: Seq<char>, parent: Option<Seq<char>>) -> Self {
        GatewayView { host, artifact, parent, kind: None, phase: PhaseView::Measuring }
    }

    /// This state with another phase.
    pub open spec fn at(self, phase: PhaseView) -> Self {
        GatewayView { phase, ..self }
    }

    /// This state with the artifact recognised as `kind`.
    pub open spec fn detected(self, kind: Compression) -> Self {
        GatewayView { kind: Some(kind), ..self }
    }

    /// This state with the run over and the artifact where it was.
    pub open spec fn finished(self) -> Self {
        GatewayView { phase: PhaseView::Done, ..self }
    }

    /// This state with the run over and the caller's handle standing for
    /// `scratch`.
    pub open spec fn swapped(self, scratch: Seq<char>) -> Self {
        GatewayView { artifact: scratch, phase: PhaseView::Done, ..self }
    }

    /// The files that the run holds: the one behind the caller's handle, and
    /// the temporary file while there is one.
    pub open spec fn live(self) -> Set<Seq<char>> {
        match self.phase.scratch() {
            Some(scratch) => set![self.artifact, scratch],
            None => set![self.artifact],
        }
    }

    /// What holds of every state that a run reaches: the format is known
    /// exactly from the moment the leading bytes were classified, and the
    /// phase fits the format's decoder.
    pub open spec fn wf(self) -> bool {
        match self.phase {
            PhaseView::Measuring => self.kind is None,
            PhaseView::Sniffing => self.kind is None,
            PhaseView::Reserving { decoder } => {
                &&& self.kind matches Some(kind)
                &&& spec_decoder(kind) == Some(decoder)
                &&& self.parent is Some
            },
            PhaseView::Loading { codec, .. } => {
                &&& self.kind matches Some(kind)
                &&& spec_decoder(kind) == Some(Decoder::Library(codec))
            },
            PhaseView::Storing { .. } => {
                &&& self.kind matches Some(kind)
                &&& spec_decoder(kind) matches Some(Decoder::Library(_))
            },
            PhaseView::Extracting { .. } => self.kind == Some(Compression::Cab),
            PhaseView::Done => true,
        }
    }
}

/// The gateway's answer to an artifact's size: one too short to carry a
/// signature is uncompressed and kept; of any other the leading bytes are
/// wanted.
pub open spec fn on_measured(g: GatewayView, len: u64) -> (GatewayView, ActionView) {
    if len < 4 {
        (g.detected(Compression::Uncompressed).finished(), ActionView::Keep)
    } else {
        (g.at(PhaseView::Sniffing), ActionView::ReadPrefix)
    }
}

/// The gateway's answer to an artifact's leading bytes: an uncompressed
/// artifact is kept; for a compressed one a temporary file is wanted in the
/// artifact's parent directory, and the run fails where there is no parent.
pub open spec fn on_sniffed(g: GatewayView, prefix: Seq<u8>) -> (GatewayView, ActionView) {
    let kind = spec_classify(prefix);
    let g = g.detected(kind);
    match spec_decoder(kind) {
        None => (g.finished(), ActionView::Keep),
        Some(decoder) => match g.parent {
            None => (g.finished(), ActionView::Fail { failure: FailureView::NoParent }),
            Some(dir) => (g.at(PhaseView::Reserving { decoder }), ActionView::Reserve { dir }),
        },
    }
}

/// The gateway's answer to the temporary file: for a format decoded in this
/// process the artifact's content is wanted; for a cabinet the tool is run on
/// the artifact and the temporary file.
pub open spec fn on_reserved(g: GatewayView, decoder: Decoder, path: Seq<char>) -> (
    GatewayView,
    ActionView,
) {
    match decoder {
        Decoder::Library(codec) => (
            g.at(PhaseView::Loading { codec, scratch: path }),
            ActionView::Load,
        ),
        Decoder::Tool => (
            g.at(PhaseView::Extracting { scratch: path }),
            ActionView::Run { command: spec_cab_command(g.host, g.artifact, path) },
        ),
    }
}

/// The gateway's answer to the artifact's content: what the codec decodes it
/// to is to be written to the temporary file; where the codec rejects it the
/// run fails.
pub open spec fn on_loaded(g: GatewayView, codec: Codec, scratch: Seq<char>, content: Seq<u8>) -> (
    GatewayView,
    ActionView,
) {
    match spec_decode(codec, content) {
        Some(decoded) => (
            g.at(PhaseView::Storing { scratch }),
            ActionView::Store { content: decoded },
        ),
        None => (g.finished(), ActionView::Fail { failure: FailureView::Decode { codec } }),
    }
}

/// The gateway's answer to the tool's exit: the swap after a successful run;
/// after any other a failure whose message names the tool and holds what the
/// tool wrote to its standard error, read as text.
pub open spec fn on_exited(g: GatewayView, scratch: Seq<char>, success: bool, stderr: Seq<u8>) -> (
    GatewayView,
    ActionView,
) {
    if success {
        (g.swapped(scratch), ActionView::Swap)
    } else {
        let tool = spec_tool_name(g.host);
        let stderr = utf8_lossy(stderr);
        (
            g.finished(),
            ActionView::Fail {
                failure: FailureView::Tool {
                    tool,
                    stderr,
                    message: spec_failure_message(tool, stderr),
                },
            },
        )
    }
}

/// The gateway's answer to `event` in state `g`: the next state and the
/// action.
///
/// A run that is over answers every event with a failure and stays as it is.
/// A driver that could not carry out an action ends the run with that cause.
/// An event that the phase does not wait for ends the run too.
pub open spec fn spec_step(g: GatewayView, event: EventView) -> (GatewayView, ActionView) {
    match (g.phase, event) {
        (PhaseView::Done, _) => (g, ActionView::Fail { failure: FailureView::Unexpected }),
        (_, EventView::Failed { cause }) => (
            g.finished(),
            ActionView::Fail { failure: FailureView::Resource { cause } },
        ),
        (PhaseView::Measuring, EventView::Measured { len }) => on_measured(g, len),
        (PhaseView::Sniffing, EventView::Sniffed { prefix }) => on_sniffed(g, prefix),
        (PhaseView::Reserving { decoder }, EventView::Reserved { path }) => on_reserved(
            g,
            decoder,
            path,
        ),
        (PhaseView::Loading { codec, scratch }, EventView::Loaded { content }) => on_loaded(
            g,
            codec,
            scratch,
            content,
        ),
        (PhaseView::Storing { scratch }, EventView::Stored) => (
            g.swapped(scratch),
            ActionView::Swap,
        ),
        (PhaseView::Extracting { scratch }, EventView::Exited { success, stderr }) => on_exited(
            g,
            scratch,
            success,
            stderr,
        ),
        _ => (g.finished(), ActionView::Fail { failure: FailureView::Unexpected }),
    }
}

impl Gateway {
    #[verifier::type_invariant]
    spec fn well_formed(self) -> bool {
        self@.wf()
    }

    /// Begins a run on the artifact at `artifact`, whose parent directory is
    /// `parent`, on a host of platform `host`.
    pub fn with_parent(host: Platform, artifact: String, parent: Option<String>) -> (gateway:
        Gateway)
        ensures
            gateway@ == GatewayView::start(host, artifact@, text_of(parent)),
            gateway@.wf(),
    {
        Gateway { host, artifact, parent, kind: None, phase: Phase::Measuring }
    }

    /// Begins a run on the artifact at `artifact` on a host of platform
    /// `host`. The replacement, if one is needed, will go to the parent
    /// directory of `artifact`, and the run will fail where there is none.
    pub fn new(host: Platform, artifact: String) -> (gateway: Gateway)
        ensures
            gateway@ == GatewayView::start(host, artifact@, parent_of(artifact@)),
            gateway@.parent matches Some(dir) ==> is_proper_prefix(dir, artifact@),
            gateway@.wf(),
    {
        let parent = path_parent(artifact.as_str());
        Gateway::with_parent(host, artifact, parent)
    }

    /// The path of the file that the caller's handle stands for.
    pub fn artifact(&self) -> (path: &str)
        ensures
            path@ == self@.artifact,
    {
        self.artifact.as_str()
    }

    /// The format that the artifact was recognised as, once it is known.
    pub fn kind(&self) -> (kind: Option<Compression>)
        ensures
            kind == self@.kind,
    {
        self.kind
    }

    /// Whether the run is over.
    pub fn is_done(&self) -> (done: bool)
        ensures
            done == (self@.phase is Done),
    {
        match self.phase {
            Phase::Done => true,
            _ => false,
        }
    }

    /// The phase that the run is in.
    pub fn phase(&self) -> (phase: &Phase)
        ensures
            phase@ == self@.phase,
    {
        &self.phase
    }
}

/// Advances the decompression of one artifact by one event: takes the state
/// of the run and what the driver reports, and gives the next state and what
/// the driver is to do.
///
/// The driver starts with `Gateway::new`, reports `Event::Measured`, and then
/// carries out each action and reports its outcome until an action ends the
/// run. The caller's handle is exchanged only on `Action::Swap`.
pub fn maybe_decompress_file(gateway: Gateway, event: Event) -> (next: (Gateway, Action))
    ensures
        (next.0@, next.1@) == spec_step(gateway@, event@),
        next.0@.wf(),
{
    proof {
        use_type_invariant(&gateway);
    }
    let Gateway { host, artifact, parent, kind, phase } = gateway;
    match (phase, event) {
        (Phase::Done, _) => (
            Gateway { host, artifact, parent, kind, phase: Phase::Done },
            Action::Fail { failure: Failure::Unexpected },
        ),
        (_, Event::Failed { cause }) => (
            Gateway { host, artifact, parent, kind, phase: Phase::Done },
            Action::Fail { failure: Failure::Resource { cause } },
        ),
        (Phase::Measuring, Event::Measured { len }) => {
            if len < 4 {
                (
                    Gateway {
                        host,
                        artifact,
                        parent,
                        kind: Some(Compression::Uncompressed),
                        phase: Phase::Done,
                    },
                    Action::Keep,
                )
            } else {
                (
                    Gateway { host, artifact, parent, kind, phase: Phase::Sniffing },
                    Action::ReadPrefix,
                )
            }
        },
        (Phase::Sniffing, Event::Sniffed { prefix }) => {
            let found = classify(prefix.as_slice());
            match found.decoder() {
                None => (
                    Gateway { host, artifact, parent, kind: Some(found), phase: Phase::Done },
                    Action::Keep,
                ),
                Some(decoder) => {
                    let place = match &parent {
                        Some(dir) => Some(dir.clone()),
                        None => None,
                    };
                    match sibling_directory(place) {
                        Err(failure) => (
                            Gateway {
                                host,
                                artifact,
                                parent,
                                kind: Some(found),
                                phase: Phase::Done,
                            },
                            Action::Fail { failure },
                        ),
                        Ok(dir) => (
                            Gateway {
                                host,
                                artifact,
                                parent,
                                kind: Some(found),
                                phase: Phase::Reserving { decoder },
                            },
                            Action::Reserve { dir },
                        ),
                    }
                },
            }
        },
        (Phase::Reserving { decoder }, Event::Reserved { path }) => {
            match decoder {
                Decoder::Library(codec) => (
                    Gateway {
                        host,
                        artifact,
                        parent,
                        kind,
                        phase: Phase::Loading { codec, scratch: path },
                    },
                    Action::Load,
                ),
                Decoder::Tool => {
                    let command = cab_command(host, artifact.as_str(), path.as_str());
                    (
                        Gateway {
                            host,
                            artifact,
                            parent,
                            kind,
                            phase: Phase::Extracting { scratch: path },
                        },
                        Action::Run { command },
                    )
                },
            }
        },
        (Phase::Loading { codec, scratch }, Event::Loaded { content }) => {
            match decode(codec, content.as_slice()) {
                Ok(decoded) => (
                    Gateway { host, artifact, parent, kind, phase: Phase::Storing { scratch } },
                    Action::Store { content: decoded },
                ),
                Err(failure) => (
                    Gateway { host, artifact, parent, kind, phase: Phase::Done },
                    Action::Fail { failure },
                ),
            }
        },
        (Phase::Storing { scratch }, Event::Stored) => (
            Gateway { host, artifact: scratch, parent, kind, phase: Phase::Done },
            Action::Swap,
        ),
        (Phase::Extracting { scratch }, Event::Exited { success, stderr }) => {
            if success {
                (
                    Gateway { host, artifact: scratch, parent, kind, phase: Phase::Done },
                    Action::Swap,
                )
            } else {
                let tool = tool_name(host);
                let text = from_utf8_lossy(stderr.as_slice());
                let message = failure_message(tool, text.as_str());
                (
                    Gateway { host, artifact, parent, kind, phase: Phase::Done },
                    Action::Fail {
                        failure: Failure::Tool {
                            tool: String::from_str(tool),
                            stderr: text,
                            message,
                        },
                    },
                )
            }
        },
        _ => (
            Gateway { host, artifact, parent, kind, phase: Phase::Done },
            Action::Fail { failure: Failure::Unexpected },
        ),
    }
}

} // verus!
