//! The command-line tool that unpacks cabinet archives: which tool a host
//! has, how it is invoked, and how its failure is reported.
//!
//! Nothing here starts a process. A command is a plain value that a driver
//! carries out.

use vstd::prelude::*;
use vstd::string::StringExecFns;

verus! {

/// The family of operating system that the tool runs on.
#[derive(Clone, Copy, Debug, PartialEq, Eq, Structural)]
pub enum Platform {
    Windows,
    Other,
}

/// Where a standard stream of the child process goes.
#[derive(Clone, Copy, Debug, PartialEq, Eq, Structural)]
pub enum Sink {
    /// Into a pipe, captured by the parent.
    Pipe,
    /// Into the file that is to replace the artifact, opened for writing.
    Replacement,
}

/// One invocation of the tool.
#[derive(Debug)]
pub struct CabCommand {
    pub program: String,
    pub args: Vec<String>,
    pub stdout: Sink,
    pub stderr: Sink,
}

/// A `CabCommand` as plain text and sequences.
pub struct CabCommandView {
    pub program: Seq<char>,
    pub args: Seq<Seq<char>>,
    pub stdout: Sink,
    pub stderr: Sink,
}

impl View for CabCommand {
    type V = CabCommandView;

    open spec fn view(&self) -> CabCommandView {
        CabCommandView {
            program: self.program@,
            args: self.args.deep_view(),
            stdout: self.stdout,
            stderr: self.stderr,
        }
    }
}

/// The tool of each platform: the expansion utility that Windows ships, and
/// the dedicated extractor everywhere else.
pub open spec fn spec_tool_name(host: Platform) -> Seq<char> {
    match host {
        Platform::Windows => "expand"@,
        Platform::Other => "cabextract"@,
    }
}

/// The invocation that unpacks `source` into `replacement` on `host`.
///
/// On Windows the tool takes both paths and writes the file itself; both of
/// its streams are captured. Elsewhere the tool is asked to run silently, to
/// fix what it can, to stay quiet and to write the content to its standard
/// output, which is the replacement file; its standard error is captured.
pub open spec fn spec_cab_command(
    host: Platform,
    source: Seq<char>,
    replacement: Seq<char>,
) -> CabCommandView {
    match host {
        Platform::Windows => CabCommandView {
            program: spec_tool_name(host),
            args: seq![source, replacement],
            stdout: Sink::Pipe,
            stderr: Sink::Pipe,
        },
        Platform::Other => CabCommandView {
            program: spec_tool_name(host),
            args: seq!["-sfqp"@, source],
            stdout: Sink::Replacement,
            stderr: Sink::Pipe,
        },
    }
}

/// The message of a failed run: a fixed opening, the tool's name in quotes,
/// a colon, and what the tool wrote to its standard error.
pub open spec fn spec_failure_message(tool: Seq<char>, stderr: Seq<char>) -> Seq<char> {
    "Failed to decompress CAB file with '"@ + tool + "': "@ + stderr
}

/// Whether `needle` occurs in `text` as a contiguous run.
pub open spec fn occurs_in(needle: Seq<char>, text: Seq<char>) -> bool {
    exists|at: int|
        0 <= at && at + needle.len() <= text.len() && #[trigger] text.subrange(
            at,
            at + needle.len(),
        ) == needle
}

/// The text that `String::from_utf8_lossy` makes of `bytes`: their decoding
/// as UTF-8, with each ill-formed part replaced by the replacement character.
pub uninterp spec fn utf8_lossy(bytes: Seq<u8>) -> Seq<char>;

/// Calls `String::from_utf8_lossy` on `bytes` and takes the text as a
/// `String`. Trusted: the text depends on the bytes alone.
#[verifier::external_body]
pub(crate) fn from_utf8_lossy(bytes: &[u8]) -> (text: String)
    ensures
        text@ == utf8_lossy(bytes@),
{
    String::from_utf8_lossy(bytes).into_owned()
}

/// The name of the tool that `host` uses.
pub fn tool_name(host: Platform) -> (name: &'static str)
    ensures
        name@ == spec_tool_name(host),
{
    match host {
        Platform::Windows => "expand",
        Platform::Other => "cabextract",
    }
}

/// Builds the invocation that unpacks `source` into `replacement` on `host`.
pub fn cab_command(host: Platform, source: &str, replacement: &str) -> (command: CabCommand)
    ensures
        command@ == spec_cab_command(host, source@, replacement@),
{
    let program = String::from_str(tool_name(host));
    let mut args: Vec<String> = Vec::new();
    match host {
        Platform::Windows => {
            args.push(String::from_str(source));
            args.push(String::from_str(replacement));
            assert(args.deep_view() =~= seq![source@, replacement@]);
            CabCommand { program, args, stdout: Sink::Pipe, stderr: Sink::Pipe }
        },
        Platform::Other => {
            args.push(String::from_str("-sfqp"));
            args.push(String::from_str(source));
            assert(args.deep_view() =~= seq!["-sfqp"@, source@]);
            CabCommand { program, args, stdout: Sink::Replacement, stderr: Sink::Pipe }
        },
    }
}

/// Builds the message of a failed run of `tool` that wrote `stderr`.
pub fn failure_message(tool: &str, stderr: &str) -> (message: String)
    ensures
        message@ == spec_failure_message(tool@, stderr@),
        occurs_in(tool@, message@),
        occurs_in(stderr@, message@),
{
    let mut message = String::from_str("Failed to decompress CAB file with '");
    message.append(tool);
    message.append("': ");
    message.append(stderr);
    proof {
        lemma_failure_message_names_tool(tool@, stderr@);
    }
    message
}

/// The message of a failed run contains the tool's name and, at its end, what
/// the tool wrote to its standard error.
pub proof fn lemma_failure_message_names_tool(tool: Seq<char>, stderr: Seq<char>)
    ensures
        occurs_in(tool, spec_failure_message(tool, stderr)),
        occurs_in(stderr, spec_failure_message(tool, stderr)),
{
    let opening = "Failed to decompress CAB file with '"@;
    let colon = "': "@;
    let message = spec_failure_message(tool, stderr);
    let at = opening.len() as int;
    assert(message.subrange(at, at + tool.len()) =~= tool);
    let tail = (opening.len() + tool.len() + colon.len()) as int;
    assert(message.subrange(tail, tail + stderr.len()) =~= stderr);
}

} // verus!
