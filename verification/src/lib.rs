//! Format-detecting decompression of downloaded artifacts.
//!
//! An artifact arrives as a file of unknown content. [`format`] recognises a
//! compression format by the file's leading bytes, [`codec`] decodes the
//! formats that are decoded in this process, [`tool`] describes the command
//! that unpacks the one format that is not, [`place`] says where the
//! replacement file goes, and [`gateway`] ties them into a state machine that
//! a driver feeds with what it sees on disk. [`run`] holds what is proved of
//! every run of that machine.

pub mod codec;
pub mod failure;
pub mod format;
pub mod gateway;
pub mod place;
pub mod run;
pub mod tool;

pub use codec::decode;
pub use failure::{Failure, FailureKind};
pub use format::{classify, Codec, Compression, Decoder};
pub use gateway::{maybe_decompress_file, Action, Event, Gateway, Phase};
pub use place::tempfile_in_parent;
pub use tool::{cab_command, failure_message, tool_name, CabCommand, Platform, Sink};
