//! What running a helper program takes and what comes back from it, as
//! plain values.
//!
//! The host spawns the process and moves the bytes. It reports here how far
//! it got, and the backends turn that report into their result.

use vstd::prelude::*;
use vstd::utf8::encode_utf8;
use vstd::utf8::valid_utf8;
use std::string::FromUtf8Error;
use crate::text::decimal;
use crate::text::decimal_text;

verus! {

/// A helper program and the arguments it is started with.
#[derive(Clone, Debug, PartialEq, Eq)]
pub struct Invocation {
    /// The program: a name looked up on `PATH`, or a path.
    pub program: String,
    /// The arguments, in order.
    pub args: Vec<&'static str>,
}

/// The text of each argument of a list.
pub open spec fn texts(args: Seq<&'static str>) -> Seq<Seq<char>> {
    Seq::new(args.len(), |i: int| args[i]@)
}

impl Invocation {
    /// Whether this invocation starts `program` with exactly `args`.
    pub open spec fn starts(self, program: Seq<char>, args: Seq<Seq<char>>) -> bool {
        self.program@ == program && texts(self.args@) == args
    }
}

/// An input or output error met while starting a process or moving its bytes.
#[derive(Clone, Debug, PartialEq, Eq)]
pub struct IoFailure {
    /// Whether the system said that the file was not found.
    pub not_found: bool,
    /// The system's description of the error.
    pub message: String,
}

/// How a process ended.
#[derive(Copy, Clone, Debug, PartialEq, Eq, Structural)]
pub struct ExitStatus {
    /// Whether the process reported success.
    pub success: bool,
    /// The exit code, unless a signal ended the process.
    pub code: Option<i32>,
}

impl ExitStatus {
    /// The exit code, or zero where there is none.
    pub open spec fn code_or_zero(self) -> i32 {
        match self.code {
            Some(code) => code,
            None => 0,
        }
    }

    /// The exit code, or zero where a signal ended the process.
    pub fn reported_code(&self) -> (code: i32)
        ensures
            code == self.code_or_zero(),
    {
        match self.code {
            Some(code) => code,
            None => 0,
        }
    }
}

/// What a process that ran to its end left behind.
#[derive(Clone, Debug, PartialEq, Eq)]
pub struct Output {
    /// How it ended.
    pub status: ExitStatus,
    /// Everything it wrote to its standard output.
    pub stdout: Vec<u8>,
}

/// How far the host got when it ran a helper and wrote to its standard input.
#[derive(Clone, Debug, PartialEq, Eq)]
pub enum FeedOutcome {
    /// The process could not be started.
    SpawnFailed(IoFailure),
    /// The process started, but not all of the input could be written.
    WriteFailed(IoFailure),
    /// The input was written, but waiting for the process failed.
    WaitFailed(IoFailure),
    /// The input was written and the process ended.
    Exited(ExitStatus),
}

/// `std::string::FromUtf8Error`, the standard library's error for bytes
/// that are not UTF-8. It is carried through as it is; nothing is claimed
/// of what it holds.
#[verifier::external_type_specification]
#[verifier::external_body]
pub struct ExFromUtf8Error(FromUtf8Error);

/// `String::from_utf8` of the standard library: succeeds exactly on valid
/// UTF-8, and the string it returns is made of the bytes it was given.
#[verifier::external_body]
pub(crate) fn string_from_utf8(bytes: Vec<u8>) -> (text: Result<String, FromUtf8Error>)
    ensures
        text is Ok <==> valid_utf8(bytes@),
        text matches Ok(decoded) ==> encode_utf8(decoded@) == bytes@,
{
    String::from_utf8(bytes)
}

/// The bytes that a text is written as: its UTF-8 encoding.
pub fn text_bytes(text: &str) -> (bytes: Vec<u8>)
    ensures
        bytes@ == encode_utf8(text@),
{
    text.as_bytes_vec()
}

/// The message for an input or output error met with a helper.
pub open spec fn io_message(bin: Seq<char>, failure: IoFailure) -> Seq<char> {
    "Failed to access clipboard using "@ + bin + ": "@ + failure.message@
}

/// The message for a helper that ended with a failure status.
pub open spec fn status_message(bin: Seq<char>, code: i32) -> Seq<char> {
    "Failed to use clipboard, "@ + bin + " exited with status code "@ + decimal(code as int)
}

/// What every message for undecodable output starts with.
pub open spec fn utf8_message_start() -> Seq<char> {
    "Failed to parse clipboard contents as valid UTF-8: "@
}

/// The message for an input or output error met with a helper.
pub fn io_message_text(bin: &str, failure: &IoFailure) -> (message: String)
    ensures
        message@ == io_message(bin@, *failure),
{
    let mut message = String::from_str("Failed to access clipboard using ");
    message.append(bin);
    message.append(": ");
    message.append(failure.message.as_str());
    message
}

/// The message for a helper that ended with a failure status.
pub fn status_message_text(bin: &str, code: i32) -> (message: String)
    ensures
        message@ == status_message(bin@, code),
{
    let mut message = String::from_str("Failed to use clipboard, ");
    message.append(bin);
    message.append(" exited with status code ");
    let number = decimal_text(code);
    message.append(number.as_str());
    message
}

/// The message for output that is not UTF-8, given the decoder's own
/// description of what it met.
pub open spec fn utf8_message(detail: Seq<char>) -> Seq<char> {
    utf8_message_start() + detail
}

/// The message for output that is not UTF-8, given the decoder's own
/// description of what it met.
pub fn utf8_message_text(detail: &str) -> (message: String)
    ensures
        message@ == utf8_message(detail@),
{
    let mut message = String::from_str("Failed to parse clipboard contents as valid UTF-8: ");
    message.append(detail);
    message
}

} // verus!
