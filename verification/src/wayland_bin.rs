//! Reaches the Wayland clipboard through the `wl-copy` and `wl-paste`
//! helper programs of `wl-clipboard`.
//!
//! The helpers are looked up on `PATH` by their names, unless the build
//! supplied a path for either of them. The two paths are independent: one
//! may be configured and the other not.
//!
//! The context is always made. A helper that is missing shows with the
//! first use, as [`Error::NoBinary`].

use vstd::prelude::*;
use vstd::utf8::decode_utf8;
use vstd::utf8::encode_utf8;
use vstd::utf8::encode_utf8_decode_utf8;
use vstd::utf8::valid_utf8;
use std::string::FromUtf8Error;
use crate::config::override_path;
use crate::config::usable_part;
use crate::config::Config;
use crate::display::DisplayServer;
use crate::process::io_message;
use crate::process::io_message_text;
use crate::process::status_message;
use crate::process::status_message_text;
use crate::process::string_from_utf8;
use crate::process::text_bytes;
use crate::process::texts;
use crate::process::utf8_message_start;
use crate::process::utf8_message_text;
use crate::process::FeedOutcome;
use crate::process::Invocation;
use crate::process::IoFailure;
use crate::process::Output;
use crate::provider::ClipError;
use crate::provider::ClipResult;
use crate::provider::ClipboardProvider;
use crate::provider::Request;

verus! {

/// Represents Wayland binary related error.
#[derive(Debug, PartialEq, Eq)]
pub enum Error {
    /// The `wl-copy` or `wl-paste` binary could not be found on the system, required for clipboard support.
    NoBinary,
    /// An error occurred while using `wl-copy` or `wl-paste` to manage the clipboard contents.
    /// This problem probably occurred when starting, or while piping the clipboard contents
    /// from/to the process.
    BinaryIo(&'static str, IoFailure),
    /// `wl-copy` or `wl-paste` unexpectetly exited with a non-successful status code.
    BinaryStatus(&'static str, i32),
    /// The clipboard contents could not be parsed as valid UTF-8.
    NoUtf8(FromUtf8Error),
}

/// Available clipboard management binaries.
#[derive(Clone, Debug, PartialEq, Eq)]
pub enum ClipboardType {
    /// Use `wl-copy` and `wl-paste` from `wl-clipboard`.
    ///
    /// Holds the path of `wl-copy`, then that of `wl-paste`, each if it was
    /// specified at build time.
    WlClipboard(Option<String>, Option<String>),
}

/// The error for a helper that could not be started.
pub open spec fn spawn_error(bin: &'static str, failure: IoFailure) -> Error {
    if failure.not_found {
        Error::NoBinary
    } else {
        Error::BinaryIo(bin, failure)
    }
}

/// Whether `result` is what reading through `bin` comes to, given what the
/// host reports of the run.
///
/// A helper that could not be started is an error, `NoBinary` when it was
/// not found. A failure status is an error whatever was captured. Otherwise
/// the captured bytes are decoded as UTF-8.
pub open spec fn fetched(
    bin: &'static str,
    output: Result<Output, IoFailure>,
    result: Result<String, Error>,
) -> bool {
    match output {
        Err(failure) => result == Err::<String, Error>(spawn_error(bin, failure)),
        Ok(output) => if !output.status.success {
            result == Err::<String, Error>(Error::BinaryStatus(bin, output.status.code_or_zero()))
        } else if valid_utf8(output.stdout@) {
            result matches Ok(text) && text@ == decode_utf8(output.stdout@)
        } else {
            result matches Err(Error::NoUtf8(_))
        },
    }
}

/// What writing through `bin` comes to, given how far the host got.
pub open spec fn stored(bin: &'static str, outcome: FeedOutcome) -> Result<(), Error> {
    match outcome {
        FeedOutcome::SpawnFailed(failure) => Err(spawn_error(bin, failure)),
        FeedOutcome::WriteFailed(failure) => Err(Error::BinaryIo(bin, failure)),
        FeedOutcome::WaitFailed(failure) => Err(Error::BinaryIo(bin, failure)),
        FeedOutcome::Exited(status) => if status.success {
            Ok(())
        } else {
            Err(Error::BinaryStatus(bin, status.code_or_zero()))
        },
    }
}

/// Get clipboard contents using a system command.
///
/// `output` is what running the command gave: the process's end and its
/// standard output, or the error met on the way.
pub fn sys_cmd_get(bin: &'static str, output: Result<Output, IoFailure>) -> (result: Result<
    String,
    Error,
>)
    ensures
        fetched(bin, output, result),
{
    let output = match output {
        Ok(output) => output,
        Err(failure) => {
            return Err(
                if failure.not_found {
                    Error::NoBinary
                } else {
                    Error::BinaryIo(bin, failure)
                },
            );
        },
    };
    if !output.status.success {
        return Err(Error::BinaryStatus(bin, output.status.reported_code()));
    }
    match string_from_utf8(output.stdout) {
        Ok(text) => {
            proof {
                encode_utf8_decode_utf8(text@);
            }
            Ok(text)
        },
        Err(error) => Err(Error::NoUtf8(error)),
    }
}

/// Set clipboard contents using a system command.
///
/// `outcome` is how far the host got: starting the command, writing the
/// contents to its standard input, waiting for it to end.
pub fn sys_cmd_set(bin: &'static str, outcome: FeedOutcome) -> (result: Result<(), Error>)
    ensures
        result == stored(bin, outcome),
{
    let status = match outcome {
        FeedOutcome::SpawnFailed(failure) => {
            return Err(
                if failure.not_found {
                    Error::NoBinary
                } else {
                    Error::BinaryIo(bin, failure)
                },
            );
        },
        FeedOutcome::WriteFailed(failure) => {
            return Err(Error::BinaryIo(bin, failure));
        },
        FeedOutcome::WaitFailed(failure) => {
            return Err(Error::BinaryIo(bin, failure));
        },
        FeedOutcome::Exited(status) => status,
    };
    if !status.success {
        return Err(Error::BinaryStatus(bin, status.reported_code()));
    }
    Ok(())
}

impl ClipboardType {
    /// The program that prints the clipboard: the configured path of
    /// `wl-paste`, or its name for a lookup on `PATH`.
    pub open spec fn get_program(self) -> Seq<char> {
        match self {
            ClipboardType::WlClipboard(_, Some(path)) => path@,
            ClipboardType::WlClipboard(_, None) => "wl-paste"@,
        }
    }

    /// The program that sets the clipboard: the configured path of
    /// `wl-copy`, or its name for a lookup on `PATH`.
    pub open spec fn set_program(self) -> Seq<char> {
        match self {
            ClipboardType::WlClipboard(Some(path), _) => path@,
            ClipboardType::WlClipboard(None, _) => "wl-copy"@,
        }
    }

    /// Select the clipboard type to use.
    ///
    /// Each of the two paths is taken from the configuration if it is set
    /// there and not blank.
    pub fn select(config: &Config) -> (kind: Self)
        ensures
            kind == ClipboardType::WlClipboard(
                usable_part(config.wl_copy_path),
                usable_part(config.wl_paste_path),
            ),
    {
        ClipboardType::WlClipboard(
            override_path(&config.wl_copy_path),
            override_path(&config.wl_paste_path),
        )
    }

    /// The command that prints the clipboard contents. It takes no
    /// arguments.
    pub fn get_command(&self) -> (command: Invocation)
        ensures
            command.starts(self.get_program(), Seq::empty()),
    {
        let program = match self {
            ClipboardType::WlClipboard(_, Some(path)) => path.clone(),
            ClipboardType::WlClipboard(_, None) => String::from_str("wl-paste"),
        };
        let args: Vec<&'static str> = Vec::new();
        assert(texts(args@) =~= Seq::empty());
        Invocation { program, args }
    }

    /// The command that sets the clipboard to what it reads from its
    /// standard input. It takes no arguments.
    pub fn set_command(&self) -> (command: Invocation)
        ensures
            command.starts(self.set_program(), Seq::empty()),
    {
        let program = match self {
            ClipboardType::WlClipboard(Some(path), _) => path.clone(),
            ClipboardType::WlClipboard(None, _) => String::from_str("wl-copy"),
        };
        let args: Vec<&'static str> = Vec::new();
        assert(texts(args@) =~= Seq::empty());
        Invocation { program, args }
    }

    /// Get clipboard contents through the selected clipboard type.
    ///
    /// `output` is what running [`get_command`](Self::get_command) gave.
    pub fn get(&self, output: Result<Output, IoFailure>) -> (result: Result<String, Error>)
        ensures
            fetched("wl-paste", output, result),
    {
        sys_cmd_get("wl-paste", output)
    }

    /// Set clipboard contents through the selected clipboard type.
    ///
    /// `outcome` is what running [`set_command`](Self::set_command) on the
    /// contents gave.
    pub fn set(&self, outcome: FeedOutcome) -> (result: Result<(), Error>)
        ensures
            result == stored("wl-copy", outcome),
    {
        sys_cmd_set("wl-copy", outcome)
    }
}

/// Invokes `wl-clipboard` binaries to access clipboard.
///
/// See module documentation for more information.
#[derive(Clone, Debug, PartialEq, Eq)]
pub struct WaylandBinClipboardContext(pub ClipboardType);

/// Platform specific context.
pub type ClipboardContext = WaylandBinClipboardContext;

/// A result of this module as a result of the library.
pub open spec fn lifted<T>(result: Result<T, Error>) -> ClipResult<T> {
    match result {
        Ok(value) => Ok(value),
        Err(error) => Err(ClipError::WaylandBin(error)),
    }
}

/// The result of this module that a result of the library holds, if it
/// holds one.
pub open spec fn lowered<T>(result: ClipResult<T>) -> Option<Result<T, Error>> {
    match result {
        Ok(value) => Some(Ok(value)),
        Err(ClipError::WaylandBin(error)) => Some(Err(error)),
        Err(_) => None,
    }
}

impl WaylandBinClipboardContext {
    /// Makes the context, with the paths that [`ClipboardType::select`]
    /// takes from the configuration. This never fails: a helper that is
    /// missing shows when the context is first used.
    pub fn new(config: &Config) -> (context: ClipResult<Self>)
        ensures
            context == Ok::<Self, ClipError>(
                WaylandBinClipboardContext(
                    ClipboardType::WlClipboard(
                        usable_part(config.wl_copy_path),
                        usable_part(config.wl_paste_path),
                    ),
                ),
            ),
    {
        Ok(WaylandBinClipboardContext(ClipboardType::select(config)))
    }

    /// The display server that this context is for.
    pub fn display_server(&self) -> (server: Option<DisplayServer>)
        ensures
            server == Some(DisplayServer::Wayland),
    {
        Some(DisplayServer::Wayland)
    }
}

impl ClipboardProvider for WaylandBinClipboardContext {
    type Fetched = Result<Output, IoFailure>;

    type Stored = FeedOutcome;

    open spec fn get_asks(&self, request: Request) -> bool {
        request matches Request::Capture(command) && command.starts(
            self.0.get_program(),
            Seq::empty(),
        )
    }

    open spec fn get_gives(&self, outcome: Self::Fetched, result: ClipResult<String>) -> bool {
        lowered(result) matches Some(inner) && fetched("wl-paste", outcome, inner)
    }

    open spec fn can_set(&self, contents: Seq<char>) -> bool {
        true
    }

    open spec fn set_asks(&self, contents: Seq<char>, request: Request) -> bool {
        request matches Request::Feed(command, input) && command.starts(
            self.0.set_program(),
            Seq::empty(),
        ) && input@ == encode_utf8(contents)
    }

    open spec fn set_gives(&self, outcome: Self::Stored, result: ClipResult<()>) -> bool {
        result == lifted(stored("wl-copy", outcome))
    }

    fn get_request(&self) -> (request: Request) {
        Request::Capture(self.0.get_command())
    }

    fn get_contents(&self, outcome: Self::Fetched) -> (result: ClipResult<String>) {
        match self.0.get(outcome) {
            Ok(text) => Ok(text),
            Err(error) => Err(ClipError::WaylandBin(error)),
        }
    }

    fn set_request(&self, contents: String) -> (request: Request) {
        Request::Feed(self.0.set_command(), text_bytes(contents.as_str()))
    }

    fn set_contents(&self, outcome: Self::Stored) -> (result: ClipResult<()>) {
        match self.0.set(outcome) {
            Ok(done) => Ok(done),
            Err(error) => Err(ClipError::WaylandBin(error)),
        }
    }
}

impl Error {
    /// The message of the error, where it is fixed: every error but
    /// `NoUtf8`, whose message ends in the decoder's own words.
    pub open spec fn message_of(self) -> Seq<char> {
        match self {
            Error::NoBinary => "Could not find wl-copy or wl-paste binary for clipboard support"@,
            Error::BinaryIo(bin, failure) => io_message(bin@, failure),
            Error::BinaryStatus(bin, code) => status_message(bin@, code),
            Error::NoUtf8(_) => utf8_message_start(),
        }
    }

    /// Describes the error.
    pub fn message(&self) -> (message: String)
        ensures
            *self is NoUtf8 ==> self.message_of().is_prefix_of(message@),
            !(*self is NoUtf8) ==> message@ == self.message_of(),
    {
        match self {
            Error::NoBinary => String::from_str(
                "Could not find wl-copy or wl-paste binary for clipboard support",
            ),
            Error::BinaryIo(bin, failure) => io_message_text(bin, failure),
            Error::BinaryStatus(bin, code) => status_message_text(bin, *code),
            Error::NoUtf8(error) => {
                let detail = error.to_string();
                utf8_message_text(detail.as_str())
            },
        }
    }

    /// The description of the error underneath, where there is one: the
    /// system's words for an input or output error, the decoder's for
    /// output that is not UTF-8.
    pub fn source(&self) -> (cause: Option<String>)
        ensures
            cause is Some <==> (*self is BinaryIo || *self is NoUtf8),
            *self matches Error::BinaryIo(_, failure) ==> cause == Some(failure.message),
    {
        match self {
            Error::BinaryIo(_, failure) => Some(failure.message.clone()),
            Error::NoUtf8(error) => Some(error.to_string()),
            _ => None,
        }
    }
}

/// What was written comes back: when the helper that prints the clipboard
/// succeeds and prints exactly the bytes that a write of `contents` fed to
/// the helper that sets it, reading gives `contents`. This holds of every
/// text, the empty one and one with a bell character included.
pub proof fn lemma_round_trip(
    bin: &'static str,
    contents: Seq<char>,
    output: Output,
    result: Result<String, Error>,
)
    requires
        output.status.success,
        output.stdout@ == encode_utf8(contents),
        fetched(bin, Ok(output), result),
    ensures
        result matches Ok(text) && text@ == contents,
{
    encode_utf8_decode_utf8(contents);
    vstd::utf8::encode_utf8_valid_utf8(contents);
}

/// A helper that is not there is reported as such, by reading and by
/// writing alike, and whatever else the host has to say about the failed
/// start.
pub proof fn lemma_missing_helper(
    bin: &'static str,
    failure: IoFailure,
    result: Result<String, Error>,
)
    requires
        failure.not_found,
    ensures
        fetched(bin, Err(failure), result) <==> result == Err::<String, Error>(Error::NoBinary),
        stored(bin, FeedOutcome::SpawnFailed(failure)) == Err::<(), Error>(Error::NoBinary),
{
}

/// The three ways in which reading fails are told apart: a helper that is
/// not there, a helper that ended with a failure status, and output that is
/// not UTF-8 give three different errors.
pub proof fn lemma_failures_distinct(
    bin: &'static str,
    failure: IoFailure,
    failed: Output,
    undecodable: Output,
    missing_result: Result<String, Error>,
    failed_result: Result<String, Error>,
    undecodable_result: Result<String, Error>,
)
    requires
        failure.not_found,
        !failed.status.success,
        undecodable.status.success,
        !valid_utf8(undecodable.stdout@),
        fetched(bin, Err(failure), missing_result),
        fetched(bin, Ok(failed), failed_result),
        fetched(bin, Ok(undecodable), undecodable_result),
    ensures
        missing_result matches Err(Error::NoBinary),
        failed_result matches Err(Error::BinaryStatus(_, _)),
        undecodable_result matches Err(Error::NoUtf8(_)),
{
}

} // verus!
