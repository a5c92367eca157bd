//! Reaches the X11 clipboard through the `xclip` or `xsel` helper program.
//!
//! The helpers keep what was set after the program that set it has gone:
//! they stay alive in the background until the clipboard changes hands.
//!
//! Which helper is used is settled once, when the context is made: a path
//! supplied at build time goes first, then whatever is found on `PATH`,
//! `xclip` before `xsel`. When neither is found the context is still made,
//! on the guess that `xclip` will be there; the error then comes with the
//! first use, as [`Error::NoBinary`].

use vstd::prelude::*;
use vstd::utf8::decode_utf8;
use vstd::utf8::encode_utf8_decode_utf8;
use vstd::utf8::valid_utf8;
use std::string::FromUtf8Error;
use crate::config::Config;
use crate::config::is_usable;
use crate::config::override_path;
use crate::config::usable;
use crate::process::io_message;
use crate::process::io_message_text;
use crate::process::status_message;
use crate::process::status_message_text;
use crate::process::string_from_utf8;
use crate::process::texts;
use crate::process::utf8_message_start;
use crate::process::utf8_message_text;
use crate::process::FeedOutcome;
use crate::process::Invocation;
use crate::process::IoFailure;
use crate::process::Output;
use crate::process::text_bytes;
use crate::combined::CombinedClipboardContext;
use crate::display::DisplayServer;
use crate::native::NativeClipboardContext;
use crate::provider::ClipError;
use crate::provider::ClipResult;
use crate::provider::ClipboardProvider;
use crate::provider::Request;
use vstd::utf8::encode_utf8;

verus! {

/// Represents X11 binary related error.
#[derive(Debug, PartialEq, Eq)]
#[non_exhaustive]
pub enum Error {
    /// The `xclip` or `xsel` binary could not be found on the system, required for clipboard support.
    NoBinary,
    /// An error occurred while using `xclip` or `xsel` to manage the clipboard contents.
    /// This problem probably occurred when starting, or while piping the clipboard contents
    /// from/to the process.
    BinaryIo(&'static str, IoFailure),
    /// `xclip` or `xsel` unexpectetly exited with a non-successful status code.
    BinaryStatus(&'static str, i32),
    /// The clipboard contents could not be parsed as valid UTF-8.
    NoUtf8(FromUtf8Error),
}

/// Available clipboard management binaries.
///
/// Invoke `ClipboardType::select()` to select the best variant to use determined at runtime.
#[derive(Clone, Debug, PartialEq, Eq)]
pub enum ClipboardType {
    /// Use `xclip`.
    ///
    /// May contain a binary path if specified at build time.
    Xclip(Option<String>),
    /// Use `xsel`.
    ///
    /// May contain a binary path if specified at build time.
    Xsel(Option<String>),
}

/// The error for a helper that could not be started.
pub open spec fn spawn_error(bin: &'static str, failure: IoFailure) -> Error {
    if failure.not_found {
        Error::NoBinary
    } else {
        Error::BinaryIo(bin, failure)
    }
}

/// Whether `result` is what reading through `bin` comes to, given what the
/// host reports of the run.
///
/// A helper that could not be started is an error, `NoBinary` when it was
/// not found. A failure status is an error whatever was captured. Otherwise
/// the captured bytes are decoded as UTF-8.
pub open spec fn fetched(
    bin: &'static str,
    output: Result<Output, IoFailure>,
    result: Result<String, Error>,
) -> bool {
    match output {
        Err(failure) => result == Err::<String, Error>(spawn_error(bin, failure)),
        Ok(output) => if !output.status.success {
            result == Err::<String, Error>(Error::BinaryStatus(bin, output.status.code_or_zero()))
        } else if valid_utf8(output.stdout@) {
            result matches Ok(text) && text@ == decode_utf8(output.stdout@)
        } else {
            result matches Err(Error::NoUtf8(_))
        },
    }
}

/// What writing through `bin` comes to, given how far the host got.
pub open spec fn stored(bin: &'static str, outcome: FeedOutcome) -> Result<(), Error> {
    match outcome {
        FeedOutcome::SpawnFailed(failure) => Err(spawn_error(bin, failure)),
        FeedOutcome::WriteFailed(failure) => Err(Error::BinaryIo(bin, failure)),
        FeedOutcome::WaitFailed(failure) => Err(Error::BinaryIo(bin, failure)),
        FeedOutcome::Exited(status) => if status.success {
            Ok(())
        } else {
            Err(Error::BinaryStatus(bin, status.code_or_zero()))
        },
    }
}

/// Get clipboard contents using a system command.
///
/// `output` is what running the command gave: the process's end and its
/// standard output, or the error met on the way.
pub fn sys_cmd_get(bin: &'static str, output: Result<Output, IoFailure>) -> (result: Result<
    String,
    Error,
>)
    ensures
        fetched(bin, output, result),
{
    let output = match output {
        Ok(output) => output,
        Err(failure) => {
            return Err(
                if failure.not_found {
                    Error::NoBinary
                } else {
                    Error::BinaryIo(bin, failure)
                },
            );
        },
    };
    if !output.status.success {
        return Err(Error::BinaryStatus(bin, output.status.reported_code()));
    }
    match string_from_utf8(output.stdout) {
        Ok(text) => {
            proof {
                encode_utf8_decode_utf8(text@);
            }
            Ok(text)
        },
        Err(error) => Err(Error::NoUtf8(error)),
    }
}

/// Set clipboard contents using a system command.
///
/// `outcome` is how far the host got: starting the command, writing the
/// contents to its standard input, waiting for it to end.
pub fn sys_cmd_set(bin: &'static str, outcome: FeedOutcome) -> (result: Result<(), Error>)
    ensures
        result == stored(bin, outcome),
{
    let status = match outcome {
        FeedOutcome::SpawnFailed(failure) => {
            return Err(
                if failure.not_found {
                    Error::NoBinary
                } else {
                    Error::BinaryIo(bin, failure)
                },
            );
        },
        FeedOutcome::WriteFailed(failure) => {
            return Err(Error::BinaryIo(bin, failure));
        },
        FeedOutcome::WaitFailed(failure) => {
            return Err(Error::BinaryIo(bin, failure));
        },
        FeedOutcome::Exited(status) => status,
    };
    if !status.success {
        return Err(Error::BinaryStatus(bin, status.reported_code()));
    }
    Ok(())
}

/// `which::which` of the `which` crate: whether an executable of that name
/// is found on `PATH`. The answer depends on the machine and on the moment,
/// so nothing is claimed of it.
#[verifier::external_body]
fn on_path(name: &str) -> (found: bool) {
    which::which(name).is_ok()
}

impl ClipboardType {
    /// The helper that is chosen when the lookups on `PATH` answer as given.
    ///
    /// A usable path from the configuration decides, that of `xclip` before
    /// that of `xsel`. Then what was found decides, `xclip` before `xsel`.
    /// When nothing was found the choice is `xclip` all the same.
    pub open spec fn resolved(config: Config, xclip_found: bool, xsel_found: bool) -> Self {
        if usable(config.xclip_path) {
            ClipboardType::Xclip(config.xclip_path)
        } else if usable(config.xsel_path) {
            ClipboardType::Xsel(config.xsel_path)
        } else if xclip_found {
            ClipboardType::Xclip(None)
        } else if xsel_found {
            ClipboardType::Xsel(None)
        } else {
            ClipboardType::Xclip(None)
        }
    }

    /// Whether `kind` is a choice that [`select`](Self::select) can make
    /// under `config`: the choice for some answer of the lookups on `PATH`.
    pub open spec fn selectable(config: Config, kind: Self) -> bool {
        if usable(config.xclip_path) {
            kind == ClipboardType::Xclip(config.xclip_path)
        } else if usable(config.xsel_path) {
            kind == ClipboardType::Xsel(config.xsel_path)
        } else {
            kind == ClipboardType::Xclip(None) || kind == ClipboardType::Xsel(None)
        }
    }

    /// The name of the helper, as errors report it.
    pub open spec fn helper(self) -> &'static str {
        match self {
            ClipboardType::Xclip(_) => "xclip",
            ClipboardType::Xsel(_) => "xsel",
        }
    }

    /// The program that is started: the configured path, or the helper's
    /// name for a lookup on `PATH`.
    pub open spec fn program(self) -> Seq<char> {
        match self {
            ClipboardType::Xclip(Some(path)) => path@,
            ClipboardType::Xclip(None) => "xclip"@,
            ClipboardType::Xsel(Some(path)) => path@,
            ClipboardType::Xsel(None) => "xsel"@,
        }
    }

    /// The arguments that make the helper print the clipboard.
    pub open spec fn get_args(self) -> Seq<Seq<char>> {
        match self {
            ClipboardType::Xclip(_) => seq!["-sel"@, "clip"@, "-out"@],
            ClipboardType::Xsel(_) => seq!["--clipboard"@, "--output"@],
        }
    }

    /// The arguments that make the helper take the clipboard from its
    /// standard input.
    pub open spec fn set_args(self) -> Seq<Seq<char>> {
        match self {
            ClipboardType::Xclip(_) => seq!["-sel"@, "clip"@],
            ClipboardType::Xsel(_) => seq!["--clipboard"@],
        }
    }

    /// Chooses the helper from the configuration and from what the lookups
    /// on `PATH` gave.
    pub fn resolve(config: &Config, xclip_found: bool, xsel_found: bool) -> (kind: Self)
        ensures
            kind == Self::resolved(*config, xclip_found, xsel_found),
    {
        if is_usable(&config.xclip_path) {
            ClipboardType::Xclip(override_path(&config.xclip_path))
        } else if is_usable(&config.xsel_path) {
            ClipboardType::Xsel(override_path(&config.xsel_path))
        } else if xclip_found {
            ClipboardType::Xclip(None)
        } else if xsel_found {
            ClipboardType::Xsel(None)
        } else {
            ClipboardType::Xclip(None)
        }
    }

    /// Select the clipboard type to use.
    ///
    /// `PATH` is searched only when the configuration names no helper, and
    /// for `xsel` only when `xclip` was not found. What the search answers
    /// is not known here, so for that case the contract leaves both helpers
    /// open; [`resolve`](Self::resolve) says which one each answer gives.
    pub fn select(config: &Config) -> (kind: Self)
        ensures
            Self::selectable(*config, kind),
    {
        let configured = is_usable(&config.xclip_path) || is_usable(&config.xsel_path);
        let xclip_found = !configured && on_path("xclip");
        let xsel_found = !configured && !xclip_found && on_path("xsel");
        Self::resolve(config, xclip_found, xsel_found)
    }

    /// The name of the helper, as errors report it.
    pub fn bin(&self) -> (name: &'static str)
        ensures
            name == self.helper(),
    {
        match self {
            ClipboardType::Xclip(_) => "xclip",
            ClipboardType::Xsel(_) => "xsel",
        }
    }

    /// The program to start.
    pub fn command_program(&self) -> (program: String)
        ensures
            program@ == self.program(),
    {
        match self {
            ClipboardType::Xclip(Some(path)) => path.clone(),
            ClipboardType::Xclip(None) => String::from_str("xclip"),
            ClipboardType::Xsel(Some(path)) => path.clone(),
            ClipboardType::Xsel(None) => String::from_str("xsel"),
        }
    }

    /// The command that prints the clipboard contents.
    pub fn get_command(&self) -> (command: Invocation)
        ensures
            command.starts(self.program(), self.get_args()),
    {
        let program = self.command_program();
        let args = match self {
            ClipboardType::Xclip(_) => vec!["-sel", "clip", "-out"],
            ClipboardType::Xsel(_) => vec!["--clipboard", "--output"],
        };
        assert(texts(args@) =~= self.get_args());
        Invocation { program, args }
    }

    /// The command that sets the clipboard to what it reads from its
    /// standard input.
    pub fn set_command(&self) -> (command: Invocation)
        ensures
            command.starts(self.program(), self.set_args()),
    {
        let program = self.command_program();
        let args = match self {
            ClipboardType::Xclip(_) => vec!["-sel", "clip"],
            ClipboardType::Xsel(_) => vec!["--clipboard"],
        };
        assert(texts(args@) =~= self.set_args());
        Invocation { program, args }
    }

    /// Get clipboard contents through the selected clipboard type.
    ///
    /// `output` is what running [`get_command`](Self::get_command) gave.
    pub fn get(&self, output: Result<Output, IoFailure>) -> (result: Result<String, Error>)
        ensures
            fetched(self.helper(), output, result),
    {
        sys_cmd_get(self.bin(), output)
    }

    /// Set clipboard contents through the selected clipboard type.
    ///
    /// `outcome` is what running [`set_command`](Self::set_command) on the
    /// contents gave.
    pub fn set(&self, outcome: FeedOutcome) -> (result: Result<(), Error>)
        ensures
            result == stored(self.helper(), outcome),
    {
        sys_cmd_set(self.bin(), outcome)
    }
}

/// Invokes `xclip`/`xsel` to access clipboard.
///
/// See module documentation for more information.
#[derive(Clone, Debug, PartialEq, Eq)]
pub struct X11BinClipboardContext(pub ClipboardType);

/// Platform specific context.
pub type ClipboardContext = X11BinClipboardContext;

/// A result of this module as a result of the library.
pub open spec fn lifted<T>(result: Result<T, Error>) -> ClipResult<T> {
    match result {
        Ok(value) => Ok(value),
        Err(error) => Err(ClipError::X11Bin(error)),
    }
}

/// The result of this module that a result of the library holds, if it
/// holds one.
pub open spec fn lowered<T>(result: ClipResult<T>) -> Option<Result<T, Error>> {
    match result {
        Ok(value) => Some(Ok(value)),
        Err(ClipError::X11Bin(error)) => Some(Err(error)),
        Err(_) => None,
    }
}

impl X11BinClipboardContext {
    /// Makes the context, with the helper that
    /// [`ClipboardType::select`] chooses. This never fails: a helper that is
    /// missing shows when the context is first used.
    pub fn new(config: &Config) -> (context: ClipResult<Self>)
        ensures
            context matches Ok(made) && ClipboardType::selectable(*config, made.0),
    {
        Ok(X11BinClipboardContext(ClipboardType::select(config)))
    }

    /// Construct combined with the native X11 clipboard.
    ///
    /// This clipboard context invokes a binary for getting the clipboard contents. This may
    /// be considered inefficient and has other drawbacks as noted in the struct documentation.
    /// The combined context reads through the native clipboard and writes
    /// through the helper. `connection` is what opening the native
    /// clipboard gave; its error is returned.
    pub fn new_with_x11(config: &Config, connection: Result<(), String>) -> (context: ClipResult<
        CombinedClipboardContext<NativeClipboardContext, Self>,
    >)
        ensures
            match connection {
                Ok(_) => context matches Ok(made) && made.0 == NativeClipboardContext
                    && ClipboardType::selectable(*config, made.1.0),
                Err(message) => context == Err::<
                    CombinedClipboardContext<NativeClipboardContext, Self>,
                    ClipError,
                >(ClipError::Native(message)),
            },
    {
        let made = match Self::new(config) {
            Ok(made) => made,
            Err(error) => {
                return Err(error);
            },
        };
        made.with_x11(connection)
    }

    /// Combine this context with the native X11 clipboard.
    ///
    /// The combined context reads through the native clipboard and writes
    /// through the helper. `connection` is what opening the native
    /// clipboard gave; its error is returned.
    pub fn with_x11(self, connection: Result<(), String>) -> (context: ClipResult<
        CombinedClipboardContext<NativeClipboardContext, Self>,
    >)
        ensures
            context == match connection {
                Ok(_) => Ok::<CombinedClipboardContext<NativeClipboardContext, Self>, ClipError>(
                    CombinedClipboardContext(NativeClipboardContext, self),
                ),
                Err(message) => Err::<
                    CombinedClipboardContext<NativeClipboardContext, Self>,
                    ClipError,
                >(ClipError::Native(message)),
            },
    {
        match NativeClipboardContext::new(connection) {
            Ok(native) => Ok(CombinedClipboardContext(native, self)),
            Err(error) => Err(error),
        }
    }

    /// The display server that this context is for.
    pub fn display_server(&self) -> (server: Option<DisplayServer>)
        ensures
            server == Some(DisplayServer::X11),
    {
        Some(DisplayServer::X11)
    }

    /// Whether what was set is gone when the program ends. It is not: the
    /// helper keeps it.
    pub fn has_bin_lifetime(&self) -> (bound: bool)
        ensures
            !bound,
    {
        false
    }
}

impl ClipboardProvider for X11BinClipboardContext {
    type Fetched = Result<Output, IoFailure>;

    type Stored = FeedOutcome;

    open spec fn get_asks(&self, request: Request) -> bool {
        request matches Request::Capture(command) && command.starts(
            self.0.program(),
            self.0.get_args(),
        )
    }

    open spec fn get_gives(&self, outcome: Self::Fetched, result: ClipResult<String>) -> bool {
        lowered(result) matches Some(inner) && fetched(self.0.helper(), outcome, inner)
    }

    open spec fn can_set(&self, contents: Seq<char>) -> bool {
        true
    }

    open spec fn set_asks(&self, contents: Seq<char>, request: Request) -> bool {
        request matches Request::Feed(command, input) && command.starts(
            self.0.program(),
            self.0.set_args(),
        ) && input@ == encode_utf8(contents)
    }

    open spec fn set_gives(&self, outcome: Self::Stored, result: ClipResult<()>) -> bool {
        result == lifted(stored(self.0.helper(), outcome))
    }

    fn get_request(&self) -> (request: Request) {
        Request::Capture(self.0.get_command())
    }

    fn get_contents(&self, outcome: Self::Fetched) -> (result: ClipResult<String>) {
        match self.0.get(outcome) {
            Ok(text) => Ok(text),
            Err(error) => Err(ClipError::X11Bin(error)),
        }
    }

    fn set_request(&self, contents: String) -> (request: Request) {
        Request::Feed(self.0.set_command(), text_bytes(contents.as_str()))
    }

    fn set_contents(&self, outcome: Self::Stored) -> (result: ClipResult<()>) {
        match self.0.set(outcome) {
            Ok(done) => Ok(done),
            Err(error) => Err(ClipError::X11Bin(error)),
        }
    }
}

impl Error {
    /// The message of the error, where it is fixed: every error but
    /// `NoUtf8`, whose message ends in the decoder's own words.
    pub open spec fn message_of(self) -> Seq<char> {
        match self {
            Error::NoBinary => "Could not find xclip or xsel binary for clipboard support"@,
            Error::BinaryIo(bin, failure) => io_message(bin@, failure),
            Error::BinaryStatus(bin, code) => status_message(bin@, code),
            Error::NoUtf8(_) => utf8_message_start(),
        }
    }

    /// Describes the error.
    pub fn message(&self) -> (message: String)
        ensures
            *self is NoUtf8 ==> self.message_of().is_prefix_of(message@),
            !(*self is NoUtf8) ==> message@ == self.message_of(),
    {
        match self {
            Error::NoBinary => String::from_str(
                "Could not find xclip or xsel binary for clipboard support",
            ),
            Error::BinaryIo(bin, failure) => io_message_text(bin, failure),
            Error::BinaryStatus(bin, code) => status_message_text(bin, *code),
            Error::NoUtf8(error) => {
                let detail = error.to_string();
                utf8_message_text(detail.as_str())
            },
        }
    }

    /// The description of the error underneath, where there is one: the
    /// system's words for an input or output error, the decoder's for
    /// output that is not UTF-8.
    pub fn source(&self) -> (cause: Option<String>)
        ensures
            cause is Some <==> (*self is BinaryIo || *self is NoUtf8),
            *self matches Error::BinaryIo(_, failure) ==> cause == Some(failure.message),
    {
        match self {
            Error::BinaryIo(_, failure) => Some(failure.message.clone()),
            Error::NoUtf8(error) => Some(error.to_string()),
            _ => None,
        }
    }
}

/// What was written comes back: when the helper that prints the clipboard
/// succeeds and prints exactly the bytes that a write of `contents` fed to
/// the helper that sets it, reading gives `contents`. This holds of every
/// text, the empty one and one with a bell character included.
pub proof fn lemma_round_trip(
    bin: &'static str,
    contents: Seq<char>,
    output: Output,
    result: Result<String, Error>,
)
    requires
        output.status.success,
        output.stdout@ == encode_utf8(contents),
        fetched(bin, Ok(output), result),
    ensures
        result matches Ok(text) && text@ == contents,
{
    encode_utf8_decode_utf8(contents);
    vstd::utf8::encode_utf8_valid_utf8(contents);
}

/// A helper that is not there is reported as such, by reading and by
/// writing alike, and whatever else the host has to say about the failed
/// start.
pub proof fn lemma_missing_helper(
    bin: &'static str,
    failure: IoFailure,
    result: Result<String, Error>,
)
    requires
        failure.not_found,
    ensures
        fetched(bin, Err(failure), result) <==> result == Err::<String, Error>(Error::NoBinary),
        stored(bin, FeedOutcome::SpawnFailed(failure)) == Err::<(), Error>(Error::NoBinary),
{
}

/// With no helper configured and none found on `PATH`, the context starts
/// `xclip` by its bare name, for reading and for writing: the lookup is left
/// to the start of the process, which then fails.
pub proof fn lemma_default_guess(config: Config)
    requires
        !usable(config.xclip_path),
        !usable(config.xsel_path),
    ensures
        ClipboardType::resolved(config, false, false) == ClipboardType::Xclip(None),
        ClipboardType::resolved(config, false, false).program() == "xclip"@,
        ClipboardType::resolved(config, false, true) == ClipboardType::Xsel(None),
        ClipboardType::resolved(config, true, false) == ClipboardType::Xclip(None),
        ClipboardType::resolved(config, true, true) == ClipboardType::Xclip(None),
{
}

/// The three ways in which reading fails are told apart: a helper that is
/// not there, a helper that ended with a failure status, and output that is
/// not UTF-8 give three different errors.
pub proof fn lemma_failures_distinct(
    bin: &'static str,
    failure: IoFailure,
    failed: Output,
    undecodable: Output,
    missing_result: Result<String, Error>,
    failed_result: Result<String, Error>,
    undecodable_result: Result<String, Error>,
)
    requires
        failure.not_found,
        !failed.status.success,
        undecodable.status.success,
        !valid_utf8(undecodable.stdout@),
        fetched(bin, Err(failure), missing_result),
        fetched(bin, Ok(failed), failed_result),
        fetched(bin, Ok(undecodable), undecodable_result),
    ensures
        missing_result matches Err(Error::NoBinary),
        failed_result matches Err(Error::BinaryStatus(_, _)),
        undecodable_result matches Err(Error::NoUtf8(_)),
{
}

} // verus!
