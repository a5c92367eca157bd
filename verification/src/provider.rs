//! The capability that every backend offers: getting and setting the
//! clipboard's text, in two halves each.
//!
//! A backend never performs input or output. It first says what has to be
//! done, as a [`Request`]; the host does it and reports what came of it; the
//! backend then turns the report into the result of the operation.

use vstd::prelude::*;
use crate::process::Invocation;

verus! {

/// What a backend asks the host to perform.
#[derive(Clone, Debug, PartialEq, Eq)]
pub enum Request {
    /// Read the text from the native clipboard.
    NativeGet,
    /// Hand the text to the native clipboard.
    NativeSet(String),
    /// Duplicate the process. The child keeps the text on the clipboard
    /// until another application takes the clipboard over; the parent goes
    /// on at once.
    Fork(String),
    /// Run the helper and capture its standard output.
    Capture(Invocation),
    /// Run the helper with its standard output discarded, write the bytes to
    /// its standard input, close it, and wait for the helper to end.
    Feed(Invocation, Vec<u8>),
    /// Write the text to the process's standard output.
    Emit(String),
    /// Nothing has to be done.
    Nothing,
}

/// An error of any backend.
#[derive(Debug, PartialEq, Eq)]
pub enum ClipError {
    /// The native clipboard reported an error; this is its description.
    Native(String),
    /// An error of the X11 helper programs.
    X11Bin(crate::x11_bin::Error),
    /// An error of the Wayland helper programs.
    WaylandBin(crate::wayland_bin::Error),
    /// An error of the forking X11 backend.
    X11Fork(crate::x11_fork::Error),
    /// An error of the escape sequence backend.
    Osc52(crate::osc52::Error),
}

impl ClipError {
    /// Whether the message of the error is fixed by the error alone. It is
    /// for every error but those for output that is not UTF-8, whose
    /// message ends in the decoder's own words.
    pub open spec fn message_fixed(self) -> bool {
        match self {
            ClipError::X11Bin(error) => !(error is NoUtf8),
            ClipError::WaylandBin(error) => !(error is NoUtf8),
            _ => true,
        }
    }

    /// The message of the error, or what it starts with where it is not
    /// fixed.
    pub open spec fn message_of(self) -> Seq<char> {
        match self {
            ClipError::Native(message) => message@,
            ClipError::X11Bin(error) => error.message_of(),
            ClipError::WaylandBin(error) => error.message_of(),
            ClipError::X11Fork(_) => "Failed to fork process to set clipboard"@,
            ClipError::Osc52(_) => "Getting clipboard contents is not supported through this context"@,
        }
    }

    /// Describes the error, in the words of the backend it comes from.
    pub fn message(&self) -> (message: String)
        ensures
            self.message_fixed() ==> message@ == self.message_of(),
            !self.message_fixed() ==> self.message_of().is_prefix_of(message@),
    {
        match self {
            ClipError::Native(message) => message.clone(),
            ClipError::X11Bin(error) => error.message(),
            ClipError::WaylandBin(error) => error.message(),
            ClipError::X11Fork(error) => error.message(),
            ClipError::Osc52(error) => error.message(),
        }
    }
}

/// Result of a clipboard operation.
pub type ClipResult<T> = Result<T, ClipError>;

/// A clipboard backend.
///
/// Reading goes in two steps: [`get_request`](Self::get_request) says what
/// the host has to do, and [`get_contents`](Self::get_contents) takes what
/// that gave and returns the text. Writing goes the same way through
/// [`set_request`](Self::set_request) and
/// [`set_contents`](Self::set_contents).
pub trait ClipboardProvider {
    /// What the host reports after it performed the request of a read.
    type Fetched;

    /// What the host reports after it performed the request of a write.
    type Stored;

    /// Whether `request` is what a read asks for.
    spec fn get_asks(&self, request: Request) -> bool;

    /// Whether `result` is the result of a read for which the host reports
    /// `outcome`.
    spec fn get_gives(&self, outcome: Self::Fetched, result: ClipResult<String>) -> bool;

    /// Whether the backend can be asked to set `contents`.
    spec fn can_set(&self, contents: Seq<char>) -> bool;

    /// Whether `request` is what a write of `contents` asks for.
    spec fn set_asks(&self, contents: Seq<char>, request: Request) -> bool;

    /// Whether `result` is the result of a write for which the host reports
    /// `outcome`.
    spec fn set_gives(&self, outcome: Self::Stored, result: ClipResult<()>) -> bool;

    /// What the host has to do to read the clipboard.
    fn get_request(&self) -> (request: Request)
        ensures
            self.get_asks(request),
    ;

    /// The text that was read, or why there is none.
    fn get_contents(&self, outcome: Self::Fetched) -> (result: ClipResult<String>)
        ensures
            self.get_gives(outcome, result),
    ;

    /// What the host has to do to set the clipboard to `contents`.
    fn set_request(&self, contents: String) -> (request: Request)
        requires
            self.can_set(contents@),
        ensures
            self.set_asks(contents@, request),
    ;

    /// Whether the clipboard was set, and if not, why.
    fn set_contents(&self, outcome: Self::Stored) -> (result: ClipResult<()>)
        ensures
            self.set_gives(outcome, result),
    ;
}

} // verus!
