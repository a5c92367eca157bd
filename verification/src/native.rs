//! The platform's own clipboard.
//!
//! The host holds the connection to it. What is decided here is only how
//! its answers become results.

use vstd::prelude::*;
use crate::provider::ClipError;
use crate::provider::ClipResult;
use crate::provider::ClipboardProvider;
use crate::provider::Request;

verus! {

/// The clipboard that the platform offers, behind a connection that the host
/// keeps open.
#[derive(Copy, Clone, Debug, PartialEq, Eq, Structural)]
pub struct NativeClipboardContext;

/// The result that an answer of the native clipboard stands for: its value,
/// or its error as a [`ClipError::Native`].
pub open spec fn native_result<T>(answer: Result<T, String>) -> ClipResult<T> {
    match answer {
        Ok(value) => Ok(value),
        Err(message) => Err(ClipError::Native(message)),
    }
}

impl NativeClipboardContext {
    /// Makes the context if the connection to the native clipboard could be
    /// opened. `connection` is what opening it gave: nothing, or the
    /// clipboard's error.
    pub fn new(connection: Result<(), String>) -> (context: ClipResult<Self>)
        ensures
            context == match connection {
                Ok(_) => Ok::<Self, ClipError>(NativeClipboardContext),
                Err(message) => Err::<Self, ClipError>(ClipError::Native(message)),
            },
    {
        match connection {
            Ok(_) => Ok(NativeClipboardContext),
            Err(message) => Err(ClipError::Native(message)),
        }
    }
}

impl ClipboardProvider for NativeClipboardContext {
    type Fetched = Result<String, String>;

    type Stored = Result<(), String>;

    open spec fn get_asks(&self, request: Request) -> bool {
        request == Request::NativeGet
    }

    open spec fn get_gives(&self, outcome: Self::Fetched, result: ClipResult<String>) -> bool {
        result == native_result(outcome)
    }

    open spec fn can_set(&self, contents: Seq<char>) -> bool {
        true
    }

    open spec fn set_asks(&self, contents: Seq<char>, request: Request) -> bool {
        request matches Request::NativeSet(text) && text@ == contents
    }

    open spec fn set_gives(&self, outcome: Self::Stored, result: ClipResult<()>) -> bool {
        result == native_result(outcome)
    }

    fn get_request(&self) -> (request: Request) {
        Request::NativeGet
    }

    fn get_contents(&self, outcome: Self::Fetched) -> (result: ClipResult<String>) {
        match outcome {
            Ok(text) => Ok(text),
            Err(message) => Err(ClipError::Native(message)),
        }
    }

    fn set_request(&self, contents: String) -> (request: Request) {
        Request::NativeSet(contents)
    }

    fn set_contents(&self, outcome: Self::Stored) -> (result: ClipResult<()>) {
        match outcome {
            Ok(done) => Ok(done),
            Err(message) => Err(ClipError::Native(message)),
        }
    }
}

/// What was written comes back: when the native clipboard answers a read
/// with the text that the write handed to it, reading gives the contents
/// that were set. Nothing is changed on the way in or on the way out.
pub proof fn lemma_round_trip(
    context: NativeClipboardContext,
    contents: Seq<char>,
    request: Request,
    result: ClipResult<String>,
)
    requires
        context.set_asks(contents, request),
        request matches Request::NativeSet(text) && context.get_gives(Ok(text), result),
    ensures
        result matches Ok(text) && text@ == contents,
{
}

} // verus!
