//! Like the native X11 clipboard, but forks to set contents.
//!
//! This provider ensures the clipboard contents you set remain available even after your
//! application exists.
//!
//! When setting the clipboard, the process is forked in which the clipboard is set. The fork is
//! kept alive until the clipboard content changes, and may outlive your application.
//!
//! The duplication itself, and everything the child does with the X11
//! clipboard, is carried out by the host. This module decides what each of
//! the two processes does after the duplication, and what the child does
//! after each of its steps.
//!
//! ## Benefits
//!
//! - Keeps contents in clipboard even after your application exists.
//!
//! ## Drawbacks
//!
//! - Set contents may not be immediately available, because they are set in a fork.
//! - Errors when setting the clipboard contents are not catched: the fork
//!   stops with a message, and setting reports no error.
//! - The fork might cause weird behaviour for some applications.

use vstd::prelude::*;
use crate::display::DisplayServer;
use crate::native::native_result;
use crate::native::NativeClipboardContext;
use crate::provider::ClipError;
use crate::provider::ClipResult;
use crate::provider::ClipboardProvider;
use crate::provider::Request;

verus! {

/// Represents X11 fork related error.
#[derive(Copy, Clone, Debug, PartialEq, Eq, Structural)]
#[non_exhaustive]
pub enum Error {
    /// Failed to fork process, to set clipboard in.
    Fork,
}

impl Error {
    /// Describes the error.
    pub fn message(&self) -> (message: String)
        ensures
            message@ == "Failed to fork process to set clipboard"@,
    {
        String::from_str("Failed to fork process to set clipboard")
    }

    /// The error underneath. There is none.
    pub fn source(&self) -> (cause: Option<String>)
        ensures
            cause is None,
    {
        None
    }
}

/// What the calling process learns of a duplication: it is all that the
/// result of setting the clipboard depends on.
#[derive(Copy, Clone, Debug, PartialEq, Eq, Structural)]
pub enum Forked {
    /// The process could not be duplicated.
    Failed,
    /// The process was duplicated, and this is the parent.
    Parent,
}

/// What a process does once the duplication call has returned in it.
#[derive(Copy, Clone, Debug, PartialEq, Eq, Structural)]
pub enum ForkStep {
    /// This is the calling process: go on with
    /// [`set_contents`](ClipboardProvider::set_contents).
    Report(Forked),
    /// This is the child: keep the clipboard, starting with
    /// [`child_start`], and never return to the caller.
    Child,
}

/// One step of what the child does.
#[derive(Copy, Clone, Debug, PartialEq, Eq, Structural)]
pub enum ChildStage {
    /// Open a fresh connection to the X11 clipboard.
    Connect,
    /// Store the contents under the clipboard selection.
    Store,
    /// Block until the clipboard's contents change.
    Wait,
}

/// What the child does next.
#[derive(Copy, Clone, Debug, PartialEq, Eq)]
pub enum ChildAction {
    /// Carry out the step, then ask [`child_next`].
    Perform(ChildStage),
    /// The clipboard has been taken over: end the process with success.
    Exit,
    /// A step failed: say so on the diagnostic channel and end the process
    /// with a failure.
    Abort(&'static str),
}

/// What the value returned by the duplication call means: `-1` is a
/// failure, `0` is seen by the child, anything else by the parent.
pub open spec fn fork_step(pid: i32) -> ForkStep {
    if pid == -1 {
        ForkStep::Report(Forked::Failed)
    } else if pid == 0 {
        ForkStep::Child
    } else {
        ForkStep::Report(Forked::Parent)
    }
}

/// The result of setting the clipboard, for the process that asked for it.
pub open spec fn forked_result(forked: Forked) -> ClipResult<()> {
    match forked {
        Forked::Failed => Err(ClipError::X11Fork(Error::Fork)),
        Forked::Parent => Ok(()),
    }
}

/// What the child says when a step has failed.
pub open spec fn failure_note(stage: ChildStage) -> &'static str {
    match stage {
        ChildStage::Connect => "failed to obtain X11 clipboard context",
        ChildStage::Store => "failed to set clipboard contents through forked process",
        ChildStage::Wait => "failed to wait on new clipboard value in forked process",
    }
}

/// What follows a step of the child: after a failure the child stops; after
/// connecting it stores, after storing it waits, after waiting it exits.
pub open spec fn child_follow(done: ChildStage, succeeded: bool) -> ChildAction {
    if !succeeded {
        ChildAction::Abort(failure_note(done))
    } else {
        match done {
            ChildStage::Connect => ChildAction::Perform(ChildStage::Store),
            ChildStage::Store => ChildAction::Perform(ChildStage::Wait),
            ChildStage::Wait => ChildAction::Exit,
        }
    }
}

/// What a process does once the duplication call has returned `pid` in it.
pub fn after_fork(pid: i32) -> (step: ForkStep)
    ensures
        step == fork_step(pid),
{
    if pid == -1 {
        ForkStep::Report(Forked::Failed)
    } else if pid == 0 {
        ForkStep::Child
    } else {
        ForkStep::Report(Forked::Parent)
    }
}

/// The first thing the child does: it opens its own connection to the
/// clipboard.
pub fn child_start() -> (action: ChildAction)
    ensures
        action == ChildAction::Perform(ChildStage::Connect),
{
    ChildAction::Perform(ChildStage::Connect)
}

/// What the child does after the step `done`, which succeeded or not.
pub fn child_next(done: ChildStage, succeeded: bool) -> (action: ChildAction)
    ensures
        action == child_follow(done, succeeded),
{
    if !succeeded {
        match done {
            ChildStage::Connect => ChildAction::Abort("failed to obtain X11 clipboard context"),
            ChildStage::Store => ChildAction::Abort(
                "failed to set clipboard contents through forked process",
            ),
            ChildStage::Wait => ChildAction::Abort(
                "failed to wait on new clipboard value in forked process",
            ),
        }
    } else {
        match done {
            ChildStage::Connect => ChildAction::Perform(ChildStage::Store),
            ChildStage::Store => ChildAction::Perform(ChildStage::Wait),
            ChildStage::Wait => ChildAction::Exit,
        }
    }
}

/// Like the native X11 clipboard, but forks to set contents.
///
/// Setting forks the process; getting goes to the native clipboard.
///
/// See module documentation for more information.
#[derive(Copy, Clone, Debug, PartialEq, Eq, Structural)]
pub struct X11ForkClipboardContext(pub NativeClipboardContext);

/// Platform specific context.
pub type ClipboardContext = X11ForkClipboardContext;

impl X11ForkClipboardContext {
    /// Makes the context if the connection to the native clipboard, which
    /// reading goes through, could be opened. `connection` is what opening it
    /// gave: nothing, or the clipboard's error.
    pub fn new(connection: Result<(), String>) -> (context: ClipResult<Self>)
        ensures
            context == match connection {
                Ok(_) => Ok::<Self, ClipError>(X11ForkClipboardContext(NativeClipboardContext)),
                Err(message) => Err::<Self, ClipError>(ClipError::Native(message)),
            },
    {
        match NativeClipboardContext::new(connection) {
            Ok(native) => Ok(X11ForkClipboardContext(native)),
            Err(error) => Err(error),
        }
    }

    /// The display server that this context is for.
    pub fn display_server(&self) -> (server: Option<DisplayServer>)
        ensures
            server == Some(DisplayServer::X11),
    {
        Some(DisplayServer::X11)
    }

    /// Whether what was set is gone when the program ends. It is not: the
    /// fork keeps it.
    pub fn has_bin_lifetime(&self) -> (bound: bool)
        ensures
            !bound,
    {
        false
    }
}

impl ClipboardProvider for X11ForkClipboardContext {
    type Fetched = Result<String, String>;

    type Stored = Forked;

    open spec fn get_asks(&self, request: Request) -> bool {
        request == Request::NativeGet
    }

    open spec fn get_gives(&self, outcome: Self::Fetched, result: ClipResult<String>) -> bool {
        result == native_result(outcome)
    }

    open spec fn can_set(&self, contents: Seq<char>) -> bool {
        true
    }

    open spec fn set_asks(&self, contents: Seq<char>, request: Request) -> bool {
        request matches Request::Fork(text) && text@ == contents
    }

    open spec fn set_gives(&self, outcome: Self::Stored, result: ClipResult<()>) -> bool {
        result == forked_result(outcome)
    }

    fn get_request(&self) -> (request: Request) {
        self.0.get_request()
    }

    fn get_contents(&self, outcome: Self::Fetched) -> (result: ClipResult<String>) {
        self.0.get_contents(outcome)
    }

    fn set_request(&self, contents: String) -> (request: Request) {
        Request::Fork(contents)
    }

    fn set_contents(&self, outcome: Self::Stored) -> (result: ClipResult<()>) {
        match outcome {
            Forked::Failed => Err(ClipError::X11Fork(Error::Fork)),
            Forked::Parent => Ok(()),
        }
    }
}

/// The parent is done as soon as the duplication call has returned: for
/// every value but `-1` and `0` the process reports at once, and what it
/// reports is success. Nothing that the child does later is part of it.
pub proof fn lemma_parent_returns_at_once(pid: i32)
    requires
        pid != -1,
        pid != 0,
    ensures
        fork_step(pid) == ForkStep::Report(Forked::Parent),
        forked_result(Forked::Parent) == Ok::<(), ClipError>(()),
{
}

/// The child's run is at most three steps long and ends the process: with
/// success when connecting, storing and waiting all succeeded, and at the
/// first failure otherwise.
pub proof fn lemma_child_ends(connected: bool, stored: bool, waited: bool)
    ensures
        !connected ==> child_follow(ChildStage::Connect, connected) is Abort,
        connected ==> child_follow(ChildStage::Connect, connected) == ChildAction::Perform(
            ChildStage::Store,
        ),
        !stored ==> child_follow(ChildStage::Store, stored) is Abort,
        stored ==> child_follow(ChildStage::Store, stored) == ChildAction::Perform(
            ChildStage::Wait,
        ),
        !waited ==> child_follow(ChildStage::Wait, waited) is Abort,
        waited ==> child_follow(ChildStage::Wait, waited) == ChildAction::Exit,
{
}

} // verus!
