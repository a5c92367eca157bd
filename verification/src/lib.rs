//! Clipboard backend selection for X11, Wayland, macOS, Windows and bare
//! terminals, written without any input or output of its own.
//!
//! Every backend is described by what it asks the host to perform (a
//! [`provider::Request`]) and by how it reads what came of it. The host runs
//! helpers, duplicates the process or talks to the native clipboard; the
//! decisions are made, and proved, here.
//!
//! - [`x11_fork`]: forks the process and sets the clipboard on X11, keeps
//!   contents after exit
//! - [`x11_bin`]: invokes `xclip`/`xsel` to set the clipboard on X11, keeps
//!   contents after exit
//! - [`wayland_bin`]: invokes `wl-copy`/`wl-paste` to set the clipboard on
//!   Wayland
//! - [`osc52`]: uses the OSC 52 escape sequence to set clipboard contents
//! - [`CombinedClipboardContext`]: combines two providers, one for getting
//!   and one for setting the clipboard
//!
//! [`try_context`] picks the backend for the session the process runs in.

use vstd::prelude::*;

pub mod combined;
pub mod config;
pub mod display;
pub mod native;
pub mod osc52;
pub mod prelude;
pub mod process;
pub mod provider;
pub mod text;
pub mod wayland_bin;
pub mod x11_bin;
pub mod x11_fork;

pub use combined::CombinedClipboardContext;
pub use config::Config;
pub use display::ClipboardContext;
pub use display::Environment;
pub use provider::ClipError;
pub use provider::ClipResult;

verus! {

/// Try to get clipboard context.
///
/// This attempts to obtain a clipboard context suitable for the environment
/// in `env`: the display server is detected, and the backends for it are
/// tried in their order. If no compatible clipboard context is available,
/// or if initializing a context failed, `None` is returned.
///
/// `connection` is what opening the native clipboard gave. It matters on
/// X11, macOS and Windows; [`display::DisplayServer::wants_native`] tells
/// whether to try at all.
pub fn try_context(env: &Environment, connection: Result<(), String>, config: &Config) -> (context:
    Option<ClipboardContext>)
    ensures
        match env.detected().selected(connection is Ok) {
            Some(backend) => context matches Some(made) && made.backend() == backend
                && made.made_under(*config),
            None => context is None,
        },
{
    display::DisplayServer::select(env).try_context(connection, config)
}

} // verus!
