//! Display server detection and the choice of a backend for it.
//!
//! Detection classifies the session the process runs in from a snapshot of
//! the environment. It is best effort: it reads three variables and the
//! platform the program was built for, nothing else.
//!
//! Selection tries the backends of the detected display server in a fixed
//! order and settles on the first that can be made. It never falls back to
//! the backends of another display server.

use vstd::prelude::*;
use crate::config::usable_part;
use crate::config::Config;
use crate::native::NativeClipboardContext;
use crate::osc52::Osc52ClipboardContext;
use crate::provider::ClipError;
use crate::provider::ClipResult;
use crate::text::same_text;
use crate::wayland_bin::WaylandBinClipboardContext;
use crate::x11_bin::X11BinClipboardContext;
use crate::x11_fork::X11ForkClipboardContext;

verus! {

/// The platform the program was built for.
#[derive(Copy, Clone, PartialEq, Eq, Hash, Debug, Structural)]
pub enum Platform {
    /// A Unix-like system other than macOS.
    Unix,
    /// macOS.
    MacOs,
    /// Windows.
    Windows,
}

/// A display server type.
#[derive(Copy, Clone, PartialEq, Eq, Hash, Debug, Structural)]
pub enum DisplayServer {
    /// The X11 display server.
    X11,
    /// The Wayland display server.
    Wayland,
    /// The default macOS display server.
    MacOs,
    /// The default Windows display server.
    Windows,
    /// For TTYs.
    /// Not an actual display server, but something with a clipboard context to fall back to.
    Tty,
}

/// What the session type variable says about the session.
#[derive(Copy, Clone, PartialEq, Eq, Hash, Debug, Structural)]
pub enum SessionClaim {
    /// The variable is `x11`.
    X11,
    /// The variable is `wayland`.
    Wayland,
    /// The variable is `tty`.
    Tty,
    /// The variable is unset, or holds none of the values above.
    Silent,
}

/// A snapshot of what detection reads.
///
/// A variable that is not set is `None`. The snapshot is taken by the caller;
/// detection itself never touches the process environment, so two detections
/// on one snapshot agree.
#[derive(Clone, Debug)]
pub struct Environment {
    /// The platform the program was built for.
    pub platform: Platform,
    /// `XDG_SESSION_TYPE`.
    pub session_type: Option<String>,
    /// `WAYLAND_DISPLAY`.
    pub wayland_display: Option<String>,
    /// `DISPLAY`.
    pub display: Option<String>,
}

/// A variable is present when it is set and not empty.
pub open spec fn present(value: Option<String>) -> bool {
    value matches Some(text) && text@.len() > 0
}

/// The claim that a session type value makes.
pub open spec fn claim_of(session_type: Option<String>) -> SessionClaim {
    match session_type {
        Some(text) => if text@ == "x11"@ {
            SessionClaim::X11
        } else if text@ == "wayland"@ {
            SessionClaim::Wayland
        } else if text@ == "tty"@ {
            SessionClaim::Tty
        } else {
            SessionClaim::Silent
        },
        None => SessionClaim::Silent,
    }
}

impl Platform {
    /// Whether the platform is Unix-like. macOS is.
    pub open spec fn unix_like(self) -> bool {
        self != Platform::Windows
    }

    /// Whether the platform is Unix-like. macOS is.
    pub fn is_unix(self) -> (unix: bool)
        ensures
            unix == self.unix_like(),
    {
        match self {
            Platform::Unix => true,
            Platform::MacOs => true,
            Platform::Windows => false,
        }
    }
}

impl Environment {
    /// Whether this is an X11 session: the session type says so, or it is
    /// silent and `DISPLAY` is present. Never on Windows.
    pub open spec fn x11(self) -> bool {
        self.platform.unix_like() && match claim_of(self.session_type) {
            SessionClaim::X11 => true,
            SessionClaim::Wayland => false,
            SessionClaim::Tty => false,
            SessionClaim::Silent => present(self.display),
        }
    }

    /// Whether this is a Wayland session: the session type says so, or it is
    /// silent and `WAYLAND_DISPLAY` is present. Never on Windows.
    pub open spec fn wayland(self) -> bool {
        self.platform.unix_like() && match claim_of(self.session_type) {
            SessionClaim::Wayland => true,
            SessionClaim::X11 => false,
            SessionClaim::Tty => false,
            SessionClaim::Silent => present(self.wayland_display),
        }
    }

    /// Whether the session type names a TTY.
    pub open spec fn tty(self) -> bool {
        claim_of(self.session_type) == SessionClaim::Tty
    }

    /// The display server that detection settles on.
    ///
    /// The platform decides on macOS and Windows. Elsewhere a session type
    /// of `wayland`, `x11` or `tty` decides; when it is silent, a present
    /// `WAYLAND_DISPLAY` means Wayland, and everything else X11.
    pub open spec fn detected(self) -> DisplayServer {
        match self.platform {
            Platform::MacOs => DisplayServer::MacOs,
            Platform::Windows => DisplayServer::Windows,
            Platform::Unix => match claim_of(self.session_type) {
                SessionClaim::Wayland => DisplayServer::Wayland,
                SessionClaim::X11 => DisplayServer::X11,
                SessionClaim::Tty => DisplayServer::Tty,
                SessionClaim::Silent => if present(self.wayland_display) {
                    DisplayServer::Wayland
                } else {
                    DisplayServer::X11
                },
            },
        }
    }

    /// The claim that the session type makes.
    pub fn claim(&self) -> (claim: SessionClaim)
        ensures
            claim == claim_of(self.session_type),
    {
        match &self.session_type {
            Some(text) => {
                if same_text(text.as_str(), "x11") {
                    SessionClaim::X11
                } else if same_text(text.as_str(), "wayland") {
                    SessionClaim::Wayland
                } else if same_text(text.as_str(), "tty") {
                    SessionClaim::Tty
                } else {
                    SessionClaim::Silent
                }
            },
            None => SessionClaim::Silent,
        }
    }
}

/// Check if an environment variable is set and is not empty.
pub fn has_non_empty_env(value: &Option<String>) -> (found: bool)
    ensures
        found == present(*value),
{
    match value {
        Some(text) => !text.as_str().is_empty(),
        None => false,
    }
}

/// Check whether we're in an X11 environment.
///
/// This is a best effort, may be unreliable.
/// Goes by the session type and, where that is silent, by `DISPLAY`.
/// Always false on Windows.
pub fn is_x11(env: &Environment) -> (x11: bool)
    ensures
        x11 == env.x11(),
{
    if !env.platform.is_unix() {
        return false;
    }
    match env.claim() {
        SessionClaim::X11 => true,
        SessionClaim::Wayland => false,
        SessionClaim::Tty => false,
        SessionClaim::Silent => has_non_empty_env(&env.display),
    }
}

/// Check whether we're in a Wayland environment.
///
/// This is a best effort, may be unreliable.
/// Goes by the session type and, where that is silent, by `WAYLAND_DISPLAY`.
/// Always false on Windows.
pub fn is_wayland(env: &Environment) -> (wayland: bool)
    ensures
        wayland == env.wayland(),
{
    if !env.platform.is_unix() {
        return false;
    }
    match env.claim() {
        SessionClaim::Wayland => true,
        SessionClaim::X11 => false,
        SessionClaim::Tty => false,
        SessionClaim::Silent => has_non_empty_env(&env.wayland_display),
    }
}

/// Check whether we're in a TTY environment.
///
/// This is a basic check and only returns true if the session type is set to `tty` explicitly.
pub fn is_tty(env: &Environment) -> (tty: bool)
    ensures
        tty == env.tty(),
{
    match env.claim() {
        SessionClaim::Tty => true,
        _ => false,
    }
}

impl DisplayServer {
    /// Select current used display server.
    ///
    /// This uses a best effort approach and does not reliably select the
    /// current display server. Defaults to `X11` on Unix if the display
    /// server could not be determined.
    pub fn select(env: &Environment) -> (server: DisplayServer)
        ensures
            server == env.detected(),
    {
        match env.platform {
            Platform::MacOs => DisplayServer::MacOs,
            Platform::Windows => DisplayServer::Windows,
            Platform::Unix => {
                if is_wayland(env) {
                    DisplayServer::Wayland
                } else if is_x11(env) {
                    DisplayServer::X11
                } else if is_tty(env) {
                    DisplayServer::Tty
                } else {
                    DisplayServer::X11
                }
            },
        }
    }
}

/// The backends that a context can be made of.
#[derive(Copy, Clone, PartialEq, Eq, Hash, Debug, Structural)]
pub enum Backend {
    /// The X11 clipboard, set from a forked process.
    X11Fork,
    /// The X11 clipboard through `xclip` or `xsel`.
    X11Bin,
    /// The Wayland clipboard through `wl-copy` and `wl-paste`.
    WaylandBin,
    /// The platform's own clipboard.
    Native,
    /// The terminal's clipboard, through an escape sequence.
    Osc52,
}

/// A context of any backend that selection can settle on.
#[derive(Clone, Debug, PartialEq, Eq)]
pub enum ClipboardContext {
    /// The X11 clipboard, set from a forked process.
    X11Fork(X11ForkClipboardContext),
    /// The X11 clipboard through `xclip` or `xsel`.
    X11Bin(X11BinClipboardContext),
    /// The Wayland clipboard through `wl-copy` and `wl-paste`.
    WaylandBin(WaylandBinClipboardContext),
    /// The platform's own clipboard.
    Native(NativeClipboardContext),
    /// The terminal's clipboard, through an escape sequence.
    Osc52(Osc52ClipboardContext),
}

impl Backend {
    /// Whether the backend reads or writes through a connection to the
    /// native clipboard, so that it cannot be made without one.
    pub open spec fn uses_native(self) -> bool {
        self == Backend::X11Fork || self == Backend::Native
    }

    /// Whether a context of this backend can be made, given whether the
    /// native clipboard could be connected to.
    pub open spec fn constructible(self, connected: bool) -> bool {
        self.uses_native() ==> connected
    }

    /// Whether what was set through this backend stays on the clipboard
    /// after the program has ended.
    pub open spec fn persistent(self) -> bool {
        self != Backend::Native
    }

    /// The display server that the backend serves. The native clipboard
    /// serves macOS and Windows alike, so it has none of its own.
    pub open spec fn serves(self, server: DisplayServer) -> bool {
        match self {
            Backend::X11Fork => server == DisplayServer::X11,
            Backend::X11Bin => server == DisplayServer::X11,
            Backend::WaylandBin => server == DisplayServer::Wayland,
            Backend::Native => server == DisplayServer::MacOs || server == DisplayServer::Windows,
            Backend::Osc52 => server == DisplayServer::Tty,
        }
    }
}

/// The first backend of a list that can be made, if there is one.
pub open spec fn first_constructible(candidates: Seq<Backend>, connected: bool) -> Option<Backend>
    decreases candidates.len(),
{
    if candidates.len() == 0 {
        None
    } else if candidates[0].constructible(connected) {
        Some(candidates[0])
    } else {
        first_constructible(candidates.drop_first(), connected)
    }
}

impl ClipboardContext {
    /// The backend of the context.
    pub open spec fn backend(self) -> Backend {
        match self {
            ClipboardContext::X11Fork(_) => Backend::X11Fork,
            ClipboardContext::X11Bin(_) => Backend::X11Bin,
            ClipboardContext::WaylandBin(_) => Backend::WaylandBin,
            ClipboardContext::Native(_) => Backend::Native,
            ClipboardContext::Osc52(_) => Backend::Osc52,
        }
    }

    /// Whether the context is one that its backend makes under `config`.
    /// Only the helper backends depend on the configuration.
    pub open spec fn made_under(self, config: Config) -> bool {
        match self {
            ClipboardContext::X11Bin(made) => crate::x11_bin::ClipboardType::selectable(
                config,
                made.0,
            ),
            ClipboardContext::WaylandBin(made) => made.0
                == crate::wayland_bin::ClipboardType::WlClipboard(
                usable_part(config.wl_copy_path),
                usable_part(config.wl_paste_path),
            ),
            _ => true,
        }
    }

    /// The backend of the context.
    pub fn kind(&self) -> (backend: Backend)
        ensures
            backend == self.backend(),
    {
        match self {
            ClipboardContext::X11Fork(_) => Backend::X11Fork,
            ClipboardContext::X11Bin(_) => Backend::X11Bin,
            ClipboardContext::WaylandBin(_) => Backend::WaylandBin,
            ClipboardContext::Native(_) => Backend::Native,
            ClipboardContext::Osc52(_) => Backend::Osc52,
        }
    }

    /// Makes a context of the given backend.
    ///
    /// `connection` is what opening the native clipboard gave. The backends
    /// that use the native clipboard cannot be made without it and fail with
    /// its error; the others are always made.
    pub fn build(backend: Backend, connection: &Result<(), String>, config: &Config) -> (context:
        ClipResult<Self>)
        ensures
            context is Ok <==> backend.constructible(*connection is Ok),
            context matches Ok(made) ==> made.backend() == backend && made.made_under(*config),
            context matches Err(error) ==> *connection matches Err(message) && error
                == ClipError::Native(message),
    {
        match backend {
            Backend::X11Fork => {
                match X11ForkClipboardContext::new(copy_of(connection)) {
                    Ok(made) => Ok(ClipboardContext::X11Fork(made)),
                    Err(error) => Err(error),
                }
            },
            Backend::X11Bin => {
                match X11BinClipboardContext::new(config) {
                    Ok(made) => Ok(ClipboardContext::X11Bin(made)),
                    Err(error) => Err(error),
                }
            },
            Backend::WaylandBin => {
                match WaylandBinClipboardContext::new(config) {
                    Ok(made) => Ok(ClipboardContext::WaylandBin(made)),
                    Err(error) => Err(error),
                }
            },
            Backend::Native => {
                match NativeClipboardContext::new(copy_of(connection)) {
                    Ok(made) => Ok(ClipboardContext::Native(made)),
                    Err(error) => Err(error),
                }
            },
            Backend::Osc52 => {
                match Osc52ClipboardContext::new() {
                    Ok(made) => Ok(ClipboardContext::Osc52(made)),
                    Err(error) => Err(error),
                }
            },
        }
    }
}

fn copy_of(connection: &Result<(), String>) -> (copy: Result<(), String>)
    ensures
        copy == *connection,
{
    match connection {
        Ok(done) => Ok(*done),
        Err(message) => Err(message.clone()),
    }
}

impl DisplayServer {
    /// The backends that are tried for this display server, in the order in
    /// which they are tried.
    ///
    /// On X11 the fork goes before the helper programs. No list holds a
    /// backend of another display server.
    pub open spec fn candidates(self) -> Seq<Backend> {
        match self {
            DisplayServer::X11 => seq![Backend::X11Fork, Backend::X11Bin],
            DisplayServer::Wayland => seq![Backend::WaylandBin],
            DisplayServer::MacOs => seq![Backend::Native],
            DisplayServer::Windows => seq![Backend::Native],
            DisplayServer::Tty => seq![Backend::Osc52],
        }
    }

    /// The backend that selection settles on, given whether the native
    /// clipboard could be connected to: on X11 the fork if it could and the
    /// helper programs if not; on Wayland and on a TTY always their one
    /// backend; on macOS and Windows the native clipboard or nothing.
    ///
    /// This is the first of the [`candidates`](Self::candidates) that can be
    /// made, as [`lemma_selection`] shows.
    pub open spec fn selected(self, connected: bool) -> Option<Backend> {
        match self {
            DisplayServer::X11 => if connected {
                Some(Backend::X11Fork)
            } else {
                Some(Backend::X11Bin)
            },
            DisplayServer::Wayland => Some(Backend::WaylandBin),
            DisplayServer::MacOs => if connected {
                Some(Backend::Native)
            } else {
                None
            },
            DisplayServer::Windows => if connected {
                Some(Backend::Native)
            } else {
                None
            },
            DisplayServer::Tty => Some(Backend::Osc52),
        }
    }

    /// Whether the first backend that is tried needs a connection to the
    /// native clipboard.
    pub open spec fn needs_native(self) -> bool {
        self.candidates()[0].uses_native()
    }

    /// The backends that are tried for this display server, in the order in
    /// which they are tried.
    pub fn backends(self) -> (list: Vec<Backend>)
        ensures
            list@ == self.candidates(),
    {
        let list = match self {
            DisplayServer::X11 => vec![Backend::X11Fork, Backend::X11Bin],
            DisplayServer::Wayland => vec![Backend::WaylandBin],
            DisplayServer::MacOs => vec![Backend::Native],
            DisplayServer::Windows => vec![Backend::Native],
            DisplayServer::Tty => vec![Backend::Osc52],
        };
        assert(list@ =~= self.candidates());
        list
    }

    /// Whether selection for this display server starts with the native
    /// clipboard, so that the caller has to try to connect to it before it
    /// calls [`try_context`](Self::try_context).
    pub fn wants_native(self) -> (wanted: bool)
        ensures
            wanted == self.needs_native(),
    {
        match self {
            DisplayServer::X11 => true,
            DisplayServer::Wayland => false,
            DisplayServer::MacOs => true,
            DisplayServer::Windows => true,
            DisplayServer::Tty => false,
        }
    }

    /// Build clipboard context for display server.
    ///
    /// The backends of this display server are tried in their order, and
    /// the first that can be made is the result. A backend that cannot be
    /// made is passed over without a word. If none can be made, `None` is
    /// returned: no backend of another display server stands in.
    ///
    /// `connection` is what opening the native clipboard gave; it is read
    /// only where the backend that is tried uses the native clipboard.
    pub fn try_context(self, connection: Result<(), String>, config: &Config) -> (context: Option<
        ClipboardContext,
    >)
        ensures
            match self.selected(connection is Ok) {
                Some(backend) => context matches Some(made) && made.backend() == backend
                    && made.made_under(*config),
                None => context is None,
            },
    {
        proof {
            lemma_selection(self, connection is Ok);
        }
        let candidates = self.backends();
        let mut i: usize = 0;
        assert(candidates@.skip(0) =~= candidates@);
        while i < candidates.len()
            invariant
                i <= candidates.len(),
                self.selected(connection is Ok) == first_constructible(
                    candidates@.skip(i as int),
                    connection is Ok,
                ),
            decreases candidates.len() - i,
        {
            assert(candidates@.skip(i as int).drop_first() =~= candidates@.skip(i + 1));
            match ClipboardContext::build(candidates[i], &connection, config) {
                Ok(made) => {
                    return Some(made);
                },
                Err(_) => {},
            }
            i = i + 1;
        }
        None
    }
}

/// Selection takes the first backend that can be made: what
/// [`DisplayServer::selected`] names is the first of the candidates that is
/// constructible, and nothing where none is.
pub proof fn lemma_selection(server: DisplayServer, connected: bool)
    ensures
        server.selected(connected) == first_constructible(server.candidates(), connected),
{
    let candidates = server.candidates();
    assert(DisplayServer::X11.candidates().drop_first() =~= seq![Backend::X11Bin]);
    assert(candidates.drop_first().len() == candidates.len() - 1);
    reveal_with_fuel(first_constructible, 3);
}

/// Where both the fork and the helper programs can be had on X11, the fork
/// is chosen: it stands first among the candidates, and it is selected
/// whenever the native clipboard can be connected to.
pub proof fn lemma_fork_before_helpers()
    ensures
        DisplayServer::X11.candidates()[0] == Backend::X11Fork,
        DisplayServer::X11.candidates()[1] == Backend::X11Bin,
        Backend::X11Fork.constructible(true) && Backend::X11Bin.constructible(true),
        DisplayServer::X11.selected(true) == Some(Backend::X11Fork),
        first_constructible(DisplayServer::X11.candidates(), true) == Some(Backend::X11Fork),
{
    lemma_selection(DisplayServer::X11, true);
}

/// Selection never crosses over to another display server: every backend
/// that is tried for a display server serves that display server.
pub proof fn lemma_no_cross_fallback(server: DisplayServer, i: int)
    requires
        0 <= i < server.candidates().len(),
    ensures
        server.candidates()[i].serves(server),
{
}

/// Within a display server, a backend that keeps the clipboard after the
/// program has ended is tried before one that does not.
pub proof fn lemma_persistent_first(server: DisplayServer, i: int, j: int)
    requires
        0 <= i < j < server.candidates().len(),
        server.candidates()[j].persistent(),
    ensures
        server.candidates()[i].persistent(),
{
}

/// An explicit session type wins over the display variables: on Unix, a
/// session type of `x11` gives X11 whatever `WAYLAND_DISPLAY` and `DISPLAY`
/// hold, `wayland` gives Wayland, and `tty` gives the TTY.
pub proof fn lemma_explicit_claim_wins(env: Environment)
    requires
        env.platform == Platform::Unix,
        claim_of(env.session_type) != SessionClaim::Silent,
    ensures
        claim_of(env.session_type) == SessionClaim::X11 ==> env.detected() == DisplayServer::X11,
        claim_of(env.session_type) == SessionClaim::Wayland ==> env.detected()
            == DisplayServer::Wayland,
        claim_of(env.session_type) == SessionClaim::Tty ==> env.detected() == DisplayServer::Tty,
{
}

/// The three session types are told apart: the text `x11` claims X11, the
/// text `wayland` claims Wayland, the text `tty` claims a TTY.
pub proof fn lemma_claims(text: String)
    ensures
        text@ == "x11"@ ==> claim_of(Some(text)) == SessionClaim::X11,
        text@ == "wayland"@ ==> claim_of(Some(text)) == SessionClaim::Wayland,
        text@ == "tty"@ ==> claim_of(Some(text)) == SessionClaim::Tty,
{
    reveal_strlit("x11");
    reveal_strlit("wayland");
    reveal_strlit("tty");
    assert("x11"@.len() == 3 && "x11"@[0] == 'x');
    assert("wayland"@.len() == 7);
    assert("tty"@.len() == 3 && "tty"@[0] == 't');
}

/// With a session type of `x11`, detection on Unix returns X11 even when
/// `WAYLAND_DISPLAY` is set.
pub proof fn lemma_x11_claim_beats_wayland_display(env: Environment)
    requires
        env.platform == Platform::Unix,
        env.session_type matches Some(text) && text@ == "x11"@,
        present(env.wayland_display),
    ensures
        env.detected() == DisplayServer::X11,
{
}

} // verus!
