//! Configuration fixed when the program is built.

use vstd::prelude::*;
use crate::text::blank;
use crate::text::is_blank;

verus! {

/// Paths of the helper programs, where the build supplied them.
///
/// A path that is set and not blank is used as it is, in place of a lookup
/// on `PATH`. The configuration is made once and handed to whatever selects
/// a backend; nothing reads the build's settings later.
#[derive(Clone, Debug, Default, PartialEq, Eq)]
pub struct Config {
    /// The path of `xclip`.
    pub xclip_path: Option<String>,
    /// The path of `xsel`.
    pub xsel_path: Option<String>,
    /// The path of `wl-copy`.
    pub wl_copy_path: Option<String>,
    /// The path of `wl-paste`.
    pub wl_paste_path: Option<String>,
}

/// A path counts when it is set and not blank.
pub open spec fn usable(path: Option<String>) -> bool {
    path matches Some(text) && !blank(text@)
}

/// A path as far as it counts: itself when it is usable, nothing otherwise.
pub open spec fn usable_part(path: Option<String>) -> Option<String> {
    if usable(path) {
        path
    } else {
        None
    }
}

/// Whether a path is set and not blank.
pub fn is_usable(path: &Option<String>) -> (counts: bool)
    ensures
        counts == usable(*path),
{
    match path {
        Some(text) => !is_blank(text.as_str()),
        None => false,
    }
}

/// A copy of the path if it is set and not blank.
pub fn override_path(path: &Option<String>) -> (found: Option<String>)
    ensures
        found == usable_part(*path),
{
    match path {
        Some(text) => if is_blank(text.as_str()) {
            None
        } else {
            Some(text.clone())
        },
        None => None,
    }
}

} // verus!
