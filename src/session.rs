//! Picking the mouse backend for the running desktop session.

use vstd::prelude::*;

verus! {

/// Unicode's White_Space property: the characters that trimming removes.
pub open spec fn is_white_space(c: char) -> bool {
    ('\u{9}' <= c && c <= '\u{d}') || c == ' ' || c == '\u{85}' || c == '\u{a0}' || c
        == '\u{1680}' || ('\u{2000}' <= c && c <= '\u{200a}') || c == '\u{2028}' || c
        == '\u{2029}' || c == '\u{202f}' || c == '\u{205f}' || c == '\u{3000}'
}

/// The text without its leading white space.
pub open spec fn trim_start(s: Seq<char>) -> Seq<char>
    decreases s.len(),
{
    if s.len() > 0 && is_white_space(s[0]) {
        trim_start(s.drop_first())
    } else {
        s
    }
}

/// The text without its trailing white space.
pub open spec fn trim_end(s: Seq<char>) -> Seq<char>
    decreases s.len(),
{
    if s.len() > 0 && is_white_space(s.last()) {
        trim_end(s.drop_last())
    } else {
        s
    }
}

/// The text without leading and trailing white space.
pub open spec fn trim_of(s: Seq<char>) -> Seq<char> {
    trim_end(trim_start(s))
}

/// What `str::to_lowercase` gives for a text.
pub uninterp spec fn lower_of(s: Seq<char>) -> Seq<char>;

/// Relies on `str::trim`: the text without leading and trailing characters
/// of Unicode's White_Space property.
#[verifier::external_body]
fn trimmed(s: &str) -> (r: &str)
    ensures
        r@ == trim_of(s@),
{
    s.trim()
}

/// Relies on `str::to_lowercase`: the lowercase mapping of the text, which
/// depends on the characters alone.
#[verifier::external_body]
fn lowercase(s: &str) -> (r: String)
    ensures
        r@ == lower_of(s@),
{
    s.to_lowercase()
}

/// Whether a normalized session type names an X11 session.
pub fn names_x11(normalized: &String) -> (r: bool)
    ensures
        r == (normalized@ == "x11"@),
{
    let x11 = "x11".to_owned();
    *normalized == x11
}

/// Whether a reported session type, trimmed and lowercased, is `x11`.
pub open spec fn reports_x11(s: Seq<char>) -> bool {
    lower_of(trim_of(s)) == "x11"@
}

/// Whether the session is an X11 one: by the session manager's report of its
/// type, else by the session-type variable of the environment. Either may be
/// missing.
pub fn session_is_x11(reported: Option<&str>, variable: Option<&str>) -> (r: bool)
    ensures
        r == ((reported matches Some(s) && reports_x11(s@)) || (variable matches Some(v)
            && reports_x11(v@))),
{
    if let Some(s) = reported {
        let normalized = lowercase(trimmed(s));
        if names_x11(&normalized) {
            return true;
        }
    }
    if let Some(v) = variable {
        let normalized = lowercase(trimmed(v));
        if names_x11(&normalized) {
            return true;
        }
    }
    false
}

/// The backend that carries out mouse actions.
#[derive(Debug, Clone, Copy, PartialEq, Eq)]
pub enum Backend {
    /// The X11 display server's own input handling.
    X11,
    /// A uinput virtual device whose absolute axes span the given ranges.
    UInput { rng_x: (i32, i32), rng_y: (i32, i32) },
}

/// Chooses the mouse backend on Unix-like systems.
pub struct NixMouseManager {}

impl NixMouseManager {
    /// The backend for a session: X11's own on an X11 session, else a virtual
    /// device whose axes span `rng_x` and `rng_y` (which X11 does not use).
    pub fn new(rng_x: (i32, i32), rng_y: (i32, i32), x11_session: bool) -> (r: Backend)
        ensures
            r == (if x11_session {
                Backend::X11
            } else {
                Backend::UInput { rng_x, rng_y }
            }),
    {
        if x11_session {
            NixMouseManager::new_x11()
        } else {
            NixMouseManager::new_uinput(rng_x, rng_y)
        }
    }

    /// The X11 backend.
    pub fn new_x11() -> (r: Backend)
        ensures
            r == Backend::X11,
    {
        Backend::X11
    }

    /// The virtual-device backend with the given axis ranges.
    pub fn new_uinput(rng_x: (i32, i32), rng_y: (i32, i32)) -> (r: Backend)
        ensures
            r == (Backend::UInput { rng_x, rng_y }),
    {
        Backend::UInput { rng_x, rng_y }
    }
}

} // verus!
