//! Expansion of a leading `~` in a path to the user's home directory.
//! Paths are held as their bytes, so that a path which is not valid UTF-8
//! is expanded like any other.
use vstd::prelude::*;
use vstd::slice::slice_to_vec;
use crate::path::{
    SLASH,
    is_bare_tilde, is_bare_tilde_exec, push_path, push_spec, starts_with_tilde,
    starts_with_tilde_exec, strip_tilde, strip_tilde_exec,
};

verus! {

/// The view of an optional path.
pub open spec fn opt_view(o: Option<Vec<u8>>) -> Option<Seq<u8>> {
    match o {
        Some(s) => Some(s@),
        None => None,
    }
}

/// `p` with a leading `~` component replaced by `home`.
///
/// A path whose first component is not `~` (such as `/foo/bar` or
/// `~alice/projects`) is left as it is. The path `~` itself becomes
/// `home`. Otherwise the rest of the path is appended to `home`, with a
/// `/` between them unless `home` ends with one: with the root as home,
/// `~/foo` becomes `/foo`. Without a home directory, a path that needs one
/// has no expansion.
pub open spec fn expand_tilde_spec(p: Seq<u8>, home: Option<Seq<u8>>) -> Option<Seq<u8>> {
    if !starts_with_tilde(p) {
        Some(p)
    } else if is_bare_tilde(p) {
        home
    } else {
        match home {
            Some(h) => Some(push_spec(h, strip_tilde(p))),
            None => None,
        }
    }
}

/// The file `name` inside the directory `dir`, after `~` expansion of `dir`.
pub open spec fn expanded_file_spec(dir: Seq<u8>, name: Seq<u8>, home: Option<Seq<u8>>) -> Option<Seq<u8>> {
    match expand_tilde_spec(dir, home) {
        Some(d) => Some(push_spec(d, name)),
        None => None,
    }
}

/// Expanding is stable against an absolute home directory: an expanded
/// path has no `~` left to expand, so expanding it again gives it back.
pub proof fn expansion_is_stable(p: Seq<u8>, home: Seq<u8>)
    requires
        home.len() > 0,
        home[0] == SLASH,
    ensures
        expand_tilde_spec(p, Some(home)) matches Some(e) ==> expand_tilde_spec(e, Some(home)) == Some(e),
{
    if starts_with_tilde(p) && !is_bare_tilde(p) {
        let e = push_spec(home, strip_tilde(p));
        assert(e[0] == SLASH);
    }
}

/// The current user's home directory, from `dirs::home_dir`.
///
/// Nothing is claimed of what `dirs::home_dir` gives back: it depends on
/// the environment and the platform. The path comes back as its bytes.
#[verifier::external_body]
fn home_dir() -> (home: Option<Vec<u8>>) {
    match dirs::home_dir() {
        Some(p) => Some(p.into_os_string().into_encoded_bytes()),
        None => None,
    }
}

/// Expands a leading `~` in `path` against the given home directory.
pub fn expand_tilde_with_home(path: &[u8], home: Option<Vec<u8>>) -> (r: Option<Vec<u8>>)
    ensures
        opt_view(r) == expand_tilde_spec(path@, opt_view(home)),
{
    if !starts_with_tilde_exec(path) {
        Some(slice_to_vec(path))
    } else if is_bare_tilde_exec(path) {
        home
    } else {
        match home {
            Some(h) => {
                let rest = strip_tilde_exec(path);
                Some(push_path(h.as_slice(), rest.as_slice()))
            },
            None => None,
        }
    }
}

/// Expands a leading `~` in `path` to the current user's home directory.
///
/// The home directory is looked up only where the first component of
/// `path` is `~`; any other path comes back unchanged.
pub fn expand_tilde(path: &[u8]) -> (r: Option<Vec<u8>>)
    ensures
        !starts_with_tilde(path@) ==> opt_view(r) == Some(path@),
        exists|home: Option<Seq<u8>>|
            opt_view(r) == #[trigger] expand_tilde_spec(path@, home),
{
    if !starts_with_tilde_exec(path) {
        let r = Some(slice_to_vec(path));
        assert(opt_view(r) == expand_tilde_spec(path@, None));
        r
    } else {
        let home = home_dir();
        let r = expand_tilde_with_home(path, home);
        assert(opt_view(r) == expand_tilde_spec(path@, opt_view(home)));
        r
    }
}

/// The file `name` inside `dir`, with a leading `~` of `dir` expanded
/// against the given home directory.
pub fn expanded_file_with_home(dir: &[u8], name: &[u8], home: Option<Vec<u8>>) -> (r: Option<Vec<u8>>)
    ensures
        opt_view(r) == expanded_file_spec(dir@, name@, opt_view(home)),
{
    match expand_tilde_with_home(dir, home) {
        Some(d) => Some(push_path(d.as_slice(), name)),
        None => None,
    }
}

/// The file `name` inside `dir`, with a leading `~` of `dir` expanded to
/// the current user's home directory.
pub fn expanded_file(dir: &[u8], name: &[u8]) -> (r: Option<Vec<u8>>)
    ensures
        !starts_with_tilde(dir@) ==> opt_view(r) == Some(push_spec(dir@, name@)),
        exists|home: Option<Seq<u8>>|
            opt_view(r) == #[trigger] expanded_file_spec(dir@, name@, home),
{
    let e = expand_tilde(dir);
    let ghost home = choose|home: Option<Seq<u8>>|
        opt_view(e) == #[trigger] expand_tilde_spec(dir@, home);
    let r = match e {
        Some(d) => Some(push_path(d.as_slice(), name)),
        None => None,
    };
    assert(opt_view(r) == expanded_file_spec(dir@, name@, home));
    r
}

} // verus!
