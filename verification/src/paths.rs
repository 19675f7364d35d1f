//! File-system paths, held as text (Unix separators).
use vstd::prelude::*;

verus! {

/// `base` extended by `rest` as `Path::join` does it on Unix: an absolute
/// `rest` replaces `base`; otherwise a `'/'` goes between the two unless
/// `base` is empty or already ends with one.
pub open spec fn path_joined(base: Seq<char>, rest: Seq<char>) -> Seq<char> {
    if rest.len() > 0 && rest[0] == '/' {
        rest
    } else if base.len() == 0 || base.last() == '/' {
        base + rest
    } else {
        base + seq!['/'] + rest
    }
}

/// `base` extended by `rest` (see `path_joined`).
pub fn path_join(base: &str, rest: &str) -> (r: String)
    ensures
        r@ == path_joined(base@, rest@),
{
    proof {
        reveal_strlit("/");
    }
    if rest.unicode_len() > 0 && rest.get_char(0) == '/' {
        return String::from_str(rest);
    }
    let n = base.unicode_len();
    if n == 0 || base.get_char(n - 1) == '/' {
        String::from_str(base).concat(rest)
    } else {
        String::from_str(base).concat("/").concat(rest)
    }
}

/// What `Path::strip_prefix` leaves of `path` once the leading components
/// that make up `base` are taken away, as text; `None` when `base` is not a
/// prefix of `path` in whole components.
pub uninterp spec fn path_strip_prefix(path: Seq<char>, base: Seq<char>) -> Option<Seq<char>>;

/// Calls `std::path::Path::strip_prefix` and displays what remains.
/// The contract claims that the outcome depends on the two texts alone and
/// names it `path_strip_prefix`; how components are compared (repeated
/// separators, `.` components) is left to the standard library.
#[verifier::external_body]
fn strip_path_prefix(path: &str, base: &str) -> (r: Option<String>)
    ensures
        match r {
            Some(s) => path_strip_prefix(path@, base@) == Some(s@),
            None => path_strip_prefix(path@, base@) is None,
        },
{
    std::path::Path::new(path).strip_prefix(base).ok().map(|p| p.display().to_string())
}

/// `path` shown relative to the home directory, as `~/...`, when it lies
/// under it; otherwise unchanged.
pub open spec fn user_path_text(path: Seq<char>, home: Option<Seq<char>>) -> Seq<char> {
    match home {
        Some(h) => match path_strip_prefix(path, h) {
            Some(rest) => seq!['~', '/'] + rest,
            None => path,
        },
        None => path,
    }
}

/// `path` written with `~/` in place of the home directory `home` (the value
/// of `HOME`, if it is set).
pub fn format_user_path(path: &str, home: &Option<String>) -> (r: String)
    ensures
        r@ == user_path_text(path@, opt_text(*home)),
{
    proof {
        reveal_strlit("~/");
    }
    match home {
        Some(h) => match strip_path_prefix(path, h.as_str()) {
            Some(rest) => String::from_str("~/").concat(rest.as_str()),
            None => String::from_str(path),
        },
        None => String::from_str(path),
    }
}

/// An optional owned text, taken by its characters.
pub open spec fn opt_text(o: Option<String>) -> Option<Seq<char>> {
    match o {
        Some(s) => Some(s@),
        None => None,
    }
}

/// A copy of an optional text.
pub fn copy_opt_text(o: &Option<String>) -> (r: Option<String>)
    ensures
        opt_text(r) == opt_text(*o),
{
    match o {
        Some(s) => Some(s.clone()),
        None => None,
    }
}

} // verus!
