//! The `std::path` and `str` operations the naming logic relies on, each
//! behind a wrapper whose result is named by an uninterpreted spec function.
//! Paths are handled as UTF-8 strings throughout, so converting the parts of
//! a path back to strings loses nothing.
use vstd::prelude::*;

verus! {

/// The characters held by an optional string.
pub open spec fn opt_chars(o: Option<String>) -> Option<Seq<char>> {
    match o {
        Some(s) => Some(s@),
        None => None,
    }
}

/// `Path::parent` of `path`.
pub uninterp spec fn spec_path_parent(path: Seq<char>) -> Option<Seq<char>>;

/// `Path::new(path).parent()`.
#[verifier::external_body]
pub(crate) fn path_parent(path: &str) -> (r: Option<String>)
    ensures
        opt_chars(r) == spec_path_parent(path@),
{
    match std::path::Path::new(path).parent() {
        Some(parent) => Some(parent.to_string_lossy().into_owned()),
        None => None,
    }
}

/// `Path::file_name` of `path`.
pub uninterp spec fn spec_path_file_name(path: Seq<char>) -> Option<Seq<char>>;

/// `Path::new(path).file_name()`.
#[verifier::external_body]
pub(crate) fn path_file_name(path: &str) -> (r: Option<String>)
    ensures
        opt_chars(r) == spec_path_file_name(path@),
{
    match std::path::Path::new(path).file_name() {
        Some(name) => Some(name.to_string_lossy().into_owned()),
        None => None,
    }
}

/// `Path::file_stem` of `path`.
pub uninterp spec fn spec_path_file_stem(path: Seq<char>) -> Option<Seq<char>>;

/// `Path::new(path).file_stem()`.
#[verifier::external_body]
pub(crate) fn path_file_stem(path: &str) -> (r: Option<String>)
    ensures
        opt_chars(r) == spec_path_file_stem(path@),
{
    match std::path::Path::new(path).file_stem() {
        Some(stem) => Some(stem.to_string_lossy().into_owned()),
        None => None,
    }
}

/// `Path::extension` of `path`.
pub uninterp spec fn spec_path_extension(path: Seq<char>) -> Option<Seq<char>>;

/// `Path::new(path).extension()`.
#[verifier::external_body]
pub(crate) fn path_extension(path: &str) -> (r: Option<String>)
    ensures
        opt_chars(r) == spec_path_extension(path@),
{
    match std::path::Path::new(path).extension() {
        Some(ext) => Some(ext.to_string_lossy().into_owned()),
        None => None,
    }
}

/// `Path::join` of `base` and `name`.
pub uninterp spec fn spec_path_join(base: Seq<char>, name: Seq<char>) -> Seq<char>;

/// `Path::new(base).join(name)`.
#[verifier::external_body]
pub(crate) fn path_join(base: &str, name: &str) -> (r: String)
    ensures
        r@ == spec_path_join(base@, name@),
{
    std::path::Path::new(base).join(name).to_string_lossy().into_owned()
}

/// `str::to_lowercase` of `s`.
pub uninterp spec fn spec_to_lowercase(s: Seq<char>) -> Seq<char>;

/// `s.to_lowercase()`.
#[verifier::external_body]
pub(crate) fn to_lowercase(s: &str) -> (r: String)
    ensures
        r@ == spec_to_lowercase(s@),
{
    s.to_lowercase()
}

} // verus!
