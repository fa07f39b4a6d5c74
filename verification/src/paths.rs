//! Path arithmetic: a few `std::path` functions on paths held as text, and the
//! join that places a relative path under a directory.
use vstd::prelude::*;
use vstd::string::*;
use crate::text::{chars_of, concat2, concat3, owned};

verus! {

/// What `Path::starts_with` answers for these two paths (component-wise).
pub uninterp spec fn path_has_base(path: Seq<char>, base: Seq<char>) -> bool;

/// What `Path::parent` returns for this path.
pub uninterp spec fn path_parent(path: Seq<char>) -> Option<Seq<char>>;

/// What `Path::file_stem` returns for this path.
pub uninterp spec fn path_file_stem(path: Seq<char>) -> Option<Seq<char>>;

/// What `Path::extension` returns for this path.
pub uninterp spec fn path_extension(path: Seq<char>) -> Option<Seq<char>>;

/// What `Path::file_name` returns for this path.
pub uninterp spec fn path_file_name(path: Seq<char>) -> Option<Seq<char>>;

/// `Path::starts_with`: whether `base` is a leading run of whole components of
/// `path`. Its answer is named `path_has_base`.
#[verifier::external_body]
pub(crate) fn path_starts_with(path: &str, base: &str) -> (r: bool)
    ensures
        r == path_has_base(path@, base@),
{
    std::path::Path::new(path).starts_with(base)
}

/// `Path::parent`, as text; its answer is named `path_parent`.
#[verifier::external_body]
pub(crate) fn parent_of(path: &str) -> (r: Option<String>)
    ensures
        match path_parent(path@) {
            Some(p) => r matches Some(s) && s@ == p,
            None => r is None,
        },
{
    match std::path::Path::new(path).parent() {
        Some(p) => Some(p.display().to_string()),
        None => None,
    }
}

/// `Path::file_stem`, as text; its answer is named `path_file_stem`.
#[verifier::external_body]
pub(crate) fn file_stem_of(path: &str) -> (r: Option<String>)
    ensures
        match path_file_stem(path@) {
            Some(p) => r matches Some(s) && s@ == p,
            None => r is None,
        },
{
    match std::path::Path::new(path).file_stem() {
        Some(p) => Some(p.to_string_lossy().into_owned()),
        None => None,
    }
}

/// `Path::extension`, as text; its answer is named `path_extension`.
#[verifier::external_body]
pub(crate) fn extension_of(path: &str) -> (r: Option<String>)
    ensures
        match path_extension(path@) {
            Some(p) => r matches Some(s) && s@ == p,
            None => r is None,
        },
{
    match std::path::Path::new(path).extension() {
        Some(p) => Some(p.to_string_lossy().into_owned()),
        None => None,
    }
}

/// `Path::file_name`, as text; its answer is named `path_file_name`.
#[verifier::external_body]
pub(crate) fn file_name_of(path: &str) -> (r: Option<String>)
    ensures
        match path_file_name(path@) {
            Some(p) => r matches Some(s) && s@ == p,
            None => r is None,
        },
{
    match std::path::Path::new(path).file_name() {
        Some(p) => Some(p.to_string_lossy().into_owned()),
        None => None,
    }
}

/// `dir` joined with `rel`, as `Path::join` forms it: an absolute `rel`
/// replaces `dir`; otherwise a separator is added unless `dir` is empty or
/// already ends with one.
pub open spec fn join_path(dir: Seq<char>, rel: Seq<char>) -> Seq<char> {
    if rel.len() > 0 && rel[0] == '/' {
        rel
    } else if dir.len() > 0 && dir.last() != '/' {
        dir + "/"@ + rel
    } else {
        dir + rel
    }
}

/// `dir` joined with `rel`.
pub fn join_relative(dir: &str, rel: &str) -> (r: String)
    ensures
        r@ == join_path(dir@, rel@),
{
    let d = chars_of(dir);
    let r = chars_of(rel);
    if r.len() > 0 && r[0] == '/' {
        owned(rel)
    } else if d.len() > 0 && d[d.len() - 1] != '/' {
        concat3(dir, "/", rel)
    } else {
        concat2(dir, rel)
    }
}

/// The user's home directory as `dirs::home_dir` reports it, as text. It
/// depends on the environment, so nothing is promised of it.
#[verifier::external_body]
pub(crate) fn home_dir() -> (r: Option<String>) {
    match dirs::home_dir() {
        Some(p) => Some(p.display().to_string()),
        None => None,
    }
}

} // verus!
