//! File system paths, held as text.

use vstd::prelude::*;
use vstd::string::*;

verus! {

/// The path that `PathBuf::push` makes of a path and another one.
pub uninterp spec fn pushed_path(base: Seq<char>, path: Seq<char>) -> Seq<char>;

/// The path that `PathBuf::pop` leaves of a path.
pub uninterp spec fn popped_path(path: Seq<char>) -> Seq<char>;

/// The extension that `Path::extension` finds in a path, if any.
pub uninterp spec fn path_extension(path: Seq<char>) -> Option<Seq<char>>;

/// `PathBuf::push`: extends the path with another one (which replaces it where
/// it is absolute). Both are text, so the result is text too.
#[verifier::external_body]
pub(crate) fn path_push(base: &str, path: &str) -> (r: String)
    ensures
        r@ == pushed_path(base@, path@),
{
    let mut p = std::path::PathBuf::from(base);
    p.push(path);
    p.to_string_lossy().into_owned()
}

/// `PathBuf::pop`: truncates the path to its parent, where it has one.
#[verifier::external_body]
pub(crate) fn path_pop(path: &str) -> (r: String)
    ensures
        r@ == popped_path(path@),
{
    let mut p = std::path::PathBuf::from(path);
    p.pop();
    p.to_string_lossy().into_owned()
}

/// `Path::extension`: the extension of the path's file name, if any.
#[verifier::external_body]
pub(crate) fn extension_of(path: &str) -> (r: Option<String>)
    ensures
        match r {
            Some(e) => path_extension(path@) == Some(e@),
            None => path_extension(path@) is None,
        },
{
    match std::path::Path::new(path).extension() {
        Some(e) => Some(e.to_string_lossy().into_owned()),
        None => None,
    }
}

/// The path of a file of the cache directory.
pub open spec fn cache_file_path(cache_dir: Seq<char>, name: Seq<char>) -> Seq<char> {
    pushed_path(pushed_path(Seq::empty(), cache_dir), name)
}

/// The path of a file of the cache directory.
pub fn cache_file(cache_dir: &str, name: &str) -> (r: String)
    ensures
        r@ == cache_file_path(cache_dir@, name@),
{
    proof {
        reveal_strlit("");
        assert(""@ =~= Seq::<char>::empty());
    }
    let dir = path_push("", cache_dir);
    path_push(dir.as_str(), name)
}

} // verus!
