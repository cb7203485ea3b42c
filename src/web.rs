//! Locating the page that the renderer runs in.
use vstd::prelude::*;
use vstd::string::StrSliceExecFns;

verus! {

/// What `std::path::Path::parent` gives for a path: the path without its
/// final component, `None` when it has none.
pub uninterp spec fn path_parent(path: Seq<char>) -> Option<Seq<char>>;

/// Relies on `std::path::Path::parent`, and on a path made from a `str`
/// converting back to the same text.
#[verifier::external_body]
fn parent_path(path: &str) -> (r: Option<String>)
    ensures
        match path_parent(path@) {
            Some(p) => r matches Some(s) && s@ == p,
            None => r is None,
        },
{
    std::path::Path::new(path).parent().map(|p| p.to_string_lossy().into_owned())
}

pub open spec fn ends_with_slash(s: Seq<char>) -> bool {
    s.len() > 0 && s.last() == '/'
}

/// The directory that a page's `url` lies in: the URL itself when it ends
/// with `/`, else its parent path; `None` when it has no parent.
pub fn base_path(url: &str) -> (r: Option<String>)
    ensures
        ends_with_slash(url@) ==> (r matches Some(s) && s@ == url@),
        !ends_with_slash(url@) ==> match path_parent(url@) {
            Some(p) => r matches Some(s) && s@ == p,
            None => r is None,
        },
{
    let n = url.unicode_len();
    if n > 0 && url.get_char(n - 1) == '/' {
        Some(url.to_string())
    } else {
        parent_path(url)
    }
}

} // verus!
