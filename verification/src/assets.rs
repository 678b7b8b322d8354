//! Which embedded page answers a request path.

use crate::text::{text_eq, to_chars};
use vstd::prelude::*;

verus! {

/// The position of the first character at or after `i` that is no `/`, or
/// the length of the path if there is none.
pub open spec fn after_slashes(path: Seq<char>, i: int) -> int
    decreases path.len() - i,
{
    if i < 0 || i >= path.len() {
        path.len() as int
    } else if path[i] != '/' {
        i
    } else {
        after_slashes(path, i + 1)
    }
}

/// The name of the embedded file that a request path asks for: the index
/// page for the empty path and for `/`, else the path without the slashes
/// at its front.
pub open spec fn asset_name_text(path: Seq<char>) -> Seq<char> {
    if path.len() == 0 || path == "/"@ {
        "index.html"@
    } else {
        path.subrange(after_slashes(path, 0), path.len() as int)
    }
}

/// The name of the embedded file that a request path asks for.
pub fn asset_name(path: &str) -> (name: String)
    ensures
        name@ == asset_name_text(path@),
{
    if path.is_empty() || text_eq(path, "/") {
        return "index.html".to_owned();
    }
    let chars = to_chars(path);
    let mut start: usize = 0;
    while start < chars.len() && chars[start] == '/'
        invariant
            start <= chars.len(),
            chars@ == path@,
            after_slashes(path@, 0) == after_slashes(path@, start as int),
        decreases chars.len() - start,
    {
        start = start + 1;
    }
    let mut name = String::new();
    let mut k: usize = start;
    assert(name@ =~= path@.subrange(start as int, k as int));
    while k < chars.len()
        invariant
            start <= k <= chars.len(),
            chars@ == path@,
            name@ == path@.subrange(start as int, k as int),
        decreases chars.len() - k,
    {
        name.push(chars[k]);
        assert(name@ =~= path@.subrange(start as int, k + 1));
        k = k + 1;
    }
    name
}

/// Whether the index page answers in place of a file that is not
/// embedded: for every file but the index page itself, so that the paths
/// of the dashboard's own pages load the dashboard.
pub fn index_stands_in(name: &str) -> (r: bool)
    ensures
        r == (name@ != "index.html"@),
{
    !text_eq(name, "index.html")
}

} // verus!
