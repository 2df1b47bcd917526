//! Derivation of a local file name from a URL.

use vstd::prelude::*;
use vstd::string::{StrSliceExecFns, StringExecFns};

use crate::text::push_char;
use crate::urls::AbsUrl;

verus! {

/// The path with every '/' replaced by '_'.
pub open spec fn underscored(path: Seq<char>) -> Seq<char> {
    path.map_values(|c: char| if c == '/' { '_' } else { c })
}

/// True when the path holds no character besides '/'; such a path (empty or
/// root) has no final file-name segment.
pub open spec fn all_slashes(path: Seq<char>) -> bool {
    forall|i: int| 0 <= i < path.len() ==> path[i] == '/'
}

/// The local file name for a URL with the given host and path: `<host>.html`
/// when the path has no file-name segment, and otherwise the host followed by
/// the path with every '/' replaced by '_'.
///
/// Paths of parsed URLs never contain `.` or `..` segments (URL parsing
/// removes them), so "no file-name segment" comes down to the path being
/// empty or made of slashes alone.
pub open spec fn derive_name(host: Seq<char>, path: Seq<char>) -> Seq<char> {
    if all_slashes(path) {
        host + ".html"@
    } else {
        host + underscored(path)
    }
}

/// Derives the local output file name for `url`.
pub fn filename_for_url(url: &AbsUrl) -> (r: String)
    ensures
        r@ == derive_name(url@.host, url@.path),
{
    let path: &str = url.path.as_str();
    let n: usize = path.unicode_len();
    let mut has_segment = false;
    let mut i: usize = 0;
    while i < n
        invariant
            0 <= i <= n,
            n == path@.len(),
            path@ == url@.path,
            has_segment ==> !all_slashes(url@.path),
            !has_segment ==> forall|j: int| 0 <= j < i ==> path@[j] == '/',
        decreases n - i,
    {
        if path.get_char(i) != '/' {
            has_segment = true;
        }
        i += 1;
    }
    if !has_segment {
        assert(all_slashes(url@.path));
        url.host.clone().concat(".html")
    } else {
        let mut out = url.host.clone();
        let mut i: usize = 0;
        while i < n
            invariant
                0 <= i <= n,
                n == path@.len(),
                path@ == url@.path,
                out@ == url@.host + underscored(url@.path.take(i as int)),
            decreases n - i,
        {
            let c = path.get_char(i);
            let cc: char = if c == '/' {
                '_'
            } else {
                c
            };
            push_char(&mut out, cc);
            assert(underscored(url@.path.take(i + 1 as int)) =~= underscored(
                url@.path.take(i as int),
            ).push(cc));
            i += 1;
        }
        assert(url@.path.take(n as int) =~= url@.path);
        out
    }
}

} // verus!
