//! Working-directory path resolution: shortening a path under the home
//! directory to a `~`-prefixed form.

use vstd::prelude::*;
use crate::textops::str_is_prefix;

verus! {

/// The resolved form of a working-directory path `p` with home
/// directory `h`: `~` followed by the remainder when `h` is a prefix
/// of `p`, the path unchanged otherwise.
pub open spec fn resolved_path_spec(p: Seq<char>, h: Seq<char>) -> Seq<char> {
    if h.is_prefix_of(p) {
        "~"@ + p.skip(h.len() as int)
    } else {
        p
    }
}

/// Resolves `pwd` against the home directory `home`, as
/// [`resolved_path_spec`] describes.
pub fn resolve_path(pwd: &str, home: &str) -> (r: String)
    ensures
        r@ == resolved_path_spec(pwd@, home@),
{
    if str_is_prefix(home, pwd) {
        let hlen = home.unicode_len();
        let plen = pwd.unicode_len();
        let rest = pwd.substring_char(hlen, plen);
        let mut r = String::from_str("~");
        r.append(rest);
        proof {
            assert(pwd@.subrange(hlen as int, plen as int) =~= pwd@.skip(home@.len() as int));
        }
        r
    } else {
        pwd.to_owned()
    }
}

} // verus!
