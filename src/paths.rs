//! Joining file system paths, as `std::path::Path::join` does on Unix.

use vstd::prelude::*;
use vstd::string::*;

verus! {

/// `base` joined with `part`: a `part` that starts at the root replaces
/// `base`; otherwise one separator stands between them.
pub open spec fn join_path(base: Seq<char>, part: Seq<char>) -> Seq<char> {
    if part.len() > 0 && part[0] == '/' {
        part
    } else if base.len() > 0 && base.last() != '/' {
        base + seq!['/'] + part
    } else {
        base + part
    }
}

/// `directory` joined with `id`, as a string.
pub fn join_str(directory: &str, id: &str) -> (r: String)
    ensures
        r@ == join_path(directory@, id@),
{
    let plen = id.unicode_len();
    if plen > 0 && id.get_char(0) == '/' {
        return String::from_str(id);
    }
    let blen = directory.unicode_len();
    let mut out = String::from_str(directory);
    if blen > 0 && directory.get_char(blen - 1) != '/' {
        out.append("/");
        proof {
            reveal_strlit("/");
            assert("/"@ =~= seq!['/']);
        }
    }
    out.append(id);
    out
}

} // verus!
