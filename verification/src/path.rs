//! Joining file system paths as `PathBuf::push` does on Unix.

use vstd::prelude::*;

verus! {

/// The path that `PathBuf::push` makes of `base` and `p` on Unix: an
/// absolute `p` replaces `base`; otherwise `p` is appended, after a `/`
/// where `base` is not empty and does not already end with one.
pub open spec fn path_push(base: Seq<char>, p: Seq<char>) -> Seq<char> {
    if p.len() > 0 && p[0] == '/' {
        p
    } else if base.len() == 0 || base.last() == '/' {
        base + p
    } else {
        base + seq!['/'] + p
    }
}

/// Joins `p` onto `base` as `PathBuf::push` does on Unix.
pub fn push_path(base: &str, p: &str) -> (r: String)
    ensures
        r@ == path_push(base@, p@),
{
    let plen = p.unicode_len();
    if plen > 0 && p.get_char(0) == '/' {
        return String::from_str(p);
    }
    let blen = base.unicode_len();
    let mut r = String::from_str(base);
    if blen > 0 && base.get_char(blen - 1) != '/' {
        let sep = "/";
        proof {
            reveal_strlit("/");
        }
        r.append(sep);
        assert(sep@ =~= seq!['/']);
    }
    r.append(p);
    r
}

} // verus!
