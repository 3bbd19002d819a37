//! A character-level model of absolute filesystem paths.
//!
//! A path is a sequence of characters in which `/` separates segments. The
//! scope registry's permit/deny decisions rest on one relation: a target path
//! being equal to, or nested under, a granted directory.

use vstd::prelude::*;
use vstd::string::StrSliceExecFns;
use vstd::string::StringExecFns;

verus! {

/// `target` is `root` itself, or lies in the directory tree below `root`:
/// `root` is a proper prefix of `target` and the next character is the
/// separator, so that a sibling such as `/a/bc` is not counted under `/a/b`.
pub open spec fn nested_under(target: Seq<char>, root: Seq<char>) -> bool {
    target == root || (target.len() > root.len() && target.subrange(0, root.len() as int)
        == root && target[root.len() as int] == '/')
}

/// The characters of `dir`, a separator, then the characters of `segment`.
pub open spec fn join_path(dir: Seq<char>, segment: Seq<char>) -> Seq<char> {
    dir + seq!['/'] + segment
}

/// Decide whether `target` equals `root` or lies in the tree below it.
pub fn is_nested_under(target: &str, root: &str) -> (r: bool)
    ensures
        r == nested_under(target@, root@),
{
    let t_len = target.unicode_len();
    let r_len = root.unicode_len();
    if t_len < r_len {
        return false;
    }
    let mut i: usize = 0;
    while i < r_len
        invariant
            i <= r_len,
            r_len <= t_len,
            t_len == target@.len(),
            r_len == root@.len(),
            forall|j: int| 0 <= j < i ==> target@[j] == root@[j],
        decreases r_len - i,
    {
        if target.get_char(i) != root.get_char(i) {
            proof {
                assert(target@.subrange(0, r_len as int)[i as int] == target@[i as int]);
            }
            return false;
        }
        i += 1;
    }
    if t_len == r_len {
        proof {
            assert(target@ =~= root@);
        }
        true
    } else {
        proof {
            assert(target@.subrange(0, r_len as int) =~= root@);
        }
        target.get_char(r_len) == '/'
    }
}

/// Append one segment below `dir`, separated by `/`.
pub fn join_segment(dir: &str, segment: &str) -> (r: String)
    ensures
        r@ == join_path(dir@, segment@),
{
    let mut r = String::from_str(dir);
    r.append("/");
    r.append(segment);
    proof {
        reveal_strlit("/");
        assert(r@ =~= join_path(dir@, segment@));
    }
    r
}

} // verus!
