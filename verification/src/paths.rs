//! Paths as text: absolute paths and joining, with `/` as the separator.

use vstd::prelude::*;
use vstd::string::*;

verus! {

/// A path is absolute when it starts at the root.
pub open spec fn is_absolute(path: Seq<char>) -> bool {
    path.len() > 0 && path[0] == '/'
}

/// `rel` adjoined to `base`: an absolute `rel` replaces `base`; otherwise the
/// two are put together with exactly one separator between them, unless `base`
/// is empty or already ends in one.
pub open spec fn join_spec(base: Seq<char>, rel: Seq<char>) -> Seq<char> {
    if is_absolute(rel) {
        rel
    } else if base.len() > 0 && base.last() != '/' {
        base + seq!['/'] + rel
    } else {
        base + rel
    }
}

/// Whether `path` starts at the root.
pub fn starts_at_root(path: &str) -> (b: bool)
    ensures
        b == is_absolute(path@),
{
    !path.is_empty() && path.get_char(0) == '/'
}

/// Adjoins `rel` to `base`.
pub fn join(base: &str, rel: &str) -> (joined: String)
    ensures
        joined@ == join_spec(base@, rel@),
{
    if starts_at_root(rel) {
        return String::from_str(rel);
    }
    let n: usize = base.unicode_len();
    let mut joined = String::from_str(base);
    if n > 0 && base.get_char(n - 1) != '/' {
        proof {
            reveal_strlit("/");
        }
        joined.append("/");
    }
    joined.append(rel);
    joined
}

/// Joining onto an absolute base, or with an absolute path, gives an absolute
/// path.
pub proof fn lemma_join_absolute(base: Seq<char>, rel: Seq<char>)
    requires
        is_absolute(base) || is_absolute(rel),
    ensures
        is_absolute(join_spec(base, rel)),
{
}

} // verus!
