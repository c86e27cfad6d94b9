//! The model of paths that the library works with: a root path, relative
//! paths joined onto it with a separator, and the one way a relative path
//! can fail to be a platform path (a NUL character).

use vstd::prelude::*;
use vstd::string::StrSliceExecFns;

verus! {

/// The full path of a file declared at `rel` under a root: the root,
/// a separator, and the relative path.
pub open spec fn join_seq(root: Seq<char>, rel: Seq<char>) -> Seq<char> {
    root + seq!['/'] + rel
}

/// Whether `s` holds a NUL character; no platform path may contain one.
pub open spec fn has_nul(s: Seq<char>) -> bool {
    exists|i: int| 0 <= i < s.len() && s[i] == '\0'
}

/// Returns whether `s` holds a NUL character.
pub fn contains_nul(s: &str) -> (b: bool)
    ensures
        b == has_nul(s@),
{
    let n: usize = s.unicode_len();
    let mut i: usize = 0;
    while i < n
        invariant
            n == s@.len(),
            0 <= i <= n,
            forall|j: int| 0 <= j < i ==> s@[j] != '\0',
        decreases n - i,
    {
        if s.get_char(i) == '\0' {
            return true;
        }
        i = i + 1;
    }
    false
}

/// Joins a root path and a relative path with a separator.
pub fn join(root: &str, rel: &str) -> (r: String)
    ensures
        r@ == join_seq(root@, rel@),
{
    let mut s: String = root.to_owned();
    s.append("/");
    s.append(rel);
    proof {
        reveal_strlit("/");
        assert(("/")@ =~= seq!['/']);
        assert(s@ =~= join_seq(root@, rel@));
    }
    s
}

/// Distinct relative paths name distinct full paths under one root.
pub proof fn lemma_join_injective(root: Seq<char>, rel1: Seq<char>, rel2: Seq<char>)
    requires
        rel1 != rel2,
    ensures
        join_seq(root, rel1) != join_seq(root, rel2),
{
    if join_seq(root, rel1) == join_seq(root, rel2) {
        assert(join_seq(root, rel1).len() == root.len() + 1 + rel1.len());
        assert(join_seq(root, rel2).len() == root.len() + 1 + rel2.len());
        assert(rel1.len() == rel2.len());
        assert forall|i: int| 0 <= i < rel1.len() implies rel1[i] == rel2[i] by {
            assert(join_seq(root, rel1)[root.len() + 1 + i] == rel1[i]);
            assert(join_seq(root, rel2)[root.len() + 1 + i] == rel2[i]);
        }
        assert(rel1 =~= rel2);
    }
}

/// Every joined path strictly extends the root, with a separator right after
/// it: a declared file lives beneath the root directory.
pub proof fn lemma_join_under_root(root: Seq<char>, rel: Seq<char>)
    ensures
        join_seq(root, rel).len() == root.len() + 1 + rel.len(),
        join_seq(root, rel).subrange(0, root.len() as int) == root,
        join_seq(root, rel)[root.len() as int] == '/',
{
    assert(join_seq(root, rel).subrange(0, root.len() as int) =~= root);
}

} // verus!
