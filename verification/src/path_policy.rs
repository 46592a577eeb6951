//! Which paths on this machine the server may name to the client.
//!
//! A path is read as its components, with `.` and empty components dropped
//! and `..` taking the previous component away, so that a parent step cannot
//! leave a root that the spelling seemed to stay under. A root confines the
//! paths whose components begin with its own, absolute with absolute and
//! relative with relative.

use vstd::prelude::*;
use crate::text::{owned, same, split};

verus! {

/// The roots the server may use, or none at all.
pub enum PathPolicy {
    /// Any path is allowed.
    Anywhere,
    /// Only paths under one of these roots.
    Within(Vec<String>),
}

impl Default for PathPolicy {
    fn default() -> (r: PathPolicy)
        ensures
            r is Anywhere,
    {
        PathPolicy::Anywhere
    }
}

/// One component read onto the ones before it.
pub open spec fn normal_step(before: Seq<Seq<char>>, part: Seq<char>) -> Seq<Seq<char>> {
    if part.len() == 0 || part == "."@ {
        before
    } else if part == ".."@ {
        if before.len() > 0 {
            before.drop_last()
        } else {
            before
        }
    } else {
        before.push(part)
    }
}

/// The components left after reading every piece in order.
pub open spec fn normal_parts(parts: Seq<Seq<char>>) -> Seq<Seq<char>>
    decreases parts.len(),
{
    if parts.len() == 0 {
        seq![]
    } else {
        normal_step(normal_parts(parts.drop_last()), parts.last())
    }
}

/// A path's components, read lexically.
pub open spec fn components(path: Seq<char>) -> Seq<Seq<char>> {
    normal_parts(crate::text::split_seq(path, '/'))
}

pub open spec fn is_absolute(path: Seq<char>) -> bool {
    path.len() > 0 && path[0] == '/'
}

/// Whether `path` lies under `root`.
pub open spec fn under_root(path: Seq<char>, root: Seq<char>) -> bool {
    &&& is_absolute(path) == is_absolute(root)
    &&& components(root).len() <= components(path).len()
    &&& components(path).take(components(root).len() as int) == components(root)
}

impl PathPolicy {
    pub open spec fn allows(&self, path: Seq<char>) -> bool {
        match self {
            PathPolicy::Anywhere => true,
            PathPolicy::Within(roots) => exists|i: int|
                0 <= i < roots@.len() && under_root(path, #[trigger] roots@[i]@),
        }
    }

    /// Whether the policy lets the server use `path`.
    pub fn permits(&self, path: &str) -> (r: bool)
        ensures
            r == self.allows(path@),
    {
        match self {
            PathPolicy::Anywhere => true,
            PathPolicy::Within(roots) => under_some_root(path, roots),
        }
    }
}

/// Whether a path lies under one of the roots.
pub fn under_some_root(path: &str, roots: &Vec<String>) -> (r: bool)
    ensures
        r == exists|i: int| 0 <= i < roots@.len() && under_root(path@, #[trigger] roots@[i]@),
{
    let mut i: usize = 0;
    while i < roots.len()
        invariant
            i <= roots@.len(),
            forall|j: int| 0 <= j < i ==> !under_root(path@, #[trigger] roots@[j]@),
        decreases roots.len() - i,
    {
        if lies_under(path, roots[i].as_str()) {
            assert(under_root(path@, roots@[i as int]@));
            return true;
        }
        i = i + 1;
    }
    false
}

/// Whether a path lies under a root.
pub fn lies_under(path: &str, root: &str) -> (r: bool)
    ensures
        r == under_root(path@, root@),
{
    if starts_with_slash(path) != starts_with_slash(root) {
        return false;
    }
    let p = components_of(path);
    let q = components_of(root);
    begins_with(&p, &q)
}

fn starts_with_slash(s: &str) -> (r: bool)
    ensures
        r == is_absolute(s@),
{
    proof {
        reveal_strlit("/");
    }
    let r = crate::text::starts_with(s, "/");
    proof {
        if s@.len() > 0 {
            assert("/"@.len() == 1 && "/"@[0] == '/');
            if s@[0] == '/' {
                assert(s@.subrange(0, 1) =~= "/"@);
            }
            if "/"@.is_prefix_of(s@) {
                assert(s@.subrange(0, 1)[0] == "/"@[0]);
            }
        }
    }
    r
}

/// A path's components, read lexically.
pub fn components_of(path: &str) -> (r: Vec<String>)
    ensures
        r.deep_view() == components(path@),
{
    let parts = split(path, '/');
    let ghost all = parts.deep_view();
    let mut out: Vec<String> = Vec::new();
    let mut i: usize = 0;
    assert(all.take(0) =~= Seq::<Seq<char>>::empty());
    while i < parts.len()
        invariant
            i <= parts@.len(),
            all == parts.deep_view(),
            out.deep_view() == normal_parts(all.take(i as int)),
        decreases parts.len() - i,
    {
        let part = parts[i].as_str();
        assert(all[i as int] == part@);
        assert(all.take(i + 1).drop_last() =~= all.take(i as int));
        assert(all.take(i + 1).last() == part@);
        let ghost before = out.deep_view();
        if part.unicode_len() == 0 || same(part, ".") {
        } else if same(part, "..") {
            if out.len() > 0 {
                out.pop();
                assert(out.deep_view() =~= before.drop_last());
            }
        } else {
            out.push(owned(part));
            assert(out.deep_view() =~= before.push(part@));
        }
        i = i + 1;
    }
    assert(all.take(i as int) =~= all);
    out
}

/// Whether `whole` begins with every component of `start`, in order.
pub fn begins_with(whole: &Vec<String>, start: &Vec<String>) -> (r: bool)
    ensures
        r == (start@.len() <= whole@.len() && whole.deep_view().take(start@.len() as int)
            == start.deep_view()),
{
    if start.len() > whole.len() {
        return false;
    }
    let mut i: usize = 0;
    while i < start.len()
        invariant
            start@.len() <= whole@.len(),
            i <= start@.len(),
            forall|j: int| 0 <= j < i ==> whole@[j]@ == start@[j]@,
        decreases start.len() - i,
    {
        if !same(whole[i].as_str(), start[i].as_str()) {
            assert(whole.deep_view().take(start@.len() as int)[i as int] != start.deep_view()[i as int]);
            return false;
        }
        i = i + 1;
    }
    assert(whole.deep_view().take(start@.len() as int) =~= start.deep_view());
    true
}

} // verus!
