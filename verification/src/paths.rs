//! Path resolution: decoding and joining a request target under the root
//! directory, and the containment check that keeps every served path inside
//! the root's subtree.

use vstd::prelude::*;

use crate::encoding::{decode_target, percent_decoded};
use crate::scan::{find_non_sep, lemma_find_non_sep};

verus! {

/// The decoded target with all leading separators removed: a target is
/// always taken as relative to the root, by policy, even when it begins
/// with separators.
pub open spec fn strip_leading_seps(s: Seq<char>) -> Seq<char> {
    s.subrange(find_non_sep(s, 0), s.len() as int)
}

/// The filesystem path a decoded target asks for: the target, taken as
/// relative, joined under the root with a single separator.
pub open spec fn join_under_root(root: Seq<char>, target: Seq<char>) -> Seq<char> {
    root + seq!['/'] + strip_leading_seps(target)
}

/// Decode a raw request target and join it under the root directory. The
/// result is the path the embedding program canonicalizes on disk; nothing
/// is served from it before the containment check passes on the canonical
/// form.
pub fn requested_fs_path(root: &str, raw_target: &str) -> (r: String)
    ensures
        r@ == join_under_root(root@, percent_decoded(raw_target@)),
{
    let decoded = decode_target(raw_target);
    let dec = decoded.as_str();
    let dn = dec.unicode_len();
    let mut i: usize = 0;
    while i < dn && dec.get_char(i) == '/'
        invariant
            dn == dec@.len(),
            dec@ == percent_decoded(raw_target@),
            i <= dn,
            forall|j: int| 0 <= j < i ==> dec@[j] == '/',
        decreases dn - i,
    {
        i += 1;
    }
    proof {
        lemma_find_non_sep(dec@, 0);
        assert(i == find_non_sep(dec@, 0));
    }
    let rest = dec.substring_char(i, dn);
    let mut r = root.to_owned();
    r.append("/");
    r.append(rest);
    proof {
        reveal_strlit("/");
        assert(r@ =~= join_under_root(root@, percent_decoded(raw_target@)));
    }
    r
}

/// Whether `p` lies in the subtree of `root`: it is the root itself, or
/// extends it immediately past a separator — one of its own, or the
/// separator the root already ends in (the filesystem root `/` is the one
/// canonical root that does).
pub open spec fn contains_path(root: Seq<char>, p: Seq<char>) -> bool {
    p == root || (p.len() > root.len() && p.subrange(0, root.len() as int) == root && (p[
        root.len() as int
    ] == '/' || (root.len() > 0 && root[root.len() as int - 1] == '/')))
}

/// The containment check, on canonical paths: whether `p` is the root or a
/// descendant of it. This is the only security decision of the server; any
/// failure of it means not-found.
pub fn path_contained(root: &str, p: &str) -> (r: bool)
    ensures
        r == contains_path(root@, p@),
{
    let nr = root.unicode_len();
    let np = p.unicode_len();
    if np < nr {
        return false;
    }
    let mut i: usize = 0;
    while i < nr && p.get_char(i) == root.get_char(i)
        invariant
            np == p@.len(),
            nr == root@.len(),
            nr <= np,
            i <= nr,
            forall|j: int| 0 <= j < i ==> p@[j] == root@[j],
        decreases nr - i,
    {
        i += 1;
    }
    if i < nr {
        proof {
            assert(!contains_path(root@, p@)) by {
                assert(p@[i as int] != root@[i as int]);
                if p@ == root@ {
                    assert(p@[i as int] == root@[i as int]);
                }
                if p@.len() > root@.len() && p@.subrange(0, nr as int) == root@ {
                    assert(p@.subrange(0, nr as int)[i as int] == root@[i as int]);
                }
            };
        }
        return false;
    }
    if np == nr {
        proof {
            assert(p@ =~= root@);
        }
        return true;
    }
    proof {
        assert(p@.subrange(0, nr as int) =~= root@);
        assert(p@ != root@);
    }
    if p.get_char(nr) == '/' {
        return true;
    }
    nr > 0 && root.get_char(nr - 1) == '/'
}

/// The root-relative form of a path: for a contained path, the suffix after
/// the root (empty for the root itself); a path outside the root is kept
/// whole.
pub open spec fn spec_root_relative(root: Seq<char>, p: Seq<char>) -> Seq<char> {
    if contains_path(root, p) {
        p.subrange(root.len() as int, p.len() as int)
    } else {
        p
    }
}

/// The root-relative form of a served path, used to build listing links.
pub fn root_relative(root: &str, p: &str) -> (r: String)
    ensures
        r@ == spec_root_relative(root@, p@),
{
    if path_contained(root, p) {
        let nr = root.unicode_len();
        let np = p.unicode_len();
        p.substring_char(nr, np).to_owned()
    } else {
        p.to_owned()
    }
}

/// The resolution decision: a path that canonicalized is served only when
/// the containment check passes; everything else, including a path that did
/// not canonicalize (`None`: it does not exist on disk), is not found.
pub fn resolve_canonical(root: &str, canon: Option<String>) -> (r: Option<String>)
    ensures
        match canon {
            Some(p) => (contains_path(root@, p@) ==> r == Some(p)) && (!contains_path(
                root@,
                p@,
            ) ==> r is None),
            None => r is None,
        },
{
    match canon {
        Some(p) => if path_contained(root, p.as_str()) {
            Some(p)
        } else {
            None
        },
        None => None,
    }
}

/// Law: the root directory is contained in itself, so a request that
/// canonicalizes to the root is never rejected by the containment check.
pub proof fn lemma_root_contained(root: Seq<char>)
    ensures
        contains_path(root, root),
{
}

/// Law: joining any decoded target under the root yields a path that starts
/// inside the root's subtree. An escape is possible only through `..`
/// segments or symlinks, which canonicalization resolves before the
/// containment check re-examines the path.
pub proof fn lemma_join_stays_under_root(root: Seq<char>, target: Seq<char>)
    ensures
        contains_path(root, join_under_root(root, target)),
{
    let j = join_under_root(root, target);
    assert(j.subrange(0, root.len() as int) =~= root);
    assert(j[root.len() as int] == '/');
}

/// Law: a canonical path that does not carry the root as a prefix is never
/// contained, whatever exists on disk at it.
pub proof fn lemma_escape_rejected(root: Seq<char>, p: Seq<char>)
    requires
        p.len() < root.len() || p.subrange(0, root.len() as int) != root,
    ensures
        !contains_path(root, p),
{
    if p == root {
        assert(p.subrange(0, root.len() as int) =~= root);
    }
}

} // verus!
