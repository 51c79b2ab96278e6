//! Joining of path components, as a Unix path is extended by another.

use vstd::prelude::*;

verus! {

/// `part` joined onto `base`: an absolute `part` replaces `base`, an empty
/// `base` yields `part`, and otherwise exactly one `/` stands between them.
pub open spec fn join_path(base: Seq<char>, part: Seq<char>) -> Seq<char> {
    if part.len() > 0 && part[0] == '/' {
        part
    } else if base.len() == 0 {
        part
    } else if base.last() == '/' {
        base + part
    } else {
        base + seq!['/'] + part
    }
}

/// Extends the path `base` by `part`.
pub fn join(base: &str, part: &str) -> (r: String)
    ensures
        r@ == join_path(base@, part@),
{
    let part_len = part.unicode_len();
    if part_len > 0 && part.get_char(0) == '/' {
        return String::from_str(part);
    }
    let base_len = base.unicode_len();
    if base_len == 0 {
        return String::from_str(part);
    }
    let mut r = String::from_str(base);
    if base.get_char(base_len - 1) != '/' {
        proof {
            reveal_strlit("/");
        }
        r.append("/");
    }
    r.append(part);
    proof {
        if base@.last() == '/' {
            assert(r@ =~= base@ + part@);
        } else {
            assert(r@ =~= base@ + seq!['/'] + part@);
        }
    }
    r
}

/// A path joined onto another ends with the joined part, when that part is
/// relative.
pub proof fn lemma_join_ends_with(base: Seq<char>, part: Seq<char>)
    requires
        part.len() > 0,
        part[0] != '/',
    ensures
        join_path(base, part).len() >= part.len(),
        join_path(base, part).subrange(
            join_path(base, part).len() - part.len(),
            join_path(base, part).len() as int,
        ) =~= part,
{
}

/// Joining the same relative, non-empty part onto two paths that do not end
/// with `/` keeps them apart.
pub proof fn lemma_join_keeps_apart(a: Seq<char>, b: Seq<char>, part: Seq<char>)
    requires
        a.len() > 0,
        b.len() > 0,
        a.last() != '/',
        b.last() != '/',
        part.len() > 0,
        part[0] != '/',
        a != b,
    ensures
        join_path(a, part) != join_path(b, part),
{
    let ja = join_path(a, part);
    let jb = join_path(b, part);
    assert(ja == a + seq!['/'] + part);
    assert(jb == b + seq!['/'] + part);
    if ja == jb {
        assert(ja.len() == a.len() + 1 + part.len());
        assert(a.len() == b.len());
        assert(a =~= ja.subrange(0, a.len() as int));
        assert(b =~= jb.subrange(0, b.len() as int));
    }
}

} // verus!
