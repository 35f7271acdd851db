//! File-system paths, held as text with `/` between components.

use vstd::prelude::*;

verus! {

/// `comp` appended to `base` as a further component; an absolute `comp`
/// replaces `base`.
pub open spec fn join_spec(base: Seq<char>, comp: Seq<char>) -> Seq<char> {
    if comp.len() > 0 && comp[0] == '/' {
        comp
    } else if base.len() == 0 {
        comp
    } else if base.last() == '/' {
        base + comp
    } else {
        base + seq!['/'] + comp
    }
}

/// Where the last component of `p` starts: just after its last `/`, or 0.
pub open spec fn name_start(p: Seq<char>) -> int
    decreases p.len(),
{
    if p.len() == 0 {
        0
    } else if p.last() == '/' {
        p.len() as int
    } else {
        name_start(p.drop_last())
    }
}

/// The position of the last `.` of `p` at or after `from`, or -1.
pub open spec fn last_dot_from(p: Seq<char>, from: int) -> int
    decreases p.len(),
{
    if p.len() == 0 || p.len() <= from {
        -1
    } else if p.last() == '.' {
        p.len() - 1
    } else {
        last_dot_from(p.drop_last(), from)
    }
}

/// `p` without the extension of its last component: the last `.` of that
/// component and what follows go, unless the `.` opens the component or the
/// component is `..`.
pub open spec fn strip_ext_spec(p: Seq<char>) -> Seq<char> {
    let s = name_start(p);
    let d = last_dot_from(p, s);
    if d > s && p.subrange(s, p.len() as int) != seq!['.', '.'] {
        p.subrange(0, d)
    } else {
        p
    }
}

/// `p` with its extension replaced by `ext`.
pub open spec fn with_ext_spec(p: Seq<char>, ext: Seq<char>) -> Seq<char> {
    strip_ext_spec(p) + seq!['.'] + ext
}

/// `base/comp`.
pub fn join_path(base: &str, comp: &str) -> (r: String)
    ensures
        r@ == join_spec(base@, comp@),
{
    let blen = base.unicode_len();
    if comp.unicode_len() > 0 && comp.get_char(0) == '/' {
        String::from_str(comp)
    } else if blen == 0 {
        String::from_str(comp)
    } else if base.get_char(blen - 1) == '/' {
        let mut r = String::from_str(base);
        r.append(comp);
        r
    } else {
        let mut r = String::from_str(base);
        r.append("/");
        r.append(comp);
        proof {
            reveal_strlit("/");
        }
        r
    }
}

/// `base/a/b`.
pub fn join_path2(base: &str, a: &str, b: &str) -> (r: String)
    ensures
        r@ == join_spec(join_spec(base@, a@), b@),
{
    let p = join_path(base, a);
    join_path(p.as_str(), b)
}

/// `p` without the extension of its last component.
pub fn strip_extension(p: &str) -> (r: String)
    ensures
        r@ == strip_ext_spec(p@),
{
    let len = p.unicode_len();
    let mut j = len;
    assert(p@.subrange(0, len as int) =~= p@);
    while j > 0 && p.get_char(j - 1) != '/'
        invariant
            j <= len,
            len == p@.len(),
            name_start(p@) == name_start(p@.subrange(0, j as int)),
        decreases j,
    {
        assert(p@.subrange(0, j as int).drop_last() =~= p@.subrange(0, j - 1));
        j = j - 1;
    }
    let s = j;
    assert(name_start(p@) == s as int);
    let mut k = len;
    while k > s && p.get_char(k - 1) != '.'
        invariant
            s <= k <= len,
            len == p@.len(),
            last_dot_from(p@, s as int) == last_dot_from(p@.subrange(0, k as int), s as int),
        decreases k,
    {
        assert(p@.subrange(0, k as int).drop_last() =~= p@.subrange(0, k - 1));
        k = k - 1;
    }
    if k > s {
        assert(p@.subrange(0, k as int).last() == '.');
    }
    let dotdot = len - s == 2 && p.get_char(s) == '.' && p.get_char(s + 1) == '.';
    assert(dotdot == (p@.subrange(s as int, len as int) =~= seq!['.', '.']));
    if k > s && k - 1 > s && !dotdot {
        String::from_str(p.substring_char(0, k - 1))
    } else {
        String::from_str(p)
    }
}

/// `p` with its extension replaced by `ext`.
pub fn with_extension(p: &str, ext: &str) -> (r: String)
    ensures
        r@ == with_ext_spec(p@, ext@),
{
    let mut r = strip_extension(p);
    r.append(".");
    r.append(ext);
    proof {
        reveal_strlit(".");
    }
    assert(r@ =~= with_ext_spec(p@, ext@));
    r
}

} // verus!
