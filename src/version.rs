//! Kernel versions `MAJ.MIN[.MIC]`: reading, rendering and the names that
//! derive from them.

use vstd::prelude::*;

use crate::error::Error;
use crate::text::{
    dec, lemma_dec_digits, lemma_parse_dec, parse_usize, parse_usize_spec, render_decimal,
    split_dots, split_spec, is_digit,
};

verus! {

/// A kernel version: major, minor and micro numbers.
#[derive(Debug, Clone, Copy, PartialEq, Eq, Structural, PartialOrd, Ord)]
pub struct Version {
    pub maj: usize,
    pub min: usize,
    pub mic: usize,
}

/// `M.N`, the series a version belongs to.
pub open spec fn short_spec(v: Version) -> Seq<char> {
    dec(v.maj as nat) + seq!['.'] + dec(v.min as nat)
}

/// `M.N.P`, the full rendering of a version.
pub open spec fn render_spec(v: Version) -> Seq<char> {
    short_spec(v) + seq!['.'] + dec(v.mic as nat)
}

/// The name of the directory of local patches for a version: `M.N` while
/// the micro number is 0, `M.N.P` after.
pub open spec fn patch_dir_spec(v: Version) -> Seq<char> {
    if v.mic == 0 {
        short_spec(v)
    } else {
        render_spec(v)
    }
}

/// The version that the text `s` writes, if any: two or three dot-separated
/// numbers, the major one at least 1; a missing micro number is 0.
pub open spec fn version_spec(s: Seq<char>) -> Option<Version> {
    let f = split_spec(s, '.');
    if f.len() != 2 && f.len() != 3 {
        None
    } else {
        let a = parse_usize_spec(f[0]);
        let b = parse_usize_spec(f[1]);
        let c = if f.len() == 3 {
            parse_usize_spec(f[2])
        } else {
            Some(0nat)
        };
        if a is Some && b is Some && c is Some && a->0 >= 1 {
            Some(Version { maj: a->0 as usize, min: b->0 as usize, mic: c->0 as usize })
        } else {
            None
        }
    }
}

/// Whether `s` has the two or three fields that a version needs.
pub open spec fn version_arity_ok(s: Seq<char>) -> bool {
    split_spec(s, '.').len() == 2 || split_spec(s, '.').len() == 3
}

/// The first field of `s` that is not a number (or, for the major field, is
/// 0), when `s` has a version's arity but is no version.
pub open spec fn first_bad_field(s: Seq<char>) -> Seq<char> {
    let f = split_spec(s, '.');
    if parse_usize_spec(f[0]) is None || parse_usize_spec(f[0]) == Some(0nat) {
        f[0]
    } else if parse_usize_spec(f[1]) is None {
        f[1]
    } else {
        f[2]
    }
}

/// Reads a version from `s` (`M.N` or `M.N.P`).
pub fn make_version(s: &str) -> (r: Result<Version, Error>)
    ensures
        match r {
            Ok(v) => version_spec(s@) == Some(v),
            Err(Error::InvalidVersionFormat { orig }) => !version_arity_ok(s@) && orig@ == s@,
            Err(Error::InvalidVersionNumber { string }) => version_arity_ok(s@)
                && version_spec(s@) is None && string@ == first_bad_field(s@),
            Err(_) => false,
        },
{
    let fields = split_dots(s);
    let n = fields.len();
    if n != 2 && n != 3 {
        return Err(Error::InvalidVersionFormat { orig: String::from_str(s) });
    }
    let maj = match parse_usize(fields[0].as_str()) {
        Some(x) => x,
        None => return Err(Error::InvalidVersionNumber { string: fields[0].clone() }),
    };
    if maj == 0 {
        return Err(Error::InvalidVersionNumber { string: fields[0].clone() });
    }
    let min = match parse_usize(fields[1].as_str()) {
        Some(x) => x,
        None => return Err(Error::InvalidVersionNumber { string: fields[1].clone() }),
    };
    let mic = if n == 3 {
        match parse_usize(fields[2].as_str()) {
            Some(x) => x,
            None => return Err(Error::InvalidVersionNumber { string: fields[2].clone() }),
        }
    } else {
        0
    };
    Ok(Version { maj, min, mic })
}

impl Version {
    /// `M.N.P`.
    pub fn render(&self) -> (r: String)
        ensures
            r@ == render_spec(*self),
    {
        let mut s = self.render_short();
        s.append(".");
        let m = render_decimal(self.mic as u128);
        s.append(m.as_str());
        proof {
            reveal_strlit(".");
        }
        assert(s@ =~= render_spec(*self));
        s
    }

    /// `M.N`.
    pub fn render_short(&self) -> (r: String)
        ensures
            r@ == short_spec(*self),
    {
        let mut s = render_decimal(self.maj as u128);
        s.append(".");
        let m = render_decimal(self.min as u128);
        s.append(m.as_str());
        proof {
            reveal_strlit(".");
        }
        assert(s@ =~= short_spec(*self));
        s
    }

    /// The name of the directory holding the local patches of this version.
    pub fn patch_dir_name(&self) -> (r: String)
        ensures
            r@ == patch_dir_spec(*self),
    {
        if self.mic == 0 {
            self.render_short()
        } else {
            self.render()
        }
    }
}

proof fn lemma_split_single(t: Seq<char>, sep: char)
    requires
        !t.contains(sep),
    ensures
        split_spec(t, sep) == seq![t],
    decreases t.len(),
{
    if t.len() == 0 {
        assert(t =~= Seq::<char>::empty());
        assert(split_spec(t, sep) =~= seq![t]);
    } else {
        assert(!t.drop_last().contains(sep)) by {
            if t.drop_last().contains(sep) {
                let k = choose|k: int| 0 <= k < t.drop_last().len() && t.drop_last()[k] == sep;
                assert(t[k] == sep);
            }
        }
        lemma_split_single(t.drop_last(), sep);
        assert(t[t.len() - 1] == t.last());
        assert(t.drop_last().push(t.last()) =~= t);
        assert(split_spec(t, sep) =~= seq![t]);
    }
}

proof fn lemma_split_append(p: Seq<char>, t: Seq<char>, sep: char)
    requires
        !t.contains(sep),
    ensures
        split_spec(p + seq![sep] + t, sep) == split_spec(p, sep).push(t),
    decreases t.len(),
{
    let s = p + seq![sep] + t;
    if t.len() == 0 {
        assert(s.drop_last() =~= p);
        assert(s.last() == sep);
        assert(t =~= Seq::<char>::empty());
        assert(split_spec(s, sep) =~= split_spec(p, sep).push(t));
    } else {
        assert(!t.drop_last().contains(sep)) by {
            if t.drop_last().contains(sep) {
                let k = choose|k: int| 0 <= k < t.drop_last().len() && t.drop_last()[k] == sep;
                assert(t[k] == sep);
            }
        }
        lemma_split_append(p, t.drop_last(), sep);
        assert(s.drop_last() =~= p + seq![sep] + t.drop_last());
        assert(s.last() == t.last());
        assert(t[t.len() - 1] == t.last());
        assert(t.drop_last().push(t.last()) =~= t);
        assert(split_spec(s, sep) =~= split_spec(p, sep).push(t));
    }
}

proof fn lemma_dec_no_dot(n: nat)
    requires
        n <= usize::MAX,
    ensures
        !dec(n).contains('.'),
        parse_usize_spec(dec(n)) == Some(n),
{
    lemma_parse_dec(n);
    lemma_dec_digits(n);
    if dec(n).contains('.') {
        let k = choose|k: int| 0 <= k < dec(n).len() && dec(n)[k] == '.';
        assert(is_digit(dec(n)[k]));
    }
}

/// Rendering a version in full and reading it back gives the same version
/// (a version's major number is at least 1).
pub proof fn lemma_version_round_trip(v: Version)
    requires
        v.maj >= 1,
    ensures
        version_spec(render_spec(v)) == Some(v),
{
    lemma_dec_no_dot(v.maj as nat);
    lemma_dec_no_dot(v.min as nat);
    lemma_dec_no_dot(v.mic as nat);
    lemma_split_single(dec(v.maj as nat), '.');
    lemma_split_append(dec(v.maj as nat), dec(v.min as nat), '.');
    lemma_split_append(short_spec(v), dec(v.mic as nat), '.');
    let f = split_spec(render_spec(v), '.');
    assert(f =~= seq![dec(v.maj as nat), dec(v.min as nat), dec(v.mic as nat)]);
}

/// Reading the series `M.N` of a version gives that version with micro 0.
pub proof fn lemma_short_round_trip(v: Version)
    requires
        v.maj >= 1,
    ensures
        version_spec(short_spec(v)) == Some(Version { mic: 0, ..v }),
{
    lemma_dec_no_dot(v.maj as nat);
    lemma_dec_no_dot(v.min as nat);
    lemma_split_single(dec(v.maj as nat), '.');
    lemma_split_append(dec(v.maj as nat), dec(v.min as nat), '.');
    let f = split_spec(short_spec(v), '.');
    assert(f =~= seq![dec(v.maj as nat), dec(v.min as nat)]);
}

/// A text of two fields that reads as a version has micro number 0.
pub proof fn lemma_two_fields_micro_zero(s: Seq<char>)
    requires
        split_spec(s, '.').len() == 2,
        version_spec(s) is Some,
    ensures
        version_spec(s)->0.mic == 0,
{
}

} // verus!
