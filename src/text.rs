//! Decimal numbers, whitespace and dot-separated fields over text.

use vstd::prelude::*;

verus! {

/// The character of the decimal digit `d` (for `d < 10`).
pub open spec fn digit_char(d: nat) -> char {
    ((48 + d) as u32) as char
}

/// An ASCII decimal digit.
pub open spec fn is_digit(c: char) -> bool {
    '0' <= c && c <= '9'
}

/// The value of an ASCII decimal digit.
pub open spec fn digit_value(c: char) -> nat {
    (c as nat - 48) as nat
}

/// The shortest decimal rendering of `n`, most significant digit first.
pub open spec fn dec(n: nat) -> Seq<char>
    decreases n,
{
    if n < 10 {
        seq![digit_char(n)]
    } else {
        dec(n / 10).push(digit_char(n % 10))
    }
}

/// Every character of `s` is a decimal digit.
pub open spec fn all_digits(s: Seq<char>) -> bool {
    forall|i: int| 0 <= i < s.len() ==> #[trigger] is_digit(s[i])
}

/// The number that the digits of `s` write, most significant first.
pub open spec fn digits_value(s: Seq<char>) -> nat
    decreases s.len(),
{
    if s.len() == 0 {
        0
    } else {
        digits_value(s.drop_last()) * 10 + digit_value(s.last())
    }
}

/// The digits that an unsigned number text holds once an optional leading
/// `+` is set aside.
pub open spec fn unsigned_digits(s: Seq<char>) -> Seq<char> {
    if s.len() > 0 && s[0] == '+' {
        s.subrange(1, s.len() as int)
    } else {
        s
    }
}

/// What reading `s` as a `usize` gives: an optional `+`, then one or more
/// decimal digits whose value fits in a `usize`.
pub open spec fn parse_usize_spec(s: Seq<char>) -> Option<nat> {
    let d = unsigned_digits(s);
    if d.len() > 0 && all_digits(d) && digits_value(d) <= usize::MAX {
        Some(digits_value(d))
    } else {
        None
    }
}

proof fn lemma_digit_char(d: nat)
    requires
        d < 10,
    ensures
        digit_char(d) as nat == 48 + d,
        is_digit(digit_char(d)),
        digit_value(digit_char(d)) == d,
        digit_char(d) != '+',
{
}

/// The decimal rendering of a number is a non-empty run of digits that
/// writes the number.
pub proof fn lemma_dec_digits(n: nat)
    ensures
        all_digits(dec(n)),
        dec(n).len() > 0,
        dec(n)[0] != '+',
        digits_value(dec(n)) == n,
    decreases n,
{
    lemma_digit_char(n % 10);
    if n < 10 {
        assert(n % 10 == n);
        assert(dec(n).drop_last() =~= Seq::<char>::empty());
        assert(digits_value(Seq::<char>::empty()) == 0);
    } else {
        lemma_dec_digits(n / 10);
        let s = dec(n);
        assert(s.drop_last() =~= dec(n / 10));
        assert(s.last() == digit_char(n % 10));
        assert(digits_value(s) == digits_value(dec(n / 10)) * 10 + digit_value(digit_char(n % 10)));
        assert(n == (n / 10) * 10 + n % 10);
        assert forall|i: int| 0 <= i < s.len() implies #[trigger] is_digit(s[i]) by {
            if i < s.len() - 1 {
                assert(s[i] == dec(n / 10)[i]);
            }
        }
    }
}

/// Rendering a number and reading it back gives the number.
pub proof fn lemma_parse_dec(n: nat)
    requires
        n <= usize::MAX,
    ensures
        parse_usize_spec(dec(n)) == Some(n),
{
    lemma_dec_digits(n);
}

proof fn lemma_digits_value_prefix_monotone(s: Seq<char>, i: int, j: int)
    requires
        0 <= i <= j <= s.len(),
        all_digits(s),
    ensures
        digits_value(s.subrange(0, i)) <= digits_value(s.subrange(0, j)),
    decreases j - i,
{
    if i < j {
        lemma_digits_value_prefix_monotone(s, i, j - 1);
        assert(s.subrange(0, j).drop_last() =~= s.subrange(0, j - 1));
    }
}

/// The text of one decimal digit `d`.
fn digit_text(d: usize) -> (r: &'static str)
    requires
        d < 10,
    ensures
        r@ == seq![digit_char(d as nat)],
{
    let digits = "0123456789";
    proof {
        reveal_strlit("0123456789");
    }
    let r = digits.substring_char(d, d + 1);
    assert(r@ =~= seq![digit_char(d as nat)]);
    r
}

/// The decimal rendering of `n`.
pub fn render_decimal(n: u128) -> (r: String)
    ensures
        r@ == dec(n as nat),
    decreases n,
{
    if n < 10 {
        String::from_str(digit_text(n as usize))
    } else {
        let mut s = render_decimal(n / 10);
        let d = digit_text((n % 10) as usize);
        s.append(d);
        assert(s@ =~= dec(n as nat));
        s
    }
}

/// Reads `s` as a `usize` the way `str::parse` does: an optional `+`, then
/// one or more decimal digits whose value fits.
pub fn parse_usize(s: &str) -> (r: Option<usize>)
    ensures
        match r {
            Some(v) => parse_usize_spec(s@) == Some(v as nat),
            None => parse_usize_spec(s@) is None,
        },
{
    let len = s.unicode_len();
    let mut start: usize = 0;
    if len > 0 && s.get_char(0) == '+' {
        start = 1;
    }
    let ghost d = unsigned_digits(s@);
    assert(d =~= s@.subrange(start as int, len as int));
    if start == len {
        return None;
    }
    let mut value: usize = 0;
    let mut i: usize = start;
    while i < len
        invariant
            start <= i <= len,
            len == s@.len(),
            d == s@.subrange(start as int, len as int),
            d == unsigned_digits(s@),
            d.len() > 0,
            all_digits(d.subrange(0, i - start)),
            value as nat == digits_value(d.subrange(0, i - start)),
        decreases len - i,
    {
        let c = s.get_char(i);
        if !('0' <= c && c <= '9') {
            assert(!is_digit(d[i - start]));
            return None;
        }
        let dv = (c as u32 - 48) as usize;
        assert forall|k: int| 0 <= k < i + 1 - start implies #[trigger] is_digit(
            d.subrange(0, i + 1 - start)[k],
        ) by {
            if k < i - start {
                assert(d.subrange(0, i + 1 - start)[k] == d.subrange(0, i - start)[k]);
            }
        }
        assert(d.subrange(0, i + 1 - start).drop_last() =~= d.subrange(0, i - start));
        if value > (usize::MAX - dv) / 10 {
            assert(digits_value(d.subrange(0, i + 1 - start)) > usize::MAX) by (nonlinear_arith)
                requires
                    value > (usize::MAX - dv) / 10,
                    digits_value(d.subrange(0, i + 1 - start)) == value * 10 + dv,
                    dv < 10,
            ;
            proof {
                if all_digits(d) {
                    lemma_digits_value_prefix_monotone(d, i + 1 - start, d.len() as int);
                    assert(d.subrange(0, d.len() as int) =~= d);
                }
            }
            return None;
        }
        assert(value * 10 + dv <= usize::MAX) by (nonlinear_arith)
            requires
                value <= (usize::MAX - dv) / 10,
                dv < 10,
        ;
        value = value * 10 + dv;
        i = i + 1;
    }
    assert(d.subrange(0, len - start) =~= d);
    Some(value)
}


/// A character with Unicode's `White_Space` property.
pub open spec fn is_space(c: char) -> bool {
    let v = c as u32;
    (0x09 <= v && v <= 0x0d) || v == 0x20 || v == 0x85 || v == 0xa0 || v == 0x1680 || (0x2000
        <= v && v <= 0x200a) || v == 0x2028 || v == 0x2029 || v == 0x202f || v == 0x205f || v
        == 0x3000
}

/// `s` without the white space at its end.
pub open spec fn trim_end_spec(s: Seq<char>) -> Seq<char>
    decreases s.len(),
{
    if s.len() > 0 && is_space(s.last()) {
        trim_end_spec(s.drop_last())
    } else {
        s
    }
}

/// The fields of `s` between the occurrences of `sep`, in order; a text
/// without `sep` is one field.
pub open spec fn split_spec(s: Seq<char>, sep: char) -> Seq<Seq<char>>
    decreases s.len(),
{
    if s.len() == 0 {
        seq![Seq::<char>::empty()]
    } else {
        let prev = split_spec(s.drop_last(), sep);
        if s.last() == sep {
            prev.push(Seq::<char>::empty())
        } else {
            prev.update(prev.len() - 1, prev.last().push(s.last()))
        }
    }
}

/// Whether `c` is white space.
pub fn is_space_char(c: char) -> (r: bool)
    ensures
        r == is_space(c),
{
    let v = c as u32;
    (0x09 <= v && v <= 0x0d) || v == 0x20 || v == 0x85 || v == 0xa0 || v == 0x1680 || (0x2000
        <= v && v <= 0x200a) || v == 0x2028 || v == 0x2029 || v == 0x202f || v == 0x205f || v
        == 0x3000
}

/// `s` with the white space at its end removed.
pub fn trim_end(s: &str) -> (r: String)
    ensures
        r@ == trim_end_spec(s@),
{
    let mut j = s.unicode_len();
    assert(s@.subrange(0, j as int) =~= s@);
    while j > 0 && is_space_char(s.get_char(j - 1))
        invariant
            j <= s@.len(),
            trim_end_spec(s@) == trim_end_spec(s@.subrange(0, j as int)),
        decreases j,
    {
        assert(s@.subrange(0, j as int).drop_last() =~= s@.subrange(0, j - 1));
        j = j - 1;
    }
    let r = String::from_str(s.substring_char(0, j));
    r
}

/// The fields of `s` between its dots.
pub fn split_dots(s: &str) -> (r: Vec<String>)
    ensures
        r@.len() == split_spec(s@, '.').len(),
        forall|k: int| 0 <= k < r@.len() ==> #[trigger] r@[k]@ == split_spec(s@, '.')[k],
{
    let len = s.unicode_len();
    let mut fields: Vec<String> = Vec::new();
    let ghost mut fv: Seq<Seq<char>> = Seq::empty();
    let mut start: usize = 0;
    let mut i: usize = 0;
    assert(s@.subrange(0, 0) =~= Seq::<char>::empty());
    assert(fv.push(s@.subrange(0, 0)) =~= seq![Seq::<char>::empty()]);
    while i < len
        invariant
            start <= i <= len,
            len == s@.len(),
            fields@.len() == fv.len(),
            forall|k: int| 0 <= k < fv.len() ==> #[trigger] fields@[k]@ == fv[k],
            split_spec(s@.subrange(0, i as int), '.') == fv.push(s@.subrange(start as int, i as int)),
        decreases len - i,
    {
        let c = s.get_char(i);
        assert(s@.subrange(0, i + 1).drop_last() =~= s@.subrange(0, i as int));
        if c == '.' {
            let f = String::from_str(s.substring_char(start, i));
            fields.push(f);
            proof {
                fv = fv.push(s@.subrange(start as int, i as int));
                assert(s@.subrange(i + 1, i + 1) =~= Seq::<char>::empty());
            }
            start = i + 1;
        } else {
            assert(s@.subrange(start as int, i as int).push(c) =~= s@.subrange(start as int, i + 1));
            assert(fv.push(s@.subrange(start as int, i as int)).update(fv.len() as int, s@.subrange(start as int, i + 1)) =~= fv.push(s@.subrange(start as int, i + 1)));
        }
        i = i + 1;
    }
    let last = String::from_str(s.substring_char(start, len));
    fields.push(last);
    proof {
        assert(s@.subrange(0, len as int) =~= s@);
        fv = fv.push(s@.subrange(start as int, len as int));
    }
    fields
}

} // verus!
