//! Character-sequence helpers shared by the parsers of this crate.
//!
//! Strings are modelled by their sequence of characters. Executable code works
//! on a `Vec<char>` copy of a string and on index ranges into it.

use vstd::prelude::*;
use crate::seqs::{first_index, lemma_first_index};

verus! {

/// What `char::is_whitespace` of the standard library answers for `c`
/// (the Unicode property `White_Space`).
pub uninterp spec fn unicode_whitespace(c: char) -> bool;

/// What `str::to_lowercase` of the standard library returns for the text `s`.
pub uninterp spec fn lowercase(s: Seq<char>) -> Seq<char>;

/// Calls `char::is_whitespace`; the contract only gives its answer a name.
#[verifier::external_body]
pub(crate) fn is_whitespace(c: char) -> (r: bool)
    ensures
        r == unicode_whitespace(c),
{
    c.is_whitespace()
}

/// Calls `str::to_lowercase`; the contract only gives its result a name.
#[verifier::external_body]
pub(crate) fn to_lowercase(s: &str) -> (r: String)
    ensures
        r@ == lowercase(s@),
{
    s.to_lowercase()
}

/// Appends one character to a string: `String::push` of the standard library.
/// The contract claims that the new contents are the old contents followed by `c`.
#[verifier::external_body]
pub(crate) fn push_char(s: &mut String, c: char)
    ensures
        final(s)@ == old(s)@.push(c),
{
    s.push(c)
}

/// The characters of `s`, in order.
pub fn chars_of(s: &str) -> (out: Vec<char>)
    ensures
        out@ == s@,
{
    let n: usize = s.unicode_len();
    let mut out: Vec<char> = Vec::new();
    let mut i: usize = 0;
    while i < n
        invariant
            n == s@.len(),
            i <= n,
            out@ == s@.subrange(0, i as int),
        decreases n - i,
    {
        let c: char = s.get_char(i);
        out.push(c);
        i = i + 1;
        assert(out@ =~= s@.subrange(0, i as int));
    }
    assert(s@.subrange(0, n as int) =~= s@);
    out
}

/// The string made of the characters `cs[from..to]`.
pub fn string_of(cs: &Vec<char>, from: usize, to: usize) -> (out: String)
    requires
        from <= to <= cs@.len(),
    ensures
        out@ == cs@.subrange(from as int, to as int),
{
    let mut out: String = String::new();
    let mut i: usize = from;
    while i < to
        invariant
            from <= i <= to <= cs@.len(),
            out@ == cs@.subrange(from as int, i as int),
        decreases to - i,
    {
        push_char(&mut out, cs[i]);
        i = i + 1;
        assert(out@ =~= cs@.subrange(from as int, i as int));
    }
    out
}

/// Whether two character vectors are equal element by element.
pub fn same_chars(x: &Vec<char>, y: &Vec<char>) -> (r: bool)
    ensures
        r == (x@ == y@),
{
    if x.len() != y.len() {
        return false;
    }
    let mut i: usize = 0;
    while i < x.len()
        invariant
            x@.len() == y@.len(),
            i <= x@.len(),
            forall|k: int| 0 <= k < i ==> x@[k] == y@[k],
        decreases x@.len() - i,
    {
        if x[i] != y[i] {
            return false;
        }
        i = i + 1;
    }
    assert(x@ =~= y@);
    true
}

/// Whether two strings hold the same characters.
pub fn same_text(a: &str, b: &str) -> (r: bool)
    ensures
        r == (a@ == b@),
{
    let x: Vec<char> = chars_of(a);
    let y: Vec<char> = chars_of(b);
    same_chars(&x, &y)
}

/// The pieces of `s` between occurrences of `sep`, in order. A text without
/// `sep` is one piece; `n` separators give `n + 1` pieces, empty ones included.
pub open spec fn split(s: Seq<char>, sep: char) -> Seq<Seq<char>>
    decreases s.len(),
{
    let i = first_index(s, sep);
    if 0 <= i < s.len() {
        seq![s.subrange(0, i)] + split(s.subrange(i + 1, s.len() as int), sep)
    } else {
        seq![s]
    }
}

/// Position in `cs` of the first `c` at or after `from`, or `cs.len()`.
pub fn find_char(cs: &Vec<char>, c: char, from: usize) -> (at: usize)
    requires
        from <= cs@.len(),
    ensures
        from <= at <= cs@.len(),
        at == from + first_index(cs@.subrange(from as int, cs@.len() as int), c),
{
    let mut i: usize = from;
    while i < cs.len() && cs[i] != c
        invariant
            from <= i <= cs@.len(),
            forall|k: int| from <= k < i ==> cs@[k] != c,
        decreases cs@.len() - i,
    {
        i = i + 1;
    }
    proof {
        let t = cs@.subrange(from as int, cs@.len() as int);
        assert forall|k: int| 0 <= k < i - from implies t[k] != c by {
            assert(t[k] == cs@[from + k]);
        }
        lemma_first_index(t, c, i - from);
    }
    i
}

/// The characters of `s` in the index range `r`.
pub open spec fn piece(s: Seq<char>, r: (usize, usize)) -> Seq<char> {
    s.subrange(r.0 as int, r.1 as int)
}

/// Whether each range of `ranges` lies in `s` and is, in order, a piece of `pieces`.
pub open spec fn ranges_cover(s: Seq<char>, ranges: Seq<(usize, usize)>, pieces: Seq<Seq<char>>) -> bool {
    &&& ranges.len() == pieces.len()
    &&& forall|k: int|
        0 <= k < ranges.len() ==> {
            &&& (#[trigger] ranges[k]).0 <= ranges[k].1 <= s.len()
            &&& pieces[k] == piece(s, ranges[k])
        }
}

/// Index ranges of the pieces of `cs` between occurrences of `sep`.
pub fn split_ranges(cs: &Vec<char>, sep: char) -> (out: Vec<(usize, usize)>)
    ensures
        ranges_cover(cs@, out@, split(cs@, sep)),
{
    let n: usize = cs.len();
    let mut out: Vec<(usize, usize)> = Vec::new();
    let mut start: usize = 0;
    let ghost mut done: Seq<Seq<char>> = Seq::empty();
    proof {
        assert(cs@.subrange(0, n as int) =~= cs@);
    }
    loop
        invariant_except_break
            start <= n,
            ranges_cover(cs@, out@, done),
            split(cs@, sep) == done + split(cs@.subrange(start as int, n as int), sep),
        invariant
            n == cs@.len(),
        ensures
            ranges_cover(cs@, out@, split(cs@, sep)),
        decreases n - start,
    {
        let at: usize = find_char(cs, sep, start);
        let ghost rest = cs@.subrange(start as int, n as int);
        let ghost part = cs@.subrange(start as int, at as int);
        let ghost old_out = out@;
        let ghost old_done = done;
        proof {
            assert(rest.subrange(0, at - start) =~= part);
        }
        out.push((start, at));
        proof {
            done = old_done.push(part);
            assert forall|k: int| 0 <= k < out@.len() implies {
                &&& (#[trigger] out@[k]).0 <= out@[k].1 <= cs@.len()
                &&& done[k] == piece(cs@, out@[k])
            } by {
                if k < old_out.len() {
                    assert(out@[k] == old_out[k]);
                    assert(done[k] == old_done[k]);
                }
            }
        }
        if at >= n {
            proof {
                assert(part =~= rest);
                assert(split(rest, sep) == seq![rest]);
                assert(split(cs@, sep) =~= done);
            }
            break;
        }
        proof {
            assert(rest.subrange(at - start + 1, rest.len() as int) =~= cs@.subrange(
                at + 1,
                n as int,
            ));
            assert(split(rest, sep) == seq![part] + split(cs@.subrange(at + 1, n as int), sep));
            assert(old_done + (seq![part] + split(cs@.subrange(at + 1, n as int), sep)) =~= done
                + split(cs@.subrange(at + 1, n as int), sep));
        }
        start = at + 1;
    }
    out
}

/// `s` without the whitespace at its start.
pub open spec fn trim_start(s: Seq<char>) -> Seq<char>
    decreases s.len(),
{
    if s.len() > 0 && unicode_whitespace(s[0]) {
        trim_start(s.drop_first())
    } else {
        s
    }
}

/// `s` without the whitespace at its end.
pub open spec fn trim_end(s: Seq<char>) -> Seq<char>
    decreases s.len(),
{
    if s.len() > 0 && unicode_whitespace(s.last()) {
        trim_end(s.drop_last())
    } else {
        s
    }
}

/// `s` without the whitespace at either end.
pub open spec fn trim(s: Seq<char>) -> Seq<char> {
    trim_end(trim_start(s))
}

/// Whether `(a, b)` is the part of `from..to` that is left when the marked
/// positions at either end are dropped: every position before `a` and from
/// `b` on is marked, and the part neither starts nor ends with a marked one.
pub open spec fn is_unmarked_core(marks: Seq<bool>, from: int, to: int, a: int, b: int) -> bool {
    &&& from <= a <= b <= to
    &&& forall|k: int| from <= k < a ==> marks[k]
    &&& forall|k: int| b <= k < to ==> marks[k]
    &&& a < b ==> !marks[a] && !marks[b - 1]
}

/// The part of `from..to` that is left when the marked positions at either
/// end are dropped.
pub fn unmarked_core(marks: &Vec<bool>, from: usize, to: usize) -> (r: (usize, usize))
    requires
        from <= to <= marks@.len(),
    ensures
        is_unmarked_core(marks@, from as int, to as int, r.0 as int, r.1 as int),
{
    let mut a: usize = from;
    while a < to && marks[a]
        invariant
            from <= a <= to <= marks@.len(),
            forall|k: int| from <= k < a ==> marks@[k],
        decreases to - a,
    {
        a = a + 1;
    }
    let mut b: usize = to;
    while a < b && marks[b - 1]
        invariant
            a <= b <= to <= marks@.len(),
            forall|k: int| b <= k < to ==> marks@[k],
        decreases b - a,
    {
        b = b - 1;
    }
    (a, b)
}

/// For each character whether it is whitespace.
pub fn whitespace_marks(cs: &Vec<char>) -> (marks: Vec<bool>)
    ensures
        marks@.len() == cs@.len(),
        forall|k: int| 0 <= k < cs@.len() ==> marks@[k] == unicode_whitespace(cs@[k]),
{
    let mut marks: Vec<bool> = Vec::new();
    let mut i: usize = 0;
    while i < cs.len()
        invariant
            i <= cs@.len(),
            marks@.len() == i,
            forall|k: int| 0 <= k < i ==> marks@[k] == unicode_whitespace(cs@[k]),
        decreases cs@.len() - i,
    {
        marks.push(is_whitespace(cs[i]));
        i = i + 1;
    }
    marks
}

/// Dropping the whitespace at the start of `s[from..to]` leaves `s[a..to]`
/// if everything before `a` is whitespace and `a` is not.
pub proof fn lemma_trim_start(s: Seq<char>, from: int, to: int, a: int)
    requires
        0 <= from <= a <= to <= s.len(),
        forall|k: int| from <= k < a ==> unicode_whitespace(s[k]),
        a < to ==> !unicode_whitespace(s[a]),
    ensures
        trim_start(s.subrange(from, to)) == s.subrange(a, to),
    decreases a - from,
{
    let t = s.subrange(from, to);
    if from < a {
        assert(t[0] == s[from]);
        assert(t.drop_first() =~= s.subrange(from + 1, to));
        lemma_trim_start(s, from + 1, to, a);
    } else if a < to {
        assert(t[0] == s[a]);
    }
}

/// Dropping the whitespace at the end of `s[a..to]` leaves `s[a..b]` if
/// everything from `b` on is whitespace and the character before `b` is not.
pub proof fn lemma_trim_end(s: Seq<char>, a: int, to: int, b: int)
    requires
        0 <= a <= b <= to <= s.len(),
        forall|k: int| b <= k < to ==> unicode_whitespace(s[k]),
        a < b ==> !unicode_whitespace(s[b - 1]),
    ensures
        trim_end(s.subrange(a, to)) == s.subrange(a, b),
    decreases to - b,
{
    let t = s.subrange(a, to);
    if b < to {
        assert(t.last() == s[to - 1]);
        assert(t.drop_last() =~= s.subrange(a, to - 1));
        lemma_trim_end(s, a, to - 1, b);
    } else if a < b {
        assert(t.last() == s[b - 1]);
    }
}

/// The index range of `cs[from..to]` without the whitespace at either end.
pub fn trim_range(cs: &Vec<char>, from: usize, to: usize) -> (r: (usize, usize))
    requires
        from <= to <= cs@.len(),
    ensures
        from <= r.0 <= r.1 <= to,
        cs@.subrange(r.0 as int, r.1 as int) == trim(cs@.subrange(from as int, to as int)),
{
    let marks: Vec<bool> = whitespace_marks(cs);
    let (a, b): (usize, usize) = unmarked_core(&marks, from, to);
    proof {
        assert forall|k: int| from <= k < a || b <= k < to implies unicode_whitespace(cs@[k]) by {
            assert(marks@[k]);
        }
        if a < b {
            assert(!marks@[a as int] && !marks@[b - 1]);
            lemma_trim_start(cs@, from as int, to as int, a as int);
            lemma_trim_end(cs@, a as int, to as int, b as int);
        } else {
            lemma_trim_start(cs@, from as int, to as int, to as int);
            assert(cs@.subrange(to as int, to as int) =~= cs@.subrange(a as int, b as int));
            assert(trim_end(cs@.subrange(to as int, to as int)) == cs@.subrange(
                to as int,
                to as int,
            ));
        }
    }
    (a, b)
}

/// Whether `needle` occurs in `s` as a contiguous run.
pub open spec fn contains_run(s: Seq<char>, needle: Seq<char>) -> bool {
    exists|i: int|
        0 <= i && i + needle.len() <= s.len() && #[trigger] s.subrange(i, i + needle.len())
            == needle
}

/// Whether `needle` stands in `cs` at position `at`.
pub fn run_at(cs: &Vec<char>, needle: &Vec<char>, at: usize) -> (r: bool)
    requires
        at + needle@.len() <= cs@.len(),
    ensures
        r == (cs@.subrange(at as int, at + needle@.len()) == needle@),
{
    let n: usize = cs.len();
    let mut j: usize = 0;
    while j < needle.len()
        invariant
            n == cs@.len(),
            at + needle@.len() <= cs@.len(),
            j <= needle@.len(),
            forall|k: int| 0 <= k < j ==> cs@[at + k] == needle@[k],
        decreases needle@.len() - j,
    {
        if cs[at + j] != needle[j] {
            proof {
                let t = cs@.subrange(at as int, at + needle@.len());
                assert(t[j as int] == cs@[at + j]);
            }
            return false;
        }
        j = j + 1;
    }
    assert(cs@.subrange(at as int, at + needle@.len()) =~= needle@);
    true
}

/// Whether `needle` occurs in `cs`.
pub fn contains_chars(cs: &Vec<char>, needle: &Vec<char>) -> (r: bool)
    ensures
        r == contains_run(cs@, needle@),
{
    if needle.len() > cs.len() {
        return false;
    }
    if needle.len() == 0 {
        assert(cs@.subrange(0int, 0int + needle@.len()) =~= needle@);
        return true;
    }
    let last: usize = cs.len() - needle.len();
    let mut i: usize = 0;
    while i <= last
        invariant
            last == cs@.len() - needle@.len(),
            last < usize::MAX,
            i <= last + 1,
            forall|k: int| 0 <= k < i ==> #[trigger] cs@.subrange(k, k + needle@.len()) != needle@,
        decreases last + 1 - i,
    {
        if run_at(cs, needle, i) {
            return true;
        }
        i = i + 1;
    }
    false
}

/// The decimal digit with value `d`.
pub open spec fn digit_char(d: int) -> char
    recommends
        0 <= d < 10,
{
    if d == 0 {
        '0'
    } else if d == 1 {
        '1'
    } else if d == 2 {
        '2'
    } else if d == 3 {
        '3'
    } else if d == 4 {
        '4'
    } else if d == 5 {
        '5'
    } else if d == 6 {
        '6'
    } else if d == 7 {
        '7'
    } else if d == 8 {
        '8'
    } else {
        '9'
    }
}

/// The decimal numeral of `n`, without sign or leading zeros (`0` is `"0"`).
pub open spec fn decimal(n: nat) -> Seq<char>
    decreases n,
{
    if n < 10 {
        seq![digit_char(n as int)]
    } else {
        decimal(n / 10).push(digit_char((n % 10) as int))
    }
}

/// The digit character for a value below ten.
pub fn digit_to_char(d: u8) -> (c: char)
    requires
        d < 10,
    ensures
        c == digit_char(d as int),
{
    if d == 0 {
        '0'
    } else if d == 1 {
        '1'
    } else if d == 2 {
        '2'
    } else if d == 3 {
        '3'
    } else if d == 4 {
        '4'
    } else if d == 5 {
        '5'
    } else if d == 6 {
        '6'
    } else if d == 7 {
        '7'
    } else if d == 8 {
        '8'
    } else {
        '9'
    }
}

/// Appends the decimal numeral of `n` to `out`.
pub fn push_decimal(out: &mut String, n: u64)
    ensures
        final(out)@ == old(out)@ + decimal(n as nat),
    decreases n,
{
    if n < 10 {
        push_char(out, digit_to_char(n as u8));
        assert(final(out)@ =~= old(out)@ + decimal(n as nat));
    } else {
        push_decimal(out, n / 10);
        push_char(out, digit_to_char((n % 10) as u8));
        assert(final(out)@ =~= old(out)@ + decimal(n as nat));
    }
}

/// Appends the characters of `s` to `out`.
pub fn push_text(out: &mut String, s: &str)
    ensures
        final(out)@ == old(out)@ + s@,
{
    out.append(s);
}

} // verus!
