//! Lenient reading and comparison of server version strings.
//!
//! A version is `major[.minor[.patch]]`, optionally led by `v` and followed by
//! a suffix that starts at the first `-`. Missing components count as zero;
//! anything after the third component is ignored.

use vstd::prelude::*;
use crate::seqs::{first_index, lemma_first_index};
use crate::text::{
    chars_of, contains_chars, contains_run, piece, ranges_cover, split, split_ranges, trim,
    trim_range,
};

verus! {

/// Whether `c` is one of `0` to `9`.
pub open spec fn is_digit(c: char) -> bool {
    48 <= c as u32 <= 57
}

/// The value of the digit `c`.
pub open spec fn digit_value(c: char) -> nat
    recommends
        is_digit(c),
{
    (c as u32 - 48) as nat
}

/// Whether every character of `s` is a digit.
pub open spec fn all_digits(s: Seq<char>) -> bool {
    forall|i: int| 0 <= i < s.len() ==> is_digit(#[trigger] s[i])
}

/// The number that the digits of `s` write in base ten; 0 for the empty text.
pub open spec fn digits_value(s: Seq<char>) -> nat
    decreases s.len(),
{
    if s.len() == 0 {
        0
    } else {
        digits_value(s.drop_last()) * 10 + digit_value(s.last())
    }
}

/// `s` without one leading `+`.
pub open spec fn unsigned_body(s: Seq<char>) -> Seq<char> {
    if s.len() > 0 && s[0] == '+' {
        s.drop_first()
    } else {
        s
    }
}

/// The `u64` that `s` writes: an optional `+`, then at least one digit and
/// nothing else, with a value that fits. `None` for every other text.
pub open spec fn spec_parse_u64(s: Seq<char>) -> Option<u64> {
    let b = unsigned_body(s);
    if b.len() > 0 && all_digits(b) && digits_value(b) <= u64::MAX {
        Some(digits_value(b) as u64)
    } else {
        None
    }
}

/// A prefix of a digit string writes no larger a number than the whole.
pub proof fn lemma_digits_prefix(s: Seq<char>, k: int)
    requires
        0 <= k <= s.len(),
    ensures
        digits_value(s.subrange(0, k)) <= digits_value(s),
    decreases s.len(),
{
    if k == s.len() {
        assert(s.subrange(0, k) =~= s);
    } else {
        let t = s.drop_last();
        assert(t.subrange(0, k) =~= s.subrange(0, k));
        lemma_digits_prefix(t, k);
    }
}

/// Reads `cs[from..to]` as a `u64`.
pub fn parse_u64(cs: &Vec<char>, from: usize, to: usize) -> (r: Option<u64>)
    requires
        from <= to <= cs@.len(),
    ensures
        r == spec_parse_u64(cs@.subrange(from as int, to as int)),
{
    let ghost s = cs@.subrange(from as int, to as int);
    let mut start: usize = from;
    if from < to && cs[from] == '+' {
        start = from + 1;
    }
    let ghost b = cs@.subrange(start as int, to as int);
    proof {
        if from < to {
            assert(s[0] == cs@[from as int]);
        }
        assert(unsigned_body(s) =~= b);
    }
    if start == to {
        return None;
    }
    let mut acc: u64 = 0;
    let mut i: usize = start;
    while i < to
        invariant
            start <= i <= to <= cs@.len(),
            start < to,
            b == cs@.subrange(start as int, to as int),
            unsigned_body(s) == b,
            s == cs@.subrange(from as int, to as int),
            all_digits(b.subrange(0, i - start)),
            acc == digits_value(b.subrange(0, i - start)),
        decreases to - i,
    {
        let c: char = cs[i];
        let code: u32 = c as u32;
        let ghost pre = b.subrange(0, i - start);
        let ghost cur = b.subrange(0, i - start + 1);
        proof {
            assert(b[i - start] == c);
            assert(cur.drop_last() =~= pre);
            assert(cur.last() == c);
        }
        if code < 48 || code > 57 {
            assert(!is_digit(b[i - start]));
            return None;
        }
        let d: u64 = (code - 48) as u64;
        if acc > (u64::MAX - d) / 10 {
            proof {
                assert(digits_value(cur) == acc * 10 + d);
                assert(acc * 10 + d > u64::MAX);
                lemma_digits_prefix(b, i - start + 1);
            }
            return None;
        }
        acc = acc * 10 + d;
        i = i + 1;
        proof {
            assert forall|k: int| 0 <= k < cur.len() implies is_digit(#[trigger] cur[k]) by {
                if k < pre.len() {
                    assert(cur[k] == pre[k]);
                }
            }
        }
    }
    proof {
        assert(b.subrange(0, to - start) =~= b);
    }
    Some(acc)
}

/// The part of a trimmed version text that holds the numbers: without one
/// leading `v`, up to the first `-`.
pub open spec fn version_core(t: Seq<char>) -> Seq<char> {
    let u = if t.len() > 0 && t[0] == 'v' {
        t.drop_first()
    } else {
        t
    };
    u.subrange(0, first_index(u, '-'))
}

/// The component at position `k` of a dotted version: what the piece writes,
/// zero where the version has no such piece.
pub open spec fn component(parts: Seq<Seq<char>>, k: int) -> Option<u64> {
    if k < parts.len() {
        spec_parse_u64(parts[k])
    } else {
        Some(0)
    }
}

/// The three numbers of a version text that carries no outer whitespace.
/// `None` where one of the first three components is not a `u64`.
pub open spec fn spec_semver_trimmed(t: Seq<char>) -> Option<(u64, u64, u64)> {
    let parts = split(version_core(t), '.');
    match (component(parts, 0), component(parts, 1), component(parts, 2)) {
        (Some(major), Some(minor), Some(patch)) => Some((major, minor, patch)),
        _ => None,
    }
}

/// The three numbers of a version text, outer whitespace ignored.
pub open spec fn spec_semver(s: Seq<char>) -> Option<(u64, u64, u64)> {
    spec_semver_trimmed(trim(s))
}

/// Whether version `a` is `b` or later: the components compared in order.
pub open spec fn triple_ge(a: (u64, u64, u64), b: (u64, u64, u64)) -> bool {
    a.0 > b.0 || (a.0 == b.0 && (a.1 > b.1 || (a.1 == b.1 && a.2 >= b.2)))
}

/// Reads the component at position `k` of the dotted text `cs[..]` cut in `ranges`.
fn read_component(cs: &Vec<char>, ranges: &Vec<(usize, usize)>, k: usize) -> (r: Option<u64>)
    requires
        ranges_cover(cs@, ranges@, split(cs@, '.')),
    ensures
        r == component(split(cs@, '.'), k as int),
{
    if k < ranges.len() {
        let (a, b): (usize, usize) = ranges[k];
        assert(split(cs@, '.')[k as int] == piece(cs@, ranges@[k as int]));
        parse_u64(cs, a, b)
    } else {
        Some(0)
    }
}

/// Reads the version in `cs[from..to]`, which carries no outer whitespace.
pub fn parse_semver_range(cs: &Vec<char>, from: usize, to: usize) -> (r: Option<(u64, u64, u64)>)
    requires
        from <= to <= cs@.len(),
    ensures
        r == spec_semver_trimmed(cs@.subrange(from as int, to as int)),
{
    let ghost t = cs@.subrange(from as int, to as int);
    let mut start: usize = from;
    if from < to && cs[from] == 'v' {
        start = from + 1;
    }
    let mut core: Vec<char> = Vec::new();
    let mut i: usize = start;
    while i < to && cs[i] != '-'
        invariant
            start <= i <= to <= cs@.len(),
            core@ == cs@.subrange(start as int, i as int),
            forall|k: int| start <= k < i ==> cs@[k] != '-',
        decreases to - i,
    {
        core.push(cs[i]);
        i = i + 1;
        assert(core@ =~= cs@.subrange(start as int, i as int));
    }
    proof {
        let u = cs@.subrange(start as int, to as int);
        if from < to {
            assert(t[0] == cs@[from as int]);
        }
        assert(u =~= if t.len() > 0 && t[0] == 'v' {
            t.drop_first()
        } else {
            t
        });
        assert forall|k: int| 0 <= k < i - start implies u[k] != '-' by {
            assert(u[k] == cs@[start + k]);
        }
        lemma_first_index(u, '-', i - start);
        assert(u.subrange(0, i - start) =~= core@);
        assert(core@ == version_core(t));
    }
    let ranges: Vec<(usize, usize)> = split_ranges(&core, '.');
    let major: Option<u64> = read_component(&core, &ranges, 0);
    let minor: Option<u64> = read_component(&core, &ranges, 1);
    let patch: Option<u64> = read_component(&core, &ranges, 2);
    match (major, minor, patch) {
        (Some(a), Some(b), Some(c)) => Some((a, b, c)),
        _ => None,
    }
}

/// Reads a version text that carries no outer whitespace.
pub fn parse_semver_trimmed(s: &str) -> (r: Option<(u64, u64, u64)>)
    ensures
        r == spec_semver_trimmed(s@),
{
    let cs: Vec<char> = chars_of(s);
    assert(cs@.subrange(0, cs@.len() as int) =~= cs@);
    parse_semver_range(&cs, 0, cs.len())
}

/// Reads a version text: `major[.minor[.patch]]` with an optional leading `v`
/// and an optional suffix from the first `-`, outer whitespace ignored.
pub fn parse_semver(s: &str) -> (r: Option<(u64, u64, u64)>)
    ensures
        r == spec_semver(s@),
{
    let cs: Vec<char> = chars_of(s);
    assert(cs@.subrange(0, cs@.len() as int) =~= cs@);
    let (a, b): (usize, usize) = trim_range(&cs, 0, cs.len());
    parse_semver_range(&cs, a, b)
}

/// Whether `version` is at least `minimum`, given what each text reads as.
/// A text that does not read as a version meets nothing and bounds nothing.
pub open spec fn spec_meets(
    version: Option<(u64, u64, u64)>,
    minimum: Option<(u64, u64, u64)>,
) -> bool {
    match (version, minimum) {
        (Some(v), Some(m)) => triple_ge(v, m),
        _ => false,
    }
}

/// Compares two parsed versions; see [`spec_meets`].
pub fn meets(version: Option<(u64, u64, u64)>, minimum: Option<(u64, u64, u64)>) -> (r: bool)
    ensures
        r == spec_meets(version, minimum),
{
    match (version, minimum) {
        (Some(v), Some(m)) => v.0 > m.0 || (v.0 == m.0 && (v.1 > m.1 || (v.1 == m.1 && v.2
            >= m.2))),
        _ => false,
    }
}

/// Whether the version text marks a development build: it holds `-g` or `-dev`.
pub open spec fn spec_dev_build(version: Seq<char>) -> bool {
    contains_run(version, seq!['-', 'g']) || contains_run(version, seq!['-', 'd', 'e', 'v'])
}

/// Whether the version text marks a development build.
pub fn is_dev_build(version: &str) -> (r: bool)
    ensures
        r == spec_dev_build(version@),
{
    let cs: Vec<char> = chars_of(version);
    let mut g: Vec<char> = Vec::new();
    g.push('-');
    g.push('g');
    let mut dev: Vec<char> = Vec::new();
    dev.push('-');
    dev.push('d');
    dev.push('e');
    dev.push('v');
    assert(g@ =~= seq!['-', 'g']);
    assert(dev@ =~= seq!['-', 'd', 'e', 'v']);
    contains_chars(&cs, &g) || contains_chars(&cs, &dev)
}

/// Whether a server that reports `version` may be used when `minimum` is
/// required: a development build passes where such builds are allowed, any
/// other version has to read as at least `minimum`.
pub open spec fn spec_version_acceptable(
    version: Seq<char>,
    minimum: Seq<char>,
    allow_dev: bool,
) -> bool {
    (allow_dev && spec_dev_build(version)) || spec_meets(spec_semver(version), spec_semver(minimum))
}

/// Decides whether the reported `version` satisfies `minimum`.
pub fn version_acceptable(version: &str, minimum: &str, allow_dev: bool) -> (r: bool)
    ensures
        r == spec_version_acceptable(version@, minimum@, allow_dev),
{
    if allow_dev && is_dev_build(version) {
        return true;
    }
    let v: Option<(u64, u64, u64)> = parse_semver(version);
    let m: Option<(u64, u64, u64)> = parse_semver(minimum);
    meets(v, m)
}

} // verus!
