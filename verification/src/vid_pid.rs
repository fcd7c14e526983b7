//! The vendor and product id of the hardware behind a gamepad source.
//!
//! A platform overlay may inject a synthetic copy of a device that is already
//! bridged. The copy reports ids of its own, but its device path still names
//! the ids of the virtual device behind it, in the third `#`-separated segment:
//! `\\.\pipe\HID#VID_045E&PID_028E&IG_00#045E&028E&00645E28E235E61F#2#4828`.

use vstd::prelude::*;
use crate::text::{
    chars_of, lowercase, piece, push_char, push_text, same_text, split, split_ranges,
    string_of, to_lowercase,
};

verus! {

/// The lower-case hexadecimal digit with value `d`.
pub open spec fn hex_char(d: int) -> char
    recommends
        0 <= d < 16,
{
    if d == 0 {
        '0'
    } else if d == 1 {
        '1'
    } else if d == 2 {
        '2'
    } else if d == 3 {
        '3'
    } else if d == 4 {
        '4'
    } else if d == 5 {
        '5'
    } else if d == 6 {
        '6'
    } else if d == 7 {
        '7'
    } else if d == 8 {
        '8'
    } else if d == 9 {
        '9'
    } else if d == 10 {
        'a'
    } else if d == 11 {
        'b'
    } else if d == 12 {
        'c'
    } else if d == 13 {
        'd'
    } else if d == 14 {
        'e'
    } else {
        'f'
    }
}

/// `v` as four lower-case hexadecimal digits, leading zeros included.
pub open spec fn hex4(v: u16) -> Seq<char> {
    seq![
        hex_char(v as int / 4096),
        hex_char(v as int / 256 % 16),
        hex_char(v as int / 16 % 16),
        hex_char(v as int % 16),
    ]
}

/// The form in which an id is compared: `0x` before the digits, the whole in lower case.
pub open spec fn id_text(digits: Seq<char>) -> Seq<char> {
    lowercase(seq!['0', 'x'] + digits)
}

/// The pair of ids that stands for "could not be told".
pub open spec fn unknown_pair() -> (Seq<char>, Seq<char>) {
    ("unknown"@, "unknown"@)
}

/// The id digits that a device path names: the first two `&`-separated pieces
/// of its third `#`-separated segment. `None` where the path has fewer than
/// three segments or the third has fewer than two pieces.
pub open spec fn spec_path_digits(path: Seq<char>) -> Option<(Seq<char>, Seq<char>)> {
    let segments = split(path, '#');
    if segments.len() >= 3 {
        let ids = split(segments[2], '&');
        if ids.len() >= 2 {
            Some((ids[0], ids[1]))
        } else {
            None
        }
    } else {
        None
    }
}

/// The pair of ids that the generic vendor and product fields give, where both are there.
pub open spec fn spec_reported_pair(vendor: Option<u16>, product: Option<u16>) -> Option<
    (Seq<char>, Seq<char>),
> {
    match (vendor, product) {
        (Some(v), Some(p)) => Some((id_text(hex4(v)), id_text(hex4(p)))),
        _ => None,
    }
}

/// The optional text as its characters.
pub open spec fn text_view(s: Option<&str>) -> Option<Seq<char>> {
    match s {
        Some(t) => Some(t@),
        None => None,
    }
}

/// The ids of the hardware behind a gamepad: those that its path names, else
/// those of its generic fields, else nothing.
pub open spec fn spec_real_vid_pid(
    vendor: Option<u16>,
    product: Option<u16>,
    path: Option<Seq<char>>,
) -> Option<(Seq<char>, Seq<char>)> {
    match path {
        Some(p) => match spec_path_digits(p) {
            Some((v, w)) => Some((id_text(v), id_text(w))),
            None => spec_reported_pair(vendor, product),
        },
        None => spec_reported_pair(vendor, product),
    }
}

/// The hexadecimal digit for a value below sixteen.
fn hex_digit(d: u16) -> (c: char)
    requires
        d < 16,
    ensures
        c == hex_char(d as int),
{
    if d == 0 {
        '0'
    } else if d == 1 {
        '1'
    } else if d == 2 {
        '2'
    } else if d == 3 {
        '3'
    } else if d == 4 {
        '4'
    } else if d == 5 {
        '5'
    } else if d == 6 {
        '6'
    } else if d == 7 {
        '7'
    } else if d == 8 {
        '8'
    } else if d == 9 {
        '9'
    } else if d == 10 {
        'a'
    } else if d == 11 {
        'b'
    } else if d == 12 {
        'c'
    } else if d == 13 {
        'd'
    } else if d == 14 {
        'e'
    } else {
        'f'
    }
}

/// `v` as four lower-case hexadecimal digits.
pub fn format_hex4(v: u16) -> (r: String)
    ensures
        r@ == hex4(v),
{
    let mut r: String = String::new();
    push_char(&mut r, hex_digit(v / 4096));
    push_char(&mut r, hex_digit(v / 256 % 16));
    push_char(&mut r, hex_digit(v / 16 % 16));
    push_char(&mut r, hex_digit(v % 16));
    assert(r@ =~= hex4(v));
    r
}

/// Puts id digits into the form in which ids are compared.
pub fn normalize_id(digits: &str) -> (r: String)
    ensures
        r@ == id_text(digits@),
{
    let mut raw: String = String::new();
    push_char(&mut raw, '0');
    push_char(&mut raw, 'x');
    push_text(&mut raw, digits);
    assert(raw@ =~= seq!['0', 'x'] + digits@);
    to_lowercase(raw.as_str())
}

/// Reads the id digits that a device path names.
pub fn path_digits(path: &str) -> (r: Option<(String, String)>)
    ensures
        match r {
            Some((v, w)) => spec_path_digits(path@) == Some((v@, w@)),
            None => spec_path_digits(path@).is_none(),
        },
{
    let cs: Vec<char> = chars_of(path);
    let segments: Vec<(usize, usize)> = split_ranges(&cs, '#');
    if segments.len() < 3 {
        return None;
    }
    let (a, b): (usize, usize) = segments[2];
    assert(split(cs@, '#')[2] == piece(cs@, segments@[2]));
    let mut third: Vec<char> = Vec::new();
    let mut i: usize = a;
    while i < b
        invariant
            a <= i <= b <= cs@.len(),
            third@ == cs@.subrange(a as int, i as int),
        decreases b - i,
    {
        third.push(cs[i]);
        i = i + 1;
        assert(third@ =~= cs@.subrange(a as int, i as int));
    }
    let ids: Vec<(usize, usize)> = split_ranges(&third, '&');
    if ids.len() < 2 {
        return None;
    }
    let (v0, v1): (usize, usize) = ids[0];
    let (w0, w1): (usize, usize) = ids[1];
    assert(split(third@, '&')[0] == piece(third@, ids@[0]));
    assert(split(third@, '&')[1] == piece(third@, ids@[1]));
    let v: String = string_of(&third, v0, v1);
    let w: String = string_of(&third, w0, w1);
    Some((v, w))
}

/// The pair of ids that the generic vendor and product fields give.
pub fn reported_pair(vendor: Option<u16>, product: Option<u16>) -> (r: Option<(String, String)>)
    ensures
        match r {
            Some((v, w)) => spec_reported_pair(vendor, product) == Some((v@, w@)),
            None => spec_reported_pair(vendor, product).is_none(),
        },
{
    match (vendor, product) {
        (Some(v), Some(p)) => {
            let a: String = format_hex4(v);
            let b: String = format_hex4(p);
            Some((normalize_id(a.as_str()), normalize_id(b.as_str())))
        },
        _ => None,
    }
}

/// Derives the ids of the hardware behind a gamepad from its device path,
/// falling back to its generic vendor and product fields.
pub fn try_get_real_vid_pid_from_gamepad(
    vendor: Option<u16>,
    product: Option<u16>,
    path: Option<&str>,
) -> (r: Option<(String, String)>)
    ensures
        match r {
            Some((v, w)) => spec_real_vid_pid(vendor, product, text_view(path)) == Some((v@, w@)),
            None => spec_real_vid_pid(vendor, product, text_view(path)).is_none(),
        },
{
    match path {
        Some(p) => match path_digits(p) {
            Some((v, w)) => Some((normalize_id(v.as_str()), normalize_id(w.as_str()))),
            None => reported_pair(vendor, product),
        },
        None => reported_pair(vendor, product),
    }
}

/// The pair by which a gamepad is compared with the bridged devices: its
/// derived ids, or the pair that stands for "could not be told".
pub open spec fn spec_comparison_pair(
    vendor: Option<u16>,
    product: Option<u16>,
    path: Option<Seq<char>>,
) -> (Seq<char>, Seq<char>) {
    match spec_real_vid_pid(vendor, product, path) {
        Some(pair) => pair,
        None => unknown_pair(),
    }
}

/// The pair by which a gamepad is compared with the bridged devices.
pub fn comparison_pair(vendor: Option<u16>, product: Option<u16>, path: Option<&str>) -> (r: (
    String,
    String,
))
    ensures
        (r.0@, r.1@) == spec_comparison_pair(vendor, product, text_view(path)),
{
    match try_get_real_vid_pid_from_gamepad(vendor, product, path) {
        Some(pair) => pair,
        None => ("unknown".to_owned(), "unknown".to_owned()),
    }
}

/// Whether a virtual device with the given ids carries the pair `wanted`:
/// the ids compared without regard to case.
pub open spec fn spec_same_ids(vid: Seq<char>, pid: Seq<char>, wanted: (Seq<char>, Seq<char>)) -> bool {
    lowercase(vid) == wanted.0 && lowercase(pid) == wanted.1
}

/// Whether ids that were already put in lower case equal the wanted pair.
pub fn lowered_ids_match(vid_lower: &str, pid_lower: &str, real_vid: &str, real_pid: &str) -> (r:
    bool)
    ensures
        r == (vid_lower@ == real_vid@ && pid_lower@ == real_pid@),
{
    same_text(vid_lower, real_vid) && same_text(pid_lower, real_pid)
}

/// Whether a virtual device with the given ids carries the wanted pair.
pub fn same_ids(vid: &str, pid: &str, real_vid: &str, real_pid: &str) -> (r: bool)
    ensures
        r == spec_same_ids(vid@, pid@, (real_vid@, real_pid@)),
{
    let v: String = to_lowercase(vid);
    let p: String = to_lowercase(pid);
    lowered_ids_match(v.as_str(), p.as_str(), real_vid, real_pid)
}

} // verus!
