//! Building the canonical file name from a track number, a title and an extension.
use vstd::prelude::*;

use crate::sanitize::{sanitize_filename, sanitized};
use crate::text::{chars_of, string_from_chars};

verus! {

/// The characters with the Unicode White_Space property, which `str::trim`
/// removes from both ends.
pub open spec fn is_white_space(c: char) -> bool {
    let u = c as u32;
    (0x09 <= u <= 0x0D) || u == 0x20 || u == 0x85 || u == 0xA0 || u == 0x1680 || (0x2000 <= u
        <= 0x200A) || u == 0x2028 || u == 0x2029 || u == 0x202F || u == 0x205F || u == 0x3000
}

/// `s` without its leading white space.
pub open spec fn trim_start(s: Seq<char>) -> Seq<char>
    decreases s.len(),
{
    if s.len() > 0 && is_white_space(s[0]) {
        trim_start(s.drop_first())
    } else {
        s
    }
}

/// `s` without its trailing white space.
pub open spec fn trim_end(s: Seq<char>) -> Seq<char>
    decreases s.len(),
{
    if s.len() > 0 && is_white_space(s.last()) {
        trim_end(s.drop_last())
    } else {
        s
    }
}

/// `s` without white space at either end.
pub open spec fn trimmed(s: Seq<char>) -> Seq<char> {
    trim_end(trim_start(s))
}

fn white_space(c: char) -> (r: bool)
    ensures
        r == is_white_space(c),
{
    let u = c as u32;
    (0x09 <= u && u <= 0x0D) || u == 0x20 || u == 0x85 || u == 0xA0 || u == 0x1680 || (0x2000
        <= u && u <= 0x200A) || u == 0x2028 || u == 0x2029 || u == 0x202F || u == 0x205F || u
        == 0x3000
}

/// Removes leading and trailing white space from `s`.
pub fn trim_text(s: &str) -> (r: &str)
    ensures
        r@ == trimmed(s@),
{
    let n = s.unicode_len();
    let mut i: usize = 0;
    assert(s@.subrange(0, n as int) =~= s@);
    while i < n && white_space(s.get_char(i))
        invariant
            n == s@.len(),
            i <= n,
            trim_start(s@) == trim_start(s@.subrange(i as int, n as int)),
        decreases n - i,
    {
        assert(s@.subrange(i as int, n as int).drop_first() =~= s@.subrange(i + 1, n as int));
        i = i + 1;
    }
    assert(trim_start(s@) == s@.subrange(i as int, n as int));
    let mut j: usize = n;
    while j > i && white_space(s.get_char(j - 1))
        invariant
            n == s@.len(),
            i <= j <= n,
            trim_end(s@.subrange(i as int, n as int)) == trim_end(s@.subrange(i as int, j as int)),
        decreases j - i,
    {
        assert(s@.subrange(i as int, j as int).drop_last() =~= s@.subrange(i as int, j - 1));
        j = j - 1;
    }
    s.substring_char(i, j)
}

/// The title used when a file's tag holds none.
pub open spec fn unknown_title() -> Seq<char> {
    "Unknown Title"@
}

/// The decimal digit of `d`, for `d < 10`.
pub open spec fn digit_char(d: nat) -> char {
    if d == 0 {
        '0'
    } else if d == 1 {
        '1'
    } else if d == 2 {
        '2'
    } else if d == 3 {
        '3'
    } else if d == 4 {
        '4'
    } else if d == 5 {
        '5'
    } else if d == 6 {
        '6'
    } else if d == 7 {
        '7'
    } else if d == 8 {
        '8'
    } else {
        '9'
    }
}

/// `n` in decimal, without leading zeros.
pub open spec fn decimal(n: nat) -> Seq<char>
    decreases n,
{
    if n < 10 {
        seq![digit_char(n)]
    } else {
        decimal(n / 10).push(digit_char(n % 10))
    }
}

/// `n` in decimal, padded with zeros to at least two digits.
pub open spec fn track_digits(n: nat) -> Seq<char> {
    if n < 10 {
        seq!['0', digit_char(n)]
    } else {
        decimal(n)
    }
}

/// `{track:02} - {title}.{ext}` with a track number, `{title}.{ext}` without.
pub open spec fn candidate_name(track: Option<u32>, title: Seq<char>, ext: Seq<char>) -> Seq<char> {
    match track {
        Some(n) => track_digits(n as nat) + seq![' ', '-', ' '] + title + seq!['.'] + ext,
        None => title + seq!['.'] + ext,
    }
}

/// The characters of an optional string.
pub open spec fn opt_text(t: Option<&str>) -> Option<Seq<char>> {
    match t {
        Some(s) => Some(s@),
        None => None,
    }
}

/// The title that goes into the name: the tag's title trimmed, or the placeholder.
pub open spec fn title_text(title: Option<Seq<char>>) -> Seq<char> {
    match title {
        Some(t) => trimmed(t),
        None => unknown_title(),
    }
}

/// The sanitized name that a file with these tag fields should carry.
pub open spec fn target_name(track: Option<u32>, title: Option<Seq<char>>, ext: Seq<char>) -> Seq<char> {
    sanitized(candidate_name(track, title_text(title), ext))
}

fn digit(d: u32) -> (c: char)
    requires
        d < 10,
    ensures
        c == digit_char(d as nat),
{
    match d {
        0 => '0',
        1 => '1',
        2 => '2',
        3 => '3',
        4 => '4',
        5 => '5',
        6 => '6',
        7 => '7',
        8 => '8',
        _ => '9',
    }
}

fn push_decimal(n: u32, out: &mut Vec<char>)
    ensures
        final(out)@ == old(out)@ + decimal(n as nat),
    decreases n,
{
    if n >= 10 {
        push_decimal(n / 10, out);
    }
    out.push(digit(n % 10));
}

fn push_str(s: &str, out: &mut Vec<char>)
    ensures
        final(out)@ == old(out)@ + s@,
{
    let mut cs = chars_of(s);
    out.append(&mut cs);
}

/// Builds `{track:02} - {title}.{ext}`, or `{title}.{ext}` when there is no
/// track number; `title` is used as given.
pub fn compose_filename(track: Option<u32>, title: &str, ext: &str) -> (r: String)
    ensures
        r@ == candidate_name(track, title@, ext@),
{
    let mut out: Vec<char> = Vec::new();
    match track {
        Some(n) => {
            if n < 10 {
                out.push('0');
                out.push(digit(n));
            } else {
                push_decimal(n, &mut out);
            }
            out.push(' ');
            out.push('-');
            out.push(' ');
        },
        None => {},
    }
    push_str(title, &mut out);
    out.push('.');
    push_str(ext, &mut out);
    proof {
        match track {
            Some(n) => {
                assert(n < 10 ==> decimal(n as nat) == seq![digit_char(n as nat)]);
            },
            None => {},
        }
    }
    assert(out@ =~= candidate_name(track, title@, ext@));
    string_from_chars(&out)
}

/// Builds the candidate name from a tag's title and track number: the title
/// is trimmed, and stands as `Unknown Title` where the tag holds none.
pub fn synthesize_filename(track: Option<u32>, title: Option<&str>, ext: &str) -> (r: String)
    ensures
        r@ == candidate_name(track, title_text(opt_text(title)), ext@),
{
    match title {
        Some(t) => {
            compose_filename(track, trim_text(t), ext)
        },
        None => compose_filename(track, "Unknown Title", ext),
    }
}

/// The sanitized candidate name: what the file should be called.
pub fn target_filename(track: Option<u32>, title: Option<&str>, ext: &str) -> (r: String)
    ensures
        r@ == target_name(track, opt_text(title), ext@),
{
    let candidate = synthesize_filename(track, title, ext);
    sanitize_filename(candidate.as_str())
}

} // verus!
