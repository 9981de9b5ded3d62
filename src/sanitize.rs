//! Making a file name safe for common file systems.
use vstd::prelude::*;

use crate::text::{chars_of, string_from_chars};

verus! {

/// The characters that common file systems refuse in a file name.
pub open spec fn is_invalid_char(c: char) -> bool {
    c == '/' || c == ':' || c == '?' || c == '*' || c == '\\' || c == '<' || c == '>' || c == '|'
        || c == '"'
}

/// A refused character becomes `_`; every other character stays.
pub open spec fn sanitize_char(c: char) -> char {
    if is_invalid_char(c) {
        '_'
    } else {
        c
    }
}

/// `s` with each refused character replaced by `_`.
pub open spec fn sanitized(s: Seq<char>) -> Seq<char> {
    s.map_values(|c: char| sanitize_char(c))
}

fn invalid_char(c: char) -> (r: bool)
    ensures
        r == is_invalid_char(c),
{
    c == '/' || c == ':' || c == '?' || c == '*' || c == '\\' || c == '<' || c == '>' || c == '|'
        || c == '"'
}

/// Replaces each of `/ : ? * \ < > | "` in `filename` by `_`.
pub fn sanitize_filename(filename: &str) -> (r: String)
    ensures
        r@ == sanitized(filename@),
{
    let chars = chars_of(filename);
    let mut out: Vec<char> = Vec::new();
    let mut i: usize = 0;
    while i < chars.len()
        invariant
            i <= chars@.len(),
            out@ == sanitized(chars@.subrange(0, i as int)),
        decreases chars@.len() - i,
    {
        let c = chars[i];
        if invalid_char(c) {
            out.push('_');
        } else {
            out.push(c);
        }
        i = i + 1;
        assert(out@ =~= sanitized(chars@.subrange(0, i as int)));
    }
    assert(chars@.subrange(0, chars@.len() as int) == chars@);
    string_from_chars(&out)
}

/// Sanitizing keeps the length, turns each refused character into `_` and
/// keeps every other character where it stood.
pub proof fn lemma_sanitize_substitutes(s: Seq<char>)
    ensures
        sanitized(s).len() == s.len(),
        forall|i: int| 0 <= i < s.len() && is_invalid_char(s[i]) ==> sanitized(s)[i] == '_',
        forall|i: int| 0 <= i < s.len() && !is_invalid_char(s[i]) ==> sanitized(s)[i] == s[i],
{
}

/// A sanitized name holds no refused character, so sanitizing it again
/// changes nothing.
pub proof fn lemma_sanitize_idempotent(s: Seq<char>)
    ensures
        forall|i: int| 0 <= i < sanitized(s).len() ==> !is_invalid_char(#[trigger] sanitized(s)[i]),
        sanitized(sanitized(s)) == sanitized(s),
{
    assert(sanitized(sanitized(s)) =~= sanitized(s));
}

} // verus!
