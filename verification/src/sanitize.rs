//! Normalizes display names into comparison keys: lower case, spaces and
//! slashes replaced, accented letters folded to the bare Latin letter.
//!
//! The folding is a fixed transliteration table for the accented letters the
//! upstream directory uses, not general Unicode normalization; characters
//! outside the table pass through unchanged.
use vstd::prelude::*;

verus! {

/// The comparison key of one character: spaces become `-`, slashes become
/// `_`, upper-case ASCII letters become lower case, and the accented forms
/// of a, e, i, o, u and the cedilla c lose their mark.
pub open spec fn sanitize_char(c: char) -> char {
    if c == ' ' {
        '-'
    } else if c == '/' {
        '_'
    } else if 'A' <= c && c <= 'Z' {
        ((c as u32) + 32) as char
    } else if c == '\u{e1}' || c == '\u{e0}' || c == '\u{e3}' || c == '\u{e2}' || c == '\u{c1}'
        || c == '\u{c0}' || c == '\u{c3}' || c == '\u{c2}' {
        'a'
    } else if c == '\u{e9}' || c == '\u{ea}' || c == '\u{c9}' || c == '\u{ca}' {
        'e'
    } else if c == '\u{ed}' || c == '\u{cd}' {
        'i'
    } else if c == '\u{f3}' || c == '\u{f4}' || c == '\u{f5}' || c == '\u{d3}' || c == '\u{d4}'
        || c == '\u{d5}' {
        'o'
    } else if c == '\u{fa}' || c == '\u{da}' {
        'u'
    } else if c == '\u{e7}' || c == '\u{c7}' {
        'c'
    } else {
        c
    }
}

/// The comparison key of a whole name: every character folded by the table.
pub open spec fn sanitize_seq(s: Seq<char>) -> Seq<char> {
    s.map_values(|c: char| sanitize_char(c))
}

/// Every character the table produces is a fixed point of the table.
pub proof fn lemma_sanitize_char_idempotent(c: char)
    ensures
        sanitize_char(sanitize_char(c)) == sanitize_char(c),
{
}

/// Sanitizing is idempotent: a second pass over an already sanitized name
/// changes nothing.
pub proof fn lemma_sanitize_idempotent(s: Seq<char>)
    ensures
        sanitize_seq(sanitize_seq(s)) == sanitize_seq(s),
{
    assert(sanitize_seq(sanitize_seq(s)) =~= sanitize_seq(s)) by {
        assert forall|i: int| 0 <= i < s.len() implies sanitize_seq(sanitize_seq(s))[i]
            == sanitize_seq(s)[i] by {
            lemma_sanitize_char_idempotent(s[i]);
        }
    }
}

fn sanitize_one(c: char) -> (r: char)
    ensures
        r == sanitize_char(c),
{
    if c == ' ' {
        '-'
    } else if c == '/' {
        '_'
    } else if 'A' <= c && c <= 'Z' {
        (((c as u32) as u8) + 32) as char
    } else if c == '\u{e1}' || c == '\u{e0}' || c == '\u{e3}' || c == '\u{e2}' || c == '\u{c1}'
        || c == '\u{c0}' || c == '\u{c3}' || c == '\u{c2}' {
        'a'
    } else if c == '\u{e9}' || c == '\u{ea}' || c == '\u{c9}' || c == '\u{ca}' {
        'e'
    } else if c == '\u{ed}' || c == '\u{cd}' {
        'i'
    } else if c == '\u{f3}' || c == '\u{f4}' || c == '\u{f5}' || c == '\u{d3}' || c == '\u{d4}'
        || c == '\u{d5}' {
        'o'
    } else if c == '\u{fa}' || c == '\u{da}' {
        'u'
    } else if c == '\u{e7}' || c == '\u{c7}' {
        'c'
    } else {
        c
    }
}

/// Build the comparison key of a display name or path segment.
pub fn sanitize_string(string: &str) -> (r: String)
    ensures
        r@ == sanitize_seq(string@),
{
    let n: usize = string.unicode_len();
    let mut out = String::new();
    let mut i: usize = 0;
    while i < n
        invariant
            i <= n,
            n == string@.len(),
            out@ == sanitize_seq(string@.take(i as int)),
        decreases n - i,
    {
        let c = string.get_char(i);
        push_char(&mut out, sanitize_one(c));
        proof {
            assert(sanitize_seq(string@.take(i + 1 as int)) =~= sanitize_seq(
                string@.take(i as int),
            ).push(sanitize_char(string@[i as int])));
        }
        i = i + 1;
    }
    proof {
        assert(string@.take(n as int) =~= string@);
    }
    out
}

/// Relies on String::push: appends one character at the end.
#[verifier::external_body]
pub(crate) fn push_char(s: &mut String, c: char)
    ensures
        final(s)@ == old(s)@.push(c),
{
    s.push(c);
}

} // verus!
