//! Character tests and text helpers that the scanner runs on.

use vstd::prelude::*;
use vstd::string::StrSliceExecFns;
use crate::grammar::{is_digit, is_letter, is_word_char, is_word_start, unicode_alphabetic};

verus! {

/// `String::push` appends one character to the end of the string.
pub assume_specification[ std::string::String::push ](s: &mut std::string::String, c: char)
    ensures
        final(s)@ == old(s)@.push(c),
;

/// Asks `char::is_alphabetic` whether Unicode gives `c` the Alphabetic
/// property. Nothing is claimed of the answer but that it depends on `c`
/// alone.
#[verifier::external_body]
fn has_alphabetic_property(c: char) -> (b: bool)
    ensures
        b == unicode_alphabetic(c),
{
    c.is_alphabetic()
}

/// Whether `c` is a decimal digit.
pub fn is_decimal_digit(c: char) -> (b: bool)
    ensures
        b == is_digit(c),
{
    '0' <= c && c <= '9'
}

/// Whether `c` is a letter.
pub fn is_alphabetic(c: char) -> (b: bool)
    ensures
        b == is_letter(c),
{
    if c <= '\x7f' {
        ('a' <= c && c <= 'z') || ('A' <= c && c <= 'Z')
    } else {
        has_alphabetic_property(c)
    }
}

/// Whether `c` may begin an identifier.
pub fn is_identifier_first_char(c: char) -> (b: bool)
    ensures
        b == is_word_start(c),
{
    is_alphabetic(c) || c == '_'
}

/// Whether `c` may continue an identifier.
pub fn is_identifier_char(c: char) -> (b: bool)
    ensures
        b == is_word_char(c),
{
    is_identifier_first_char(c) || is_decimal_digit(c)
}

/// The characters of `text`, in order.
pub fn chars_of(text: &str) -> (chars: Vec<char>)
    ensures
        chars@ == text@,
{
    broadcast use vstd::string::axiom_spec_iter;

    let mut chars: Vec<char> = Vec::new();
    for c in iter: text.chars()
        invariant
            iter.seq() == text@,
            chars@ == iter.history@,
    {
        chars.push(c);
    }
    assert(chars@ =~= text@);
    chars
}

/// The text `chars[from..to)` as a string.
pub fn text_of(chars: &Vec<char>, from: usize, to: usize) -> (text: String)
    requires
        from <= to <= chars.len(),
    ensures
        text@ == chars@.subrange(from as int, to as int),
{
    let mut text = String::new();
    let mut i: usize = from;
    while i < to
        invariant
            from <= i <= to <= chars.len(),
            text@ == chars@.subrange(from as int, i as int),
        decreases to - i,
    {
        text.push(chars[i]);
        assert(text@ =~= chars@.subrange(from as int, i + 1));
        i += 1;
    }
    text
}

/// Whether `chars[from..to)` spells `word`.
pub fn spells(chars: &Vec<char>, from: usize, to: usize, word: &str) -> (b: bool)
    requires
        from <= to <= chars.len(),
    ensures
        b == (chars@.subrange(from as int, to as int) == word@),
{
    let n = word.unicode_len();
    if to - from != n {
        return false;
    }
    let mut i: usize = 0;
    while i < n
        invariant
            from <= to <= chars.len(),
            n == to - from,
            n == word@.len(),
            i <= n,
            chars@.subrange(from as int, from + i) == word@.subrange(0, i as int),
        decreases n - i,
    {
        if chars[from + i] != word.get_char(i) {
            assert(chars@.subrange(from as int, to as int)[i as int] != word@[i as int]);
            return false;
        }
        assert(chars@.subrange(from as int, from + i + 1) =~= word@.subrange(0, i + 1));
        i += 1;
    }
    assert(word@.subrange(0, n as int) =~= word@);
    true
}

} // verus!
