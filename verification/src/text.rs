//! Line endings of character sequences, and the checks on strings that
//! compute them.

use vstd::prelude::*;
use vstd::string::*;

verus! {

/// `text` ends with a line feed.
pub open spec fn ends_with_newline(text: Seq<char>) -> bool {
    text.len() >= 1 && text[text.len() - 1] == '\n'
}

/// `text` ends with two line feeds, that is with an empty line.
pub open spec fn ends_with_blank_line(text: Seq<char>) -> bool {
    text.len() >= 2 && text[text.len() - 1] == '\n' && text[text.len() - 2] == '\n'
}

/// `text` ends with three line feeds or more.
pub open spec fn ends_with_more_than_blank_line(text: Seq<char>) -> bool {
    text.len() >= 3 && ends_with_blank_line(text) && text[text.len() - 3] == '\n'
}

/// `text`, closed by a line feed unless it already ends with one.
pub open spec fn with_trailing_newline(text: Seq<char>) -> Seq<char> {
    if ends_with_newline(text) {
        text
    } else {
        text.push('\n')
    }
}

/// `text`, closed by as many line feeds as it lacks to end with an empty
/// line: none, one or two.
pub open spec fn with_blank_line(text: Seq<char>) -> Seq<char> {
    if ends_with_blank_line(text) {
        text
    } else if ends_with_newline(text) {
        text.push('\n')
    } else {
        text.push('\n').push('\n')
    }
}

/// Closing a text by an empty line only appends, and at most two
/// characters. The result ends with an empty line; closing it again changes
/// nothing. A text that ends with no more than two line feeds gives one that
/// ends with exactly two.
pub proof fn lemma_with_blank_line(text: Seq<char>)
    ensures
        text.is_prefix_of(with_blank_line(text)),
        with_blank_line(text).len() <= text.len() + 2,
        ends_with_blank_line(with_blank_line(text)),
        with_blank_line(with_blank_line(text)) == with_blank_line(text),
        !ends_with_more_than_blank_line(text) ==> !ends_with_more_than_blank_line(
            with_blank_line(text),
        ),
{
}

/// `String::push` appends the given character to the end of the string and
/// leaves the characters before it as they were.
pub assume_specification[ String::push ](text: &mut String, ch: char)
    ensures
        final(text)@ == old(text)@.push(ch),
;

/// Tells whether `text` ends with a line feed.
pub fn str_ends_with_newline(text: &str) -> (found: bool)
    ensures
        found == ends_with_newline(text@),
{
    let length: usize = text.unicode_len();
    length >= 1 && text.get_char(length - 1) == '\n'
}

/// Tells whether `text` ends with two line feeds.
pub fn str_ends_with_blank_line(text: &str) -> (found: bool)
    ensures
        found == ends_with_blank_line(text@),
{
    let length: usize = text.unicode_len();
    length >= 2 && text.get_char(length - 1) == '\n' && text.get_char(length - 2) == '\n'
}

/// Closes `text` with a line feed unless it already ends with one.
pub fn ensure_trailing_newline(text: &mut String)
    ensures
        final(text)@ == with_trailing_newline(old(text)@),
{
    if !str_ends_with_newline(text.as_str()) {
        text.push('\n');
    }
}

} // verus!
