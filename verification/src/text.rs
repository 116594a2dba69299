//! Text utilities: the blank test for entry paths and the line trim.

use vstd::prelude::*;

verus! {

/// Whether `c` has the Unicode `White_Space` property, as `char::is_whitespace`
/// decides it.
pub uninterp spec fn white_space(c: char) -> bool;

/// `char::is_whitespace`: the result is the `White_Space` property of `c`.
#[verifier::external_body]
fn is_whitespace(c: char) -> (answer: bool)
    ensures
        answer == white_space(c),
{
    c.is_whitespace()
}

/// A text is blank when it is empty or consists of white space only.
pub open spec fn blank(text: Seq<char>) -> bool {
    forall|i: int| 0 <= i < text.len() ==> white_space(#[trigger] text[i])
}

/// Decides whether `text` is blank.
pub fn is_blank(text: &str) -> (answer: bool)
    ensures
        answer == blank(text@),
{
    for c in it: text.chars()
        invariant
            it.seq() == text@,
            forall|i: int| 0 <= i < it.index() ==> white_space(#[trigger] text@[i]),
    {
        if !is_whitespace(c) {
            return false;
        }
    }
    true
}

/// The line feed, the one line terminator that is trimmed.
pub const LINE_FEED: char = '\n';

/// `text` without its last character where that is a line feed, else `text`.
pub open spec fn chomped(text: Seq<char>) -> Seq<char> {
    if text.len() > 0 && text.last() == LINE_FEED {
        text.drop_last()
    } else {
        text
    }
}

/// Strips a single trailing line feed.
pub fn chomp(text: &str) -> (trimmed: &str)
    ensures
        trimmed@ == chomped(text@),
{
    let length: usize = text.unicode_len();
    if length > 0 && text.get_char(length - 1) == LINE_FEED {
        text.substring_char(0, length - 1)
    } else {
        text
    }
}

} // verus!
