//! Reading structured data from text, by the parser of the `json` crate.

use crate::bridge::{
    counted,
    entries_in,
    flag_in,
    is_digit,
    items_in,
    json_parse,
    number_in,
    overrun,
    overrun_at,
    parse_json,
    state_at,
    step,
    text_in,
    tree_of,
    uncountable,
    Lexical,
    BACKSLASH,
    MAX_COUNTED_DIGITS,
    NINE,
    POINT,
    QUOTE,
    ZERO,
};
use crate::error::Error;
use crate::value::{lemma_array_view, lemma_object_view, trees, Member, Tree, Value};
use json::JsonValue;
use vstd::prelude::*;

verus! {

/// The count of digits never falls below what was counted before.
proof fn lemma_counted_grows(bytes: Seq<u8>, from: int, mantissa: int, count: int)
    ensures
        counted(bytes, from, mantissa, count) >= count,
    decreases bytes.len() - from,
{
    if 0 <= from < bytes.len() && is_digit(bytes[from]) {
        if mantissa * 10 + (bytes[from] - ZERO) <= u64::MAX {
            lemma_counted_grows(bytes, from + 1, mantissa * 10 + (bytes[from] - ZERO), count + 1);
        } else {
            lemma_counted_grows(bytes, from + 1, mantissa, count);
        }
    }
}

/// Decides whether the parser counts more digits from `from` on than its
/// count holds.
fn counts_past(bytes: &[u8], from: usize) -> (answer: bool)
    requires
        from <= bytes@.len(),
    ensures
        answer == (counted(bytes@, from as int, 0, 0) > MAX_COUNTED_DIGITS),
{
    let mut position: usize = from;
    let mut mantissa: u64 = 0;
    let mut count: usize = 0;
    while position < bytes.len()
        invariant
            from <= position <= bytes@.len(),
            count <= MAX_COUNTED_DIGITS,
            counted(bytes@, from as int, 0, 0) == counted(
                bytes@,
                position as int,
                mantissa as int,
                count as int,
            ),
        ensures
            count <= MAX_COUNTED_DIGITS,
            counted(bytes@, from as int, 0, 0) == count,
        decreases bytes@.len() - position,
    {
        let byte: u8 = bytes[position];
        if byte < ZERO || byte > NINE {
            break;
        }
        let next: u128 = mantissa as u128 * 10 + (byte - ZERO) as u128;
        if next <= u64::MAX as u128 {
            if count == MAX_COUNTED_DIGITS {
                proof {
                    lemma_counted_grows(bytes@, position + 1, next as int, count + 1);
                }
                return true;
            }
            mantissa = next as u64;
            count += 1;
        }
        position += 1;
    }
    false
}

/// Where the scan stands behind `byte`.
fn advance(state: Lexical, byte: u8) -> (next: Lexical)
    ensures
        next == step(state, byte),
{
    match state {
        Lexical::Outside => if byte == QUOTE {
            Lexical::Inside
        } else {
            Lexical::Outside
        },
        Lexical::Inside => if byte == QUOTE {
            Lexical::Outside
        } else if byte == BACKSLASH {
            Lexical::Escaped
        } else {
            Lexical::Inside
        },
        Lexical::Escaped => Lexical::Inside,
    }
}

/// Decides whether a number in `bytes` is beyond the parser's count.
pub fn has_overrun(bytes: &[u8]) -> (answer: bool)
    ensures
        answer == overrun(bytes@),
{
    let mut state = Lexical::Outside;
    let mut i: usize = 0;
    while i < bytes.len()
        invariant
            i <= bytes@.len(),
            state == state_at(bytes@, i as int),
            forall|zero: int| 0 <= zero < i ==> !overrun_at(bytes@, zero),
        decreases bytes@.len() - i,
    {
        let byte: u8 = bytes[i];
        let outside: bool = match state {
            Lexical::Outside => true,
            _ => false,
        };
        if outside && byte == ZERO && i + 1 < bytes.len() && bytes[i + 1] == POINT {
            let follows_digit: bool = i > 0 && ZERO <= bytes[i - 1] && bytes[i - 1] <= NINE;
            if !follows_digit && counts_past(bytes, i + 2) {
                assert(overrun_at(bytes@, i as int));
                return true;
            }
        }
        state = advance(state, byte);
        i += 1;
    }
    false
}

/// Copies a value of the `json` crate, node by node, into a [`Value`] with
/// the same tree.
fn lift(json: &JsonValue) -> (value: Value)
    ensures
        value@ == tree_of(*json),
    decreases tree_of(*json),
{
    if let Some(text) = text_in(json) {
        return Value::Text(text.to_owned());
    }
    if let Some(flag) = flag_in(json) {
        return Value::Boolean(flag);
    }
    if let Some(number) = number_in(json) {
        return Value::Number(number);
    }
    if let Some(items) = items_in(json) {
        let ghost nodes = tree_of(*json)->Array_0;
        let mut values: Vec<Value> = Vec::new();
        let mut i: usize = 0;
        while i < items.len()
            invariant
                i <= items.len(),
                tree_of(*json) == Tree::Array(nodes),
                nodes.len() == items.len(),
                forall|j: int| 0 <= j < items.len() ==> tree_of(*#[trigger] items[j]) == nodes[j],
                values.len() == i,
                forall|j: int| 0 <= j < i ==> (#[trigger] values[j])@ == nodes[j],
            decreases items.len() - i,
        {
            proof {
                assert(decreases_to!(nodes => nodes[i as int]));
                assert(decreases_to!(tree_of(*json) => tree_of(*json)->Array_0));
            }
            values.push(lift(items[i]));
            i += 1;
        }
        proof {
            lemma_array_view(values);
            assert(trees(values@) =~= nodes);
        }
        return Value::Array(values);
    }
    if let Some(entries) = entries_in(json) {
        let ghost nodes = tree_of(*json)->Object_0;
        let mut members: Vec<Member> = Vec::new();
        let mut i: usize = 0;
        while i < entries.len()
            invariant
                i <= entries.len(),
                tree_of(*json) == Tree::Object(nodes),
                nodes.len() == entries.len(),
                forall|j: int|
                    0 <= j < entries.len() ==> ((#[trigger] entries[j]).0@, tree_of(*entries[j].1))
                        == nodes[j],
                members.len() == i,
                forall|j: int|
                    0 <= j < i ==> ((#[trigger] members[j]).name@, members[j].value@) == nodes[j],
            decreases entries.len() - i,
        {
            let (name, item) = entries[i];
            proof {
                assert(decreases_to!(nodes => nodes[i as int]));
                assert(decreases_to!(nodes[i as int] => nodes[i as int].1));
                assert(decreases_to!(tree_of(*json) => tree_of(*json)->Object_0));
            }
            members.push(Member { name: name.to_owned(), value: lift(item) });
            i += 1;
        }
        proof {
            lemma_object_view(members);
            assert(crate::value::entries(members@) =~= nodes);
        }
        return Value::Object(members);
    }
    Value::Null
}

/// The tree that `text` is read as: the one that the parser gives. There is
/// none for the empty text, nor for a text with a number that the parser
/// cannot count, which is rejected unread.
pub open spec fn parsed(text: Seq<char>) -> Option<Tree> {
    if text.len() == 0 || overrun(vstd::utf8::encode_utf8(text)) {
        None
    } else {
        json_parse(text)
    }
}

/// Reads `text` as structured data.
pub fn parse(text: &str) -> (result: Result<Value, Error>)
    ensures
        match parsed(text@) {
            Some(tree) => result matches Ok(value) && value@ == tree,
            None => result matches Err(error) && error@ == crate::error::Failure::Json,
        },
{
    if has_overrun(text.as_bytes()) {
        return Err(Error::Json(uncountable()));
    }
    match parse_json(text) {
        Ok(json) => Ok(lift(&json)),
        Err(error) => Err(Error::Json(error)),
    }
}

} // verus!
