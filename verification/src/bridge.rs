//! The `json` crate as the library sees it: its types, carried unopened, the
//! names under which the contracts speak of what its values hold and of what
//! its parser and its writer give, and one wrapper for each of its functions
//! that the library calls.

use crate::value::{Number, Tree};
use json::object::Object;
use json::JsonValue;
use vstd::prelude::*;
use vstd::string::StringSliceAdditionalSpecFns;

verus! {

/// The value type of the `json` crate, carried unopened.
#[verifier::external_type_specification]
#[verifier::external_body]
pub struct ExJsonValue(json::JsonValue);

/// The object type of the `json` crate, carried unopened.
#[verifier::external_type_specification]
#[verifier::external_body]
pub struct ExObject(json::object::Object);

/// The error type of the `json` crate, carried unopened.
#[verifier::external_type_specification]
#[verifier::external_body]
#[allow(deprecated)]
pub struct ExJsonError(json::JsonError);

/// The tree that `json::parse` reads from `text`; nothing where it rejects
/// the text.
pub uninterp spec fn json_parse(text: Seq<char>) -> Option<Tree>;

/// The tree that a value of the `json` crate holds.
pub uninterp spec fn tree_of(json: JsonValue) -> Tree;

/// The members that an object of the `json` crate holds, in the order in
/// which it writes them.
pub uninterp spec fn members_of(object: Object) -> Seq<(Seq<char>, Tree)>;

/// The compact text that the `json` crate writes for an object with the
/// given members.
pub uninterp spec fn json_text(members: Seq<(Seq<char>, Tree)>) -> Seq<char>;

/// The number node that stands for a whole number.
pub open spec fn integer(number: int) -> Tree {
    Tree::Number(
        Number {
            nan: false,
            positive: number >= 0,
            mantissa: (if number >= 0 {
                number
            } else {
                -number
            }) as u64,
            exponent: 0,
        },
    )
}

/// The members after one more is inserted: it takes the place of the member
/// of its name, where there is one, and comes last otherwise.
pub open spec fn put(members: Seq<(Seq<char>, Tree)>, name: Seq<char>, tree: Tree) -> Seq<
    (Seq<char>, Tree),
>
    decreases members.len(),
{
    if members.len() == 0 {
        seq![(name, tree)]
    } else if members[0].0 == name {
        seq![(name, tree)] + members.drop_first()
    } else {
        seq![members[0]] + put(members.drop_first(), name, tree)
    }
}

/// Where a scan of a text stands: outside every string, inside one, or
/// behind the backslash of an escape inside one.
#[derive(Debug, Clone, Copy, PartialEq, Eq, Structural)]
pub enum Lexical {
    Outside,
    Inside,
    Escaped,
}

/// The quotation mark, which opens and closes a string.
pub const QUOTE: u8 = 0x22;

/// The backslash, which opens an escape inside a string.
pub const BACKSLASH: u8 = 0x5C;

/// The decimal point.
pub const POINT: u8 = 0x2E;

/// The digit zero.
pub const ZERO: u8 = 0x30;

/// The digit nine.
pub const NINE: u8 = 0x39;

/// Where the scan stands behind `byte`, having stood at `state` before it. An
/// escape takes the one byte behind its backslash; the hexadecimal digits of
/// a code point hold neither a quotation mark nor a backslash.
pub open spec fn step(state: Lexical, byte: u8) -> Lexical {
    match state {
        Lexical::Outside => if byte == QUOTE {
            Lexical::Inside
        } else {
            Lexical::Outside
        },
        Lexical::Inside => if byte == QUOTE {
            Lexical::Outside
        } else if byte == BACKSLASH {
            Lexical::Escaped
        } else {
            Lexical::Inside
        },
        Lexical::Escaped => Lexical::Inside,
    }
}

/// Where the scan stands in front of position `at`.
pub open spec fn state_at(bytes: Seq<u8>, at: int) -> Lexical
    decreases at,
{
    if at <= 0 {
        Lexical::Outside
    } else {
        step(state_at(bytes, at - 1), bytes[at - 1])
    }
}

/// Whether `byte` is a decimal digit.
pub open spec fn is_digit(byte: u8) -> bool {
    ZERO <= byte <= NINE
}

/// The digits of a fraction that the parser counts, from position `from` to
/// the end of the run of digits there, with `mantissa` read and `count`
/// digits counted so far. The parser takes a digit into the mantissa, and
/// counts it, as long as the mantissa stays within 64 bits; a digit that
/// does not fit is passed over.
pub open spec fn counted(bytes: Seq<u8>, from: int, mantissa: int, count: int) -> int
    decreases bytes.len() - from,
{
    if 0 <= from < bytes.len() && is_digit(bytes[from]) {
        if mantissa * 10 + (bytes[from] - ZERO) <= u64::MAX {
            counted(bytes, from + 1, mantissa * 10 + (bytes[from] - ZERO), count + 1)
        } else {
            counted(bytes, from + 1, mantissa, count)
        }
    } else {
        count
    }
}

/// The parser of the `json` crate keeps its count of the digits of a
/// fraction as the negative of a signed number of sixteen bits. This is the
/// greatest count that fits.
pub const MAX_COUNTED_DIGITS: usize = 32768;

/// At `zero` begins a number that the parser cannot count: outside every
/// string stands a zero that no digit precedes, a decimal point follows it,
/// and of the digits behind the point more are counted than the count holds.
/// Only a number whose whole part is zero comes so far: any other mantissa is
/// full after twenty digits.
pub open spec fn overrun_at(bytes: Seq<u8>, zero: int) -> bool {
    &&& 0 <= zero
    &&& zero + 1 < bytes.len()
    &&& state_at(bytes, zero) == Lexical::Outside
    &&& bytes[zero] == ZERO
    &&& (zero > 0 ==> !is_digit(bytes[zero - 1]))
    &&& bytes[zero + 1] == POINT
    &&& counted(bytes, zero + 2, 0, 0) > MAX_COUNTED_DIGITS
}

/// Somewhere in `bytes` begins a number that the parser cannot count.
pub open spec fn overrun(bytes: Seq<u8>) -> bool {
    exists|zero: int| overrun_at(bytes, zero)
}

/// `json::parse`: it accepts `text` exactly where [`json_parse`] names a
/// tree, and that tree is what the value it returns holds. It rejects the
/// empty text. Texts with a number that the parser cannot count are left
/// out: on them its count of digits overflows.
#[verifier::external_body]
pub(crate) fn parse_json(text: &str) -> (parsed: Result<JsonValue, json::Error>)
    requires
        !overrun(text.spec_bytes()),
    ensures
        parsed is Ok <==> json_parse(text@) is Some,
        parsed matches Ok(json) ==> json_parse(text@) == Some(tree_of(json)),
        text@.len() == 0 ==> parsed is Err,
{
    json::parse(text)
}

/// `JsonValue::as_str`: the text of a string, short or long, and nothing for
/// any other value.
#[verifier::external_body]
pub(crate) fn text_in(json: &JsonValue) -> (text: Option<&str>)
    ensures
        match text {
            Some(text) => tree_of(*json) == Tree::Text(text@),
            None => !(tree_of(*json) is Text),
        },
{
    json.as_str()
}

/// `JsonValue::as_bool`: the boolean of a boolean value, and nothing for any
/// other value.
#[verifier::external_body]
pub(crate) fn flag_in(json: &JsonValue) -> (flag: Option<bool>)
    ensures
        match flag {
            Some(flag) => tree_of(*json) == Tree::Boolean(flag),
            None => !(tree_of(*json) is Boolean),
        },
{
    json.as_bool()
}

/// `JsonValue::as_number`, with `Number::is_nan` and `Number::as_parts`: the
/// parts of a number, and nothing for any other value.
#[verifier::external_body]
pub(crate) fn number_in(json: &JsonValue) -> (number: Option<Number>)
    ensures
        match number {
            Some(number) => tree_of(*json) == Tree::Number(number),
            None => !(tree_of(*json) is Number),
        },
{
    json.as_number().map(
        |number|
            {
                let (positive, mantissa, exponent) = number.as_parts();
                Number { nan: number.is_nan(), positive, mantissa, exponent }
            },
    )
}

/// `JsonValue::members` on an array: its items, in order. There are none
/// for a value that `JsonValue::is_array` denies.
#[verifier::external_body]
pub(crate) fn items_in(json: &JsonValue) -> (items: Option<Vec<&JsonValue>>)
    ensures
        match items {
            Some(items) => tree_of(*json) is Array && tree_of(*json)->Array_0.len() == items.len()
                && forall|i: int|
                0 <= i < items.len() ==> tree_of(*#[trigger] items[i]) == tree_of(
                    *json,
                )->Array_0[i],
            None => !(tree_of(*json) is Array),
        },
{
    if json.is_array() {
        Some(json.members().collect())
    } else {
        None
    }
}

/// `JsonValue::entries` on an object: its members, each with its name, in
/// order. There are none for a value that `JsonValue::is_object` denies.
#[verifier::external_body]
pub(crate) fn entries_in(json: &JsonValue) -> (entries: Option<Vec<(&str, &JsonValue)>>)
    ensures
        match entries {
            Some(entries) => tree_of(*json) is Object && tree_of(*json)->Object_0.len()
                == entries.len() && forall|i: int|
                0 <= i < entries.len() ==> ((#[trigger] entries[i]).0@, tree_of(*entries[i].1))
                    == tree_of(*json)->Object_0[i],
            None => !(tree_of(*json) is Object),
        },
{
    if json.is_object() {
        Some(json.entries().collect())
    } else {
        None
    }
}

/// `json::Error::ExceededDepthLimit`, the error with which the parser itself
/// gives up a number whose digits it cannot count.
#[verifier::external_body]
pub(crate) fn uncountable() -> json::Error {
    json::Error::ExceededDepthLimit
}

/// `Object::new`: the object has no members.
#[verifier::external_body]
pub(crate) fn new_object() -> (object: Object)
    ensures
        members_of(object) == Seq::<(Seq<char>, Tree)>::empty(),
{
    Object::new()
}

/// `JsonValue::from` for a string slice: the value is a text node with that
/// text.
#[verifier::external_body]
pub(crate) fn text_value(text: &str) -> (value: JsonValue)
    ensures
        tree_of(value) == Tree::Text(text@),
{
    JsonValue::from(text)
}

/// `JsonValue::from` for a boolean: the value is that boolean.
#[verifier::external_body]
pub(crate) fn flag_value(flag: bool) -> (value: JsonValue)
    ensures
        tree_of(value) == Tree::Boolean(flag),
{
    JsonValue::from(flag)
}

/// `JsonValue::from` for a 64-bit integer: the value is a number with the
/// sign of the integer, its magnitude as mantissa and no exponent. The
/// least integer, which has no magnitude of its type, is left out.
#[verifier::external_body]
pub(crate) fn integer_value(number: i64) -> (value: JsonValue)
    requires
        number > i64::MIN,
    ensures
        tree_of(value) == integer(number as int),
{
    JsonValue::from(number)
}

/// `Object::insert`: the value takes the place of the member named `name`,
/// where the object has one, and becomes its last member otherwise.
#[verifier::external_body]
pub(crate) fn insert(object: &mut Object, name: &str, value: JsonValue)
    ensures
        members_of(*final(object)) == put(members_of(*old(object)), name@, tree_of(value)),
{
    object.insert(name, value)
}

/// `Object::dump`: the compact text of the object.
#[verifier::external_body]
pub(crate) fn dump_object(object: &Object) -> (text: String)
    ensures
        text@ == json_text(members_of(*object)),
{
    object.dump()
}

} // verus!
