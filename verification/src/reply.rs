//! What the replies of a framed session carry, operation by operation.

use crate::error::{agrees, Error, Failure};
use crate::process::texts;
use crate::value::{trees, Tree, Value};
use vstd::prelude::*;

verus! {

/// The character that separates the segments of an entry path.
pub const SEPARATOR: char = '/';

/// The position behind the last separator of `entry`; zero where it has none.
pub open spec fn name_start(entry: Seq<char>) -> int
    decreases entry.len(),
{
    if entry.len() == 0 {
        0
    } else if entry.last() == SEPARATOR {
        entry.len() as int
    } else {
        name_start(entry.drop_last())
    }
}

/// The username of an entry: what follows its last separator, or all of it
/// where it has none.
pub open spec fn username(entry: Seq<char>) -> Seq<char> {
    entry.skip(name_start(entry))
}

/// The start of the name is a position of `entry`; it stands at the start or
/// behind a separator, and no separator follows it.
pub proof fn lemma_name_start(entry: Seq<char>)
    ensures
        0 <= name_start(entry) <= entry.len(),
        name_start(entry) > 0 ==> entry[name_start(entry) - 1] == SEPARATOR,
        forall|i: int| name_start(entry) <= i < entry.len() ==> entry[i] != SEPARATOR,
    decreases entry.len(),
{
    if entry.len() > 0 && entry.last() != SEPARATOR {
        let shorter = entry.drop_last();
        lemma_name_start(shorter);
        assert forall|i: int| name_start(entry) <= i < entry.len() implies entry[i]
            != SEPARATOR by {
            if i < shorter.len() {
                assert(entry[i] == shorter[i]);
            }
        }
    }
}

/// The username of `entry`.
pub fn username_of(entry: &str) -> (name: String)
    ensures
        name@ == username(entry@),
{
    let length: usize = entry.unicode_len();
    let mut start: usize = 0;
    let mut position: usize = 0;
    for c in it: entry.chars()
        invariant
            it.seq() == entry@,
            length == entry@.len(),
            position == it.index(),
            start <= position,
            start == name_start(entry@.take(position as int)),
    {
        proof {
            let longer = entry@.take(position + 1);
            assert(longer.drop_last() =~= entry@.take(position as int));
            assert(longer.last() == c);
        }
        position += 1;
        if c == SEPARATOR {
            start = position;
        }
    }
    assert(entry@.take(position as int) =~= entry@);
    entry.substring_char(start, length).to_owned()
}

/// The password that a reply carries: the text of its member `password`.
pub open spec fn password_in(reply: Tree) -> Result<Seq<char>, Failure> {
    match reply.member_text("password"@) {
        Some(password) => Ok(password),
        None => Err(Failure::InvalidOutput),
    }
}

/// Whether every item is a text node.
pub open spec fn all_text(items: Seq<Tree>) -> bool {
    forall|i: int| 0 <= i < items.len() ==> (#[trigger] items[i]) is Text
}

/// The usernames that a reply carries: it is an array of entry paths, and
/// each path gives its username, in order.
pub open spec fn usernames_in(reply: Tree) -> Result<Seq<Seq<char>>, Failure> {
    match reply {
        Tree::Array(items) => if all_text(items) {
            Ok(Seq::new(items.len(), |i: int| username(items[i]->Text_0)))
        } else {
            Err(Failure::InvalidOutput)
        },
        _ => Err(Failure::InvalidOutput),
    }
}

/// Whether a reply confirms a generated password: it has a text member
/// `username`.
pub open spec fn generated_in(reply: Tree) -> Result<(), Failure> {
    if reply.member_text("username"@) is Some {
        Ok(())
    } else {
        Err(Failure::InvalidOutput)
    }
}

/// Whether a reply confirms that `password` was stored: it echoes no
/// password, or echoes this one.
pub open spec fn inserted_in(reply: Tree, password: Seq<char>) -> Result<(), Failure> {
    match reply.member_text("password"@) {
        Some(echo) => if echo == password {
            Ok(())
        } else {
            Err(Failure::InvalidOutput)
        },
        None => Ok(()),
    }
}

/// Whether `result` is `expected`, seen through the texts of its strings and
/// the view of its error.
pub open spec fn lists(
    result: Result<Vec<String>, Error>,
    expected: Result<Seq<Seq<char>>, Failure>,
) -> bool {
    match expected {
        Ok(names) => result matches Ok(found) && texts(found@) == names,
        Err(failure) => result matches Err(error) && error@ == failure,
    }
}

/// Reads the password out of a reply.
pub fn read_password(reply: &Value) -> (result: Result<String, Error>)
    ensures
        agrees(result, password_in(reply@)),
{
    match reply.get("password") {
        Some(member) => match member.as_str() {
            Some(password) => Ok(password.to_owned()),
            None => Err(Error::InvalidOutput),
        },
        None => Err(Error::InvalidOutput),
    }
}

/// Reads the usernames out of a reply.
pub fn read_usernames(reply: &Value) -> (result: Result<Vec<String>, Error>)
    ensures
        lists(result, usernames_in(reply@)),
{
    match reply.as_array() {
        None => Err(Error::InvalidOutput),
        Some(items) => {
            let ghost nodes = trees(items@);
            let mut names: Vec<String> = Vec::new();
            let mut i: usize = 0;
            while i < items.len()
                invariant
                    i <= items.len(),
                    nodes == trees(items@),
                    reply@ == Tree::Array(nodes),
                    names.len() == i,
                    forall|j: int| 0 <= j < i ==> (#[trigger] nodes[j]) is Text,
                    forall|j: int|
                        0 <= j < i ==> (#[trigger] names[j])@ == username(nodes[j]->Text_0),
                decreases items.len() - i,
            {
                match items[i].as_str() {
                    Some(entry) => {
                        names.push(username_of(entry));
                    },
                    None => {
                        assert(!(nodes[i as int] is Text));
                        return Err(Error::InvalidOutput);
                    },
                }
                i += 1;
            }
            assert(all_text(nodes));
            assert(texts(names@) =~= usernames_in(reply@)->Ok_0);
            Ok(names)
        },
    }
}

/// Checks that a reply confirms a generated password.
pub fn check_generated(reply: &Value) -> (result: Result<(), Error>)
    ensures
        agrees(result, generated_in(reply@)),
{
    match reply.get("username") {
        Some(member) => match member.as_str() {
            Some(_) => Ok(()),
            None => Err(Error::InvalidOutput),
        },
        None => Err(Error::InvalidOutput),
    }
}

/// Checks that a reply confirms that `password` was stored.
pub fn check_inserted(reply: &Value, password: &str) -> (result: Result<(), Error>)
    ensures
        agrees(result, inserted_in(reply@, password@)),
{
    match reply.get("password") {
        Some(member) => match member.as_str() {
            Some(echo) => {
                if echo.to_owned() == password.to_owned() {
                    Ok(())
                } else {
                    Err(Error::InvalidOutput)
                }
            },
            None => Ok(()),
        },
        None => Ok(()),
    }
}

} // verus!
