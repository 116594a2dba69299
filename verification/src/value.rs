//! Structured data: the tree of typed nodes that a framed reply decodes to.

use vstd::prelude::*;

verus! {

/// A number as the `json` crate holds it: a sign, a decimal mantissa and a
/// decimal exponent, or the mark of what is not a number.
#[derive(Debug, Clone, Copy, PartialEq, Eq, Structural)]
pub struct Number {
    /// Set where the value is not a number. Nothing that is read from text
    /// has it set.
    pub nan: bool,
    /// Whether the sign is positive.
    pub positive: bool,
    /// The digits, as a whole number.
    pub mantissa: u64,
    /// The power of ten by which the mantissa is scaled.
    pub exponent: i16,
}

/// A named member of an object.
#[derive(Debug, PartialEq, Eq)]
pub struct Member {
    pub name: String,
    pub value: Value,
}

/// A node of structured data.
#[derive(Debug, PartialEq, Eq)]
pub enum Value {
    Null,
    Boolean(bool),
    Number(Number),
    Text(String),
    Array(Vec<Value>),
    Object(Vec<Member>),
}

/// The mathematical tree that a [`Value`] stands for.
pub enum Tree {
    Null,
    Boolean(bool),
    Number(Number),
    Text(Seq<char>),
    Array(Seq<Tree>),
    Object(Seq<(Seq<char>, Tree)>),
}

impl Value {
    /// The tree that the value stands for.
    pub open spec fn tree(self) -> Tree
        decreases self,
    {
        match self {
            Value::Null => Tree::Null,
            Value::Boolean(flag) => Tree::Boolean(flag),
            Value::Number(number) => Tree::Number(number),
            Value::Text(text) => Tree::Text(text@),
            Value::Array(items) => Tree::Array(
                Seq::new(
                    items@.len(),
                    |i: int|
                        if 0 <= i < items@.len() {
                            items@[i].tree()
                        } else {
                            Tree::Null
                        },
                ),
            ),
            Value::Object(members) => Tree::Object(
                Seq::new(
                    members@.len(),
                    |i: int|
                        if 0 <= i < members@.len() {
                            (members@[i].name@, members@[i].value.tree())
                        } else {
                            (Seq::empty(), Tree::Null)
                        },
                ),
            ),
        }
    }
}

impl View for Value {
    type V = Tree;

    open spec fn view(&self) -> Tree {
        self.tree()
    }
}

/// The trees of a sequence of values, in order.
pub open spec fn trees(items: Seq<Value>) -> Seq<Tree> {
    Seq::new(items.len(), |i: int| items[i]@)
}

/// The value of the first entry named `key`, if there is one.
pub open spec fn lookup(entries: Seq<(Seq<char>, Tree)>, key: Seq<char>) -> Option<Tree>
    decreases entries.len(),
{
    if entries.len() == 0 {
        None
    } else if entries[0].0 == key {
        Some(entries[0].1)
    } else {
        lookup(entries.drop_first(), key)
    }
}

impl Tree {
    /// The text of a text node; nothing for any other node.
    pub open spec fn text(self) -> Option<Seq<char>> {
        match self {
            Tree::Text(text) => Some(text),
            _ => None,
        }
    }

    /// The items of an array; nothing for any other node.
    pub open spec fn items(self) -> Option<Seq<Tree>> {
        match self {
            Tree::Array(items) => Some(items),
            _ => None,
        }
    }

    /// The member of an object that is named `key`; nothing where the node is
    /// no object or has no such member.
    pub open spec fn member(self, key: Seq<char>) -> Option<Tree> {
        match self {
            Tree::Object(entries) => lookup(entries, key),
            _ => None,
        }
    }

    /// The text of the member named `key`, where the node is an object that
    /// has such a member and the member is a text node.
    pub open spec fn member_text(self, key: Seq<char>) -> Option<Seq<char>> {
        match self.member(key) {
            Some(member) => member.text(),
            None => None,
        }
    }
}

/// The entries of a sequence of members, in order.
pub open spec fn entries(members: Seq<Member>) -> Seq<(Seq<char>, Tree)> {
    Seq::new(members.len(), |i: int| (members[i].name@, members[i].value@))
}

/// The tree of an array holds the trees of its items.
pub proof fn lemma_array_view(items: Vec<Value>)
    ensures
        Value::Array(items)@ == Tree::Array(trees(items@)),
{
    assert(Value::Array(items)@->Array_0 =~= trees(items@));
}

/// The tree of an object holds the entries of its members.
pub proof fn lemma_object_view(members: Vec<Member>)
    ensures
        Value::Object(members)@ == Tree::Object(entries(members@)),
{
    assert(Value::Object(members)@->Object_0 =~= entries(members@));
}

impl Value {
    /// The text of a text node.
    pub fn as_str(&self) -> (text: Option<&str>)
        ensures
            match text {
                Some(text) => self@.text() == Some(text@),
                None => self@.text() is None,
            },
    {
        match self {
            Value::Text(text) => Some(text.as_str()),
            _ => None,
        }
    }

    /// The items of an array.
    pub fn as_array(&self) -> (items: Option<&Vec<Value>>)
        ensures
            match items {
                Some(items) => self@ == Tree::Array(trees(items@)),
                None => self@.items() is None,
            },
    {
        match self {
            Value::Array(items) => {
                proof {
                    lemma_array_view(*items);
                }
                Some(items)
            },
            _ => None,
        }
    }

    /// The member of an object that is named `key`.
    pub fn get(&self, key: &str) -> (member: Option<&Value>)
        ensures
            match member {
                Some(member) => self@.member(key@) == Some(member@),
                None => self@.member(key@) is None,
            },
    {
        match self {
            Value::Object(members) => {
                let ghost entries = entries(members@);
                proof {
                    lemma_object_view(*members);
                    assert(entries.skip(0) =~= entries);
                }
                let wanted: String = key.to_owned();
                let mut i: usize = 0;
                while i < members.len()
                    invariant
                        i <= members.len(),
                        wanted@ == key@,
                        self@ == Tree::Object(entries),
                        entries.len() == members.len(),
                        forall|j: int|
                            0 <= j < members.len() ==> #[trigger] entries[j] == (
                                members[j].name@,
                                members[j].value@,
                            ),
                        lookup(entries, key@) == lookup(entries.skip(i as int), key@),
                    decreases members.len() - i,
                {
                    proof {
                        assert(entries.skip(i as int).drop_first() =~= entries.skip(i + 1));
                        assert(entries.skip(i as int)[0] == entries[i as int]);
                    }
                    if members[i].name == wanted {
                        return Some(&members[i].value);
                    }
                    i += 1;
                }
                None
            },
            _ => None,
        }
    }
}

} // verus!
