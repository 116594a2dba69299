//! Structured requests: an ordered mapping of named fields, written out as
//! text by the `json` crate.

use crate::bridge::{
    dump_object,
    flag_value,
    insert,
    integer,
    integer_value,
    json_text,
    members_of,
    new_object,
    put,
    text_value,
    tree_of,
};
use crate::value::Tree;
use json::JsonValue;
use vstd::prelude::*;

verus! {

/// The value of a request field.
#[derive(Debug, PartialEq, Eq)]
pub enum Scalar {
    Text(String),
    Flag(bool),
    Integer(i32),
}

/// A named field of a request.
#[derive(Debug, PartialEq, Eq)]
pub struct Field {
    pub name: String,
    pub value: Scalar,
}

/// A structured request: its fields, in the order in which they were given.
#[derive(Debug, PartialEq, Eq)]
pub struct Request {
    pub fields: Vec<Field>,
}

impl View for Scalar {
    type V = Tree;

    open spec fn view(&self) -> Tree {
        match self {
            Scalar::Text(text) => Tree::Text(text@),
            Scalar::Flag(flag) => Tree::Boolean(*flag),
            Scalar::Integer(number) => integer(*number as int),
        }
    }
}

impl View for Field {
    type V = (Seq<char>, Tree);

    open spec fn view(&self) -> (Seq<char>, Tree) {
        (self.name@, self.value@)
    }
}

impl View for Request {
    type V = Seq<(Seq<char>, Tree)>;

    open spec fn view(&self) -> Seq<(Seq<char>, Tree)> {
        Seq::new(self.fields@.len(), |i: int| self.fields@[i]@)
    }
}

/// The members of the object that the fields fill, each inserted in turn.
pub open spec fn filled(fields: Seq<(Seq<char>, Tree)>) -> Seq<(Seq<char>, Tree)>
    decreases fields.len(),
{
    if fields.len() == 0 {
        Seq::empty()
    } else {
        put(filled(fields.drop_last()), fields.last().0, fields.last().1)
    }
}

/// The text that stands for a request with the given fields.
pub open spec fn request_text(fields: Seq<(Seq<char>, Tree)>) -> Seq<char> {
    json_text(filled(fields))
}

impl Scalar {
    /// The value of the `json` crate that stands for the scalar.
    fn to_json(&self) -> (value: JsonValue)
        ensures
            tree_of(value) == self@,
    {
        match self {
            Scalar::Text(text) => text_value(text.as_str()),
            Scalar::Flag(flag) => flag_value(*flag),
            Scalar::Integer(number) => integer_value(*number as i64),
        }
    }
}

impl Request {
    /// A request without fields.
    pub fn new() -> (request: Request)
        ensures
            request@ == Seq::<(Seq<char>, Tree)>::empty(),
    {
        let request = Request { fields: Vec::new() };
        assert(request@ =~= Seq::empty());
        request
    }

    /// Adds a field after those that are there.
    pub fn field(self, name: &str, value: Scalar) -> (request: Request)
        ensures
            request@ == self@.push((name@, value@)),
    {
        let mut fields = self.fields;
        fields.push(Field { name: name.to_owned(), value });
        let request = Request { fields };
        assert(request@ =~= self@.push((name@, value@)));
        request
    }

    /// The request as compact text: each field is inserted in turn into an
    /// empty object, and the object is written out.
    pub fn dump(&self) -> (text: String)
        ensures
            text@ == request_text(self@),
    {
        let mut object = new_object();
        let mut i: usize = 0;
        while i < self.fields.len()
            invariant
                i <= self.fields.len(),
                members_of(object) == filled(self@.take(i as int)),
            decreases self.fields.len() - i,
        {
            let field = &self.fields[i];
            proof {
                let longer = self@.take(i + 1);
                assert(longer.drop_last() =~= self@.take(i as int));
                assert(longer.last() == field@);
            }
            insert(&mut object, field.name.as_str(), field.value.to_json());
            i += 1;
        }
        assert(self@.take(i as int) =~= self@);
        dump_object(&object)
    }
}

/// Whether no two fields have one name.
pub open spec fn distinct(fields: Seq<(Seq<char>, Tree)>) -> bool {
    forall|i: int, j: int|
        0 <= i < j < fields.len() ==> (#[trigger] fields[i]).0 != (#[trigger] fields[j]).0
}

/// A member that is inserted under a new name comes last.
pub proof fn lemma_put_new(members: Seq<(Seq<char>, Tree)>, name: Seq<char>, tree: Tree)
    requires
        forall|i: int| 0 <= i < members.len() ==> (#[trigger] members[i]).0 != name,
    ensures
        put(members, name, tree) == members.push((name, tree)),
    decreases members.len(),
{
    if members.len() > 0 {
        let rest = members.drop_first();
        assert forall|i: int| 0 <= i < rest.len() implies (#[trigger] rest[i]).0 != name by {
            assert(rest[i] == members[i + 1]);
        }
        lemma_put_new(rest, name, tree);
        assert(seq![members[0]] + rest.push((name, tree)) =~= members.push((name, tree)));
    } else {
        assert(seq![(name, tree)] =~= members.push((name, tree)));
    }
}

/// Fields with names of their own are written as they were given, in order.
pub proof fn lemma_filled_distinct(fields: Seq<(Seq<char>, Tree)>)
    requires
        distinct(fields),
    ensures
        filled(fields) == fields,
    decreases fields.len(),
{
    if fields.len() > 0 {
        let front = fields.drop_last();
        assert forall|i: int, j: int| 0 <= i < j < front.len() implies (#[trigger] front[i]).0 != (
        #[trigger] front[j]).0 by {
            assert(front[i] == fields[i]);
            assert(front[j] == fields[j]);
        }
        lemma_filled_distinct(front);
        assert forall|i: int| 0 <= i < front.len() implies (#[trigger] front[i]).0
            != fields.last().0 by {
            assert(front[i] == fields[i]);
        }
        lemma_put_new(front, fields.last().0, fields.last().1);
        assert(front.push(fields.last()) =~= fields);
    } else {
        assert(filled(fields) =~= fields);
    }
}

/// The fields of the request for the password of the entry at `path`.
pub open spec fn login_fields(path: Seq<char>) -> Seq<(Seq<char>, Tree)> {
    seq![("type"@, Tree::Text("getLogin"@)), ("entry"@, Tree::Text(path))]
}

/// The fields of the request for the entries under `path`.
pub open spec fn query_fields(path: Seq<char>) -> Seq<(Seq<char>, Tree)> {
    seq![("type"@, Tree::Text("query"@)), ("query"@, Tree::Text(path))]
}

/// The fields of the request that has a password of `length` characters
/// generated for the entry at `path`.
pub open spec fn generate_fields(path: Seq<char>, use_symbols: bool, length: int) -> Seq<
    (Seq<char>, Tree),
> {
    seq![
        ("type"@, Tree::Text("create"@)),
        ("entry_name"@, Tree::Text(path)),
        ("password"@, Tree::Text(Seq::empty())),
        ("generate"@, Tree::Boolean(true)),
        ("length"@, integer(length)),
        ("use_symbols"@, Tree::Boolean(use_symbols)),
    ]
}

/// The fields of the request that stores `password` in the entry at `path`.
pub open spec fn insert_fields(path: Seq<char>, password: Seq<char>) -> Seq<(Seq<char>, Tree)> {
    seq![
        ("type"@, Tree::Text("create"@)),
        ("entry_name"@, Tree::Text(path)),
        ("password"@, Tree::Text(password)),
    ]
}

/// The request for the password of the entry at `path`.
pub fn login_request(path: &str) -> (request: Request)
    ensures
        request@ == login_fields(path@),
{
    let request = Request::new().field("type", Scalar::Text("getLogin".to_string())).field(
        "entry",
        Scalar::Text(path.to_owned()),
    );
    assert(request@ =~= login_fields(path@));
    request
}

/// The request for the entries under `path`.
pub fn query_request(path: &str) -> (request: Request)
    ensures
        request@ == query_fields(path@),
{
    let request = Request::new().field("type", Scalar::Text("query".to_string())).field(
        "query",
        Scalar::Text(path.to_owned()),
    );
    assert(request@ =~= query_fields(path@));
    request
}

/// The request that has a password generated for the entry at `path`.
pub fn generate_request(path: &str, use_symbols: bool, length: i32) -> (request: Request)
    ensures
        request@ == generate_fields(path@, use_symbols, length as int),
{
    let request = Request::new().field("type", Scalar::Text("create".to_string())).field(
        "entry_name",
        Scalar::Text(path.to_owned()),
    ).field("password", Scalar::Text(String::new())).field("generate", Scalar::Flag(true)).field(
        "length",
        Scalar::Integer(length),
    ).field("use_symbols", Scalar::Flag(use_symbols));
    assert(request@ =~= generate_fields(path@, use_symbols, length as int));
    request
}

/// The request that stores `password` in the entry at `path`.
pub fn insert_request(path: &str, password: &str) -> (request: Request)
    ensures
        request@ == insert_fields(path@, password@),
{
    let request = Request::new().field("type", Scalar::Text("create".to_string())).field(
        "entry_name",
        Scalar::Text(path.to_owned()),
    ).field("password", Scalar::Text(password.to_owned()));
    assert(request@ =~= insert_fields(path@, password@));
    request
}

} // verus!
