//! JSON documents as plain data, and how the proxy reads them.
use vstd::prelude::*;

use crate::codec::{NegativeNumber, OtherNumber};

verus! {

/// A JSON number, told apart as far as the proxy reads one.
#[derive(Debug, PartialEq)]
pub enum JsonNumber {
    Unsigned(u64),
    Negative(NegativeNumber),
    Other(OtherNumber),
}

/// A JSON document.
#[derive(Debug, PartialEq)]
pub enum Json {
    Null,
    Bool(bool),
    Number(JsonNumber),
    Text(String),
    Array(Vec<Json>),
    Object(Vec<(String, Json)>),
}

/// What a JSON document means. An object is a map from names to documents.
pub enum JsonView {
    Null,
    Bool(bool),
    Number(JsonNumber),
    Text(Seq<char>),
    Array(Seq<JsonView>),
    Object(Map<Seq<char>, JsonView>),
}

/// The object that a list of members stands for: of members with one name the last counts.
pub open spec fn object_of(members: Seq<(Seq<char>, JsonView)>) -> Map<Seq<char>, JsonView>
    decreases members.len(),
{
    if members.len() == 0 {
        Map::empty()
    } else {
        object_of(members.drop_last()).insert(members.last().0, members.last().1)
    }
}

/// The meanings of a list of documents.
pub open spec fn items_view(items: Seq<Json>) -> Seq<JsonView> {
    Seq::new(items.len(), |i: int| items[i]@)
}

/// The meanings of a list of members.
pub open spec fn members_view(members: Seq<(String, Json)>) -> Seq<(Seq<char>, JsonView)> {
    Seq::new(members.len(), |i: int| (members[i].0@, members[i].1@))
}

/// What a document means.
pub open spec fn meaning(document: Json) -> JsonView
    decreases document,
{
    match document {
        Json::Null => JsonView::Null,
        Json::Bool(b) => JsonView::Bool(b),
        Json::Number(n) => JsonView::Number(n),
        Json::Text(s) => JsonView::Text(s@),
        Json::Array(items) => JsonView::Array(
            Seq::new(
                items@.len(),
                |i: int|
                    if 0 <= i < items@.len() {
                        meaning(items@[i])
                    } else {
                        JsonView::Null
                    },
            ),
        ),
        Json::Object(members) => JsonView::Object(object_meaning(members@)),
    }
}

/// What a list of members means: of members with one name the last counts.
pub open spec fn object_meaning(members: Seq<(String, Json)>) -> Map<Seq<char>, JsonView>
    decreases members,
{
    if members.len() == 0 {
        Map::empty()
    } else {
        object_meaning(members.subrange(0, members.len() - 1)).insert(
            members[members.len() - 1].0@,
            meaning(members[members.len() - 1].1),
        )
    }
}

impl View for Json {
    type V = JsonView;

    open spec fn view(&self) -> JsonView {
        meaning(*self)
    }
}

impl JsonView {
    /// The member `name` of an object.
    pub open spec fn field(self, name: Seq<char>) -> Option<JsonView> {
        match self {
            JsonView::Object(members) => if members.contains_key(name) {
                Some(members[name])
            } else {
                None
            },
            _ => None,
        }
    }

    /// The element `index` of an array.
    pub open spec fn item(self, index: int) -> Option<JsonView> {
        match self {
            JsonView::Array(items) => if 0 <= index < items.len() {
                Some(items[index])
            } else {
                None
            },
            _ => None,
        }
    }

    /// The characters of a string.
    pub open spec fn text(self) -> Option<Seq<char>> {
        match self {
            JsonView::Text(s) => Some(s),
            _ => None,
        }
    }

    /// The value of an integer between zero and `u64::MAX`.
    pub open spec fn unsigned(self) -> Option<u64> {
        match self {
            JsonView::Number(JsonNumber::Unsigned(n)) => Some(n),
            _ => None,
        }
    }

    /// The string under `name`.
    pub open spec fn field_text(self, name: Seq<char>) -> Option<Seq<char>> {
        match self.field(name) {
            Some(v) => v.text(),
            None => None,
        }
    }

    /// The element `index` of the array under `name`.
    pub open spec fn field_item(self, name: Seq<char>, index: int) -> Option<JsonView> {
        match self.field(name) {
            Some(v) => v.item(index),
            None => None,
        }
    }
}

proof fn lemma_object_meaning(members: Seq<(String, Json)>)
    ensures
        object_meaning(members) == object_of(members_view(members)),
    decreases members.len(),
{
    if members.len() > 0 {
        let rest = members.subrange(0, members.len() - 1);
        lemma_object_meaning(rest);
        assert(members_view(rest) =~= members_view(members).drop_last());
    }
}

/// The meaning of an array is the list of the meanings of its elements, and the meaning of an
/// object follows from those of its members.
pub proof fn lemma_json_view(document: Json)
    ensures
        document matches Json::Array(items) ==> document@ == JsonView::Array(items_view(items@)),
        document matches Json::Object(members) ==> document@ == JsonView::Object(
            object_of(members_view(members@)),
        ),
{
    match document {
        Json::Array(items) => {
            assert(document@->Array_0 =~= items_view(items@));
        },
        Json::Object(members) => {
            lemma_object_meaning(members@);
        },
        _ => {},
    }
}

/// The last member with a name is the one that the object has.
pub proof fn lemma_last_member(members: Seq<(Seq<char>, JsonView)>, index: int)
    requires
        0 <= index < members.len(),
        forall|j: int| index < j < members.len() ==> (#[trigger] members[j]).0 != members[index].0,
    ensures
        object_of(members).contains_key(members[index].0),
        object_of(members)[members[index].0] == members[index].1,
    decreases members.len(),
{
    if index < members.len() - 1 {
        let rest = members.drop_last();
        assert forall|j: int| index < j < rest.len() implies (#[trigger] rest[j]).0
            != rest[index].0 by {
            assert(rest[j] == members[j]);
        }
        lemma_last_member(rest, index);
        assert(members.last().0 != members[index].0);
    }
}

/// An object has finitely many members.
pub proof fn lemma_object_finite(members: Seq<(Seq<char>, JsonView)>)
    ensures
        object_of(members).dom().finite(),
    decreases members.len(),
{
    if members.len() > 0 {
        lemma_object_finite(members.drop_last());
    }
}

/// An object has no member under a name that no member of the list has.
pub proof fn lemma_no_member(members: Seq<(Seq<char>, JsonView)>, name: Seq<char>)
    requires
        forall|j: int| 0 <= j < members.len() ==> (#[trigger] members[j]).0 != name,
    ensures
        !object_of(members).contains_key(name),
    decreases members.len(),
{
    if members.len() > 0 {
        let rest = members.drop_last();
        assert forall|j: int| 0 <= j < rest.len() implies (#[trigger] rest[j]).0 != name by {
            assert(rest[j] == members[j]);
        }
        lemma_no_member(rest, name);
        assert(members.last().0 != name);
    }
}

/// Parts a list of members into those not named `name` and what the object has under `name`.
pub fn split_member(members: Vec<(String, Json)>, name: &str) -> (parts: (
    Vec<(String, Json)>,
    Option<Json>,
))
    ensures
        object_of(members_view(parts.0@)) == object_of(members_view(members@)).remove(name@),
        match JsonView::Object(object_of(members_view(members@))).field(name@) {
            Some(v) => parts.1 is Some && parts.1->0@ == v,
            None => parts.1 is None,
        },
{
    let wanted: String = name.to_owned();
    let ghost all = members@;
    let ghost seen = members_view(all);
    let mut rest: Vec<(String, Json)> = Vec::new();
    let mut found: Option<Json> = None;
    assert(members_view(rest@) =~= seen.take(0));
    assert(object_of(seen.take(0)).remove(name@) =~= object_of(seen.take(0)));
    for member in it: members
        invariant
            it.seq() == all,
            seen == members_view(all),
            wanted@ == name@,
            object_of(members_view(rest@)) == object_of(seen.take(it.index() as int)).remove(name@),
            match JsonView::Object(object_of(seen.take(it.index() as int))).field(name@) {
                Some(v) => found is Some && found->0@ == v,
                None => found is None,
            },
    {
        let ghost at = it.index() as int;
        let ghost before = members_view(rest@);
        let ghost object = object_of(seen.take(at));
        proof {
            assert(seen.take(at + 1).drop_last() =~= seen.take(at));
            assert(seen.take(at + 1).last() == (member.0@, member.1@));
        }
        if member.0 == wanted {
            proof {
                assert(object.insert(name@, member.1@).remove(name@) =~= object.remove(name@));
            }
            found = Some(member.1);
        } else {
            proof {
                assert(object.insert(member.0@, member.1@).remove(name@) =~= object.remove(
                    name@,
                ).insert(member.0@, member.1@));
            }
            rest.push(member);
            proof {
                assert(members_view(rest@).drop_last() =~= before);
            }
        }
    }
    assert(seen.take(all.len() as int) =~= seen);
    (rest, found)
}

impl Json {
    /// The member `name` of an object.
    pub fn get(&self, name: &str) -> (found: Option<&Json>)
        ensures
            match self@.field(name@) {
                Some(v) => found is Some && found->0@ == v,
                None => found is None,
            },
    {
        proof {
            lemma_json_view(*self);
        }
        match self {
            Json::Object(members) => {
                let wanted: String = name.to_owned();
                let ghost seen = members_view(members@);
                let mut left: usize = members.len();
                while left > 0
                    invariant
                        left <= members@.len(),
                        wanted@ == name@,
                        seen == members_view(members@),
                        self@ == JsonView::Object(object_of(seen)),
                        forall|j: int| left <= j < seen.len() ==> (#[trigger] seen[j]).0 != name@,
                    decreases left,
                {
                    left = left - 1;
                    let member = &members[left];
                    if member.0 == wanted {
                        proof {
                            lemma_last_member(seen, left as int);
                        }
                        return Some(&member.1);
                    }
                }
                proof {
                    lemma_no_member(seen, name@);
                }
                None
            },
            _ => None,
        }
    }

    /// The member `name` of an object, moved out of it.
    pub fn take(self, name: &str) -> (found: Option<Json>)
        ensures
            match self@.field(name@) {
                Some(v) => found is Some && found->0@ == v,
                None => found is None,
            },
    {
        proof {
            lemma_json_view(self);
        }
        match self {
            Json::Object(members) => split_member(members, name).1,
            _ => None,
        }
    }

    /// The element `index` of an array.
    pub fn item(&self, index: usize) -> (found: Option<&Json>)
        ensures
            match self@.item(index as int) {
                Some(v) => found is Some && found->0@ == v,
                None => found is None,
            },
    {
        proof {
            lemma_json_view(*self);
        }
        match self {
            Json::Array(items) => if index < items.len() {
                Some(&items[index])
            } else {
                None
            },
            _ => None,
        }
    }

    /// The element `index` of an array, moved out of it.
    pub fn take_item(self, index: usize) -> (found: Option<Json>)
        ensures
            match self@.item(index as int) {
                Some(v) => found is Some && found->0@ == v,
                None => found is None,
            },
    {
        proof {
            lemma_json_view(self);
        }
        match self {
            Json::Array(items) => {
                let mut items = items;
                if index < items.len() {
                    Some(items.remove(index))
                } else {
                    None
                }
            },
            _ => None,
        }
    }

    /// The characters of a string.
    pub fn text(&self) -> (found: Option<&str>)
        ensures
            match self@.text() {
                Some(s) => found is Some && found->0@ == s,
                None => found is None,
            },
    {
        match self {
            Json::Text(s) => Some(s.as_str()),
            _ => None,
        }
    }

    /// The value of an integer between zero and `u64::MAX`.
    pub fn unsigned(&self) -> (found: Option<u64>)
        ensures
            found == self@.unsigned(),
    {
        match self {
            Json::Number(JsonNumber::Unsigned(n)) => Some(*n),
            _ => None,
        }
    }

    /// The string under `name`.
    pub fn field_text(&self, name: &str) -> (found: Option<&str>)
        ensures
            match self@.field_text(name@) {
                Some(s) => found is Some && found->0@ == s,
                None => found is None,
            },
    {
        match self.get(name) {
            Some(v) => v.text(),
            None => None,
        }
    }

    /// The element `index` of the array under `name`.
    pub fn field_item(&self, name: &str, index: usize) -> (found: Option<&Json>)
        ensures
            match self@.field_item(name@, index as int) {
                Some(v) => found is Some && found->0@ == v,
                None => found is None,
            },
    {
        match self.get(name) {
            Some(v) => v.item(index),
            None => None,
        }
    }
}

/// Looking into a document: an object has under a name what it maps the name to, an array has its
/// elements by their places from zero, and nothing else has members or elements.
pub proof fn law_documents_are_looked_into(
    document: JsonView,
    members: Map<Seq<char>, JsonView>,
    items: Seq<JsonView>,
    name: Seq<char>,
    index: int,
)
    ensures
        JsonView::Object(members).field(name) is Some <==> members.contains_key(name),
        members.contains_key(name) ==> JsonView::Object(members).field(name) == Some(members[name]),
        !(document is Object) ==> document.field(name) is None,
        JsonView::Array(items).item(index) is Some <==> 0 <= index < items.len(),
        0 <= index < items.len() ==> JsonView::Array(items).item(index) == Some(items[index]),
        !(document is Array) ==> document.item(index) is None,
        document.field(name) matches Some(JsonView::Array(held)) ==> document.field_item(name, index)
            == JsonView::Array(held).item(index),
        !(document.field(name) matches Some(JsonView::Array(_))) ==> document.field_item(name, index)
            is None,
{
}

/// Reading a value: only a string has characters, and only an integer from zero on has a number.
pub proof fn law_values_are_read(
    document: JsonView,
    characters: Seq<char>,
    number: u64,
    name: Seq<char>,
)
    ensures
        document.text() == Some(characters) <==> document == JsonView::Text(characters),
        document.unsigned() == Some(number) <==> document == JsonView::Number(
            JsonNumber::Unsigned(number),
        ),
        document.field_text(name) == Some(characters) <==> document.field(name) == Some(
            JsonView::Text(characters),
        ),
{
}

/// What plain data mean: a value is itself, an array keeps its elements in their order, and an
/// object has under a name what the last member of that name says.
pub proof fn law_data_mean_themselves(
    flag: bool,
    n: JsonNumber,
    characters: String,
    items: Vec<Json>,
    members: Vec<(String, Json)>,
    index: int,
)
    ensures
        Json::Null@ == JsonView::Null,
        Json::Bool(flag)@ == JsonView::Bool(flag),
        Json::Number(n)@ == JsonView::Number(n),
        Json::Text(characters)@ == JsonView::Text(characters@),
        Json::Array(items)@ is Array,
        Json::Array(items)@->Array_0.len() == items@.len(),
        0 <= index < items@.len() ==> Json::Array(items)@->Array_0[index] == items@[index]@,
        Json::Object(members)@ is Object,
        0 <= index < members@.len() && (forall|j: int|
            index < j < members@.len() ==> (#[trigger] members@[j]).0@ != members@[index].0@)
            ==> Json::Object(members)@.field(members@[index].0@) == Some(members@[index].1@),
        forall|name: Seq<char>|
            (forall|j: int| 0 <= j < members@.len() ==> (#[trigger] members@[j]).0@ != name)
                ==> #[trigger] Json::Object(members)@.field(name) is None,
{
    lemma_json_view(Json::Array(items));
    lemma_json_view(Json::Object(members));
    let seen = members_view(members@);
    if 0 <= index < members@.len() && (forall|j: int|
        index < j < members@.len() ==> (#[trigger] members@[j]).0@ != members@[index].0@) {
        assert forall|j: int| index < j < seen.len() implies (#[trigger] seen[j]).0
            != seen[index].0 by {
            assert(members@[j].0@ != members@[index].0@);
        }
        lemma_last_member(seen, index);
    }
    assert forall|name: Seq<char>|
        (forall|j: int| 0 <= j < members@.len() ==> (#[trigger] members@[j]).0@ != name) implies (
    #[trigger] Json::Object(members)@.field(name)) is None by {
        assert forall|j: int| 0 <= j < seen.len() implies (#[trigger] seen[j]).0 != name by {
            assert(members@[j].0@ != name);
        }
        lemma_no_member(seen, name);
    }
}

} // verus!
