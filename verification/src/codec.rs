//! JSON text in and out, by `serde_json`.
use vstd::prelude::*;

use crate::json::{
    Json, JsonNumber, JsonView, items_view, lemma_json_view, lemma_last_member, lemma_object_finite,
    members_view, object_of,
};

verus! {

/// `serde_json::Number`, which the library only carries along.
#[verifier::external_type_specification]
#[verifier::external_body]
pub struct ExSerdeNumber(serde_json::Number);

/// `serde_json::Value`, a JSON document as the outside crate holds it.
#[verifier::external_type_specification]
#[verifier::external_body]
pub struct ExSerdeValue(serde_json::Value);

/// A negative JSON integer down to `i64::MIN`.
#[derive(Debug, PartialEq)]
pub struct NegativeNumber {
    value: i64,
}

impl NegativeNumber {
    #[verifier::type_invariant]
    spec fn below_zero(self) -> bool {
        self.value < 0
    }
}

/// A JSON number that is no integer between `i64::MIN` and `u64::MAX`, or is written with a
/// fraction or an exponent. Only this module makes one, and never of another number.
#[derive(Debug, PartialEq)]
pub struct OtherNumber {
    number: serde_json::Number,
}

/// One level of a `serde_json::Value`.
pub enum JsonNode {
    Null,
    Bool(bool),
    Number(JsonNumber),
    Text(String),
    Items(Vec<serde_json::Value>),
    Members(Vec<(String, serde_json::Value)>),
}

/// The document that a `serde_json::Value` holds.
pub uninterp spec fn value_meaning(value: serde_json::Value) -> JsonView;

/// What `serde_json::from_str::<serde_json::Value>` makes of a text.
pub uninterp spec fn json_of(text: Seq<char>) -> Option<JsonView>;

/// What `serde_json::to_string` writes for a document.
pub uninterp spec fn json_text(document: JsonView) -> Seq<char>;

/// The number that `serde_json::Number::from_f64` makes of the whole number `n`.
pub uninterp spec fn real_of(n: u32) -> OtherNumber;

/// The elements of an array, by what they hold.
pub open spec fn value_items(items: Seq<serde_json::Value>) -> Seq<JsonView> {
    Seq::new(items.len(), |i: int| value_meaning(items[i]))
}

/// The members of an object, by what they hold.
pub open spec fn value_members(members: Seq<(String, serde_json::Value)>) -> Seq<
    (Seq<char>, JsonView),
> {
    Seq::new(members.len(), |i: int| (members[i].0@, value_meaning(members[i].1)))
}

/// The document that one level holds together with what is below it.
pub open spec fn node_meaning(node: JsonNode) -> JsonView {
    match node {
        JsonNode::Null => JsonView::Null,
        JsonNode::Bool(b) => JsonView::Bool(b),
        JsonNode::Number(n) => JsonView::Number(n),
        JsonNode::Text(s) => JsonView::Text(s@),
        JsonNode::Items(items) => JsonView::Array(value_items(items@)),
        JsonNode::Members(members) => JsonView::Object(object_of(value_members(members@))),
    }
}

/// No two members have one name.
pub open spec fn distinct_names(members: Seq<(String, serde_json::Value)>) -> bool {
    forall|i: int, j: int|
        0 <= i < j < members.len() ==> (#[trigger] members[i]).0@ != (#[trigger] members[j]).0@
}

/// A text without a line feed.
pub open spec fn one_line(text: Seq<char>) -> bool {
    !text.contains('\n')
}

/// A text with neither a line feed nor a carriage return.
pub open spec fn unbroken(text: Seq<char>) -> bool {
    one_line(text) && !text.contains('\r')
}

/// How deep a document may be nested so that `serde_json` still reads it.
pub const NESTING_LIMIT: usize = 127;

/// A number that reads back exactly as it is written: an integer that fits in 64 bits, or a whole
/// number below 2^32 that is written with a fraction.
pub open spec fn exact_number(n: JsonNumber) -> bool {
    match n {
        JsonNumber::Unsigned(_) | JsonNumber::Negative(_) => true,
        JsonNumber::Other(other) => exists|whole: u32| other == #[trigger] real_of(whole),
    }
}

/// A document that is nested no deeper than `depth`, and whose numbers all read back exactly if
/// `exact` says so.
pub open spec fn shaped(document: JsonView, depth: nat, exact: bool) -> bool
    decreases depth,
{
    match document {
        JsonView::Number(n) => exact ==> exact_number(n),
        JsonView::Array(items) => depth > 0 && forall|i: int|
            0 <= i < items.len() ==> shaped(#[trigger] items[i], (depth - 1) as nat, exact),
        JsonView::Object(members) => depth > 0 && forall|name: Seq<char>|
            members.contains_key(name) ==> shaped(
                #[trigger] members[name],
                (depth - 1) as nat,
                exact,
            ),
        _ => true,
    }
}

/// A document that is nested no deeper than `depth`.
pub open spec fn nested_within(document: JsonView, depth: nat) -> bool {
    shaped(document, depth, false)
}

/// A document that is nested no deeper than `depth`, and whose numbers all read back exactly.
pub open spec fn plain(document: JsonView, depth: nat) -> bool {
    shaped(document, depth, true)
}

/// Calls `serde_json::from_str` for a `serde_json::Value`: the result depends on the text alone,
/// and is `None` where the text is not one JSON document. What is nested too deep is refused.
#[verifier::external_body]
fn parse_value(text: &str) -> (value: Option<serde_json::Value>)
    ensures
        match value {
            Some(v) => {
                &&& json_of(text@) == Some(value_meaning(v))
                &&& nested_within(value_meaning(v), NESTING_LIMIT as nat)
            },
            None => json_of(text@) is None,
        },
{
    serde_json::from_str::<serde_json::Value>(text).ok()
}

/// Calls `serde_json::to_string` on a `serde_json::Value`, which does not fail: the text depends
/// on the document that the value holds alone, and has no line feed or carriage return in it, since
/// the compact form puts none between tokens and strings are written with theirs escaped. The text
/// is JSON that `serde_json` reads, unless it is nested deeper than that goes, and a plain document
/// reads back as itself. Which document others read back as is left unsaid: of a number with many
/// digits the last one can differ.
#[verifier::external_body]
fn print_value(value: &serde_json::Value) -> (text: String)
    ensures
        text@ == json_text(value_meaning(*value)),
        unbroken(text@),
        nested_within(value_meaning(*value), NESTING_LIMIT as nat) ==> json_of(text@) is Some,
        plain(value_meaning(*value), NESTING_LIMIT as nat) ==> json_of(text@) == Some(
            value_meaning(*value),
        ),
{
    serde_json::to_string(value).unwrap()
}

/// Takes a `serde_json::Value` apart by its variants. Of a number `serde_json::Number::as_u64`
/// tells whether it is an integer between zero and `u64::MAX`, and `as_i64` whether it is a negative
/// one; a `serde_json::Map` hands out its members, which have different names.
#[verifier::external_body]
fn open_value(value: serde_json::Value) -> (node: JsonNode)
    ensures
        node_meaning(node) == value_meaning(value),
        node matches JsonNode::Members(members) ==> distinct_names(members@),
{
    match value {
        serde_json::Value::Null => JsonNode::Null,
        serde_json::Value::Bool(b) => JsonNode::Bool(b),
        serde_json::Value::Number(number) => JsonNode::Number(
            match (number.as_u64(), number.as_i64()) {
                (Some(n), _) => JsonNumber::Unsigned(n),
                (_, Some(value)) => JsonNumber::Negative(NegativeNumber { value }),
                _ => JsonNumber::Other(OtherNumber { number }),
            }),
        serde_json::Value::String(s) => JsonNode::Text(s),
        serde_json::Value::Array(items) => JsonNode::Items(items),
        serde_json::Value::Object(members) => JsonNode::Members(members.into_iter().collect()),
    }
}

/// Puts a `serde_json::Value` together from one level. Members go into a `serde_json::Map` in
/// their order, so that of two with one name the later stays.
#[verifier::external_body]
fn close_value(node: JsonNode) -> (value: serde_json::Value)
    ensures
        value_meaning(value) == node_meaning(node),
{
    match node {
        JsonNode::Null => serde_json::Value::Null,
        JsonNode::Bool(b) => serde_json::Value::Bool(b),
        JsonNode::Number(JsonNumber::Unsigned(n)) => serde_json::Value::Number(n.into()),
        JsonNode::Number(JsonNumber::Negative(n)) => serde_json::Value::Number(n.value.into()),
        JsonNode::Number(JsonNumber::Other(other)) => serde_json::Value::Number(other.number),
        JsonNode::Text(s) => serde_json::Value::String(s),
        JsonNode::Items(items) => serde_json::Value::Array(items),
        JsonNode::Members(members) => serde_json::Value::Object(members.into_iter().collect()),
    }
}

/// Calls `serde_json::Number::from_f64` on a whole number, which is finite and so always has a
/// result. It is written with a fraction, as in `1000.0`.
#[verifier::external_body]
pub(crate) fn real_number(n: u32) -> (number: OtherNumber)
    ensures
        number == real_of(n),
{
    OtherNumber { number: serde_json::Number::from_f64(n.into()).unwrap() }
}

/// The document that a value holds, as plain data.
fn from_value(value: serde_json::Value) -> (document: Json)
    ensures
        document@ == value_meaning(value),
    decreases value_meaning(value),
{
    let ghost whole = value_meaning(value);
    let document = match open_value(value) {
        JsonNode::Null => Json::Null,
        JsonNode::Bool(b) => Json::Bool(b),
        JsonNode::Number(n) => Json::Number(n),
        JsonNode::Text(s) => Json::Text(s),
        JsonNode::Items(values) => {
            let ghost all = values@;
            let mut items: Vec<Json> = Vec::new();
            for element in it: values
                invariant
                    it.seq() == all,
                    whole == value_meaning(value),
                    whole == JsonView::Array(value_items(all)),
                    items@.len() == it.index(),
                    forall|j: int|
                        0 <= j < items@.len() ==> (#[trigger] items@[j])@ == value_meaning(all[j]),
            {
                proof {
                    let at = it.index() as int;
                    assert(whole->Array_0[at] == value_meaning(element));
                    assert(decreases_to!(whole => whole->Array_0));
                    assert(decreases_to!(whole->Array_0 => whole->Array_0[at]));
                }
                items.push(from_value(element));
            }
            assert(items_view(items@) =~= value_items(all));
            Json::Array(items)
        },
        JsonNode::Members(values) => {
            let ghost all = values@;
            let mut members: Vec<(String, Json)> = Vec::new();
            for member in it: values
                invariant
                    it.seq() == all,
                    distinct_names(all),
                    whole == value_meaning(value),
                    whole == JsonView::Object(object_of(value_members(all))),
                    members@.len() == it.index(),
                    forall|j: int|
                        0 <= j < members@.len() ==> (#[trigger] members@[j]).0@ == all[j].0@
                            && members@[j].1@ == value_meaning(all[j].1),
            {
                proof {
                    let at = it.index() as int;
                    let seen = value_members(all);
                    assert(seen[at].0 == member.0@ && seen[at].1 == value_meaning(member.1));
                    assert forall|j: int| at < j < seen.len() implies (#[trigger] seen[j]).0
                        != seen[at].0 by {
                        assert(all[at].0@ != all[j].0@);
                    }
                    lemma_last_member(seen, at);
                    lemma_object_finite(seen);
                    assert(decreases_to!(whole => whole->Object_0));
                    assert(decreases_to!(whole->Object_0 => whole->Object_0[member.0@]));
                }
                let (name, element) = member;
                members.push((name, from_value(element)));
            }
            assert(members_view(members@) =~= value_members(all));
            Json::Object(members)
        },
    };
    proof {
        lemma_json_view(document);
    }
    document
}

/// A value that holds a document.
fn to_value(document: Json) -> (value: serde_json::Value)
    ensures
        value_meaning(value) == document@,
    decreases document,
{
    proof {
        lemma_json_view(document);
    }
    let node = match document {
        Json::Null => JsonNode::Null,
        Json::Bool(b) => JsonNode::Bool(b),
        Json::Number(n) => JsonNode::Number(n),
        Json::Text(s) => JsonNode::Text(s),
        Json::Array(items) => {
            let ghost all = items@;
            let mut values: Vec<serde_json::Value> = Vec::new();
            for element in it: items
                invariant
                    it.seq() == all,
                    document matches Json::Array(held) && held@ == all,
                    values@.len() == it.index(),
                    forall|j: int|
                        0 <= j < values@.len() ==> value_meaning(#[trigger] values@[j]) == all[j]@,
            {
                proof {
                    let at = it.index() as int;
                    assert(decreases_to!(document => document->Array_0));
                    assert(decreases_to!(document->Array_0 => document->Array_0@));
                    assert(decreases_to!(all => all[at]));
                }
                values.push(to_value(element));
            }
            assert(value_items(values@) =~= items_view(all));
            JsonNode::Items(values)
        },
        Json::Object(members) => {
            let ghost all = members@;
            let mut values: Vec<(String, serde_json::Value)> = Vec::new();
            for member in it: members
                invariant
                    it.seq() == all,
                    document matches Json::Object(held) && held@ == all,
                    values@.len() == it.index(),
                    forall|j: int|
                        0 <= j < values@.len() ==> (#[trigger] values@[j]).0@ == all[j].0@
                            && value_meaning(values@[j].1) == all[j].1@,
            {
                proof {
                    let at = it.index() as int;
                    assert(decreases_to!(document => document->Object_0));
                    assert(decreases_to!(document->Object_0 => document->Object_0@));
                    assert(decreases_to!(all => all[at]));
                    assert(decreases_to!(all[at] => all[at].1));
                }
                let (name, element) = member;
                values.push((name, to_value(element)));
            }
            assert(value_members(values@) =~= members_view(all));
            JsonNode::Members(values)
        },
    };
    close_value(node)
}

/// Reads a JSON document.
pub fn read_json(text: &str) -> (document: Option<Json>)
    ensures
        match json_of(text@) {
            Some(v) => {
                &&& document is Some
                &&& document->0@ == v
                &&& nested_within(v, NESTING_LIMIT as nat)
            },
            None => document is None,
        },
{
    match parse_value(text) {
        Some(value) => Some(from_value(value)),
        None => None,
    }
}

/// Writes a JSON document in one line.
pub fn write_json(document: Json) -> (text: String)
    ensures
        text@ == json_text(document@),
        unbroken(text@),
        nested_within(document@, NESTING_LIMIT as nat) ==> json_of(text@) is Some,
        plain(document@, NESTING_LIMIT as nat) ==> json_of(text@) == Some(document@),
{
    print_value(&to_value(document))
}

} // verus!
