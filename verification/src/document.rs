//! JSON text: reading a document from it, and writing a value as it.
//!
//! The grammar is `serde_json`'s. What is read becomes a [`Json`] of the library's own, one layer
//! at a time, and what is written becomes a `serde_json::Value` the same way.

use vstd::prelude::*;

use crate::json::{group_json, json_views, member_views, Json, JsonView};
use crate::order::before;

verus! {

/// A JSON value as `serde_json` holds it.
#[verifier::external_type_specification]
#[verifier::external_body]
pub struct ExValue(serde_json::Value);

/// What a `serde_json::Value` holds.
pub uninterp spec fn document(value: serde_json::Value) -> JsonView;

/// The document a JSON text is, where `serde_json::from_str` reads one from it.
pub uninterp spec fn parsed(text: Seq<char>) -> Option<JsonView>;

/// The document a JSON text of bytes is, or what `serde_json::from_slice` says against it.
pub uninterp spec fn parsed_bytes(bytes: Seq<u8>) -> Result<JsonView, Seq<char>>;

/// The compact text `serde_json` writes a value as.
pub uninterp spec fn rendered(json: JsonView) -> Seq<char>;

/// Whether a number has a fraction, an exponent or a size that keeps it from being a whole one of
/// 64 bits; `serde_json::Number::is_f64`.
pub uninterp spec fn fractional(number: serde_json::Number) -> bool;

// --- what a document is ---------------------------------------------------------------------------

/// Members in the order of their names, each name once.
pub open spec fn in_order(members: Seq<(Seq<char>, JsonView)>) -> bool {
    forall|i: int, j: int| 0 <= i < j < members.len() ==> before(members[i].0, members[j].0)
}

/// A value as a parsed document holds it: whole numbers of 64 bits, and members in order.
pub open spec fn is_document(json: JsonView) -> bool
    decreases json,
{
    match json {
        JsonView::Integer(n) => i64::MIN <= n <= u64::MAX,
        JsonView::Fraction(number) => fractional(number),
        JsonView::Array(items) => forall|i: int|
            0 <= i < items.len() ==> is_document(#[trigger] items[i]),
        JsonView::Object(members) => in_order(members) && forall|i: int|
            0 <= i < members.len() ==> is_document((#[trigger] members[i]).1),
        _ => true,
    }
}

/// What a document holds are documents.
pub proof fn parts_are_documents(json: JsonView)
    requires
        is_document(json),
    ensures
        json matches JsonView::Array(items) ==> forall|i: int|
            0 <= i < items.len() ==> is_document(#[trigger] items[i]),
        json matches JsonView::Object(members) ==> in_order(members) && forall|i: int|
            0 <= i < members.len() ==> is_document((#[trigger] members[i]).1),
{
    reveal_with_fuel(is_document, 2);
}

/// One layer of a JSON value: what it is, with what it holds still as `serde_json` has it.
pub enum Layer {
    Null,
    Bool(bool),
    Integer(i128),
    Fraction(serde_json::Number),
    Text(String),
    Array(Vec<serde_json::Value>),
    Object(Vec<(String, serde_json::Value)>),
}

/// What each of some values holds.
pub open spec fn documents(values: Seq<serde_json::Value>) -> Seq<JsonView> {
    Seq::new(values.len(), |i: int| document(values[i]))
}

/// What each of some members holds.
pub open spec fn member_documents(members: Seq<(String, serde_json::Value)>) -> Seq<
    (Seq<char>, JsonView),
> {
    Seq::new(members.len(), |i: int| (members[i].0@, document(members[i].1)))
}

/// What a layer holds.
pub open spec fn layer_view(layer: Layer) -> JsonView {
    match layer {
        Layer::Null => JsonView::Null,
        Layer::Bool(flag) => JsonView::Bool(flag),
        Layer::Integer(n) => JsonView::Integer(n as int),
        Layer::Fraction(number) => JsonView::Fraction(number),
        Layer::Text(text) => JsonView::Text(text@),
        Layer::Array(items) => JsonView::Array(documents(items@)),
        Layer::Object(members) => JsonView::Object(member_documents(members@)),
    }
}

/// Whether a layer by itself is one a parsed document can have.
pub open spec fn layer_is_document(layer: Layer) -> bool {
    match layer {
        Layer::Integer(n) => i64::MIN <= n <= u64::MAX,
        Layer::Fraction(number) => fractional(number),
        Layer::Object(members) => in_order(member_documents(members@)),
        _ => true,
    }
}

/// Takes the outermost layer off a `serde_json::Value`.
///
/// A number is whole where `serde_json::Number::as_i128` says so, which it does for every number
/// held in 64 bits. The members of a `serde_json::Map` come in the order of their keys, each key
/// once, because it is a `BTreeMap` of strings.
#[verifier::external_body]
fn open(value: serde_json::Value) -> (r: Layer)
    ensures
        layer_view(r) == document(value),
        layer_is_document(r),
        r matches Layer::Fraction(number) ==> fractional(number),
{
    match value {
        serde_json::Value::Null => Layer::Null,
        serde_json::Value::Bool(flag) => Layer::Bool(flag),
        serde_json::Value::Number(number) => match number.as_i128() {
            Some(n) => Layer::Integer(n),
            None => Layer::Fraction(number),
        },
        serde_json::Value::String(text) => Layer::Text(text),
        serde_json::Value::Array(items) => Layer::Array(items),
        serde_json::Value::Object(members) => Layer::Object(members.into_iter().collect()),
    }
}

/// Puts one layer round `serde_json::Value`s.
///
/// `serde_json::Number::from_i128` takes every whole number of 64 bits, and members that are in
/// order and come once are the members of the `serde_json::Map` collected from them.
#[verifier::external_body]
fn close(layer: Layer) -> (r: serde_json::Value)
    requires
        layer_is_document(layer),
    ensures
        document(r) == layer_view(layer),
{
    match layer {
        Layer::Null => serde_json::Value::Null,
        Layer::Bool(flag) => serde_json::Value::Bool(flag),
        Layer::Integer(n) => serde_json::Number::from_i128(n).into(),
        Layer::Fraction(number) => serde_json::Value::Number(number),
        Layer::Text(text) => serde_json::Value::String(text),
        Layer::Array(items) => serde_json::Value::Array(items),
        Layer::Object(members) => serde_json::Value::Object(members.into_iter().collect()),
    }
}

/// Reads a JSON text with `serde_json::from_str`.
#[verifier::external_body]
fn parse_str(text: &str) -> (r: Option<serde_json::Value>)
    ensures
        match r {
            Some(value) => parsed(text@) == Some(document(value)),
            None => parsed(text@) is None,
        },
{
    serde_json::from_str::<serde_json::Value>(text).ok()
}

/// Reads a JSON text of bytes with `serde_json::from_slice`; the error is its message.
#[verifier::external_body]
fn parse_slice(bytes: &[u8]) -> (r: Result<serde_json::Value, String>)
    ensures
        match r {
            Ok(value) => parsed_bytes(bytes@) == Ok::<JsonView, Seq<char>>(document(value)),
            Err(message) => parsed_bytes(bytes@) == Err::<JsonView, Seq<char>>(message@),
        },
{
    serde_json::from_slice::<serde_json::Value>(bytes).map_err(|error| error.to_string())
}

/// The compact text of a `serde_json::Value`, which its `to_string` gives.
#[verifier::external_body]
fn write(value: &serde_json::Value) -> (r: String)
    ensures
        r@ == rendered(document(*value)),
{
    value.to_string()
}

// --- layer by layer -------------------------------------------------------------------------------

/// The library's own value of what a `serde_json::Value` holds.
fn own(value: serde_json::Value) -> (r: Json)
    ensures
        r@ == document(value),
        is_document(r@),
    decreases document(value),
{
    broadcast use group_json;

    match open(value) {
        Layer::Null => Json::Null,
        Layer::Bool(flag) => Json::Bool(flag),
        Layer::Integer(n) => Json::Integer(n),
        Layer::Fraction(number) => Json::Fraction(number),
        Layer::Text(text) => Json::Text(text),
        Layer::Array(items) => {
            let ghost all = items@;
            let mut out: Vec<Json> = Vec::new();
            assert(json_views(out@) =~= documents(all).take(0));
            for item in iter: items
                invariant
                    iter.seq() == all,
                    document(value) == JsonView::Array(documents(all)),
                    out@.len() == iter.index(),
                    json_views(out@) == documents(all).take(iter.index()),
                    forall|i: int|
                        0 <= i < out@.len() ==> is_document(#[trigger] json_views(out@)[i]),
            {
                let ghost n = iter.index();
                assert(documents(all)[n] == document(all[n]));
                assert(decreases_to!(document(value) => document(value)->Array_0));
                assert(decreases_to!(documents(all) => documents(all)[n]));
                let item: Json = own(item);
                let ghost held = json_views(out@);
                out.push(item);
                proof {
                    assert(json_views(out@) =~= held.push(item@));
                    assert(json_views(out@) =~= documents(all).take(n + 1));
                    assert forall|i: int| 0 <= i < out@.len() implies is_document(
                        #[trigger] json_views(out@)[i],
                    ) by {
                        if i < n {
                            assert(json_views(out@)[i] == held[i]);
                        }
                    }
                }
            }
            assert(documents(all).take(all.len() as int) =~= documents(all));
            Json::Array(out)
        },
        Layer::Object(members) => {
            let ghost all = members@;
            let mut out: Vec<(String, Json)> = Vec::new();
            assert(member_views(out@) =~= member_documents(all).take(0));
            for member in iter: members
                invariant
                    iter.seq() == all,
                    document(value) == JsonView::Object(member_documents(all)),
                    out@.len() == iter.index(),
                    member_views(out@) == member_documents(all).take(iter.index()),
                    forall|i: int|
                        0 <= i < out@.len() ==> is_document((#[trigger] member_views(out@)[i]).1),
            {
                let ghost n = iter.index();
                assert(member_documents(all)[n] == (all[n].0@, document(all[n].1)));
                assert(decreases_to!(document(value) => document(value)->Object_0));
                assert(decreases_to!(member_documents(all) => member_documents(all)[n]));
                assert(decreases_to!(member_documents(all)[n] => member_documents(all)[n].1));
                let (name, value): (String, serde_json::Value) = member;
                let item: Json = own(value);
                let ghost held = member_views(out@);
                out.push((name, item));
                proof {
                    assert(member_views(out@) =~= held.push((name@, item@)));
                    assert(member_views(out@) =~= member_documents(all).take(n + 1));
                    assert forall|i: int| 0 <= i < out@.len() implies is_document(
                        (#[trigger] member_views(out@)[i]).1,
                    ) by {
                        if i < n {
                            assert(member_views(out@)[i] == held[i]);
                        }
                    }
                }
            }
            assert(member_documents(all).take(all.len() as int) =~= member_documents(all));
            Json::Object(out)
        },
    }
}

/// The `serde_json::Value` of what the library's own value holds.
fn outward(json: &Json) -> (r: serde_json::Value)
    requires
        is_document(json@),
    ensures
        document(r) == json@,
    decreases json,
{
    broadcast use group_json;

    match json {
        Json::Null => close(Layer::Null),
        Json::Bool(flag) => close(Layer::Bool(*flag)),
        Json::Integer(n) => close(Layer::Integer(*n)),
        Json::Fraction(number) => close(Layer::Fraction(number.clone())),
        Json::Text(text) => close(Layer::Text(text.clone())),
        Json::Array(items) => {
            let mut out: Vec<serde_json::Value> = Vec::new();
            let mut i: usize = 0;
            while i < items.len()
                invariant
                    i <= items.len(),
                    *json == Json::Array(*items),
                    is_document(json@),
                    documents(out@) == json_views(items@).take(i as int),
                decreases items.len() - i,
            {
                let ghost held = documents(out@);
                proof {
                    let all = json_views(items@);
                    assert(json@ == JsonView::Array(all));
                    parts_are_documents(json@);
                    assert(all[i as int] == items@[i as int]@);
                }
                out.push(outward(&items[i]));
                i = i + 1;
                assert(documents(out@) =~= held.push(items@[i - 1]@));
                assert(documents(out@) =~= json_views(items@).take(i as int));
            }
            assert(json_views(items@).take(i as int) =~= json_views(items@));
            close(Layer::Array(out))
        },
        Json::Object(members) => {
            let mut out: Vec<(String, serde_json::Value)> = Vec::new();
            let mut i: usize = 0;
            while i < members.len()
                invariant
                    i <= members.len(),
                    *json == Json::Object(*members),
                    is_document(json@),
                    member_documents(out@) == member_views(members@).take(i as int),
                decreases members.len() - i,
            {
                let ghost held = member_documents(out@);
                proof {
                    let all = member_views(members@);
                    assert(json@ == JsonView::Object(all));
                    parts_are_documents(json@);
                    assert(all[i as int].1 == members@[i as int].1@);
                }
                let value: serde_json::Value = outward(&members[i].1);
                out.push((members[i].0.clone(), value));
                i = i + 1;
                assert(member_documents(out@) =~= held.push((members@[i - 1].0@, members@[i - 1].1@)));
                assert(member_documents(out@) =~= member_views(members@).take(i as int));
            }
            assert(member_views(members@).take(i as int) =~= member_views(members@));
            close(Layer::Object(out))
        },
    }
}

// --- texts ----------------------------------------------------------------------------------------

/// The document a JSON text is, where it is one.
pub fn read_document(text: &str) -> (r: Option<Json>)
    ensures
        match r {
            Some(json) => parsed(text@) == Some(json@) && is_document(json@),
            None => parsed(text@) is None,
        },
{
    match parse_str(text) {
        Some(value) => Some(own(value)),
        None => None,
    }
}

/// The document a JSON text of bytes is, or what is wrong with it.
pub fn read_document_bytes(bytes: &[u8]) -> (r: Result<Json, String>)
    ensures
        match r {
            Ok(json) => parsed_bytes(bytes@) == Ok::<JsonView, Seq<char>>(json@) && is_document(
                json@,
            ),
            Err(message) => parsed_bytes(bytes@) == Err::<JsonView, Seq<char>>(message@),
        },
{
    match parse_slice(bytes) {
        Ok(value) => Ok(own(value)),
        Err(message) => Err(message),
    }
}

/// The compact JSON text of a value.
pub fn render(json: &Json) -> (r: String)
    requires
        is_document(json@),
    ensures
        r@ == rendered(json@),
{
    write(&outward(json))
}

}
