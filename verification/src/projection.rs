//! What a discovered resource holds, typed as far as the cluster's own schema types it.
//!
//! The schema decides one thing: whether a string that a `date-time` format describes is an
//! instant. Everything else follows the value's own shape. A field no schema describes is still
//! there, and its precision says what was lost.

use vstd::prelude::*;
use vstd::string::*;

use crate::digits::{decimal, number};
use crate::document::{parsed, read_document, render, rendered};
use crate::json::{
    entry, found, group_json, json_views, member_views, members_of, text_of, Json, JsonView,
};
use crate::objects::member_is_document;
use crate::pointer::{escape, escaped};
use crate::text::{group_views, join2, join3, same, str_view, text_view, views};
use crate::value::{entry_views, group_values, value_views, FieldValue, ValueView};

verus! {

// --- a projection of one object through a schema --------------------------------------------------

/// Which side of an object a field belongs to.
#[derive(Debug, Clone, Copy, PartialEq, Eq, Structural)]
pub enum Intent {
    /// What was asked for.
    Desired,
    /// What was observed.
    Observed,
    /// Content that is neither.
    Unclassified,
    /// Identity and metadata, which a record carries in fields of its own.
    Metadata,
}

/// How well a field is known, the least known first.
#[derive(Debug, Clone, Copy, PartialEq, Eq, Structural)]
pub enum Precision {
    Unknown,
    Loose,
    Described,
}

/// One field of an object, as a schema describes it or does not.
#[derive(Debug, PartialEq, Eq)]
pub struct ProjectedField {
    pub pointer: String,
    pub intent: Intent,
    pub precision: Precision,
    pub format: Option<String>,
}

/// One object seen through a schema.
#[derive(Debug, PartialEq, Eq)]
pub struct Projection {
    pub fields: Vec<ProjectedField>,
}

impl Intent {
    /// Whether a field of this side is content that only the resource's own schema could describe.
    pub open spec fn is_content(self) -> bool {
        self != Intent::Metadata
    }
}

impl Precision {
    /// How far up a precision stands.
    pub open spec fn rank(self) -> int {
        match self {
            Precision::Unknown => 0,
            Precision::Loose => 1,
            Precision::Described => 2,
        }
    }

    /// The word a record reports.
    pub fn as_str(self) -> (r: &'static str)
        ensures
            r@ == self.word(),
    {
        match self {
            Precision::Unknown => "unknown",
            Precision::Loose => "loose",
            Precision::Described => "structural",
        }
    }

    /// The word a record reports.
    pub open spec fn word(self) -> Seq<char> {
        match self {
            Precision::Unknown => "unknown"@,
            Precision::Loose => "loose"@,
            Precision::Described => "structural"@,
        }
    }
}

/// The first projected field at a pointer.
pub open spec fn projected(fields: Seq<ProjectedField>, pointer: Seq<char>) -> Option<ProjectedField>
    decreases fields.len(),
{
    if fields.len() == 0 {
        None
    } else if fields[0].pointer@ == pointer {
        Some(fields[0])
    } else {
        projected(fields.skip(1), pointer)
    }
}

pub const DATE_TIME: &'static str = "date-time";

/// Whether the schema describes the field at a pointer as an instant.
pub open spec fn is_instant(fields: Seq<ProjectedField>, pointer: Seq<char>) -> bool {
    match projected(fields, pointer) {
        Some(field) => text_view(field.format) == Some(DATE_TIME@),
        None => false,
    }
}

/// Whether the schema describes the field at this pointer as an instant.
fn instant_format(projection: &Projection, pointer: &str) -> (r: bool)
    ensures
        r == is_instant(projection.fields@, pointer@),
{
    let ghost all = projection.fields@;
    let mut i: usize = 0;
    assert(all.skip(0) =~= all);
    while i < projection.fields.len()
        invariant
            i <= projection.fields.len(),
            all == projection.fields@,
            projected(all.skip(i as int), pointer@) == projected(all, pointer@),
        decreases projection.fields.len() - i,
    {
        let field: &ProjectedField = &projection.fields[i];
        assert(all.skip(i as int)[0] == *field);
        if same(field.pointer.as_str(), pointer) {
            return match &field.format {
                Some(format) => same(format.as_str(), DATE_TIME),
                None => false,
            };
        }
        assert(all.skip(i as int).skip(1) =~= all.skip(i + 1));
        i = i + 1;
    }
    false
}

// --- values ---------------------------------------------------------------------------------------

/// A whole number as the value model carries it.
pub open spec fn whole_value(n: int) -> ValueView {
    if i64::MIN <= n <= i64::MAX {
        ValueView::Int(n)
    } else {
        ValueView::Nearest(n)
    }
}

/// A JSON value as the value model carries it, with nothing typed beyond its own shape.
pub open spec fn plain_value(json: JsonView) -> ValueView
    decreases json,
{
    match json {
        JsonView::Null => ValueView::Null,
        JsonView::Bool(flag) => ValueView::Bool(flag),
        JsonView::Integer(n) => whole_value(n),
        JsonView::Fraction(n) => ValueView::Float(n),
        JsonView::Text(text) => ValueView::Text(text),
        JsonView::Array(items) => ValueView::List(plain_values(items)),
        JsonView::Object(members) => ValueView::Entries(plain_entries(members)),
    }
}

/// Each of some JSON values as the value model carries it.
pub open spec fn plain_values(items: Seq<JsonView>) -> Seq<ValueView>
    decreases items,
{
    Seq::new(
        items.len(),
        |i: int|
            if 0 <= i < items.len() {
                plain_value(items[i])
            } else {
                ValueView::Null
            },
    )
}

/// Each of some members as the value model carries it.
pub open spec fn plain_entries(members: Seq<(Seq<char>, JsonView)>) -> Seq<(Seq<char>, ValueView)>
    decreases members,
{
    Seq::new(
        members.len(),
        |i: int|
            if 0 <= i < members.len() {
                (members[i].0, plain_value(members[i].1))
            } else {
                (Seq::empty(), ValueView::Null)
            },
    )
}

/// A JSON value at a pointer, typed as far as the schema types it.
pub open spec fn typed_value(
    fields: Seq<ProjectedField>,
    pointer: Seq<char>,
    json: JsonView,
) -> ValueView
    decreases json,
{
    match json {
        JsonView::Null => ValueView::Null,
        JsonView::Bool(flag) => ValueView::Bool(flag),
        JsonView::Integer(n) => whole_value(n),
        JsonView::Fraction(n) => ValueView::Float(n),
        JsonView::Text(text) => if is_instant(fields, pointer) {
            ValueView::InstantOrText(text)
        } else {
            ValueView::Text(text)
        },
        JsonView::Array(items) => ValueView::List(typed_values(fields, pointer, items)),
        JsonView::Object(members) => ValueView::Entries(typed_entries(fields, pointer, members)),
    }
}

/// The items of a list, each typed at its own pointer.
pub open spec fn typed_values(
    fields: Seq<ProjectedField>,
    pointer: Seq<char>,
    items: Seq<JsonView>,
) -> Seq<ValueView>
    decreases items,
{
    Seq::new(
        items.len(),
        |i: int|
            if 0 <= i < items.len() {
                typed_value(fields, pointer + "/"@ + decimal(i as nat), items[i])
            } else {
                ValueView::Null
            },
    )
}

/// The members of an object, each typed at its own pointer.
pub open spec fn typed_entries(
    fields: Seq<ProjectedField>,
    pointer: Seq<char>,
    members: Seq<(Seq<char>, JsonView)>,
) -> Seq<(Seq<char>, ValueView)>
    decreases members,
{
    Seq::new(
        members.len(),
        |i: int|
            if 0 <= i < members.len() {
                (
                    members[i].0,
                    typed_value(fields, pointer + "/"@ + escaped(members[i].0), members[i].1),
                )
            } else {
                (Seq::empty(), ValueView::Null)
            },
    )
}

/// Any JSON value, as the value model carries it, with nothing typed beyond its own shape.
pub fn json_value(value: &Json) -> (r: FieldValue)
    ensures
        r@ == plain_value(value@),
    decreases value,
{
    broadcast use group_json;

    match value {
        Json::Null => FieldValue::Null,
        Json::Bool(flag) => FieldValue::Bool(*flag),
        Json::Integer(n) => if *n >= i64::MIN as i128 && *n <= i64::MAX as i128 {
            FieldValue::Int(*n)
        } else {
            FieldValue::Nearest(*n)
        },
        Json::Fraction(n) => FieldValue::Float(n.clone()),
        Json::Text(text) => FieldValue::Text(text.clone()),
        Json::Array(items) => {
            let mut out: Vec<FieldValue> = Vec::new();
            let mut i: usize = 0;
            let ghost wanted = plain_values(json_views(items@));
            while i < items.len()
                invariant
                    i <= items.len(),
                    *value == Json::Array(*items),
                    wanted == plain_values(json_views(items@)),
                    value_views(out@) == wanted.take(i as int),
                decreases items.len() - i,
            {
                broadcast use group_values, group_json;

                proof {
                    assert(decreases_to!(*value => value->Array_0));
                    assert(decreases_to!(value->Array_0 => value->Array_0@));
                    assert(decreases_to!(items@ => items@[i as int]));
                }
                out.push(json_value(&items[i]));
                i = i + 1;
                proof {
                    assert(json_views(items@)[i - 1] == items@[i - 1]@);
                    assert(wanted[i - 1] == plain_value(items@[i - 1]@));
                    assert(wanted.take(i as int) =~= wanted.take(i - 1).push(wanted[i - 1]));
                }
            }
            assert(wanted.take(i as int) =~= wanted);
            FieldValue::List(out)
        },
        Json::Object(members) => {
            let mut out: Vec<(String, FieldValue)> = Vec::new();
            let mut i: usize = 0;
            let ghost wanted = plain_entries(member_views(members@));
            while i < members.len()
                invariant
                    i <= members.len(),
                    *value == Json::Object(*members),
                    wanted == plain_entries(member_views(members@)),
                    entry_views(out@) == wanted.take(i as int),
                decreases members.len() - i,
            {
                broadcast use group_values, group_json;

                proof {
                    assert(decreases_to!(*value => value->Object_0));
                    assert(decreases_to!(value->Object_0 => value->Object_0@));
                    assert(decreases_to!(members@ => members@[i as int]));
                    assert(decreases_to!(members@[i as int] => members@[i as int].1));
                }
                let held: FieldValue = json_value(&members[i].1);
                out.push((members[i].0.clone(), held));
                i = i + 1;
                proof {
                    assert(member_views(members@)[i - 1] == (
                        members@[i - 1].0@,
                        members@[i - 1].1@,
                    ));
                    assert(wanted[i - 1] == (members@[i - 1].0@, plain_value(members@[i - 1].1@)));
                    assert(wanted.take(i as int) =~= wanted.take(i - 1).push(wanted[i - 1]));
                }
            }
            assert(wanted.take(i as int) =~= wanted);
            FieldValue::Entries(out)
        },
    }
}

/// One JSON value at a pointer, as the value model carries it.
fn typed(projection: &Projection, pointer: &str, value: &Json) -> (r: FieldValue)
    ensures
        r@ == typed_value(projection.fields@, pointer@, value@),
    decreases value,
{
    broadcast use group_json;

    match value {
        Json::Null => FieldValue::Null,
        Json::Bool(flag) => FieldValue::Bool(*flag),
        Json::Integer(n) => if *n >= i64::MIN as i128 && *n <= i64::MAX as i128 {
            FieldValue::Int(*n)
        } else {
            FieldValue::Nearest(*n)
        },
        Json::Fraction(n) => FieldValue::Float(n.clone()),
        Json::Text(text) => if instant_format(projection, pointer) {
            FieldValue::InstantOrText(text.clone())
        } else {
            FieldValue::Text(text.clone())
        },
        Json::Array(items) => {
            let mut out: Vec<FieldValue> = Vec::new();
            let mut i: usize = 0;
            let ghost wanted = typed_values(projection.fields@, pointer@, json_views(items@));
            while i < items.len()
                invariant
                    i <= items.len(),
                    *value == Json::Array(*items),
                    wanted == typed_values(projection.fields@, pointer@, json_views(items@)),
                    value_views(out@) == wanted.take(i as int),
                decreases items.len() - i,
            {
                broadcast use group_values, group_json;

                let at: String = join3(pointer, "/", number(i as u128).as_str());
                proof {
                    assert(decreases_to!(*value => value->Array_0));
                    assert(decreases_to!(value->Array_0 => value->Array_0@));
                    assert(decreases_to!(items@ => items@[i as int]));
                }
                out.push(typed(projection, at.as_str(), &items[i]));
                i = i + 1;
                proof {
                    assert(json_views(items@)[i - 1] == items@[i - 1]@);
                    assert(wanted[i - 1] == typed_value(
                        projection.fields@,
                        at@,
                        items@[i - 1]@,
                    ));
                    assert(wanted.take(i as int) =~= wanted.take(i - 1).push(wanted[i - 1]));
                }
            }
            assert(wanted.take(i as int) =~= wanted);
            FieldValue::List(out)
        },
        Json::Object(members) => {
            let mut out: Vec<(String, FieldValue)> = Vec::new();
            let mut i: usize = 0;
            let ghost wanted = typed_entries(projection.fields@, pointer@, member_views(members@));
            while i < members.len()
                invariant
                    i <= members.len(),
                    *value == Json::Object(*members),
                    wanted == typed_entries(projection.fields@, pointer@, member_views(members@)),
                    entry_views(out@) == wanted.take(i as int),
                decreases members.len() - i,
            {
                broadcast use group_values, group_json;

                let at: String = join3(pointer, "/", escape(members[i].0.as_str()).as_str());
                proof {
                    assert(decreases_to!(*value => value->Object_0));
                    assert(decreases_to!(value->Object_0 => value->Object_0@));
                    assert(decreases_to!(members@ => members@[i as int]));
                    assert(decreases_to!(members@[i as int] => members@[i as int].1));
                }
                let held: FieldValue = typed(projection, at.as_str(), &members[i].1);
                out.push((members[i].0.clone(), held));
                i = i + 1;
                proof {
                    assert(member_views(members@)[i - 1] == (
                        members@[i - 1].0@,
                        members@[i - 1].1@,
                    ));
                    assert(wanted[i - 1] == (
                        members@[i - 1].0@,
                        typed_value(projection.fields@, at@, members@[i - 1].1@),
                    ));
                    assert(wanted.take(i as int) =~= wanted.take(i - 1).push(wanted[i - 1]));
                }
            }
            assert(wanted.take(i as int) =~= wanted);
            FieldValue::Entries(out)
        },
    }
}

// --- the content of an object ---------------------------------------------------------------------

/// What a dynamic record says about the object's own content, beyond the shared metadata.
#[derive(Debug, PartialEq)]
pub struct Content {
    /// `spec`, as a map of typed values, or null where the object carries none.
    pub desired: FieldValue,
    /// `status`, likewise; the two are never merged.
    pub observed: FieldValue,
    /// Every other top-level field, for kinds that keep their payload nowhere near `spec`.
    pub other: FieldValue,
    /// How well the content as a whole is known.
    pub precision: Precision,
    /// The JSON pointers of the fields no schema described.
    pub untyped: Vec<String>,
}

/// The lesser of two precisions.
pub open spec fn lesser(a: Precision, b: Precision) -> Precision {
    if a.rank() <= b.rank() {
        a
    } else {
        b
    }
}

/// The least precision of the content among some fields, where there is content among them.
pub open spec fn least(fields: Seq<ProjectedField>) -> Option<Precision>
    decreases fields.len(),
{
    if fields.len() == 0 {
        None
    } else if !fields.last().intent.is_content() {
        least(fields.drop_last())
    } else {
        match least(fields.drop_last()) {
            Some(precision) => Some(lesser(precision, fields.last().precision)),
            None => Some(fields.last().precision),
        }
    }
}

/// Whether a field is content that no schema described.
pub open spec fn is_untyped(field: ProjectedField) -> bool {
    field.intent.is_content() && field.precision == Precision::Unknown
}

/// The pointers of the content that no schema described, in order.
pub open spec fn untyped_pointers(fields: Seq<ProjectedField>) -> Seq<Seq<char>>
    decreases fields.len(),
{
    if fields.len() == 0 {
        Seq::empty()
    } else if is_untyped(fields.last()) {
        untyped_pointers(fields.drop_last()).push(fields.last().pointer@)
    } else {
        untyped_pointers(fields.drop_last())
    }
}

/// Whether a top-level field is one a record carries elsewhere.
pub open spec fn is_carried_elsewhere(name: Seq<char>) -> bool {
    name == "apiVersion"@ || name == "kind"@ || name == "metadata"@ || name == "spec"@ || name
        == "status"@
}

/// A top-level field, typed; null where the object carries none.
pub open spec fn subtree_value(
    fields: Seq<ProjectedField>,
    native: JsonView,
    name: Seq<char>,
) -> ValueView {
    match entry(native, name) {
        Some(value) => typed_value(fields, "/"@ + name, value),
        None => ValueView::Null,
    }
}

/// The top-level fields a record does not carry elsewhere, typed.
pub open spec fn other_entries(
    fields: Seq<ProjectedField>,
    members: Seq<(Seq<char>, JsonView)>,
) -> Seq<(Seq<char>, ValueView)>
    decreases members.len(),
{
    if members.len() == 0 {
        Seq::empty()
    } else {
        let before = other_entries(fields, members.drop_last());
        let (name, value) = members.last();
        if is_carried_elsewhere(name) {
            before
        } else {
            before.push((name, typed_value(fields, "/"@ + name, value)))
        }
    }
}

/// The top-level fields a record does not carry elsewhere; null where there are none.
pub open spec fn other_value(fields: Seq<ProjectedField>, native: JsonView) -> ValueView {
    match native {
        JsonView::Object(members) => {
            let entries = other_entries(fields, members);
            if entries.len() == 0 {
                ValueView::Null
            } else {
                ValueView::Entries(entries)
            }
        },
        _ => ValueView::Null,
    }
}

/// Whether a top-level field is one a record carries elsewhere.
fn carried_elsewhere(name: &str) -> (r: bool)
    ensures
        r == is_carried_elsewhere(name@),
{
    same(name, "apiVersion") || same(name, "kind") || same(name, "metadata") || same(name, "spec")
        || same(name, "status")
}

/// A top-level field, typed; null where the object carries none.
fn subtree(projection: &Projection, native: &Json, name: &str) -> (r: FieldValue)
    ensures
        r@ == subtree_value(projection.fields@, native@, name@),
{
    match native.get(name) {
        Some(value) => typed(projection, join2("/", name).as_str(), value),
        None => FieldValue::Null,
    }
}

/// The top-level fields a record does not carry elsewhere; null where there are none.
fn others(projection: &Projection, native: &Json) -> (r: FieldValue)
    ensures
        r@ == other_value(projection.fields@, native@),
{
    match native {
        Json::Object(members) => {
            let mut out: Vec<(String, FieldValue)> = Vec::new();
            let mut i: usize = 0;
            let ghost all = member_views(members@);
            proof {
                assert(entry_views(out@) =~= other_entries(projection.fields@, all.take(0)));
            }
            while i < members.len()
                invariant
                    i <= members.len(),
                    all == member_views(members@),
                    entry_views(out@) == other_entries(projection.fields@, all.take(i as int)),
                decreases members.len() - i,
            {
                broadcast use group_values, group_json;

                let name: &String = &members[i].0;
                proof {
                    assert(all.take(i + 1).drop_last() =~= all.take(i as int));
                    assert(all.take(i + 1).last() == (members@[i as int].0@, members@[i as int].1@));
                }
                if !carried_elsewhere(name.as_str()) {
                    let at: String = join2("/", name.as_str());
                    let value: FieldValue = typed(projection, at.as_str(), &members[i].1);
                    out.push((name.clone(), value));
                }
                i = i + 1;
            }
            proof {
                assert(all.take(i as int) =~= all);
                assert(entry_views(out@).len() == out@.len());
            }
            if out.len() == 0 {
                FieldValue::Null
            } else {
                FieldValue::Entries(out)
            }
        },
        _ => FieldValue::Null,
    }
}

/// The object's content, typed as far as the projection types it.
///
/// Metadata is left out of `precision` and `untyped` on purpose: a record carries it in fields of
/// its own, so a schema that says nothing about `metadata` has left no gap in what is reported.
pub fn content(projection: &Projection, native: &Json) -> (r: Content)
    ensures
        r.desired@ == subtree_value(projection.fields@, native@, "spec"@),
        r.observed@ == subtree_value(projection.fields@, native@, "status"@),
        r.other@ == other_value(projection.fields@, native@),
        r.precision == match least(projection.fields@) {
            Some(precision) => precision,
            None => Precision::Unknown,
        },
        views(r.untyped@) == untyped_pointers(projection.fields@),
{
    broadcast use group_views;

    let ghost all = projection.fields@;
    let mut precision: Option<Precision> = None;
    let mut untyped: Vec<String> = Vec::new();
    let mut i: usize = 0;
    assert(untyped_pointers(all.take(0)) =~= views(untyped@));
    while i < projection.fields.len()
        invariant
            i <= projection.fields.len(),
            all == projection.fields@,
            precision == least(all.take(i as int)),
            views(untyped@) == untyped_pointers(all.take(i as int)),
        decreases projection.fields.len() - i,
    {
        broadcast use group_views;

        let field: &ProjectedField = &projection.fields[i];
        proof {
            assert(all.take(i + 1).drop_last() =~= all.take(i as int));
            assert(all.take(i + 1).last() == *field);
        }
        if field.intent != Intent::Metadata {
            precision = match precision {
                None => Some(field.precision),
                Some(Precision::Unknown) => Some(Precision::Unknown),
                Some(Precision::Loose) => if field.precision == Precision::Unknown {
                    Some(Precision::Unknown)
                } else {
                    Some(Precision::Loose)
                },
                Some(Precision::Described) => Some(field.precision),
            };
            if field.precision == Precision::Unknown {
                untyped.push(field.pointer.clone());
            }
        }
        i = i + 1;
    }
    assert(all.take(i as int) =~= all);
    Content {
        desired: subtree(projection, native, "spec"),
        observed: subtree(projection, native, "status"),
        other: others(projection, native),
        precision: match precision {
            Some(precision) => precision,
            None => Precision::Unknown,
        },
        untyped,
    }
}

// --- finding the schema ---------------------------------------------------------------------------

pub const GROUP_VERSION_KIND: &'static str = "x-kubernetes-group-version-kind";

/// A text member, where there is one; the empty text otherwise.
pub open spec fn text_or_empty(json: JsonView, name: Seq<char>) -> Seq<char> {
    match text_of(entry(json, name)) {
        Some(text) => text,
        None => Seq::empty(),
    }
}

/// Whether one entry of the extension names a group, a version and a kind.
pub open spec fn names_kind(
    declared: JsonView,
    group: Seq<char>,
    version: Seq<char>,
    kind: Seq<char>,
) -> bool {
    text_or_empty(declared, "group"@) == group && text_or_empty(declared, "version"@) == version
        && text_or_empty(declared, "kind"@) == kind
}

/// Whether one of some entries of the extension names a group, a version and a kind.
pub open spec fn any_names_kind(
    entries: Seq<JsonView>,
    group: Seq<char>,
    version: Seq<char>,
    kind: Seq<char>,
) -> bool {
    exists|i: int|
        0 <= i < entries.len() && names_kind(#[trigger] entries[i], group, version, kind)
}

/// Whether a component of an OpenAPI document declares a kind. The extension is a list on the API
/// server's own document and a single object on some generators' output.
pub open spec fn declares_kind(
    component: JsonView,
    group: Seq<char>,
    version: Seq<char>,
    kind: Seq<char>,
) -> bool {
    match entry(component, GROUP_VERSION_KIND@) {
        Some(JsonView::Array(entries)) => any_names_kind(entries, group, version, kind),
        Some(JsonView::Object(members)) => names_kind(
            JsonView::Object(members),
            group,
            version,
            kind,
        ),
        _ => false,
    }
}

/// The first of some components that declares a kind.
pub open spec fn declaring(
    members: Seq<(Seq<char>, JsonView)>,
    group: Seq<char>,
    version: Seq<char>,
    kind: Seq<char>,
) -> Option<JsonView>
    decreases members.len(),
{
    if members.len() == 0 {
        None
    } else if declares_kind(members[0].1, group, version, kind) {
        Some(members[0].1)
    } else {
        declaring(members.skip(1), group, version, kind)
    }
}

/// The component of an OpenAPI document that declares a kind, where there is one.
pub open spec fn component(
    document: JsonView,
    group: Seq<char>,
    version: Seq<char>,
    kind: Seq<char>,
) -> Option<JsonView> {
    match entry(document, "components"@) {
        Some(components) => match members_of(entry(components, "schemas"@)) {
            Some(schemas) => declaring(schemas, group, version, kind),
            None => None,
        },
        None => None,
    }
}

/// Whether one entry of the extension names a group, a version and a kind.
fn names(declared: &Json, group: &str, version: &str, kind: &str) -> (r: bool)
    ensures
        r == names_kind(declared@, group@, version@, kind@),
{
    member_is(declared, "group", group) && member_is(declared, "version", version) && member_is(
        declared,
        "kind",
        kind,
    )
}

/// Whether a text member, or the empty text where there is none, is a given one.
fn member_is(json: &Json, name: &str, text: &str) -> (r: bool)
    ensures
        r == (text_or_empty(json@, name@) == text@),
{
    let held: Option<&str> = match json.get(name) {
        Some(value) => value.as_str(),
        None => None,
    };
    match held {
        Some(held) => same(held, text),
        None => {
            let shape: Vec<char> = crate::text::chars(text);
            assert(shape.len() == 0 ==> text@ =~= Seq::<char>::empty());
            shape.len() == 0
        },
    }
}

/// Whether a component's `x-kubernetes-group-version-kind` names this kind.
fn declares(component: &Json, group: &str, version: &str, kind: &str) -> (r: bool)
    ensures
        r == declares_kind(component@, group@, version@, kind@),
{
    broadcast use group_json;

    let declared: &Json = match component.get(GROUP_VERSION_KIND) {
        Some(declared) => declared,
        None => {
            return false;
        },
    };
    match declared {
        Json::Array(entries) => {
            let mut i: usize = 0;
            let ghost all = json_views(entries@);
            while i < entries.len()
                invariant
                    i <= entries.len(),
                    all == json_views(entries@),
                    entry(component@, GROUP_VERSION_KIND@) == Some(JsonView::Array(all)),
                    forall|j: int|
                        0 <= j < i ==> !names_kind(#[trigger] all[j], group@, version@, kind@),
                decreases entries.len() - i,
            {
                broadcast use group_json;

                assert(all[i as int] == entries@[i as int]@);
                if names(&entries[i], group, version, kind) {
                    assert(names_kind(all[i as int], group@, version@, kind@));
                    assert(any_names_kind(all, group@, version@, kind@));
                    return true;
                }
                i = i + 1;
            }
            false
        },
        Json::Object(_) => names(declared, group, version, kind),
        _ => false,
    }
}

/// The component of an OpenAPI v3 document that declares this kind.
pub fn component_for<'doc>(
    document: &'doc Json,
    group: &str,
    version: &str,
    kind: &str,
) -> (r: Option<&'doc Json>)
    ensures
        found(r) == component(document@, group@, version@, kind@),
{
    broadcast use group_json;

    let components: &Json = match document.get("components") {
        Some(components) => components,
        None => {
            return None;
        },
    };
    let schemas: &Json = match components.get("schemas") {
        Some(schemas) => schemas,
        None => {
            return None;
        },
    };
    match schemas.as_object() {
        Some(members) => {
            let ghost all = member_views(members@);
            let mut i: usize = 0;
            assert(all.skip(0) =~= all);
            while i < members.len()
                invariant
                    i <= members.len(),
                    all == member_views(members@),
                    component(document@, group@, version@, kind@) == declaring(
                        all.skip(i as int),
                        group@,
                        version@,
                        kind@,
                    ),
                decreases members.len() - i,
            {
                broadcast use group_json;

                assert(all.skip(i as int)[0] == (members@[i as int].0@, members@[i as int].1@));
                if declares(&members[i].1, group, version, kind) {
                    return Some(&members[i].1);
                }
                assert(all.skip(i as int).skip(1) =~= all.skip(i + 1));
                i = i + 1;
            }
            None
        },
        None => None,
    }
}

/// Where a resource's field types come from: the part of the cluster's schema document that
/// declares its kind, as the text a schema reader takes.
#[derive(Debug, PartialEq, Eq)]
pub struct Typing {
    /// The component, or `None` where nothing describes the kind.
    pub component: Option<String>,
}

/// The text of the component a document declares a kind in, where the document reads and has one.
pub open spec fn typing_text(
    document: Option<Seq<char>>,
    group: Seq<char>,
    version: Seq<char>,
    kind: Seq<char>,
) -> Option<Seq<char>> {
    match document {
        Some(text) => match parsed(text) {
            Some(json) => match component(json, group, version, kind) {
                Some(component) => Some(rendered(component)),
                None => None,
            },
            None => None,
        },
        None => None,
    }
}

impl Typing {
    /// The typing an OpenAPI v3 document gives for one kind.
    ///
    /// `document` is the whole answer for the group-version. The component that describes this
    /// kind is the one that says so. Anything that does not read leaves the typing absent rather
    /// than being an error: a schema is an aid to showing a resource, and a resource whose schema
    /// cannot be found is still a resource.
    pub fn of(document: Option<&str>, group: &str, version: &str, kind: &str) -> (r: Typing)
        ensures
            text_view(r.component) == typing_text(str_view(document), group@, version@, kind@),
    {
        match document {
            Some(text) => match read_document(text) {
                Some(json) => Typing::within(&json, group, version, kind),
                None => Typing::absent(),
            },
            None => Typing::absent(),
        }
    }

    /// The typing a document that has been read gives for one kind.
    pub fn within(document: &Json, group: &str, version: &str, kind: &str) -> (r: Typing)
        requires
            crate::document::is_document(document@),
        ensures
            text_view(r.component) == match component(document@, group@, version@, kind@) {
                Some(component) => Some(rendered(component)),
                None => None,
            },
    {
        match component_for(document, group, version, kind) {
            Some(component) => {
                proof {
                    component_is_document(document@, group@, version@, kind@);
                }
                Typing { component: Some(render(component)) }
            },
            None => Typing::absent(),
        }
    }

    /// A typing that describes nothing, for a server that publishes no schema document.
    pub fn absent() -> (r: Typing)
        ensures
            r.component is None,
    {
        Typing { component: None }
    }
}

/// The component that declares a kind is a document.
proof fn declaring_is_document(
    members: Seq<(Seq<char>, JsonView)>,
    group: Seq<char>,
    version: Seq<char>,
    kind: Seq<char>,
)
    requires
        forall|i: int|
            0 <= i < members.len() ==> crate::document::is_document((#[trigger] members[i]).1),
    ensures
        declaring(members, group, version, kind) matches Some(json)
            ==> crate::document::is_document(json),
    decreases members.len(),
{
    if members.len() > 0 && !declares_kind(members[0].1, group, version, kind) {
        assert forall|i: int| 0 <= i < members.skip(1).len() implies crate::document::is_document(
            (#[trigger] members.skip(1)[i]).1,
        ) by {
            assert(members.skip(1)[i] == members[i + 1]);
        }
        declaring_is_document(members.skip(1), group, version, kind);
    }
}

/// The component a document declares a kind in is a document.
proof fn component_is_document(
    document: JsonView,
    group: Seq<char>,
    version: Seq<char>,
    kind: Seq<char>,
)
    requires
        crate::document::is_document(document),
    ensures
        component(document, group, version, kind) matches Some(json)
            ==> crate::document::is_document(json),
{
    crate::document::parts_are_documents(document);
    if let JsonView::Object(members) = document {
        member_is_document(members, "components"@);
        if let Some(components) = entry(document, "components"@) {
            crate::document::parts_are_documents(components);
            if let JsonView::Object(inner) = components {
                member_is_document(inner, "schemas"@);
                if let Some(schemas) = entry(components, "schemas"@) {
                    crate::document::parts_are_documents(schemas);
                    if let JsonView::Object(parts) = schemas {
                        declaring_is_document(parts, group, version, kind);
                    }
                }
            }
        }
    }
}

}
