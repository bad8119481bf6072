//! A JSON document, as far as anything here reads one.
//!
//! What the cluster sends, what an invocation's arguments hold and what goes out on the wire are
//! all JSON. A document is held here as a plain value of the library's own.

use vstd::prelude::*;

use crate::text::same;

verus! {

/// A JSON number that is not a whole number, carried as it came.
#[verifier::external_type_specification]
#[verifier::external_body]
pub struct ExNumber(serde_json::Number);

/// A copy of a `serde_json::Number` is the number: its `Clone` is derived over the one field it has.
pub assume_specification[ <serde_json::Number as Clone>::clone ](n: &serde_json::Number) -> (r:
    serde_json::Number)
    ensures
        r == *n,
;

/// One JSON value.
#[derive(Debug, PartialEq)]
pub enum Json {
    Null,
    Bool(bool),
    /// A whole number.
    Integer(i128),
    /// Any other number.
    Fraction(serde_json::Number),
    Text(String),
    Array(Vec<Json>),
    /// The members in the order the document holds them.
    Object(Vec<(String, Json)>),
}

/// What a JSON value is, whatever holds it.
pub enum JsonView {
    Null,
    Bool(bool),
    Integer(int),
    Fraction(serde_json::Number),
    Text(Seq<char>),
    Array(Seq<JsonView>),
    Object(Seq<(Seq<char>, JsonView)>),
}

impl Json {
    /// What this value is.
    pub open spec fn seen(self) -> JsonView
        decreases self,
    {
        match self {
            Json::Null => JsonView::Null,
            Json::Bool(flag) => JsonView::Bool(flag),
            Json::Integer(n) => JsonView::Integer(n as int),
            Json::Fraction(n) => JsonView::Fraction(n),
            Json::Text(text) => JsonView::Text(text@),
            Json::Array(items) => JsonView::Array(json_views(items@)),
            Json::Object(members) => JsonView::Object(member_views(members@)),
        }
    }
}

/// What each of some values is.
pub open spec fn json_views(items: Seq<Json>) -> Seq<JsonView>
    decreases items,
{
    Seq::new(
        items.len(),
        |i: int|
            if 0 <= i < items.len() {
                items[i].seen()
            } else {
                JsonView::Null
            },
    )
}

/// What each of some members is.
pub open spec fn member_views(members: Seq<(String, Json)>) -> Seq<(Seq<char>, JsonView)>
    decreases members,
{
    Seq::new(
        members.len(),
        |i: int|
            if 0 <= i < members.len() {
                (members[i].0@, members[i].1.seen())
            } else {
                (Seq::empty(), JsonView::Null)
            },
    )
}

impl View for Json {
    type V = JsonView;

    open spec fn view(&self) -> JsonView {
        self.seen()
    }
}

/// There are as many views as values, and each is that of its value.
pub broadcast proof fn json_views_are(items: Seq<Json>)
    ensures
        (#[trigger] json_views(items)).len() == items.len(),
        forall|i: int| 0 <= i < items.len() ==> #[trigger] json_views(items)[i] == items[i]@,
{
}

/// There are as many views as members, and each is that of its member.
pub broadcast proof fn member_views_are(members: Seq<(String, Json)>)
    ensures
        (#[trigger] member_views(members)).len() == members.len(),
        forall|i: int|
            0 <= i < members.len() ==> #[trigger] member_views(members)[i] == (
                members[i].0@,
                members[i].1@,
            ),
{
}

pub broadcast group group_json {
    json_views_are,
    member_views_are,
}

/// What a value that may not be there is.
pub open spec fn found(json: Option<&Json>) -> Option<JsonView> {
    match json {
        Some(json) => Some(json@),
        None => None,
    }
}

// --- members and items ----------------------------------------------------------------------------

/// The first member of a name, where there is one.
pub open spec fn member(members: Seq<(Seq<char>, JsonView)>, name: Seq<char>) -> Option<JsonView>
    decreases members.len(),
{
    if members.len() == 0 {
        None
    } else if members[0].0 == name {
        Some(members[0].1)
    } else {
        member(members.skip(1), name)
    }
}

/// The member of an object that has the name.
pub open spec fn entry(json: JsonView, name: Seq<char>) -> Option<JsonView> {
    match json {
        JsonView::Object(members) => member(members, name),
        _ => None,
    }
}

/// The first member of a name, where there is one.
pub fn first_member<'a>(members: &'a Vec<(String, Json)>, name: &str) -> (r: Option<&'a Json>)
    ensures
        found(r) == member(member_views(members@), name@),
{
    broadcast use group_json;

    let ghost all = member_views(members@);
    let mut i: usize = 0;
    assert(all.skip(0) =~= all);
    while i < members.len()
        invariant
            i <= members.len(),
            all == member_views(members@),
            member(all.skip(i as int), name@) == member(all, name@),
        decreases members.len() - i,
    {
        assert(all.skip(i as int)[0] == all[i as int]);
        if same(members[i].0.as_str(), name) {
            return Some(&members[i].1);
        }
        assert(all.skip(i as int).skip(1) =~= all.skip(i + 1));
        i = i + 1;
    }
    None
}

/// The text of a value that is one.
pub open spec fn text_of(json: Option<JsonView>) -> Option<Seq<char>> {
    match json {
        Some(JsonView::Text(text)) => Some(text),
        _ => None,
    }
}

/// The flag of a value that is one.
pub open spec fn flag_of(json: Option<JsonView>) -> Option<bool> {
    match json {
        Some(JsonView::Bool(flag)) => Some(flag),
        _ => None,
    }
}

/// The number of a value that is a whole one of 64 bits with a sign.
pub open spec fn int_of(json: Option<JsonView>) -> Option<int> {
    match json {
        Some(JsonView::Integer(n)) => if i64::MIN <= n <= i64::MAX {
            Some(n)
        } else {
            None
        },
        _ => None,
    }
}

/// The number of a value that is a whole one of 64 bits without a sign.
pub open spec fn natural_of(json: Option<JsonView>) -> Option<int> {
    match json {
        Some(JsonView::Integer(n)) => if 0 <= n <= u64::MAX {
            Some(n)
        } else {
            None
        },
        _ => None,
    }
}

/// The items of a value that is an array.
pub open spec fn items_of(json: Option<JsonView>) -> Option<Seq<JsonView>> {
    match json {
        Some(JsonView::Array(items)) => Some(items),
        _ => None,
    }
}

/// The members of a value that is an object.
pub open spec fn members_of(json: Option<JsonView>) -> Option<Seq<(Seq<char>, JsonView)>> {
    match json {
        Some(JsonView::Object(members)) => Some(members),
        _ => None,
    }
}

impl Json {
    /// The member of an object that has the name.
    pub fn get(&self, name: &str) -> (r: Option<&Json>)
        ensures
            found(r) == entry(self@, name@),
    {
        match self {
            Json::Object(members) => first_member(members, name),
            _ => None,
        }
    }

    /// The text, where this is one.
    pub fn as_str(&self) -> (r: Option<&str>)
        ensures
            crate::text::str_view(r) == text_of(Some(self@)),
    {
        match self {
            Json::Text(text) => Some(text.as_str()),
            _ => None,
        }
    }

    /// The flag, where this is one.
    pub fn as_bool(&self) -> (r: Option<bool>)
        ensures
            r == flag_of(Some(self@)),
    {
        match self {
            Json::Bool(flag) => Some(*flag),
            _ => None,
        }
    }

    /// The number, where this is a whole one of 64 bits with a sign.
    pub fn as_i64(&self) -> (r: Option<i64>)
        ensures
            match r {
                Some(n) => int_of(Some(self@)) == Some(n as int),
                None => int_of(Some(self@)) is None,
            },
    {
        match self {
            Json::Integer(n) => if *n >= i64::MIN as i128 && *n <= i64::MAX as i128 {
                Some(*n as i64)
            } else {
                None
            },
            _ => None,
        }
    }

    /// The number, where this is a whole one of 64 bits without a sign.
    pub fn as_u64(&self) -> (r: Option<u64>)
        ensures
            match r {
                Some(n) => natural_of(Some(self@)) == Some(n as int),
                None => natural_of(Some(self@)) is None,
            },
    {
        match self {
            Json::Integer(n) => if *n >= 0 && *n <= u64::MAX as i128 {
                Some(*n as u64)
            } else {
                None
            },
            _ => None,
        }
    }

    /// The items, where this is an array.
    pub fn as_array(&self) -> (r: Option<&Vec<Json>>)
        ensures
            match r {
                Some(items) => items_of(Some(self@)) == Some(json_views(items@)),
                None => items_of(Some(self@)) is None,
            },
    {
        match self {
            Json::Array(items) => Some(items),
            _ => None,
        }
    }

    /// The members, where this is an object.
    pub fn as_object(&self) -> (r: Option<&Vec<(String, Json)>>)
        ensures
            match r {
                Some(members) => members_of(Some(self@)) == Some(member_views(members@)),
                None => members_of(Some(self@)) is None,
            },
    {
        match self {
            Json::Object(members) => Some(members),
            _ => None,
        }
    }
}

/// Members held a second time are the same members.
fn copy_members(members: &Vec<(String, Json)>) -> (r: Vec<(String, Json)>)
    ensures
        member_views(r@) == member_views(members@),
    decreases members@,
{
    broadcast use group_json;

    let mut out: Vec<(String, Json)> = Vec::new();
    let mut i: usize = 0;
    while i < members.len()
        invariant
            i <= members.len(),
            member_views(out@) == member_views(members@).take(i as int),
        decreases members.len() - i,
    {
        let ghost before = member_views(out@);
        let value: Json = members[i].1.clone();
        out.push((members[i].0.clone(), value));
        i = i + 1;
        assert(value@ == members@[i - 1].1@);
        assert(member_views(out@) =~= before.push((members@[i - 1].0@, value@)));
        assert(member_views(out@) =~= member_views(members@).take(i as int));
    }
    assert(member_views(members@).take(i as int) =~= member_views(members@));
    out
}

/// Items held a second time are the same items.
fn copy_items(items: &Vec<Json>) -> (r: Vec<Json>)
    ensures
        json_views(r@) == json_views(items@),
    decreases items@,
{
    broadcast use group_json;

    let mut out: Vec<Json> = Vec::new();
    let mut i: usize = 0;
    while i < items.len()
        invariant
            i <= items.len(),
            json_views(out@) == json_views(items@).take(i as int),
        decreases items.len() - i,
    {
        let ghost before = json_views(out@);
        let item: Json = items[i].clone();
        out.push(item);
        i = i + 1;
        assert(item@ == items@[i - 1]@);
        assert(json_views(out@) =~= before.push(item@));
        assert(json_views(out@) =~= json_views(items@).take(i as int));
    }
    assert(json_views(items@).take(i as int) =~= json_views(items@));
    out
}

impl Clone for Json {
    fn clone(&self) -> (r: Json)
        ensures
            r@ == self@,
        decreases self,
    {
        match self {
            Json::Null => Json::Null,
            Json::Bool(flag) => Json::Bool(*flag),
            Json::Integer(n) => Json::Integer(*n),
            Json::Fraction(n) => Json::Fraction(n.clone()),
            Json::Text(text) => Json::Text(text.clone()),
            Json::Array(items) => Json::Array(copy_items(items)),
            Json::Object(members) => Json::Object(copy_members(members)),
        }
    }
}

}
