//! The values a record's fields hold.

use vstd::prelude::*;

use crate::text::{same, views};

verus! {

/// Whose clock wrote a time.
#[derive(Debug, PartialEq, Eq)]
pub enum Clock {
    /// Nobody's in particular.
    Unattributed,
    /// That of the component of this name.
    Reporter(String),
    /// That of the node of this name.
    Node(String),
}

/// Which clock one is.
pub enum ClockView {
    Unattributed,
    Reporter(Seq<char>),
    Node(Seq<char>),
}

impl View for Clock {
    type V = ClockView;

    open spec fn view(&self) -> ClockView {
        match self {
            Clock::Unattributed => ClockView::Unattributed,
            Clock::Reporter(name) => ClockView::Reporter(name@),
            Clock::Node(name) => ClockView::Node(name@),
        }
    }
}

impl Clone for Clock {
    fn clone(&self) -> (r: Clock)
        ensures
            r@ == self@,
    {
        match self {
            Clock::Unattributed => Clock::Unattributed,
            Clock::Reporter(name) => Clock::Reporter(name.clone()),
            Clock::Node(name) => Clock::Node(name.clone()),
        }
    }
}

/// One value of a record.
#[derive(Debug, PartialEq)]
pub enum FieldValue {
    /// Unknown, which is never a default.
    Null,
    Bool(bool),
    Int(i128),
    /// A number that is not a whole one, carried as the document held it.
    Float(serde_json::Number),
    /// The floating-point number nearest to a whole number that is too wide for an `i64`.
    Nearest(i128),
    Text(String),
    /// The instant this RFC 3339 text names; null where the text names none.
    Instant(String),
    /// The instant this RFC 3339 text names; the text itself where it names none.
    InstantOrText(String),
    /// The clock that wrote a time, which stands beside the time as text.
    Clock(Clock),
    List(Vec<FieldValue>),
    /// The entries of a map, each key once.
    Entries(Vec<(String, FieldValue)>),
}

/// What a value is, whatever holds it.
pub enum ValueView {
    Null,
    Bool(bool),
    Int(int),
    Float(serde_json::Number),
    Nearest(int),
    Text(Seq<char>),
    Instant(Seq<char>),
    InstantOrText(Seq<char>),
    Clock(ClockView),
    List(Seq<ValueView>),
    Entries(Seq<(Seq<char>, ValueView)>),
}

impl FieldValue {
    /// What this value is.
    pub open spec fn seen(self) -> ValueView
        decreases self,
    {
        match self {
            FieldValue::Null => ValueView::Null,
            FieldValue::Bool(flag) => ValueView::Bool(flag),
            FieldValue::Int(n) => ValueView::Int(n as int),
            FieldValue::Float(n) => ValueView::Float(n),
            FieldValue::Nearest(n) => ValueView::Nearest(n as int),
            FieldValue::Text(text) => ValueView::Text(text@),
            FieldValue::Instant(text) => ValueView::Instant(text@),
            FieldValue::InstantOrText(text) => ValueView::InstantOrText(text@),
            FieldValue::Clock(clock) => ValueView::Clock(clock@),
            FieldValue::List(items) => ValueView::List(value_views(items@)),
            FieldValue::Entries(entries) => ValueView::Entries(entry_views(entries@)),
        }
    }
}

/// What each of some values is.
pub open spec fn value_views(items: Seq<FieldValue>) -> Seq<ValueView>
    decreases items,
{
    Seq::new(
        items.len(),
        |i: int|
            if 0 <= i < items.len() {
                items[i].seen()
            } else {
                ValueView::Null
            },
    )
}

/// What each of some entries is.
pub open spec fn entry_views(entries: Seq<(String, FieldValue)>) -> Seq<(Seq<char>, ValueView)>
    decreases entries,
{
    Seq::new(
        entries.len(),
        |i: int|
            if 0 <= i < entries.len() {
                (entries[i].0@, entries[i].1.seen())
            } else {
                (Seq::empty(), ValueView::Null)
            },
    )
}

impl View for FieldValue {
    type V = ValueView;

    open spec fn view(&self) -> ValueView {
        self.seen()
    }
}

/// Appending a value appends what it is.
pub broadcast proof fn value_views_push(items: Seq<FieldValue>, item: FieldValue)
    ensures
        #[trigger] value_views(items.push(item)) == value_views(items).push(item@),
{
    assert(value_views(items.push(item)) =~= value_views(items).push(item@));
}

/// No values are nothing.
pub broadcast proof fn value_views_empty()
    ensures
        #[trigger] value_views(Seq::<FieldValue>::empty()) == Seq::<ValueView>::empty(),
{
    assert(value_views(Seq::<FieldValue>::empty()) =~= Seq::<ValueView>::empty());
}

/// Appending an entry appends what it is.
pub broadcast proof fn entry_views_push(entries: Seq<(String, FieldValue)>, entry: (String, FieldValue))
    ensures
        #[trigger] entry_views(entries.push(entry)) == entry_views(entries).push(
            (entry.0@, entry.1@),
        ),
{
    assert(entry_views(entries.push(entry)) =~= entry_views(entries).push((entry.0@, entry.1@)));
}

/// No entries are nothing.
pub broadcast proof fn entry_views_empty()
    ensures
        #[trigger] entry_views(Seq::<(String, FieldValue)>::empty()) == Seq::<
            (Seq<char>, ValueView),
        >::empty(),
{
    assert(entry_views(Seq::<(String, FieldValue)>::empty()) =~= Seq::<(Seq<char>, ValueView)>::empty());
}

pub broadcast group group_values {
    value_views_push,
    value_views_empty,
    entry_views_push,
    entry_views_empty,
}

/// Values held a second time are the same values.
fn copy_items(items: &Vec<FieldValue>) -> (r: Vec<FieldValue>)
    ensures
        value_views(r@) == value_views(items@),
    decreases items@,
{
    let mut out: Vec<FieldValue> = Vec::new();
    let mut i: usize = 0;
    assert(value_views(out@) =~= value_views(items@).take(0));
    while i < items.len()
        invariant
            i <= items.len(),
            value_views(out@) == value_views(items@).take(i as int),
        decreases items.len() - i,
    {
        broadcast use group_values;

        let item: FieldValue = items[i].clone();
        out.push(item);
        i = i + 1;
        assert(item@ == items@[i - 1]@);
        assert(value_views(items@).take(i as int) =~= value_views(items@).take(i - 1).push(
            items@[i - 1]@,
        ));
    }
    assert(value_views(items@).take(i as int) =~= value_views(items@));
    out
}

/// Entries held a second time are the same entries.
fn copy_entries(entries: &Vec<(String, FieldValue)>) -> (r: Vec<(String, FieldValue)>)
    ensures
        entry_views(r@) == entry_views(entries@),
    decreases entries@,
{
    let mut out: Vec<(String, FieldValue)> = Vec::new();
    let mut i: usize = 0;
    assert(entry_views(out@) =~= entry_views(entries@).take(0));
    while i < entries.len()
        invariant
            i <= entries.len(),
            entry_views(out@) == entry_views(entries@).take(i as int),
        decreases entries.len() - i,
    {
        broadcast use group_values;

        let value: FieldValue = entries[i].1.clone();
        out.push((entries[i].0.clone(), value));
        i = i + 1;
        assert(value@ == entries@[i - 1].1@);
        assert(entry_views(entries@).take(i as int) =~= entry_views(entries@).take(i - 1).push(
            (entries@[i - 1].0@, entries@[i - 1].1@),
        ));
    }
    assert(entry_views(entries@).take(i as int) =~= entry_views(entries@));
    out
}

impl Clone for FieldValue {
    fn clone(&self) -> (r: FieldValue)
        ensures
            r@ == self@,
        decreases self,
    {
        match self {
            FieldValue::Null => FieldValue::Null,
            FieldValue::Bool(flag) => FieldValue::Bool(*flag),
            FieldValue::Int(n) => FieldValue::Int(*n),
            FieldValue::Float(n) => FieldValue::Float(n.clone()),
            FieldValue::Nearest(n) => FieldValue::Nearest(*n),
            FieldValue::Text(text) => FieldValue::Text(text.clone()),
            FieldValue::Instant(text) => FieldValue::Instant(text.clone()),
            FieldValue::InstantOrText(text) => FieldValue::InstantOrText(text.clone()),
            FieldValue::Clock(clock) => FieldValue::Clock(clock.clone()),
            FieldValue::List(items) => FieldValue::List(copy_items(items)),
            FieldValue::Entries(entries) => FieldValue::Entries(copy_entries(entries)),
        }
    }
}

// --- plain values ---------------------------------------------------------------------------------

/// Text, or null where there was none.
pub open spec fn text_value(text: Option<Seq<char>>) -> ValueView {
    match text {
        Some(text) => ValueView::Text(text),
        None => ValueView::Null,
    }
}

/// A whole number, or null where there was none.
pub open spec fn int_value(n: Option<int>) -> ValueView {
    match n {
        Some(n) => ValueView::Int(n),
        None => ValueView::Null,
    }
}

/// A flag, or null where there was none.
pub open spec fn bool_value(flag: Option<bool>) -> ValueView {
    match flag {
        Some(flag) => ValueView::Bool(flag),
        None => ValueView::Null,
    }
}

/// An instant, or null where there was no text that could name one.
pub open spec fn instant_value(text: Option<Seq<char>>) -> ValueView {
    match text {
        Some(text) => ValueView::Instant(text),
        None => ValueView::Null,
    }
}

/// A list of texts.
pub open spec fn texts_value(texts: Seq<Seq<char>>) -> ValueView {
    ValueView::List(texts.map_values(|text: Seq<char>| ValueView::Text(text)))
}

/// A list of texts, or null where there are none.
pub open spec fn some_texts_value(texts: Seq<Seq<char>>) -> ValueView {
    if texts.len() == 0 {
        ValueView::Null
    } else {
        texts_value(texts)
    }
}

/// Text, or null where there was none.
pub fn text(value: Option<&str>) -> (r: FieldValue)
    ensures
        r@ == text_value(crate::text::str_view(value)),
{
    match value {
        Some(text) => FieldValue::Text(text.to_owned()),
        None => FieldValue::Null,
    }
}

/// Text.
pub fn string(value: &str) -> (r: FieldValue)
    ensures
        r@ == ValueView::Text(value@),
{
    FieldValue::Text(value.to_owned())
}

/// Owned text, or null where there was none.
pub fn optional(value: &Option<String>) -> (r: FieldValue)
    ensures
        r@ == text_value(crate::text::text_view(*value)),
{
    match value {
        Some(text) => FieldValue::Text(text.clone()),
        None => FieldValue::Null,
    }
}

/// An integer, widened to the value model's width.
pub fn integer(value: i64) -> (r: FieldValue)
    ensures
        r@ == ValueView::Int(value as int),
{
    FieldValue::Int(value as i128)
}

/// An unsigned count, or null where there was none. A count beyond an `i64` is shown as the
/// largest one.
pub fn count(value: Option<u64>) -> (r: FieldValue)
    ensures
        r@ == match value {
            Some(n) => ValueView::Int(
                if n <= i64::MAX {
                    n as int
                } else {
                    i64::MAX as int
                },
            ),
            None => ValueView::Null,
        },
{
    match value {
        Some(n) => if n <= i64::MAX as u64 {
            integer(n as i64)
        } else {
            integer(i64::MAX)
        },
        None => FieldValue::Null,
    }
}

/// A signed count, or null where there was none.
pub fn count_i64(value: Option<i64>) -> (r: FieldValue)
    ensures
        r@ == match value {
            Some(n) => ValueView::Int(n as int),
            None => ValueView::Null,
        },
{
    match value {
        Some(n) => integer(n),
        None => FieldValue::Null,
    }
}

/// An instant, or null where there was no text that could name one.
pub fn timestamp(value: Option<&str>) -> (r: FieldValue)
    ensures
        r@ == instant_value(crate::text::str_view(value)),
{
    match value {
        Some(text) => FieldValue::Instant(text.to_owned()),
        None => FieldValue::Null,
    }
}

/// A list of texts.
pub fn texts(entries: &Vec<String>) -> (r: FieldValue)
    ensures
        r@ == texts_value(views(entries@)),
{
    broadcast use group_values;

    let mut out: Vec<FieldValue> = Vec::new();
    let mut i: usize = 0;
    let ghost wanted = views(entries@).map_values(|text: Seq<char>| ValueView::Text(text));
    while i < entries.len()
        invariant
            i <= entries.len(),
            wanted == views(entries@).map_values(|text: Seq<char>| ValueView::Text(text)),
            value_views(out@) == wanted.take(i as int),
        decreases entries.len() - i,
    {
        broadcast use group_values;

        out.push(string(entries[i].as_str()));
        i = i + 1;
        assert(wanted.take(i as int) =~= wanted.take(i - 1).push(wanted[i - 1]));
    }
    assert(wanted.take(i as int) =~= wanted);
    FieldValue::List(out)
}

/// A list of texts, or null where there are none.
pub fn list(entries: &Vec<String>) -> (r: FieldValue)
    ensures
        r@ == some_texts_value(views(entries@)),
{
    if entries.len() == 0 {
        FieldValue::Null
    } else {
        texts(entries)
    }
}

// --- maps -----------------------------------------------------------------------------------------

/// The entries of a map after one more is put in: in the place of the one that has the key, or
/// behind all of them.
pub open spec fn put(
    entries: Seq<(Seq<char>, ValueView)>,
    key: Seq<char>,
    value: ValueView,
) -> Seq<(Seq<char>, ValueView)>
    decreases entries.len(),
{
    if entries.len() == 0 {
        seq![(key, value)]
    } else if entries[0].0 == key {
        seq![(key, value)] + entries.skip(1)
    } else {
        seq![entries[0]] + put(entries.skip(1), key, value)
    }
}

/// Puts one entry into a map.
pub fn insert(entries: &mut Vec<(String, FieldValue)>, key: String, value: FieldValue)
    ensures
        entry_views(final(entries)@) == put(entry_views(old(entries)@), key@, value@),
{
    broadcast use group_values;

    let ghost all = entry_views(entries@);
    let ghost whole = put(all, key@, value@);
    let mut i: usize = 0;
    assert(all.skip(0) =~= all);
    assert(all.take(0) + whole =~= whole);
    while i < entries.len()
        invariant
            i <= entries.len(),
            all == entry_views(entries@),
            all == entry_views(old(entries)@),
            whole == put(all, key@, value@),
            all.take(i as int) + put(all.skip(i as int), key@, value@) == whole,
        decreases entries.len() - i,
    {
        let ghost rest = all.skip(i as int);
        assert(rest[0] == all[i as int]);
        assert(all[i as int] == (entries@[i as int].0@, entries@[i as int].1@));
        if same(entries[i].0.as_str(), key.as_str()) {
            let ghost held = entries@;
            entries.set(i, (key, value));
            proof {
                assert(entries@ == held.update(i as int, (key, value)));
                assert(entry_views(entries@) =~= all.update(i as int, (key@, value@)));
                assert(all.take(i as int) + (seq![(key@, value@)] + rest.skip(1)) =~= all.update(
                    i as int,
                    (key@, value@),
                ));
            }
            return;
        }
        proof {
            assert(rest.skip(1) =~= all.skip(i + 1));
            assert(all.take(i as int) + (seq![rest[0]] + put(rest.skip(1), key@, value@))
                =~= all.take(i + 1) + put(all.skip(i + 1), key@, value@));
        }
        i = i + 1;
    }
    proof {
        assert(all.skip(i as int) =~= Seq::<(Seq<char>, ValueView)>::empty());
        assert(all.take(i as int) =~= all);
        assert(all + seq![(key@, value@)] =~= all.push((key@, value@)));
    }
    entries.push((key, value));
}

/// Puts one entry under a fixed key into a map.
pub fn enter(entries: &mut Vec<(String, FieldValue)>, key: &str, value: FieldValue)
    ensures
        entry_views(final(entries)@) == put(entry_views(old(entries)@), key@, value@),
{
    insert(entries, key.to_owned(), value);
}

/// The value under a key, where a map has it.
pub open spec fn under(entries: Seq<(Seq<char>, ValueView)>, key: Seq<char>) -> Option<ValueView>
    decreases entries.len(),
{
    if entries.len() == 0 {
        None
    } else if entries[0].0 == key {
        Some(entries[0].1)
    } else {
        under(entries.skip(1), key)
    }
}

// --- laws -----------------------------------------------------------------------------------------

/// What is put into a map under a key is what it holds under the key, and every other key holds
/// what it held.
pub proof fn put_is_found(
    entries: Seq<(Seq<char>, ValueView)>,
    key: Seq<char>,
    value: ValueView,
    other: Seq<char>,
)
    ensures
        under(put(entries, key, value), key) == Some(value),
        other != key ==> under(put(entries, key, value), other) == under(entries, other),
    decreases entries.len(),
{
    let now = put(entries, key, value);
    if entries.len() == 0 {
        reveal_with_fuel(under, 2);
    } else if entries[0].0 == key {
        assert(now.skip(1) =~= entries.skip(1));
    } else {
        put_is_found(entries.skip(1), key, value, other);
        assert(now.skip(1) =~= put(entries.skip(1), key, value));
    }
}

}
