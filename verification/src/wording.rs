//! What words, pointers and plain values promise, however they are put together.
//!
//! Each law here speaks of what a function was given and of what it returned.

use vstd::prelude::*;
use vstd::string::*;

use crate::asked::{a_member_is_the_first_of_its_name, gives, gives_no};
use crate::calendar::{instant_text, rfc3339};
use crate::contributions::Target;
use crate::digits::{decimal, number};
use crate::failure::{failure, Class, WireError};
use crate::fields::{port_key, ports_by_key};
use crate::hex::{decode_hex, encode_hex};
use crate::json::{entry, Json, JsonView};
use crate::objects::Guarded;
use crate::options::Options;
use crate::order::{sort, sort_once};
use crate::pointer::{at, escaped, escaped_is_one_segment, escaping_round_trips, segments, walk};
use crate::projection::plain_value;
use crate::records::{record, recordable, EndpointCategory, Freshness, Origin, Record};
use crate::text::{
    behind, blank, cut, fill, fill1, filled, first_at_bounds, first_at_is, join, joined, lower,
    lowered, trim_end, trimmed_end, views,
};
use crate::value::{put_is_found, under, FieldValue, ValueView};

verus! {

// --- words ----------------------------------------------------------------------------------------

/// A template stands as it is up to its first gap, the first word stands in that, and the rest is
/// filled with the rest of the words; a template without a gap is itself.
pub proof fn a_word_stands_in_its_gap(
    front: Seq<char>,
    rest: Seq<char>,
    word: Seq<char>,
    words: Seq<Seq<char>>,
)
    requires
        forall|i: int| 0 <= i < front.len() ==> front[i] != '{',
    ensures
        filled(front, words) == front,
        filled(front + seq!['{', '}'] + rest, seq![word] + words) == front + word + filled(
            rest,
            words,
        ),
    decreases front.len(),
{
    let template = front + seq!['{', '}'] + rest;
    let all = seq![word] + words;
    if front.len() == 0 {
        assert(filled(front, words) =~= front);
        assert(template.skip(2) =~= rest);
        assert(all.skip(1) =~= words);
        assert(front + word + filled(rest, words) =~= word + filled(rest, words));
    } else {
        let tail = front.skip(1);
        a_word_stands_in_its_gap(tail, rest, word, words);
        assert(template.skip(1) =~= tail + seq!['{', '}'] + rest);
        assert(template[0] == front[0]);
        assert(filled(template, all) == seq![front[0]] + filled(template.skip(1), all));
        assert(seq![front[0]] + (tail + word + filled(rest, words)) =~= front + word + filled(
            rest,
            words,
        ));
        assert(seq![front[0]] + tail =~= front);
    }
}

/// A filled template is the template with each word in the gap of its place.
pub proof fn a_template_is_filled_in_order(
    template: &str,
    words: Vec<String>,
    shown: String,
    word: &str,
    one: String,
)
    requires
        call_ensures(fill, (template, &words), shown),
        call_ensures(fill1, (template, word), one),
    ensures
        words@.len() == 1 && words@[0]@ == word@ ==> shown@ == one@,
        shown@ == filled(template@, words@.map_values(|text: String| text@)),
{
    assert(views(words@) =~= words@.map_values(|text: String| text@));
    if words@.len() == 1 && words@[0]@ == word@ {
        assert(views(words@) =~= seq![word@]);
    }
}

/// Joined texts stand one behind the other with the separator between every two, and nothing before
/// the first or behind the last.
pub proof fn texts_are_joined_in_order(
    a: Seq<Seq<char>>,
    b: Seq<Seq<char>>,
    separator: Seq<char>,
)
    ensures
        joined(Seq::empty(), separator).len() == 0,
        a.len() == 1 ==> joined(a, separator) == a[0],
        a.len() > 0 && b.len() > 0 ==> joined(a + b, separator) == joined(a, separator) + separator
            + joined(b, separator),
    decreases b.len(),
{
    if a.len() > 0 && b.len() == 1 {
        assert((a + b).drop_last() =~= a);
        assert((a + b).last() == b[0]);
    } else if a.len() > 0 && b.len() > 1 {
        let front = b.drop_last();
        texts_are_joined_in_order(a, front, separator);
        assert((a + b).drop_last() =~= a + front);
        assert(joined(a + b, separator) =~= joined(a, separator) + separator + joined(
            b,
            separator,
        ));
    }
}

/// What a list of texts is joined to is that of its texts.
pub proof fn a_list_is_joined_as_its_texts(texts: Vec<String>, separator: &str, shown: String)
    requires
        call_ensures(join, (&texts, separator), shown),
    ensures
        shown@ == joined(texts@.map_values(|text: String| text@), separator@),
{
    assert(views(texts@) =~= texts@.map_values(|text: String| text@));
}

/// Case is told by ASCII letters alone: each capital is made small and nothing else is changed, so
/// what is small already stays as it is.
pub proof fn only_capitals_are_made_small(text: &str, small: String)
    requires
        call_ensures(lower, (text,), small),
    ensures
        small@.len() == text@.len(),
        forall|i: int|
            0 <= i < text@.len() && !('A' <= text@[i] <= 'Z') ==> #[trigger] small@[i] == text@[i],
        forall|i: int|
            0 <= i < text@.len() && 'A' <= text@[i] <= 'Z' ==> (#[trigger] small@[i]) as u32
                == text@[i] as u32 + 32,
        lowered(small@) == small@,
{
    assert(lowered(small@) =~= small@);
}

/// What is cut at a mark is what stands before its first and what stands behind it; a text without
/// the mark is not cut.
pub proof fn a_text_is_cut_at_its_first_mark(
    text: &str,
    mark: char,
    parts: Option<(String, String)>,
)
    requires
        call_ensures(cut, (text, mark), parts),
    ensures
        parts matches Some((before, after)) ==> {
            &&& text@ == before@ + seq![mark] + after@
            &&& forall|i: int| 0 <= i < before@.len() ==> before@[i] != mark
        },
        parts is None ==> forall|i: int| 0 <= i < text@.len() ==> text@[i] != mark,
{
    first_at_bounds(text@, mark);
    if let Some((before, after)) = parts {
        assert(text@ =~= before@ + seq![mark] + after@);
    }
}

/// What stands behind a beginning is the rest of the text, and nothing where it begins otherwise.
pub proof fn what_stands_behind_a_beginning(text: &str, with: &str, rest: Option<String>)
    requires
        call_ensures(behind, (text, with), rest),
    ensures
        rest matches Some(left) ==> text@ == with@ + left@,
        forall|left: Seq<char>| text@ == #[trigger] (with@ + left) ==> rest is Some && rest->0@ == left,
{
    if let Some(left) = rest {
        assert(text@ =~= text@.take(with@.len() as int) + text@.skip(with@.len() as int));
    }
    assert forall|left: Seq<char>| text@ == #[trigger] (with@ + left) implies rest is Some
        && rest->0@ == left by {
        assert((with@ + left).take(with@.len() as int) =~= with@);
        assert((with@ + left).skip(with@.len() as int) =~= left);
    }
}

/// A trimmed text is the text without the marks at its end, and with everything before them.
pub proof fn a_trimmed_text_loses_only_its_end(text: &str, mark: char, left: String)
    requires
        call_ensures(trim_end, (text, mark), left),
    ensures
        left@.len() <= text@.len(),
        left@ == text@.take(left@.len() as int),
        left@.len() > 0 ==> left@.last() != mark,
        forall|i: int| left@.len() <= i < text@.len() ==> text@[i] == mark,
{
    trimmed_is_a_beginning(text@, mark);
}

proof fn trimmed_is_a_beginning(text: Seq<char>, mark: char)
    ensures
        trimmed_end(text, mark).len() <= text.len(),
        trimmed_end(text, mark) == text.take(trimmed_end(text, mark).len() as int),
        trimmed_end(text, mark).len() > 0 ==> trimmed_end(text, mark).last() != mark,
        forall|i: int| trimmed_end(text, mark).len() <= i < text.len() ==> text[i] == mark,
    decreases text.len(),
{
    if text.len() > 0 && text.last() == mark {
        let front = text.drop_last();
        trimmed_is_a_beginning(front, mark);
        let left = trimmed_end(text, mark);
        assert(front.take(left.len() as int) =~= text.take(left.len() as int));
        assert forall|i: int| left.len() <= i < text.len() implies text[i] == mark by {
            if i < front.len() {
                assert(front[i] == text[i]);
            }
        }
    } else {
        assert(text.take(text.len() as int) =~= text);
    }
}

/// A text of nothing but spaces is blank, and a letter is not.
pub proof fn a_blank_says_nothing(text: &str, empty: bool, letter: char)
    requires
        call_ensures(blank, (text,), empty),
    ensures
        text@.len() == 0 ==> empty,
        (forall|i: int| 0 <= i < text@.len() ==> #[trigger] text@[i] == ' ') ==> empty,
        'a' <= letter <= 'z' || 'A' <= letter <= 'Z' || '0' <= letter <= '9'
            ==> !crate::text::is_blank(letter),
{
}

/// Bytes are written as two small hexadecimal digits each and read back as they were; what is no
/// such
/// writing is not read.
pub proof fn bytes_are_written_and_read_back(
    bytes: &[u8],
    written: String,
    text: &str,
    read: Option<Vec<u8>>,
)
    requires
        call_ensures(encode_hex, (bytes,), written),
        call_ensures(decode_hex, (text,), read),
    ensures
        written@.len() == 2 * bytes@.len(),
        text@ == written@ ==> read is Some && read->0@ == bytes@,
        text@.len() % 2 == 1 ==> read is None,
        read matches Some(held) ==> held@.len() * 2 == text@.len(),
{
    crate::hex::encoding_round_trips(bytes@);
    written_twice_as_long(bytes@);
}

proof fn written_twice_as_long(bytes: Seq<u8>)
    ensures
        crate::hex::encoded(bytes).len() == 2 * bytes.len(),
    decreases bytes.len(),
{
    if bytes.len() > 0 {
        written_twice_as_long(bytes.drop_last());
    }
}

/// Sorting keeps every text as often as it is there and puts none before one it comes after;
/// sorting
/// once keeps each of them once.
pub proof fn texts_are_sorted_and_kept(texts: Vec<String>, all: Vec<String>, once: Vec<String>)
    requires
        call_ensures(sort, (&texts,), all),
        call_ensures(sort_once, (&texts,), once),
    ensures
        all@.len() == texts@.len(),
        views(all@).to_multiset() == views(texts@).to_multiset(),
        forall|i: int, j: int|
            0 <= i < j < all@.len() ==> crate::order::at_most(
                (#[trigger] all@[i])@,
                (#[trigger] all@[j])@,
            ),
        views(once@).to_set() == views(texts@).to_set(),
        forall|i: int, j: int|
            0 <= i < j < once@.len() ==> crate::order::before(
                (#[trigger] once@[i])@,
                (#[trigger] once@[j])@,
            ),
{
    views(all@).to_multiset_ensures();
    views(texts@).to_multiset_ensures();
    assert(views(all@).len() == views(texts@).len());
    assert forall|i: int, j: int| 0 <= i < j < all@.len() implies crate::order::at_most(
        (#[trigger] all@[i])@,
        (#[trigger] all@[j])@,
    ) by {
        assert(crate::order::at_most(views(all@)[i], views(all@)[j]));
    }
    assert forall|i: int, j: int| 0 <= i < j < once@.len() implies crate::order::before(
        (#[trigger] once@[i])@,
        (#[trigger] once@[j])@,
    ) by {
        assert(crate::order::before(views(once@)[i], views(once@)[j]));
    }
}

/// A number is written so that it reads back as itself.
pub proof fn a_number_reads_back(n: u128, shown: String)
    requires
        call_ensures(number, (n,), shown),
    ensures
        crate::digits::natural_number(shown@) == Some(n as nat),
{
    crate::digits::decimal_reads_back(n as nat);
}

/// An instant is written as its day, and the hour, the minute, the second and the thousandths of
/// it.
pub proof fn an_instant_is_written_by_its_parts(
    millis: u64,
    instant: String,
    days: int,
    hours: nat,
    minutes: nat,
    seconds: nat,
    rest: nat,
)
    requires
        call_ensures(rfc3339, (millis,), instant),
        0 <= days,
        hours < 24,
        minutes < 60,
        seconds < 60,
        rest < 1000,
        millis == (((days * 24 + hours) * 60 + minutes) * 60 + seconds) * 1000 + rest,
    ensures
        instant@ == crate::calendar::stamp(
            crate::calendar::date_of(days),
            hours,
            minutes,
            seconds,
            rest,
        ),
{
    parts_are_found(millis as nat, days, hours, minutes, seconds, rest);
}

proof fn parts_are_found(
    millis: nat,
    days: int,
    hours: nat,
    minutes: nat,
    seconds: nat,
    rest: nat,
)
    requires
        0 <= days,
        hours < 24,
        minutes < 60,
        seconds < 60,
        rest < 1000,
        millis == (((days * 24 + hours) * 60 + minutes) * 60 + seconds) * 1000 + rest,
    ensures
        (millis / 1000) / 86400 == days,
        ((millis / 1000) % 86400) / 3600 == hours,
        (((millis / 1000) % 86400) % 3600) / 60 == minutes,
        ((millis / 1000) % 86400) % 60 == seconds,
        millis % 1000 == rest,
{
    let whole = ((days * 24 + hours) * 60 + minutes) * 60 + seconds;
    assert(millis / 1000 == whole);
    assert(whole == days * 86400 + (hours * 3600 + minutes * 60 + seconds));
    assert(whole / 86400 == days);
    assert(whole % 86400 == hours * 3600 + minutes * 60 + seconds);
}

// --- documents ------------------------------------------------------------------------------------

/// A pointer leads key by key: the empty one to the document itself, and one that begins with a key
/// to what the rest leads to from what that key holds; a pointer that begins otherwise leads
/// nowhere.
pub proof fn a_pointer_leads_key_by_key(json: JsonView, key: Seq<char>, rest: Seq<char>)
    requires
        rest.len() == 0 || rest[0] == '/',
    ensures
        at(json, Seq::empty()) == Some(json),
        json is Object ==> at(json, seq!['/'] + escaped(key) + rest) == match entry(json, key) {
            Some(held) => at(held, rest),
            None => None,
        },
        !(json is Object) && !(json is Array) ==> at(json, seq!['/'] + escaped(key) + rest) is None,
{
    let pointer = seq!['/'] + escaped(key) + rest;
    escaped_is_one_segment(key);
    escaping_round_trips(key);
    let text = pointer.skip(1);
    assert(text =~= escaped(key) + rest);
    if rest.len() == 0 {
        assert(text =~= escaped(key));
        let path = seq![escaped(key)];
        assert(path.skip(1) =~= Seq::<Seq<char>>::empty());
        reveal_with_fuel(walk, 2);
    } else {
        first_at_is(text, '/', escaped(key).len() as int);
        assert(text.take(escaped(key).len() as int) =~= escaped(key));
        assert(text.skip(escaped(key).len() as int + 1) =~= rest.skip(1));
        let path = segments(text);
        assert(path == seq![escaped(key)] + segments(rest.skip(1)));
        assert(path[0] == escaped(key));
        assert(path.skip(1) =~= segments(rest.skip(1)));
    }
}

/// What a pointer leads to is told by what the document holds there.
pub proof fn a_field_is_what_its_pointer_leads_to(
    json: Json,
    pointer: &str,
    held: Option<&Json>,
    name: &str,
    member: Option<&Json>,
)
    requires
        call_ensures(Json::field, (&json, pointer), held),
        call_ensures(Json::get, (&json, name), member),
    ensures
        held matches Some(value) ==> at(json@, pointer@) == Some(value@),
        held is None ==> at(json@, pointer@) is None,
        json@ matches JsonView::Object(members) ==> match member {
            Some(value) => gives(members, name@, value@),
            None => gives_no(members, name@),
        },
        !(json@ is Object) ==> member is None,
{
    if let JsonView::Object(members) = json@ {
        a_member_is_the_first_of_its_name(members, name@);
    }
}

/// A value is read as what it is and as nothing else, and a number only where it fits.
pub proof fn a_value_is_read_as_what_it_is(
    json: Json,
    text: Option<&str>,
    flag: Option<bool>,
    signed: Option<i64>,
    natural: Option<u64>,
)
    requires
        call_ensures(Json::as_str, (&json,), text),
        call_ensures(Json::as_bool, (&json,), flag),
        call_ensures(Json::as_i64, (&json,), signed),
        call_ensures(Json::as_u64, (&json,), natural),
    ensures
        json matches Json::Text(held) ==> text is Some && text->0@ == held@,
        !(json is Text) ==> text is None,
        json matches Json::Bool(held) ==> flag == Some(held),
        !(json is Bool) ==> flag is None,
        json matches Json::Integer(n) ==> {
            &&& i64::MIN <= n <= i64::MAX ==> signed == Some(n as i64)
            &&& !(i64::MIN <= n <= i64::MAX) ==> signed is None
            &&& 0 <= n <= u64::MAX ==> natural == Some(n as u64)
            &&& !(0 <= n <= u64::MAX) ==> natural is None
        },
        !(json is Integer) ==> signed is None && natural is None,
{
}

/// An argument is read as what it was given as: a text as a text, a flag as a flag, a count as a
/// count, and nothing where it was not given.
pub proof fn an_argument_is_read_as_given(
    options: Options,
    name: &str,
    text: Option<&str>,
    some: Option<String>,
    flag: Option<bool>,
    natural: Option<u64>,
    positive: Option<u64>,
)
    requires
        call_ensures(Options::text, (&options, name), text),
        call_ensures(Options::some_text, (&options, name), some),
        call_ensures(Options::flag, (&options, name), flag),
        call_ensures(Options::natural, (&options, name), natural),
        call_ensures(Options::positive, (&options, name), positive),
    ensures
        text matches Some(held) ==> gives(options@, name@, JsonView::Text(held@)),
        some matches Some(held) ==> held@.len() > 0 && gives(
            options@,
            name@,
            JsonView::Text(held@),
        ),
        text is Some && text->0@.len() > 0 ==> some is Some,
        flag matches Some(held) ==> gives(options@, name@, JsonView::Bool(held)),
        natural matches Some(n) ==> gives(options@, name@, JsonView::Integer(n as int)),
        positive matches Some(n) ==> n > 0 && natural == Some(n),
        natural matches Some(n) ==> (n > 0 ==> positive == Some(n)),
        gives_no(options@, name@) ==> text is None && some is None && flag is None && natural
            is None && positive is None,
        forall|held: Seq<char>| #[trigger] gives(options@, name@, JsonView::Text(held)) ==> text
            is Some,
        forall|held: bool| #[trigger] gives(options@, name@, JsonView::Bool(held)) ==> flag == Some(
            held,
        ),
{
    a_member_is_the_first_of_its_name(options@, name@);
}

// --- refusals and records -------------------------------------------------------------------------

/// A refusal carries its message and its help, under the name and the code of its kind.
pub proof fn a_refusal_says_what_it_is(
    class: Class,
    message: String,
    help: &str,
    error: WireError,
)
    requires
        call_ensures(failure, (class, message, help), error),
    ensures
        error.message@ == message@,
        error.help matches Some(text) && text@ == help@,
        error.name@ == match class {
            Class::Unavailable => "provider.unavailable"@,
            Class::Unsupported => "provider.unsupported"@,
            Class::Ambiguous => "resolve.ambiguous"@,
            Class::Refused => "contribution.refused"@,
            Class::Trap => "runtime.trap"@,
            Class::Protocol => "runtime.protocol_violation"@,
        },
        class is Refused ==> error.code is None,
        !(class is Refused) ==> (error.code matches Some(code) && code@ == match class {
            Class::Unavailable => "Ono-Sendai-E0401"@,
            Class::Unsupported => "Ono-Sendai-E0402"@,
            Class::Ambiguous => "Ono-Sendai-E0103"@,
            Class::Trap => "Ono-Sendai-K11201"@,
            _ => "Ono-Sendai-K11204"@,
        }),
{
}

/// What a read says about itself: by which instance, how, about what, from where and at which
/// version.
pub open spec fn read_in_words(freshness: Freshness) -> Seq<Seq<char>> {
    seq![
        freshness.provider_instance@,
        match freshness.origin {
            Origin::DirectRead => "direct-read"@,
            Origin::Cache => "cache"@,
            Origin::WatchEvent => "watch-event"@,
        },
        freshness.scope@,
        match freshness.endpoint {
            EndpointCategory::Core => "core"@,
            EndpointCategory::Group => "group"@,
        },
        match freshness.resource_version {
            Some(version) => version@,
            None => "unknown"@,
        },
    ]
}

/// A record says which package made it, of which schema, when it was observed, and what the read it
/// comes from says about itself.
pub proof fn a_record_says_where_it_comes_from(
    row: Record,
    target: Target,
    guarded: Guarded,
    freshness: Freshness,
)
    requires
        call_ensures(record, (&target, &guarded, &freshness), row),
    ensures
        row.provenance.package@ == "io.github.godspeed-you.kubernetes"@,
        row.provenance.schema@ == target.schema@,
        row.provenance.observed is Some,
        row.provenance.observed->0@ == instant_text(freshness.observed_at as nat),
        row.provenance.source is Some,
        row.provenance.source->0@ == filled(
            "provider_instance={} origin={} scope={} endpoint={} resource_version={}"@,
            read_in_words(freshness),
        ),
{
    let words = seq![
        freshness.provider_instance@,
        crate::records::origin_text(freshness.origin),
        freshness.scope@,
        crate::records::endpoint_text(freshness.endpoint),
        freshness.version_text(),
    ];
    assert(row.provenance.states(target.schema@, freshness));
    read_is_worded(freshness);
}

proof fn read_is_worded(freshness: Freshness)
    ensures
        seq![
            freshness.provider_instance@,
            crate::records::origin_text(freshness.origin),
            freshness.scope@,
            crate::records::endpoint_text(freshness.endpoint),
            freshness.version_text(),
        ] == read_in_words(freshness),
{
}

// --- ports ----------------------------------------------------------------------------------------

/// A port goes by its name; without one by its number, and without either by its place.
pub proof fn a_port_goes_by_its_name(port: JsonView, place: int)
    requires
        0 <= place,
    ensures
        forall|name: Seq<char>|
            entry(port, "name"@) == Some(#[trigger] text_json(name)) ==> port_key(port, place)
                == name,
        entry(port, "name"@) is None && entry(port, "port"@) is Some ==> port_key(port, place)
            == crate::document::rendered(entry(port, "port"@)->0),
        entry(port, "name"@) is None && entry(port, "port"@) is None ==> port_key(port, place)
            == crate::digits::decimal(place as nat),
{
}

/// A text as a value of a document.
pub open spec fn text_json(text: Seq<char>) -> JsonView {
    JsonView::Text(text)
}

/// Every port is shown whole under what it goes by, the last of one name in the place of the
/// others,
/// and nothing is shown under what no port goes by.
pub proof fn each_port_is_shown_under_its_key(ports: Seq<JsonView>, key: Seq<char>)
    ensures
        forall|i: int|
            0 <= i < ports.len() && port_key(#[trigger] ports[i], i) == key && (forall|j: int|
                i < j < ports.len() ==> port_key(#[trigger] ports[j], j) != key) ==> under(
                ports_by_key(ports),
                key,
            ) == Some(plain_value(ports[i])),
        (forall|j: int| 0 <= j < ports.len() ==> port_key(#[trigger] ports[j], j) != key) ==> under(
            ports_by_key(ports),
            key,
        ) is None,
    decreases ports.len(),
{
    if ports.len() > 0 {
        let front = ports.drop_last();
        let end = ports.len() - 1;
        each_port_is_shown_under_its_key(front, key);
        put_is_found(ports_by_key(front), port_key(ports[end], end), plain_value(ports[end]), key);
        assert forall|i: int|
            0 <= i < ports.len() && port_key(#[trigger] ports[i], i) == key && (forall|j: int|
                i < j < ports.len() ==> port_key(#[trigger] ports[j], j) != key) implies under(
            ports_by_key(ports),
            key,
        ) == Some(plain_value(ports[i])) by {
            if i < end {
                assert(port_key(ports[end], end) != key);
                assert(front[i] == ports[i]);
                assert forall|j: int| i < j < front.len() implies port_key(#[trigger] front[j], j)
                    != key by {
                    assert(front[j] == ports[j]);
                }
            }
        }
        if forall|j: int| 0 <= j < ports.len() ==> port_key(#[trigger] ports[j], j) != key {
            assert(port_key(ports[end], end) != key);
            assert forall|j: int| 0 <= j < front.len() implies port_key(#[trigger] front[j], j)
                != key by {
                assert(front[j] == ports[j]);
            }
        }
    }
}

/// The ports of an object are those under its spec, and those at its top where it has none there.
pub proof fn ports_are_read_where_they_are_declared(
    row: Record,
    target: Target,
    guarded: Guarded,
    freshness: Freshness,
)
    requires
        call_ensures(record, (&target, &guarded, &freshness), row),
    ensures
        crate::filled::says(
            row,
            "ports"@,
            match at(guarded.object.native@, "/spec/ports"@) {
                Some(JsonView::Array(ports)) => ValueView::Entries(ports_by_key(ports)),
                Some(_) => ValueView::Null,
                None => match at(guarded.object.native@, "/ports"@) {
                    Some(JsonView::Array(ports)) => ValueView::Entries(ports_by_key(ports)),
                    _ => ValueView::Null,
                },
            },
        ),
{
    crate::filled::row_is_shown(row, target, guarded, freshness, 48);
}

// --- items and restarts ---------------------------------------------------------------------------

proof fn no_leading_zero(n: nat)
    ensures
        decimal(n).len() > 0,
        decimal(n)[0] == '0' ==> n == 0 && decimal(n).len() == 1,
        '0' <= decimal(n)[0] <= '9',
        forall|i: int| 0 <= i < decimal(n).len() ==> decimal(n)[i] != '/' && decimal(n)[i] != '~',
    decreases n,
{
    if n >= 10 {
        no_leading_zero(n / 10);
        assert(decimal(n)[0] == decimal(n / 10)[0]);
        assert forall|i: int| 0 <= i < decimal(n).len() implies decimal(n)[i] != '/' && decimal(
            n,
        )[i] != '~' by {
            if i < decimal(n).len() - 1 {
                assert(decimal(n)[i] == decimal(n / 10)[i]);
            }
        }
    }
}

/// An item of a list is led to by its place, and a place behind the last leads nowhere.
pub proof fn an_item_is_led_to_by_its_place(items: Seq<JsonView>, place: nat)
    ensures
        place < items.len() ==> at(JsonView::Array(items), seq!['/'] + decimal(place)) == Some(
            items[place as int],
        ),
        place >= items.len() ==> at(JsonView::Array(items), seq!['/'] + decimal(place)) is None,
{
    let text = decimal(place);
    no_leading_zero(place);
    crate::digits::decimal_reads_back(place);
    let pointer = seq!['/'] + text;
    assert(pointer.skip(1) =~= text);
    first_at_is(text, '/', text.len() as int);
    let path = seq![text];
    assert(path.skip(1) =~= Seq::<Seq<char>>::empty());
    stays_unescaped(text);
    reveal_with_fuel(walk, 2);
}

proof fn stays_unescaped(text: Seq<char>)
    requires
        forall|i: int| 0 <= i < text.len() ==> text[i] != '~',
    ensures
        crate::pointer::unescaped(text) == text,
    decreases text.len(),
{
    if text.len() > 0 {
        stays_unescaped(text.skip(1));
        assert(seq![text[0]] + text.skip(1) =~= text);
    } else {
        assert(crate::pointer::unescaped(text) =~= text);
    }
}

/// An object can be recorded under every schema that does not sum restarts, and under one that does
/// where their sum is one that a record holds.
pub proof fn a_sum_is_recorded_where_it_fits(target: Target, guarded: Guarded, can: bool)
    requires
        crate::document::is_document(guarded.object.native@),
        call_ensures(recordable, (&target, &guarded), can),
    ensures
        (forall|i: int|
            0 <= i < target.fields@.len() ==> (#[trigger] target.fields@[i]).name@ != "restarts"@)
            ==> can,
        at(guarded.object.native@, "/status/containerStatuses"@) is None ==> can,
        can && (exists|i: int|
            0 <= i < target.fields@.len() && (#[trigger] target.fields@[i]).name@ == "restarts"@)
            ==> (at(guarded.object.native@, "/status/containerStatuses"@) matches Some(
            JsonView::Array(statuses),
        ) ==> i64::MIN <= crate::filled::restarts_in(statuses) <= i64::MAX),
{
    if let Some(JsonView::Array(statuses)) = at(
        guarded.object.native@,
        "/status/containerStatuses"@,
    ) {
        crate::filled::restarts_are_summed(statuses);
        if guarded.object.restarts_fit() {
            assert(statuses.take(statuses.len() as int) =~= statuses);
            assert(i64::MIN <= crate::objects::restart_sum(statuses.take(statuses.len() as int))
                <= i64::MAX);
        }
    }
    if can && exists|i: int|
        0 <= i < target.fields@.len() && (#[trigger] target.fields@[i]).name@ == "restarts"@ {
        let i = choose|i: int|
            0 <= i < target.fields@.len() && (#[trigger] target.fields@[i]).name@ == "restarts"@;
        assert(crate::records::Source::answers(&guarded, target.fields@[i].name@));
    }
}

// --- plain values ---------------------------------------------------------------------------------

/// A plain value is shown as itself: a text as a text, a number as that number, a count as far as a
/// record counts, and nothing as unknown.
pub proof fn a_plain_value_is_shown_as_itself(
    word: &str,
    text: FieldValue,
    owned: Option<String>,
    optional: FieldValue,
    n: i64,
    number: FieldValue,
    some: Option<u64>,
    count: FieldValue,
    signed: Option<i64>,
    held: FieldValue,
    stamp: Option<&str>,
    instant: FieldValue,
)
    requires
        call_ensures(crate::value::string, (word,), text),
        call_ensures(crate::value::optional, (&owned,), optional),
        call_ensures(crate::value::integer, (n,), number),
        call_ensures(crate::value::count, (some,), count),
        call_ensures(crate::value::count_i64, (signed,), held),
        call_ensures(crate::value::timestamp, (stamp,), instant),
    ensures
        text@ == ValueView::Text(word@),
        owned matches Some(held) ==> optional@ == ValueView::Text(held@),
        owned is None ==> optional@ is Null,
        number@ == ValueView::Int(n as int),
        some matches Some(n) ==> count@ == ValueView::Int(
            if n <= i64::MAX {
                n as int
            } else {
                i64::MAX as int
            },
        ),
        some is None ==> count@ is Null,
        signed matches Some(n) ==> held@ == ValueView::Int(n as int),
        signed is None ==> held@ is Null,
        stamp matches Some(held) ==> instant@ == ValueView::Instant(held@),
        stamp is None ==> instant@ is Null,
{
}

/// A list of texts is shown whole and in order, and an empty one as a list or as unknown, by which
/// is
/// asked for.
pub proof fn a_list_is_shown_whole(entries: Vec<String>, all: FieldValue, some: FieldValue)
    requires
        call_ensures(crate::value::texts, (&entries,), all),
        call_ensures(crate::value::list, (&entries,), some),
    ensures
        all@ is List,
        all@->List_0.len() == entries@.len(),
        forall|i: int|
            0 <= i < entries@.len() ==> #[trigger] all@->List_0[i] == ValueView::Text(
                entries@[i]@,
            ),
        entries@.len() == 0 ==> some@ is Null,
        entries@.len() > 0 ==> some@ == all@,
{
    assert(views(entries@).len() == entries@.len());
    assert forall|i: int| 0 <= i < entries@.len() implies #[trigger] all@->List_0[i]
        == ValueView::Text(entries@[i]@) by {
        assert(views(entries@)[i] == entries@[i]@);
    }
}

/// What is put into a map stands under its key, and every other key holds what it held.
pub proof fn what_is_put_stands_under_its_key(
    entries: &mut Vec<(String, FieldValue)>,
    key: String,
    value: FieldValue,
    other: Seq<char>,
)
    requires
        call_ensures(crate::value::insert, (entries, key, value), ()),
    ensures
        under(crate::value::entry_views(final(entries)@), key@) == Some(value@),
        other != key@ ==> under(crate::value::entry_views(final(entries)@), other) == under(
            crate::value::entry_views(old(entries)@),
            other,
        ),
{
    put_is_found(crate::value::entry_views(old(entries)@), key@, value@, other);
}

/// What is asked of one field of an object is what its record shows there.
pub proof fn a_field_alone_is_the_field_of_the_record(
    row: Record,
    target: Target,
    guarded: Guarded,
    freshness: Freshness,
    name: &str,
    value: FieldValue,
    place: int,
)
    requires
        call_ensures(record, (&target, &guarded, &freshness), row),
        call_ensures(crate::fields::field_value, (name, &guarded), value),
        0 <= place < row.fields@.len(),
        row.fields@[place].0@ == name@,
    ensures
        value@ == row.fields@[place].1@,
{
    crate::shown::each_is_answered(row, target.fields@, guarded);
    assert(crate::records::Source::value_of(&guarded, name@) == crate::fields::field_value_of(
        name@,
        guarded,
    ));
}

/// A record of this package's own says nothing of a read, and an instant is shown as it is written.
pub proof fn what_is_local_comes_from_no_read(
    schema: &str,
    local: crate::records::Provenance,
    millis: u64,
    shown: FieldValue,
    written: String,
)
    requires
        call_ensures(crate::records::Provenance::local, (schema,), local),
        call_ensures(crate::records::instant, (millis,), shown),
        call_ensures(rfc3339, (millis,), written),
    ensures
        local.package@ == "io.github.godspeed-you.kubernetes"@,
        local.schema@ == schema@,
        local.source is None,
        local.observed is None,
        shown@ == ValueView::Instant(written@),
{
}

/// A list and a map of a document are read whole, and nothing else is read as one.
pub proof fn lists_and_maps_are_read_whole(
    json: Json,
    items: Option<&Vec<Json>>,
    members: Option<&Vec<(String, Json)>>,
)
    requires
        call_ensures(Json::as_array, (&json,), items),
        call_ensures(Json::as_object, (&json,), members),
    ensures
        items is Some <==> json is Array,
        members is Some <==> json is Object,
        items matches Some(held) ==> json@ == JsonView::Array(crate::json::json_views(held@)),
        members matches Some(held) ==> json@ == JsonView::Object(
            crate::json::member_views(held@),
        ),
{
    assert(json@ is Array <==> json is Array);
    assert(json@ is Object <==> json is Object);
}

/// Texts are told apart by every letter, or by every letter but its case where that is asked for; a
/// text is among others where one of them is it; and a list held a second time is the same list.
pub proof fn texts_are_told_apart(
    a: &str,
    b: &str,
    alike: bool,
    nearly: bool,
    texts: Vec<String>,
    among: bool,
    again: Vec<String>,
)
    requires
        call_ensures(crate::text::same, (a, b), alike),
        call_ensures(crate::text::same_but_case, (a, b), nearly),
        call_ensures(crate::text::among, (&texts, a), among),
        call_ensures(crate::text::copied, (&texts,), again),
    ensures
        alike <==> a@ == b@,
        alike ==> nearly,
        nearly ==> a@.len() == b@.len(),
        among <==> exists|i: int| 0 <= i < texts@.len() && (#[trigger] texts@[i])@ == a@,
        again@.len() == texts@.len(),
        forall|i: int| 0 <= i < texts@.len() ==> (#[trigger] again@[i])@ == texts@[i]@,
{
    assert(views(texts@).len() == texts@.len() && views(again@).len() == again@.len());
    assert(lowered(a@).len() == a@.len() && lowered(b@).len() == b@.len());
    if among {
        let i = choose|i: int| 0 <= i < views(texts@).len() && views(texts@)[i] == a@;
        assert(texts@[i]@ == a@);
    }
    if exists|i: int| 0 <= i < texts@.len() && (#[trigger] texts@[i])@ == a@ {
        let i = choose|i: int| 0 <= i < texts@.len() && (#[trigger] texts@[i])@ == a@;
        assert(views(texts@)[i] == a@);
    }
    assert forall|i: int| 0 <= i < texts@.len() implies (#[trigger] again@[i])@ == texts@[i]@ by {
        assert(views(again@)[i] == views(texts@)[i]);
    }
}

/// A number is read back from the text that spells it, with its sign, and not where it does not
/// fit.
pub proof fn a_number_is_read_from_its_text(
    n: i64,
    shown: String,
    text: &str,
    read: Option<i64>,
    most: u64,
    natural: Option<u64>,
    m: u128,
    written: String,
)
    requires
        call_ensures(crate::digits::signed, (n,), shown),
        call_ensures(crate::digits::whole, (text,), read),
        call_ensures(crate::digits::natural, (text, most), natural),
        call_ensures(number, (m,), written),
    ensures
        text@ == shown@ ==> read == Some(n),
        text@ == written@ && m <= most ==> natural == Some(m as u64),
        text@ == written@ && m > most ==> natural is None,
        text@.len() == 0 ==> read is None && natural is None,
{
    crate::digits::signed_decimal_reads_back(n as int);
    crate::digits::decimal_reads_back(m as nat);
}

}
