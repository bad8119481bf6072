//! JSON pointers (RFC 6901): the notation every part of the library names a field of an object by.

use vstd::prelude::*;
use vstd::string::*;

use crate::digits::{natural, natural_number};
use crate::json::{entry, found, group_json, json_views, Json, JsonView};
use crate::text::{
    begins, between, chars, first_at, first_at_bounds, first_at_is, group_views, replace, replaced,
    views,
};

verus! {

// --- keys as pointer segments ---------------------------------------------------------------------

/// One key as a pointer segment spells it: `~` as `~0` and then `/` as `~1`.
pub open spec fn escaped(key: Seq<char>) -> Seq<char> {
    replaced(replaced(key, '~', "~0"@), '/', "~1"@)
}

/// One pointer segment as the key it spells: `~1` is a `/` and `~0` is a `~`.
pub open spec fn unescaped(segment: Seq<char>) -> Seq<char>
    decreases segment.len(),
{
    if segment.len() == 0 {
        Seq::empty()
    } else if segment.len() >= 2 && segment[0] == '~' && segment[1] == '1' {
        seq!['/'] + unescaped(segment.skip(2))
    } else if segment.len() >= 2 && segment[0] == '~' && segment[1] == '0' {
        seq!['~'] + unescaped(segment.skip(2))
    } else {
        seq![segment[0]] + unescaped(segment.skip(1))
    }
}

/// One key as a JSON pointer segment spells it.
///
/// Escaping `~` first is not optional: the other order would turn the `~1` a slash became into
/// something that spells no slash.
pub fn escape(key: &str) -> (r: String)
    ensures
        r@ == escaped(key@),
{
    let once: String = replace(key, '~', "~0");
    replace(once.as_str(), '/', "~1")
}

/// The key a pointer segment spells.
pub fn unescape(segment: &str) -> (r: String)
    ensures
        r@ == unescaped(segment@),
{
    let shape: Vec<char> = chars(segment);
    let mut out: String = String::new();
    let mut i: usize = 0;
    assert(shape@.skip(0) =~= shape@);
    assert(out@ + unescaped(shape@) =~= unescaped(shape@));
    while i < shape.len()
        invariant
            i <= shape.len(),
            shape@ == segment@,
            out@ + unescaped(shape@.skip(i as int)) == unescaped(segment@),
        decreases shape.len() - i,
    {
        let ghost rest = shape@.skip(i as int);
        let ghost before = out@;
        if shape.len() - i >= 2 && shape[i] == '~' && (shape[i + 1] == '1' || shape[i + 1] == '0') {
            let c: char = if shape[i + 1] == '1' {
                '/'
            } else {
                '~'
            };
            out.push(c);
            i = i + 2;
            proof {
                assert(rest.skip(2) =~= shape@.skip(i as int));
                assert(before + (seq![c] + unescaped(rest.skip(2))) =~= out@ + unescaped(
                    rest.skip(2),
                ));
            }
        } else {
            out.push(shape[i]);
            i = i + 1;
            proof {
                assert(rest.skip(1) =~= shape@.skip(i as int));
                assert(before + (seq![rest[0]] + unescaped(rest.skip(1))) =~= out@ + unescaped(
                    rest.skip(1),
                ));
            }
        }
    }
    proof {
        assert(shape@.skip(i as int) =~= Seq::<char>::empty());
        assert(out@ + Seq::<char>::empty() =~= out@);
    }
    out
}

// --- following a pointer --------------------------------------------------------------------------

/// The parts of a text that `/` stands between.
pub open spec fn segments(text: Seq<char>) -> Seq<Seq<char>>
    decreases text.len(),
    via segments_shrink
{
    let at = first_at(text, '/');
    if at >= text.len() {
        seq![text]
    } else {
        seq![text.take(at)] + segments(text.skip(at + 1))
    }
}

#[via_fn]
proof fn segments_shrink(text: Seq<char>) {
    first_at_bounds(text, '/');
}

/// Which place of a list a segment names: digits, with no sign and no leading zero.
pub open spec fn place(segment: Seq<char>) -> Option<nat> {
    if segment.len() == 0 || segment[0] == '+' || (segment[0] == '0' && segment.len() != 1) {
        None
    } else {
        natural_number(segment)
    }
}

/// What one key leads to: the member of an object, or the item of a list.
pub open spec fn step(json: JsonView, key: Seq<char>) -> Option<JsonView> {
    match json {
        JsonView::Object(_) => entry(json, key),
        JsonView::Array(items) => match place(key) {
            Some(at) => if at < items.len() {
                Some(items[at as int])
            } else {
                None
            },
            None => None,
        },
        _ => None,
    }
}

/// What the segments of a pointer lead to, one after the other.
pub open spec fn walk(json: JsonView, path: Seq<Seq<char>>) -> Option<JsonView>
    decreases path.len(),
{
    if path.len() == 0 {
        Some(json)
    } else {
        match step(json, unescaped(path[0])) {
            Some(next) => walk(next, path.skip(1)),
            None => None,
        }
    }
}

/// What a JSON pointer names in a document.
pub open spec fn at(json: JsonView, pointer: Seq<char>) -> Option<JsonView> {
    if pointer.len() == 0 {
        Some(json)
    } else if pointer[0] != '/' {
        None
    } else {
        walk(json, segments(pointer.skip(1)))
    }
}

/// The parts of a text from `from` on that `/` stands between.
fn split(shape: &Vec<char>, from: usize) -> (r: Vec<String>)
    requires
        from <= shape.len(),
    ensures
        views(r@) == segments(shape@.skip(from as int)),
{
    broadcast use group_views;

    let mut out: Vec<String> = Vec::new();
    let mut start: usize = from;
    let mut i: usize = from;
    let ghost whole = segments(shape@.skip(from as int));
    assert(views(out@) + whole =~= whole);
    while i < shape.len()
        invariant
            from <= start <= i <= shape.len(),
            forall|j: int| start <= j < i ==> shape@[j] != '/',
            views(out@) + segments(shape@.skip(start as int)) == whole,
        decreases shape.len() - i,
    {
        if shape[i] == '/' {
            let ghost rest = shape@.skip(start as int);
            let ghost before = views(out@);
            let ghost part = rest.take(i - start);
            proof {
                first_at_is(rest, '/', i - start);
                assert(rest.take(i - start) =~= shape@.subrange(start as int, i as int));
                assert(rest.skip(i - start + 1) =~= shape@.skip(i + 1));
            }
            out.push(between(shape, start, i));
            start = i + 1;
            assert(before + (seq![part] + segments(shape@.skip(i + 1))) =~= views(out@) + segments(
                shape@.skip(i + 1),
            ));
        }
        i = i + 1;
    }
    proof {
        let rest = shape@.skip(start as int);
        first_at_is(rest, '/', rest.len() as int);
        assert(rest =~= shape@.subrange(start as int, shape@.len() as int));
    }
    let ghost before = views(out@);
    out.push(between(shape, start, shape.len()));
    assert(before + seq![shape@.skip(start as int)] =~= views(out@));
    out
}

/// Which place of a list a segment names, where the list has it.
fn place_in(segment: &str, len: usize) -> (r: Option<usize>)
    ensures
        match place(segment@) {
            Some(at) => if at < len {
                r == Some(at as usize)
            } else {
                r is None
            },
            None => r is None,
        },
{
    let shape: Vec<char> = chars(segment);
    if shape.len() == 0 || shape[0] == '+' || (shape[0] == '0' && shape.len() != 1) {
        return None;
    }
    if len == 0 {
        return None;
    }
    match natural(segment, (len - 1) as u64) {
        Some(at) => Some(at as usize),
        None => None,
    }
}

impl Json {
    /// The value a JSON pointer names in this document, where it holds one.
    pub fn field(&self, pointer: &str) -> (r: Option<&Json>)
        ensures
            found(r) == at(self@, pointer@),
    {
        broadcast use group_json;

        let shape: Vec<char> = chars(pointer);
        if shape.len() == 0 {
            return Some(self);
        }
        if shape[0] != '/' {
            return None;
        }
        let path: Vec<String> = split(&shape, 1);
        let ghost all = views(path@);
        let mut here: &Json = self;
        let mut i: usize = 0;
        assert(all.skip(0) =~= all);
        while i < path.len()
            invariant
                i <= path.len(),
                all == views(path@),
                at(self@, pointer@) == walk(here@, all.skip(i as int)),
            decreases path.len() - i,
        {
            broadcast use group_json;

            let key: String = unescape(path[i].as_str());
            assert(all.skip(i as int)[0] == path@[i as int]@);
            assert(all.skip(i as int).skip(1) =~= all.skip(i + 1));
            match here {
                Json::Object(_) => match here.get(key.as_str()) {
                    Some(next) => {
                        here = next;
                    },
                    None => {
                        return None;
                    },
                },
                Json::Array(items) => match place_in(key.as_str(), items.len()) {
                    Some(k) => {
                        assert(json_views(items@)[k as int] == items@[k as int]@);
                        here = &items[k];
                    },
                    None => {
                        return None;
                    },
                },
                _ => {
                    return None;
                },
            }
            i = i + 1;
        }
        Some(here)
    }
}

// --- laws -----------------------------------------------------------------------------------------

/// Replacing works through a text part by part.
proof fn replaced_in_parts(a: Seq<char>, b: Seq<char>, mark: char, with: Seq<char>)
    ensures
        replaced(a + b, mark, with) == replaced(a, mark, with) + replaced(b, mark, with),
    decreases b.len(),
{
    if b.len() == 0 {
        assert(a + b =~= a);
        assert(replaced(a, mark, with) + replaced(b, mark, with) =~= replaced(a, mark, with));
    } else {
        replaced_in_parts(a, b.drop_last(), mark, with);
        assert((a + b).drop_last() =~= a + b.drop_last());
        assert((a + b).last() == b.last());
        assert(replaced(a + b, mark, with) =~= replaced(a, mark, with) + replaced(b, mark, with));
    }
}

/// What one character of a key becomes.
spec fn escaped_char(c: char) -> Seq<char> {
    if c == '~' {
        seq!['~', '0']
    } else if c == '/' {
        seq!['~', '1']
    } else {
        seq![c]
    }
}

/// A key is escaped character by character.
proof fn escaped_by_chars(c: char, rest: Seq<char>)
    ensures
        escaped(seq![c] + rest) == escaped_char(c) + escaped(rest),
{
    reveal_strlit("~0");
    reveal_strlit("~1");
    reveal_with_fuel(replaced, 3);
    let one = seq![c];
    replaced_in_parts(one, rest, '~', "~0"@);
    let first = replaced(one, '~', "~0"@);
    assert(one.drop_last() =~= Seq::<char>::empty());
    replaced_in_parts(first, replaced(rest, '~', "~0"@), '/', "~1"@);
    if c == '~' {
        assert(first =~= seq!['~', '0']);
        assert(first.drop_last() =~= seq!['~']);
        assert(seq!['~'].drop_last() =~= Seq::<char>::empty());
        assert(replaced(first, '/', "~1"@) =~= seq!['~', '0']);
    } else {
        assert(first =~= one);
        assert(replaced(first, '/', "~1"@) =~= escaped_char(c));
    }
}

/// What is escaped spells the key it was made from.
pub proof fn escaping_round_trips(key: Seq<char>)
    ensures
        unescaped(escaped(key)) == key,
    decreases key.len(),
{
    if key.len() == 0 {
        reveal_with_fuel(replaced, 2);
        assert(escaped(key) =~= Seq::<char>::empty());
        assert(unescaped(escaped(key)) =~= key);
    } else {
        let rest = key.skip(1);
        assert(seq![key[0]] + rest =~= key);
        escaped_by_chars(key[0], rest);
        escaping_round_trips(rest);
        let head = escaped_char(key[0]);
        let whole = escaped(key);
        assert(whole == head + escaped(rest));
        assert(whole.skip(head.len() as int) =~= escaped(rest));
        assert(unescaped(whole) =~= seq![key[0]] + unescaped(escaped(rest)));
    }
}

/// A key that is escaped holds no slash, so it stays one segment of a pointer.
pub proof fn escaped_is_one_segment(key: Seq<char>)
    ensures
        forall|i: int| 0 <= i < escaped(key).len() ==> escaped(key)[i] != '/',
        segments(escaped(key)) == seq![escaped(key)],
    decreases key.len(),
{
    if key.len() == 0 {
        reveal_with_fuel(replaced, 2);
        assert(escaped(key) =~= Seq::<char>::empty());
    } else {
        let rest = key.skip(1);
        assert(seq![key[0]] + rest =~= key);
        escaped_by_chars(key[0], rest);
        escaped_is_one_segment(rest);
        let head = escaped_char(key[0]);
        assert forall|i: int| 0 <= i < escaped(key).len() implies escaped(key)[i] != '/' by {
            if i >= head.len() {
                assert(escaped(key)[i] == escaped(rest)[i - head.len()]);
            }
        }
    }
    first_at_is(escaped(key), '/', escaped(key).len() as int);
}

/// The pointer made of one escaped key names exactly the member of that key, whatever the key.
pub proof fn escaped_key_is_found(json: JsonView, key: Seq<char>)
    requires
        json is Object,
    ensures
        at(json, seq!['/'] + escaped(key)) == entry(json, key),
{
    let pointer = seq!['/'] + escaped(key);
    assert(pointer.skip(1) =~= escaped(key));
    escaped_is_one_segment(key);
    escaping_round_trips(key);
    let path = seq![escaped(key)];
    assert(path.skip(1) =~= Seq::<Seq<char>>::empty());
    reveal_with_fuel(walk, 2);
}

/// A text with every `mark` replaced by `with`, read from the front: what is replaced is not looked
/// at again.
pub open spec fn substituted(text: Seq<char>, mark: Seq<char>, with: Seq<char>) -> Seq<char>
    decreases text.len(),
{
    if text.len() == 0 || mark.len() == 0 {
        text
    } else if begins(text, mark) {
        with + substituted(text.skip(mark.len() as int), mark, with)
    } else {
        seq![text[0]] + substituted(text.skip(1), mark, with)
    }
}

/// Every `~` of a key that is escaped is followed by a `0` or a `1`, so none stands for itself.
pub proof fn every_tilde_is_an_escape(key: Seq<char>)
    ensures
        forall|i: int|
            0 <= i < escaped(key).len() && #[trigger] escaped(key)[i] == '~' ==> i + 1
                < escaped(key).len() && (escaped(key)[i + 1] == '0' || escaped(key)[i + 1] == '1'),
    decreases key.len(),
{
    if key.len() == 0 {
        reveal_with_fuel(replaced, 2);
        assert(escaped(key) =~= Seq::<char>::empty());
    } else {
        let rest = key.skip(1);
        assert(seq![key[0]] + rest =~= key);
        escaped_by_chars(key[0], rest);
        every_tilde_is_an_escape(rest);
        let head = escaped_char(key[0]);
        let whole = escaped(key);
        assert forall|i: int| 0 <= i < whole.len() && #[trigger] whole[i] == '~' implies i + 1
            < whole.len() && (whole[i + 1] == '0' || whole[i + 1] == '1') by {
            if i >= head.len() {
                assert(whole[i] == escaped(rest)[i - head.len()]);
                assert(whole[i + 1] == escaped(rest)[i + 1 - head.len()]);
            }
        }
    }
}

/// The first of the two passes that take an escaped key apart leaves its tildes escaped.
proof fn slashes_come_back(key: Seq<char>)
    ensures
        substituted(escaped(key), "~1"@, "/"@) == replaced(key, '~', "~0"@),
    decreases key.len(),
{
    reveal_strlit("~0");
    reveal_strlit("~1");
    reveal_strlit("/");
    let half = replaced(key, '~', "~0"@);
    if key.len() == 0 {
        reveal_with_fuel(replaced, 2);
        assert(escaped(key) =~= Seq::<char>::empty());
    } else {
        let rest = key.skip(1);
        let one = seq![key[0]];
        assert(one + rest =~= key);
        escaped_by_chars(key[0], rest);
        slashes_come_back(rest);
        replaced_in_parts(one, rest, '~', "~0"@);
        reveal_with_fuel(replaced, 2);
        assert(one.drop_last() =~= Seq::<char>::empty());
        let head = escaped_char(key[0]);
        let whole = escaped(key);
        let tail = escaped(rest);
        assert(whole == head + tail);
        assert(whole.skip(head.len() as int) =~= tail);
        if key[0] == '/' {
            assert(whole.take(2) =~= "~1"@);
            assert(begins(whole, "~1"@));
            assert(replaced(one, '~', "~0"@) =~= "/"@);
            assert("/"@ + substituted(tail, "~1"@, "/"@) =~= half);
        } else if key[0] == '~' {
            assert(whole.take(2)[1] == '0');
            assert(!begins(whole, "~1"@));
            let middle = whole.skip(1);
            assert(middle[0] == '0');
            assert(!begins(middle, "~1"@)) by {
                if begins(middle, "~1"@) {
                    assert(middle.take(2)[0] == '0');
                }
            }
            assert(middle.skip(1) =~= tail);
            assert(replaced(one, '~', "~0"@) =~= seq!['~', '0']);
            assert(substituted(middle, "~1"@, "/"@) == seq!['0'] + substituted(tail, "~1"@, "/"@));
            assert(whole[0] == '~');
            assert(substituted(whole, "~1"@, "/"@) == seq!['~'] + substituted(middle, "~1"@, "/"@));
            assert(seq!['~'] + (seq!['0'] + substituted(tail, "~1"@, "/"@)) =~= half);
        } else {
            assert(!begins(whole, "~1"@)) by {
                if begins(whole, "~1"@) {
                    assert(whole.take(2)[0] == key[0]);
                }
            }
            assert(replaced(one, '~', "~0"@) =~= one);
            assert(substituted(whole, "~1"@, "/"@) == seq![whole[0]] + substituted(
                whole.skip(1),
                "~1"@,
                "/"@,
            ));
            assert(one + substituted(tail, "~1"@, "/"@) =~= half);
        }
    }
}

/// The second pass brings the tildes back.
proof fn tildes_come_back(key: Seq<char>)
    ensures
        substituted(replaced(key, '~', "~0"@), "~0"@, "~"@) == key,
    decreases key.len(),
{
    reveal_strlit("~0");
    reveal_strlit("~");
    if key.len() == 0 {
        reveal_with_fuel(replaced, 2);
    } else {
        let rest = key.skip(1);
        let one = seq![key[0]];
        assert(one + rest =~= key);
        tildes_come_back(rest);
        replaced_in_parts(one, rest, '~', "~0"@);
        reveal_with_fuel(replaced, 2);
        assert(one.drop_last() =~= Seq::<char>::empty());
        let tail = replaced(rest, '~', "~0"@);
        let whole = replaced(key, '~', "~0"@);
        if key[0] == '~' {
            assert(replaced(one, '~', "~0"@) =~= "~0"@);
            assert(whole.take(2) =~= "~0"@);
            assert(whole.skip(2) =~= tail);
            assert("~"@ + rest =~= key);
        } else {
            assert(replaced(one, '~', "~0"@) =~= one);
            assert(!begins(whole, "~0"@)) by {
                if begins(whole, "~0"@) {
                    assert(whole.take(2)[0] == key[0]);
                }
            }
            assert(whole.skip(1) =~= tail);
        }
    }
}

/// A key that is escaped comes back when every `~1` is replaced by a slash and then every `~0` by a
/// tilde, in that order.
pub proof fn two_passes_bring_the_key_back(key: Seq<char>)
    ensures
        substituted(substituted(escaped(key), "~1"@, "/"@), "~0"@, "~"@) == key,
{
    slashes_come_back(key);
    tildes_come_back(key);
}

/// Two keys are never escaped alike.
pub proof fn escaping_tells_apart(a: Seq<char>, b: Seq<char>)
    requires
        escaped(a) == escaped(b),
    ensures
        a == b,
{
    escaping_round_trips(a);
    escaping_round_trips(b);
}

}
