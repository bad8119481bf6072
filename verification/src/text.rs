//! Text as sequences of characters: the few operations the rest of the library builds its words,
//! pointers and messages from.

use vstd::prelude::*;
use vstd::string::*;
use vstd::utf8::*;

verus! {

/// `String::push` appends one character and leaves everything before it as it was.
pub assume_specification[ String::push ](s: &mut String, ch: char)
    ensures
        final(s)@ == old(s)@.push(ch),
;

/// Whether two texts hold the same characters: they do where their bytes agree, one by one.
pub fn same(a: &str, b: &str) -> (r: bool)
    ensures
        r == (a@ == b@),
{
    broadcast use encode_utf8_decode_utf8;

    let (x, y): (&[u8], &[u8]) = (a.as_bytes(), b.as_bytes());
    if x.len() != y.len() {
        return false;
    }
    let mut i: usize = 0;
    while i < x.len()
        invariant
            i <= x.len(),
            x@.len() == y@.len(),
            x@ == encode_utf8(a@),
            y@ == encode_utf8(b@),
            forall|j: int| 0 <= j < i ==> x@[j] == y@[j],
        decreases x.len() - i,
    {
        if x[i] != y[i] {
            return false;
        }
        i = i + 1;
    }
    proof {
        assert(x@ =~= y@);
        assert(decode_utf8(encode_utf8(a@)) == decode_utf8(encode_utf8(b@)));
    }
    true
}

/// What is wrong with bytes that are no UTF-8, in the words of the standard library.
pub uninterp spec fn utf8_fault(bytes: Seq<u8>) -> Seq<char>;

/// The text some bytes are, or what is wrong with them; `String::from_utf8`, which takes exactly
/// the bytes that are UTF-8 and gives the characters they encode. Of its error nothing is said but
/// that its words depend on the bytes alone.
#[verifier::external_body]
pub(crate) fn decode(bytes: Vec<u8>) -> (r: Result<String, String>)
    ensures
        match r {
            Ok(text) => valid_utf8(bytes@) && text@ == decode_utf8(bytes@),
            Err(message) => !valid_utf8(bytes@) && message@ == utf8_fault(bytes@),
        },
{
    match String::from_utf8(bytes) {
        Ok(text) => Ok(text),
        Err(error) => Err(error.to_string()),
    }
}

/// The text some bytes are once everything that is no UTF-8 is replaced.
pub uninterp spec fn lossy(bytes: Seq<u8>) -> Seq<char>;

/// The text some bytes are, whatever they are; `String::from_utf8_lossy`, which changes nothing
/// where the bytes are UTF-8.
#[verifier::external_body]
pub(crate) fn decode_lossy(bytes: &[u8]) -> (r: String)
    ensures
        r@ == lossy(bytes@),
        valid_utf8(bytes@) ==> r@ == decode_utf8(bytes@),
{
    String::from_utf8_lossy(bytes).into_owned()
}

// --- characters and texts -------------------------------------------------------------------------

/// The characters of a text, in order.
pub fn chars(text: &str) -> (r: Vec<char>)
    ensures
        r@ == text@,
{
    let mut out: Vec<char> = Vec::new();
    for c in iter: text.chars()
        invariant
            out@ == iter.seq().take(iter.index()),
            iter.seq() == text@,
    {
        out.push(c);
        assert(iter.seq().take(iter.index() + 1) =~= iter.seq().take(iter.index()).push(c));
    }
    assert(text@.take(text@.len() as int) =~= text@);
    out
}

/// The text some characters spell.
pub fn spelled(chars: &Vec<char>) -> (r: String)
    ensures
        r@ == chars@,
{
    between(chars, 0, chars.len())
}

/// The text of the characters from `from` up to `to`.
pub fn between(chars: &Vec<char>, from: usize, to: usize) -> (r: String)
    requires
        from <= to <= chars.len(),
    ensures
        r@ == chars@.subrange(from as int, to as int),
        from == 0 && to == chars.len() ==> r@ == chars@,
{
    let mut out: String = String::new();
    let mut i: usize = from;
    while i < to
        invariant
            from <= i <= to <= chars.len(),
            out@ == chars@.subrange(from as int, i as int),
        decreases to - i,
    {
        out.push(chars[i]);
        i = i + 1;
        assert(chars@.subrange(from as int, i as int) =~= chars@.subrange(
            from as int,
            i - 1,
        ).push(chars@[i - 1]));
    }
    assert(chars@.subrange(0, chars@.len() as int) =~= chars@);
    out
}

/// Two texts, one behind the other.
pub fn join2(a: &str, b: &str) -> (r: String)
    ensures
        r@ == a@ + b@,
{
    let mut out: String = a.to_owned();
    out.append(b);
    out
}

/// Three texts, one behind the other.
pub fn join3(a: &str, b: &str, c: &str) -> (r: String)
    ensures
        r@ == a@ + b@ + c@,
{
    let mut out: String = join2(a, b);
    out.append(c);
    out
}

// --- lists of texts -------------------------------------------------------------------------------

/// The characters of each of some texts.
pub open spec fn views(texts: Seq<String>) -> Seq<Seq<char>> {
    Seq::new(texts.len(), |i: int| texts[i]@)
}

/// Appending a text appends its characters.
pub broadcast proof fn views_push(texts: Seq<String>, text: String)
    ensures
        #[trigger] views(texts.push(text)) == views(texts).push(text@),
{
    assert(views(texts.push(text)) =~= views(texts).push(text@));
}

/// No texts have no characters.
pub broadcast proof fn views_empty()
    ensures
        #[trigger] views(Seq::<String>::empty()) == Seq::<Seq<char>>::empty(),
{
    assert(views(Seq::<String>::empty()) =~= Seq::<Seq<char>>::empty());
}

pub broadcast group group_views {
    views_push,
    views_empty,
}

/// The same texts, held a second time.
pub fn copied(texts: &Vec<String>) -> (r: Vec<String>)
    ensures
        views(r@) == views(texts@),
{
    broadcast use group_views;

    let mut out: Vec<String> = Vec::new();
    let mut i: usize = 0;
    while i < texts.len()
        invariant
            i <= texts.len(),
            views(out@) == views(texts@).take(i as int),
        decreases texts.len() - i,
    {
        out.push(texts[i].clone());
        i = i + 1;
        assert(views(texts@).take(i as int) =~= views(texts@).take(i - 1).push(texts@[i - 1]@));
    }
    assert(views(texts@).take(i as int) =~= views(texts@));
    out
}

/// Whether some text is among `texts`.
pub fn among(texts: &Vec<String>, text: &str) -> (r: bool)
    ensures
        r == views(texts@).contains(text@),
{
    let mut i: usize = 0;
    while i < texts.len()
        invariant
            i <= texts.len(),
            forall|j: int| 0 <= j < i ==> views(texts@)[j] != text@,
        decreases texts.len() - i,
    {
        if same(texts[i].as_str(), text) {
            assert(views(texts@)[i as int] == text@);
            return true;
        }
        i = i + 1;
    }
    false
}

/// Texts one behind the other, `separator` between every two of them.
pub open spec fn joined(texts: Seq<Seq<char>>, separator: Seq<char>) -> Seq<char>
    decreases texts.len(),
{
    if texts.len() == 0 {
        Seq::empty()
    } else if texts.len() == 1 {
        texts[0]
    } else {
        joined(texts.drop_last(), separator) + separator + texts.last()
    }
}

/// Texts one behind the other, `separator` between every two of them.
pub fn join(texts: &Vec<String>, separator: &str) -> (r: String)
    ensures
        r@ == joined(views(texts@), separator@),
{
    let mut out: String = String::new();
    let mut i: usize = 0;
    while i < texts.len()
        invariant
            i <= texts.len(),
            out@ == joined(views(texts@).take(i as int), separator@),
        decreases texts.len() - i,
    {
        let ghost before = views(texts@).take(i as int);
        if i > 0 {
            out.append(separator);
        }
        out.append(texts[i].as_str());
        i = i + 1;
        proof {
            let now = views(texts@).take(i as int);
            assert(now.drop_last() =~= before);
            assert(now.last() == texts@[i - 1]@);
            if i == 1 {
                assert(out@ =~= texts@[0]@);
            }
        }
    }
    assert(views(texts@).take(i as int) =~= views(texts@));
    out
}

// --- templates ------------------------------------------------------------------------------------

/// A template with each `{}` replaced by the next of `words`, in order.
pub open spec fn filled(template: Seq<char>, words: Seq<Seq<char>>) -> Seq<char>
    decreases template.len(),
{
    if template.len() == 0 {
        Seq::empty()
    } else if template.len() >= 2 && template[0] == '{' && template[1] == '}' && words.len() > 0 {
        words[0] + filled(template.skip(2), words.skip(1))
    } else {
        seq![template[0]] + filled(template.skip(1), words)
    }
}

/// A template with each `{}` replaced by the next of `words`, in order.
pub fn fill(template: &str, words: &Vec<String>) -> (r: String)
    ensures
        r@ == filled(template@, views(words@)),
{
    let shape: Vec<char> = chars(template);
    let mut out: String = String::new();
    let mut i: usize = 0;
    let mut w: usize = 0;
    proof {
        assert(shape@.skip(0) =~= shape@);
        assert(views(words@).skip(0) =~= views(words@));
        assert(out@ + filled(shape@, views(words@)) =~= filled(shape@, views(words@)));
    }
    while i < shape.len()
        invariant
            i <= shape.len(),
            w <= words.len(),
            shape@ == template@,
            out@ + filled(shape@.skip(i as int), views(words@).skip(w as int)) == filled(
                template@,
                views(words@),
            ),
        decreases shape.len() - i,
    {
        let ghost rest = shape@.skip(i as int);
        let ghost left = views(words@).skip(w as int);
        let ghost before = out@;
        if shape.len() - i >= 2 && shape[i] == '{' && shape[i + 1] == '}' && w < words.len() {
            out.append(words[w].as_str());
            i = i + 2;
            w = w + 1;
            proof {
                assert(rest.skip(2) =~= shape@.skip(i as int));
                assert(left.skip(1) =~= views(words@).skip(w as int));
                assert(before + (left[0] + filled(rest.skip(2), left.skip(1))) =~= out@ + filled(
                    rest.skip(2),
                    left.skip(1),
                ));
            }
        } else {
            out.push(shape[i]);
            i = i + 1;
            proof {
                assert(rest.skip(1) =~= shape@.skip(i as int));
                assert(before + (seq![rest[0]] + filled(rest.skip(1), left)) =~= out@ + filled(
                    rest.skip(1),
                    left,
                ));
            }
        }
    }
    proof {
        assert(shape@.skip(i as int) =~= Seq::<char>::empty());
        assert(out@ + Seq::<char>::empty() =~= out@);
    }
    out
}

/// A template with one place, filled.
pub fn fill1(template: &str, a: &str) -> (r: String)
    ensures
        r@ == filled(template@, seq![a@]),
{
    let words: Vec<String> = vec![a.to_owned()];
    assert(views(words@) =~= seq![a@]);
    fill(template, &words)
}

/// A template with two places, filled.
pub fn fill2(template: &str, a: &str, b: &str) -> (r: String)
    ensures
        r@ == filled(template@, seq![a@, b@]),
{
    let words: Vec<String> = vec![a.to_owned(), b.to_owned()];
    assert(views(words@) =~= seq![a@, b@]);
    fill(template, &words)
}

/// A template with three places, filled.
pub fn fill3(template: &str, a: &str, b: &str, c: &str) -> (r: String)
    ensures
        r@ == filled(template@, seq![a@, b@, c@]),
{
    let words: Vec<String> = vec![a.to_owned(), b.to_owned(), c.to_owned()];
    assert(views(words@) =~= seq![a@, b@, c@]);
    fill(template, &words)
}

/// A template with four places, filled.
pub fn fill4(template: &str, a: &str, b: &str, c: &str, d: &str) -> (r: String)
    ensures
        r@ == filled(template@, seq![a@, b@, c@, d@]),
{
    let words: Vec<String> = vec![a.to_owned(), b.to_owned(), c.to_owned(), d.to_owned()];
    assert(views(words@) =~= seq![a@, b@, c@, d@]);
    fill(template, &words)
}

/// A template with five places, filled.
pub fn fill5(template: &str, a: &str, b: &str, c: &str, d: &str, e: &str) -> (r: String)
    ensures
        r@ == filled(template@, seq![a@, b@, c@, d@, e@]),
{
    let words: Vec<String> = vec![
        a.to_owned(),
        b.to_owned(),
        c.to_owned(),
        d.to_owned(),
        e.to_owned(),
    ];
    assert(views(words@) =~= seq![a@, b@, c@, d@, e@]);
    fill(template, &words)
}

// --- searching and cutting ------------------------------------------------------------------------

/// Where the first `mark` stands, or the length where there is none.
pub open spec fn first_at(text: Seq<char>, mark: char) -> int
    decreases text.len(),
{
    if text.len() == 0 {
        0
    } else if text[0] == mark {
        0
    } else {
        1 + first_at(text.skip(1), mark)
    }
}

/// The first `mark` stands at the one place that holds it with none before it.
pub proof fn first_at_is(text: Seq<char>, mark: char, at: int)
    requires
        0 <= at <= text.len(),
        forall|j: int| 0 <= j < at ==> text[j] != mark,
        at < text.len() ==> text[at] == mark,
    ensures
        first_at(text, mark) == at,
    decreases at,
{
    if at > 0 {
        first_at_is(text.skip(1), mark, at - 1);
    }
}

/// The first `mark` is where it is said to be, and nothing before it is one.
pub proof fn first_at_bounds(text: Seq<char>, mark: char)
    ensures
        0 <= first_at(text, mark) <= text.len(),
        forall|j: int| 0 <= j < first_at(text, mark) ==> text[j] != mark,
        first_at(text, mark) < text.len() ==> text[first_at(text, mark)] == mark,
    decreases text.len(),
{
    if text.len() > 0 && text[0] != mark {
        first_at_bounds(text.skip(1), mark);
        assert forall|j: int| 0 <= j < first_at(text, mark) implies text[j] != mark by {
            if j > 0 {
                assert(text.skip(1)[j - 1] == text[j]);
            }
        }
    }
}

/// What stands before and behind the first `mark`, where there is one.
pub open spec fn cut_at(text: Seq<char>, mark: char) -> Option<(Seq<char>, Seq<char>)> {
    let at = first_at(text, mark);
    if at < text.len() {
        Some((text.take(at), text.skip(at + 1)))
    } else {
        None
    }
}

/// The characters of a pair of texts.
pub open spec fn pair_view(pair: Option<(String, String)>) -> Option<(Seq<char>, Seq<char>)> {
    match pair {
        Some((a, b)) => Some((a@, b@)),
        None => None,
    }
}

/// What stands before and behind the first `mark`, where there is one.
pub fn cut(text: &str, mark: char) -> (r: Option<(String, String)>)
    ensures
        pair_view(r) == cut_at(text@, mark),
{
    let shape: Vec<char> = chars(text);
    let mut i: usize = 0;
    while i < shape.len()
        invariant
            i <= shape.len(),
            shape@ == text@,
            forall|j: int| 0 <= j < i ==> shape@[j] != mark,
        decreases shape.len() - i,
    {
        if shape[i] == mark {
            proof {
                first_at_is(text@, mark, i as int);
                assert(text@.subrange(0, i as int) =~= text@.take(i as int));
                assert(text@.subrange(i + 1, text@.len() as int) =~= text@.skip(i + 1));
            }
            return Some((between(&shape, 0, i), between(&shape, i + 1, shape.len())));
        }
        i = i + 1;
    }
    proof {
        first_at_is(text@, mark, text@.len() as int);
    }
    None
}

/// Where a text first stands within another, or the length of that where it does not.
pub open spec fn first_match(text: Seq<char>, mark: Seq<char>) -> int
    decreases text.len(),
{
    if begins(text, mark) {
        0
    } else if text.len() == 0 {
        0
    } else {
        1 + first_match(text.skip(1), mark)
    }
}

/// What stands before and behind the first place a text stands at, where there is one.
pub open spec fn cut_at_text(text: Seq<char>, mark: Seq<char>) -> Option<(Seq<char>, Seq<char>)> {
    let at = first_match(text, mark);
    if begins(text.skip(at), mark) {
        Some((text.take(at), text.skip(at + mark.len())))
    } else {
        None
    }
}

/// The first place a text stands at is the one with none before it.
pub proof fn first_match_is(text: Seq<char>, mark: Seq<char>, at: int)
    requires
        0 <= at <= text.len(),
        forall|j: int| 0 <= j < at ==> !begins(#[trigger] text.skip(j), mark),
        begins(text.skip(at), mark) || at == text.len(),
    ensures
        first_match(text, mark) == at,
    decreases at,
{
    if at > 0 {
        assert(!begins(text.skip(0), mark));
        assert(text.skip(0) =~= text);
        let rest = text.skip(1);
        assert forall|j: int| 0 <= j < at - 1 implies !begins(#[trigger] rest.skip(j), mark) by {
            assert(rest.skip(j) =~= text.skip(j + 1));
        }
        assert(rest.skip(at - 1) =~= text.skip(at));
        first_match_is(rest, mark, at - 1);
    } else {
        assert(text.skip(0) =~= text);
    }
}

/// Whether some characters stand in others from a place on.
fn stands_at(shape: &Vec<char>, at: usize, mark: &Vec<char>) -> (r: bool)
    requires
        at <= shape.len(),
    ensures
        r == begins(shape@.skip(at as int), mark@),
{
    let ghost rest = shape@.skip(at as int);
    if shape.len() - at < mark.len() {
        return false;
    }
    let mut i: usize = 0;
    while i < mark.len()
        invariant
            i <= mark.len(),
            at + mark.len() <= shape.len(),
            rest == shape@.skip(at as int),
            forall|j: int| 0 <= j < i ==> rest[j] == mark@[j],
        decreases mark.len() - i,
    {
        if shape[at + i] != mark[i] {
            assert(rest.take(mark@.len() as int)[i as int] != mark@[i as int]);
            return false;
        }
        i = i + 1;
    }
    assert(rest.take(mark@.len() as int) =~= mark@);
    true
}

/// What stands before and behind the first place a text stands at, where there is one.
pub fn cut_text(text: &str, mark: &str) -> (r: Option<(String, String)>)
    ensures
        pair_view(r) == cut_at_text(text@, mark@),
{
    let shape: Vec<char> = chars(text);
    let sought: Vec<char> = chars(mark);
    let mut i: usize = 0;
    loop
        invariant
            i <= shape.len(),
            shape@ == text@,
            sought@ == mark@,
            forall|j: int| 0 <= j < i ==> !begins(#[trigger] text@.skip(j), mark@),
        decreases shape.len() - i,
    {
        if stands_at(&shape, i, &sought) {
            proof {
                first_match_is(text@, mark@, i as int);
                assert(text@.subrange(0, i as int) =~= text@.take(i as int));
                assert(text@.subrange(i + mark@.len(), text@.len() as int) =~= text@.skip(
                    i + mark@.len(),
                ));
            }
            return Some(
                (between(&shape, 0, i), between(&shape, i + sought.len(), shape.len())),
            );
        }
        if i == shape.len() {
            proof {
                first_match_is(text@, mark@, i as int);
            }
            return None;
        }
        i = i + 1;
    }
}

/// Whether a text begins with another.
pub open spec fn begins(text: Seq<char>, with: Seq<char>) -> bool {
    text.len() >= with.len() && text.take(with.len() as int) == with
}

/// What is left of a text behind `with`, where it begins with that.
pub open spec fn past(text: Seq<char>, with: Seq<char>) -> Option<Seq<char>> {
    if begins(text, with) {
        Some(text.skip(with.len() as int))
    } else {
        None
    }
}

/// The characters of a text that may not be there.
pub open spec fn text_view(text: Option<String>) -> Option<Seq<char>> {
    match text {
        Some(text) => Some(text@),
        None => None,
    }
}

/// The characters of a borrowed text that may not be there.
pub open spec fn str_view(text: Option<&str>) -> Option<Seq<char>> {
    match text {
        Some(text) => Some(text@),
        None => None,
    }
}

/// What is left of a text behind `with`, where it begins with that.
pub fn behind(text: &str, with: &str) -> (r: Option<String>)
    ensures
        text_view(r) == past(text@, with@),
{
    let shape: Vec<char> = chars(text);
    let start: Vec<char> = chars(with);
    if shape.len() < start.len() {
        return None;
    }
    let mut i: usize = 0;
    while i < start.len()
        invariant
            i <= start.len() <= shape.len(),
            shape@ == text@,
            start@ == with@,
            forall|j: int| 0 <= j < i ==> shape@[j] == start@[j],
        decreases start.len() - i,
    {
        if shape[i] != start[i] {
            assert(text@.take(with@.len() as int)[i as int] != with@[i as int]);
            return None;
        }
        i = i + 1;
    }
    assert(text@.take(with@.len() as int) =~= with@);
    assert(text@.subrange(with@.len() as int, text@.len() as int) =~= text@.skip(
        with@.len() as int,
    ));
    Some(between(&shape, start.len(), shape.len()))
}

/// The same text, held a second time, where there is one.
pub fn held(text: &Option<String>) -> (r: Option<String>)
    ensures
        text_view(r) == text_view(*text),
{
    match text {
        Some(text) => Some(text.clone()),
        None => None,
    }
}

// --- letters --------------------------------------------------------------------------------------

/// An ASCII capital as its small letter; every other character as it is.
pub open spec fn small(c: char) -> char {
    if 'A' <= c && c <= 'Z' {
        ((c as u8 + 32) as u8) as char
    } else {
        c
    }
}

/// A text with every ASCII capital made small.
pub open spec fn lowered(text: Seq<char>) -> Seq<char> {
    text.map_values(|c: char| small(c))
}

/// A text with every ASCII capital made small.
pub fn lower(text: &str) -> (r: String)
    ensures
        r@ == lowered(text@),
{
    let shape: Vec<char> = chars(text);
    let mut out: String = String::new();
    let mut i: usize = 0;
    while i < shape.len()
        invariant
            i <= shape.len(),
            shape@ == text@,
            out@ == lowered(text@.take(i as int)),
        decreases shape.len() - i,
    {
        let c: char = shape[i];
        out.push(if 'A' <= c && c <= 'Z' { (c as u8 + 32) as char } else { c });
        i = i + 1;
        assert(lowered(text@.take(i as int)) =~= lowered(text@.take(i - 1)).push(
            small(text@[i - 1]),
        ));
    }
    assert(text@.take(i as int) =~= text@);
    out
}

/// Whether two texts differ at most in the case of ASCII letters.
pub fn same_but_case(a: &str, b: &str) -> (r: bool)
    ensures
        r == (lowered(a@) == lowered(b@)),
{
    same(lower(a).as_str(), lower(b).as_str())
}

/// A character with the Unicode property `White_Space`.
pub open spec fn is_blank(c: char) -> bool {
    let at = c as u32;
    ||| 0x09 <= at <= 0x0d
    ||| at == 0x20
    ||| at == 0x85
    ||| at == 0xa0
    ||| at == 0x1680
    ||| 0x2000 <= at <= 0x200a
    ||| at == 0x2028
    ||| at == 0x2029
    ||| at == 0x202f
    ||| at == 0x205f
    ||| at == 0x3000
}

/// Whether a text holds nothing but white space.
pub fn blank(text: &str) -> (r: bool)
    ensures
        r == (forall|i: int| 0 <= i < text@.len() ==> is_blank(#[trigger] text@[i])),
{
    let shape: Vec<char> = chars(text);
    let mut i: usize = 0;
    while i < shape.len()
        invariant
            i <= shape.len(),
            shape@ == text@,
            forall|j: int| 0 <= j < i ==> is_blank(#[trigger] text@[j]),
        decreases shape.len() - i,
    {
        let at: u32 = shape[i] as u32;
        let white: bool = (0x09 <= at && at <= 0x0d) || at == 0x20 || at == 0x85 || at == 0xa0
            || at == 0x1680 || (0x2000 <= at && at <= 0x200a) || at == 0x2028 || at == 0x2029
            || at == 0x202f || at == 0x205f || at == 0x3000;
        if !white {
            assert(!is_blank(text@[i as int]));
            return false;
        }
        i = i + 1;
    }
    true
}

/// A text without the `mark`s it ends on.
pub open spec fn trimmed_end(text: Seq<char>, mark: char) -> Seq<char>
    decreases text.len(),
{
    if text.len() > 0 && text.last() == mark {
        trimmed_end(text.drop_last(), mark)
    } else {
        text
    }
}

/// A text without the `mark`s it ends on.
pub fn trim_end(text: &str, mark: char) -> (r: String)
    ensures
        r@ == trimmed_end(text@, mark),
{
    let shape: Vec<char> = chars(text);
    let mut end: usize = shape.len();
    assert(shape@.take(end as int) =~= text@);
    while end > 0 && shape[end - 1] == mark
        invariant
            end <= shape.len(),
            shape@ == text@,
            trimmed_end(shape@.take(end as int), mark) == trimmed_end(text@, mark),
        decreases end,
    {
        assert(shape@.take(end as int).drop_last() =~= shape@.take(end - 1));
        end = end - 1;
    }
    assert(shape@.subrange(0, end as int) =~= shape@.take(end as int));
    between(&shape, 0, end)
}

/// A text with every `mark` replaced by `with`.
pub open spec fn replaced(text: Seq<char>, mark: char, with: Seq<char>) -> Seq<char>
    decreases text.len(),
{
    if text.len() == 0 {
        Seq::empty()
    } else if text.last() == mark {
        replaced(text.drop_last(), mark, with) + with
    } else {
        replaced(text.drop_last(), mark, with).push(text.last())
    }
}

/// A text with every `mark` replaced by `with`.
pub fn replace(text: &str, mark: char, with: &str) -> (r: String)
    ensures
        r@ == replaced(text@, mark, with@),
{
    let shape: Vec<char> = chars(text);
    let mut out: String = String::new();
    let mut i: usize = 0;
    while i < shape.len()
        invariant
            i <= shape.len(),
            shape@ == text@,
            out@ == replaced(text@.take(i as int), mark, with@),
        decreases shape.len() - i,
    {
        if shape[i] == mark {
            out.append(with);
        } else {
            out.push(shape[i]);
        }
        i = i + 1;
        assert(text@.take(i as int).drop_last() =~= text@.take(i - 1));
    }
    assert(text@.take(i as int) =~= text@);
    out
}

}
