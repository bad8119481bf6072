//! What is asked for several times over is done each time: pairs, images and fields by pointer.

use vstd::prelude::*;
use vstd::string::*;

use crate::actions::{
    change_away, change_views, container_at, containers_at, image_changes, images_changes,
    pair_change, pairs_changes, removals, Action, ChangeView, FieldChange,
};
use crate::asked::{
    a_member_is_the_first_of_its_name, comes_to, gives, gives_no, removes, sets, sets_text,
    the_one_that_asks, what_it_came_to,
};
use crate::contributions::Writes;
use crate::digits::decimal;
use crate::failure::Refusal;
use crate::intent::{images_of, pair_of, pairs_of, pairs_wanted, Curated, Intent, WantedView};
use crate::json::{entry, JsonView};
use crate::objects::Object;
use crate::options::Options;
use crate::pointer::{at, escaped};
use crate::text::{cut_at, first_at_is};

verus! {

// --- pairs ----------------------------------------------------------------------------------------

/// A word is a key and a value with the first `=` between them; an empty value is none, an empty
/// key
/// is refused, and so is a word without a `=`.
pub proof fn a_word_is_a_key_and_a_value(key: Seq<char>, value: Seq<char>)
    requires
        forall|i: int| 0 <= i < key.len() ==> key[i] != '=',
    ensures
        pair_of(key) is Err,
        key.len() == 0 ==> pair_of(key + seq!['='] + value) is Err,
        key.len() > 0 && value.len() > 0 ==> pair_of(key + seq!['='] + value) == Ok::<
            (Seq<char>, Option<Seq<char>>),
            Refusal,
        >((key, Some(value))),
        key.len() > 0 && value.len() == 0 ==> pair_of(key + seq!['='] + value) == Ok::<
            (Seq<char>, Option<Seq<char>>),
            Refusal,
        >((key, None)),
{
    let word = key + seq!['='] + value;
    first_at_is(key, '=', key.len() as int);
    first_at_is(word, '=', key.len() as int);
    assert(word.take(key.len() as int) =~= key);
    assert(word.skip(key.len() as int + 1) =~= value);
    assert(cut_at(word, '=') == Some((key, value)));
}

/// Each word of a repeatable argument is one pair, in order.
pub proof fn each_word_is_a_pair(words: Seq<Seq<char>>)
    ensures
        pairs_of(words) matches Ok(pairs) ==> pairs.len() == words.len() && forall|i: int|
            0 <= i < words.len() ==> pair_of(#[trigger] words[i]) == Ok::<
                (Seq<char>, Option<Seq<char>>),
                Refusal,
            >(pairs[i]),
        pairs_of(words) is Ok <==> forall|i: int|
            0 <= i < words.len() ==> pair_of(#[trigger] words[i]) is Ok,
    decreases words.len(),
{
    if words.len() > 0 {
        let front = words.drop_last();
        each_word_is_a_pair(front);
        if pairs_of(front) is Ok && pair_of(words.last()) is Ok {
            assert forall|i: int| 0 <= i < words.len() implies pair_of(#[trigger] words[i]) == Ok::<
                (Seq<char>, Option<Seq<char>>),
                Refusal,
            >((pairs_of(words)->Ok_0)[i]) by {
                if i < front.len() {
                    assert(front[i] == words[i]);
                }
            }
        } else if pairs_of(front) is Ok {
            assert(pair_of(words[words.len() - 1]) is Err);
        } else {
            let i = choose|i: int| 0 <= i < front.len() && !(pair_of(#[trigger] front[i]) is Ok);
            assert(words[i] == front[i]);
        }
    }
}

proof fn each_pair_is_an_image(pairs: Seq<(Seq<char>, Option<Seq<char>>)>)
    ensures
        images_of(pairs) matches Ok(images) ==> images.len() == pairs.len() && forall|i: int|
            0 <= i < pairs.len() ==> (#[trigger] pairs[i]) == (images[i].0, Some(images[i].1)),
    decreases pairs.len(),
{
    if pairs.len() > 0 {
        let front = pairs.drop_last();
        each_pair_is_an_image(front);
        if images_of(pairs) is Ok {
            let images = images_of(pairs)->Ok_0;
            assert forall|i: int| 0 <= i < pairs.len() implies (#[trigger] pairs[i]) == (
                images[i].0,
                Some(images[i].1),
            ) by {
                if i < front.len() {
                    assert(front[i] == pairs[i]);
                }
            }
        }
    }
}

/// The words a repeatable argument was given as: one, or the texts of a list.
pub open spec fn gives_words(
    options: Seq<(Seq<char>, JsonView)>,
    name: Seq<char>,
    words: Seq<Seq<char>>,
) -> bool {
    ||| words.len() == 1 && gives(options, name, JsonView::Text(words[0]))
    ||| words.len() > 0 && gives(
        options,
        name,
        JsonView::Array(words.map_values(|word: Seq<char>| JsonView::Text(word))),
    )
}

proof fn words_are_texts(words: Seq<Seq<char>>)
    ensures
        crate::fields::texts_in(words.map_values(|word: Seq<char>| JsonView::Text(word))) == words,
    decreases words.len(),
{
    let items = words.map_values(|word: Seq<char>| JsonView::Text(word));
    if words.len() > 0 {
        words_are_texts(words.drop_last());
        assert(items.drop_last() =~= words.drop_last().map_values(
            |word: Seq<char>| JsonView::Text(word),
        ));
        assert(words.drop_last().push(words.last()) =~= words);
    } else {
        assert(crate::fields::texts_in(items) =~= words);
    }
}

proof fn words_are_pairs(
    options: Seq<(Seq<char>, JsonView)>,
    name: Seq<char>,
    words: Seq<Seq<char>>,
)
    requires
        gives_words(options, name, words),
    ensures
        pairs_wanted(options, name) == pairs_of(words),
        pairs_of(words) matches Ok(pairs) ==> pairs.len() == words.len(),
{
    a_member_is_the_first_of_its_name(options, name);
    each_word_is_a_pair(words);
    words_are_texts(words);
    if words.len() == 1 {
        assert(words =~= seq![words[0]]);
    }
}

/// The place of a pair's change among the changes of all the pairs.
proof fn pair_changes_are(
    native: JsonView,
    field: Seq<char>,
    pairs: Seq<(Seq<char>, Option<Seq<char>>)>,
)
    ensures
        forall|i: int|
            0 <= i < pairs.len() && (pairs[i].1 is Some || at(
                native,
                field + "/"@ + escaped(pairs[i].0),
            ) is Some) ==> pairs_changes(native, field, pairs).contains(
                pair_change(native, field, #[trigger] pairs[i])[0],
            ),
        forall|c: int|
            #![trigger pairs_changes(native, field, pairs)[c]]
            0 <= c < pairs_changes(native, field, pairs).len() ==> exists|i: int|
                0 <= i < pairs.len() && pair_change(native, field, #[trigger] pairs[i]).len() == 1
                    && pair_change(native, field, pairs[i])[0] == pairs_changes(
                    native,
                    field,
                    pairs,
                )[c],
    decreases pairs.len(),
{
    let all = pairs_changes(native, field, pairs);
    if pairs.len() > 0 {
        let front = pairs.drop_last();
        pair_changes_are(native, field, front);
        let before = pairs_changes(native, field, front);
        let one = pair_change(native, field, pairs.last());
        assert forall|i: int|
            0 <= i < pairs.len() && (pairs[i].1 is Some || at(
                native,
                field + "/"@ + escaped(pairs[i].0),
            ) is Some) implies all.contains(
            pair_change(native, field, #[trigger] pairs[i])[0],
        ) by {
            if i < front.len() {
                assert(front[i] == pairs[i]);
                let k = before.index_of(pair_change(native, field, front[i])[0]);
                assert(all[k] == before[k]);
            } else {
                assert(all[before.len() as int] == one[0]);
            }
        }
        assert forall|c: int|
            #![trigger all[c]]
            0 <= c < all.len() implies exists|i: int|
            0 <= i < pairs.len() && pair_change(native, field, #[trigger] pairs[i]).len() == 1
                && pair_change(native, field, pairs[i])[0] == all[c] by {
            if c < before.len() {
                assert(all[c] == before[c]);
                let i = choose|i: int|
                    0 <= i < front.len() && pair_change(native, field, #[trigger] front[i]).len()
                        == 1 && pair_change(native, field, front[i])[0] == before[c];
                assert(pairs[i] == front[i]);
            } else {
                assert(all[c] == one[0]);
                assert(pairs[pairs.len() - 1] == pairs.last());
            }
        }
    }
}

/// The argument that asks for labels or for annotations, and where an object keeps them.
pub open spec fn metadata_place(curation: Curated) -> (Seq<char>, Seq<char>) {
    if curation == Curated::Label {
        ("label"@, "/metadata/labels"@)
    } else {
        ("annotation"@, "/metadata/annotations"@)
    }
}

/// Whether a change is the one that a pair asks for: the value set under its own key, or what
/// stands
/// there removed.
pub open spec fn makes_pair(
    change: FieldChange,
    native: JsonView,
    field: Seq<char>,
    pair: (Seq<char>, Option<Seq<char>>),
) -> bool {
    match pair.1 {
        Some(value) => sets_text(change, native, field + "/"@ + escaped(pair.0), value),
        None => removes(change, native, field + "/"@ + escaped(pair.0)),
    }
}

/// Every label or annotation asked for is set to the value asked for under its own key, one asked
/// to
/// go is removed where the object holds it, and nothing else is changed.
pub proof fn metadata_is_set_as_asked(
    options: Options,
    object: Object,
    intent: Intent,
    action: Action,
    curation: Curated,
    words: Seq<Seq<char>>,
    pairs: Seq<(Seq<char>, Option<Seq<char>>)>,
)
    requires
        comes_to(options, Writes::Fields, object, intent, action),
        curation == Curated::Label || curation == Curated::Annotate,
        gives_words(options@, metadata_place(curation).0, words),
        pairs_of(words) == Ok::<Seq<(Seq<char>, Option<Seq<char>>)>, Refusal>(pairs),
    ensures
        action is Curated,
        action->Curated_curation == curation,
        forall|i: int|
            0 <= i < pairs.len() && ((#[trigger] pairs[i]).1 is Some || at(
                object.native@,
                metadata_place(curation).1 + "/"@ + escaped(pairs[i].0),
            ) is Some) ==> exists|c: int|
                0 <= c < action->Curated_changes@.len() && makes_pair(
                    #[trigger] action->Curated_changes@[c],
                    object.native@,
                    metadata_place(curation).1,
                    pairs[i],
                ),
        forall|c: int|
            0 <= c < action->Curated_changes@.len() ==> exists|i: int|
                0 <= i < pairs.len() && makes_pair(
                    #[trigger] action->Curated_changes@[c],
                    object.native@,
                    metadata_place(curation).1,
                    #[trigger] pairs[i],
                ),
{
    what_it_came_to(options, Writes::Fields, object, intent, action);
    let native = object.native@;
    let (name, field) = metadata_place(curation);
    words_are_pairs(options@, name, words);
    the_one_that_asks(
        options@,
        if curation == Curated::Label {
            4
        } else {
            5
        },
    );
    assert(intent@.wanted == (WantedView::Metadata { curation, pairs }));
    pair_changes_are(native, field, pairs);
    let changes = action->Curated_changes@;
    let all = change_views(changes);
    assert(all == pairs_changes(native, field, pairs));
    assert forall|i: int|
        0 <= i < pairs.len() && ((#[trigger] pairs[i]).1 is Some || at(
            native,
            field + "/"@ + escaped(pairs[i].0),
        ) is Some) implies exists|c: int|
        0 <= c < changes.len() && makes_pair(#[trigger] changes[c], native, field, pairs[i]) by {
        let one = pair_change(native, field, pairs[i])[0];
        assert(all.contains(one));
        let c = all.index_of(one);
        pair_is_made(changes[c], native, field, pairs[i]);
        assert(makes_pair(changes[c], native, field, pairs[i]));
    }
    assert forall|c: int| 0 <= c < changes.len() implies exists|i: int|
        0 <= i < pairs.len() && makes_pair(
            #[trigger] changes[c],
            native,
            field,
            #[trigger] pairs[i],
        ) by {
        assert(all[c] == changes[c]@);
        let i = choose|i: int|
            0 <= i < pairs.len() && pair_change(native, field, #[trigger] pairs[i]).len() == 1
                && pair_change(native, field, pairs[i])[0] == all[c];
        pair_is_made(changes[c], native, field, pairs[i]);
        assert(makes_pair(changes[c], native, field, pairs[i]));
    }
}

proof fn pair_is_made(
    change: FieldChange,
    native: JsonView,
    field: Seq<char>,
    pair: (Seq<char>, Option<Seq<char>>),
)
    requires
        pair_change(native, field, pair).len() == 1,
        pair_change(native, field, pair)[0] == change@,
    ensures
        makes_pair(change, native, field, pair),
{
    if let Some(value) = pair.1 {
        assert(change.after->0@ == JsonView::Text(value));
    }
}

/// Whether one of some changes removes the field at a pointer.
pub open spec fn some_removes(
    changes: Seq<FieldChange>,
    native: JsonView,
    path: Seq<char>,
) -> bool {
    exists|c: int| 0 <= c < changes.len() && removes(#[trigger] changes[c], native, path)
}

// --- images ---------------------------------------------------------------------------------------

/// Where the containers of an object are listed: in its pod template, or in its own spec.
pub open spec fn container_list(native: JsonView) -> Option<Seq<char>> {
    if at(native, "/spec/template/spec/containers"@) is Some {
        Some("/spec/template/spec/containers"@)
    } else if at(native, "/spec/containers"@) is Some {
        Some("/spec/containers"@)
    } else {
        None
    }
}

/// Whether a container list has an entry of a name at a place, and none before it.
pub open spec fn listed_at(items: Seq<JsonView>, name: Seq<char>, place: int) -> bool {
    &&& 0 <= place < items.len()
    &&& entry(items[place], "name"@) == Some(JsonView::Text(name))
    &&& forall|j: int|
        0 <= j < place ==> entry(#[trigger] items[j], "name"@) != Some(JsonView::Text(name))
}

proof fn image_changes_are(object: Object, base: Seq<char>, images: Seq<(Seq<char>, Seq<char>)>)
    ensures
        images_changes(object, base, images) matches Ok(changes) ==> {
            &&& changes.len() == 2 * images.len()
            &&& forall|i: int|
                0 <= i < images.len() ==> container_at(object, base, (#[trigger] images[i]).0)
                    is Ok && changes[2 * i] == image_changes(
                    object.native@,
                    base,
                    container_at(object, base, images[i].0)->Ok_0,
                    images[i],
                )[0] && changes[2 * i + 1] == image_changes(
                    object.native@,
                    base,
                    container_at(object, base, images[i].0)->Ok_0,
                    images[i],
                )[1]
        },
    decreases images.len(),
{
    if images.len() > 0 {
        let front = images.drop_last();
        image_changes_are(object, base, front);
        if images_changes(object, base, images) is Ok {
            let changes = images_changes(object, base, images)->Ok_0;
            let before = images_changes(object, base, front)->Ok_0;
            assert forall|i: int| 0 <= i < images.len() implies container_at(
                object,
                base,
                (#[trigger] images[i]).0,
            ) is Ok && changes[2 * i] == image_changes(
                object.native@,
                base,
                container_at(object, base, images[i].0)->Ok_0,
                images[i],
            )[0] && changes[2 * i + 1] == image_changes(
                object.native@,
                base,
                container_at(object, base, images[i].0)->Ok_0,
                images[i],
            )[1] by {
                if i < front.len() {
                    assert(front[i] == images[i]);
                    assert(changes[2 * i] == before[2 * i]);
                    assert(changes[2 * i + 1] == before[2 * i + 1]);
                }
            }
        }
    }
}

/// Every image asked for is set on the container that carries the name asked for, beside the name
/// that finds it: two changes for each, in order, in the list where the object keeps its
/// containers.
pub proof fn an_image_is_set_on_the_container_named(
    options: Options,
    object: Object,
    intent: Intent,
    action: Action,
    words: Seq<Seq<char>>,
)
    requires
        comes_to(options, Writes::Fields, object, intent, action),
        gives_words(options@, "image"@, words),
    ensures
        action matches Action::Curated { curation, changes } && {
            let native = object.native@;
            &&& curation == Curated::SetImage
            &&& changes@.len() == 2 * words.len()
            &&& container_list(native) matches Some(base) && forall|i: int|
                0 <= i < words.len() ==> #[trigger] sets_image(
                    changes@,
                    i,
                    native,
                    base,
                    words[i],
                )
        },
{
    what_it_came_to(options, Writes::Fields, object, intent, action);
    let native = object.native@;
    words_are_pairs(options@, "image"@, words);
    the_one_that_asks(options@, 1);
    each_word_is_a_pair(words);
    let pairs = pairs_of(words)->Ok_0;
    each_pair_is_an_image(pairs);
    let images = images_of(pairs)->Ok_0;
    assert(intent@.wanted == (WantedView::SetImage { images }));
    let base = containers_at(object)->Ok_0;
    image_changes_are(object, base, images);
    let changes = action->Curated_changes@;
    let all = change_views(changes);
    assert(all == images_changes(object, base, images)->Ok_0);
    assert forall|i: int| 0 <= i < words.len() implies #[trigger] sets_image(
        changes,
        i,
        native,
        base,
        words[i],
    ) by {
        let (container, image) = images[i];
        assert(pairs[i] == (container, Some(image)));
        assert(pair_of(words[i]) == Ok::<(Seq<char>, Option<Seq<char>>), Refusal>(pairs[i]));
        let place = container_at(object, base, container)->Ok_0;
        crate::actions::an_image_goes_to_its_container(object, base, container);
        let items = crate::actions::containers(native, base);
        assert forall|j: int| 0 <= j < place implies entry(#[trigger] items[j], "name"@) != Some(
            JsonView::Text(container),
        ) by {
            assert(!crate::actions::carries(items[j], container));
        }
        assert(listed_at(items, container, place));
        let here = base + "/"@ + decimal(place as nat);
        let (first, second) = (changes[2 * i], changes[2 * i + 1]);
        assert(all[2 * i] == first@);
        assert(all[2 * i + 1] == second@);
        assert(first.after->0@ == JsonView::Text(container));
        assert(second.after->0@ == JsonView::Text(image));
        assert(sets_text(first, native, here + "/name"@, container));
        assert(sets_text(second, native, here + "/image"@, image));
        assert(listed_at(crate::actions::containers(native, base), container, place));
        assert((pair_of(words[i])->Ok_0).0 == container);
        assert((pair_of(words[i])->Ok_0).1 == Some(image));
    }
}

/// Whether the changes of one word, at its place among those of all words, set the image it names
/// on
/// the container it names.
pub open spec fn sets_image(
    changes: Seq<FieldChange>,
    i: int,
    native: JsonView,
    base: Seq<char>,
    word: Seq<char>,
) -> bool {
    &&& pair_of(word) is Ok
    &&& (pair_of(word)->Ok_0).1 is Some
    &&& exists|place: int|
        #[trigger] listed_at(
            crate::actions::containers(native, base),
            (pair_of(word)->Ok_0).0,
            place,
        ) && sets_text(
            changes[2 * i],
            native,
            base + "/"@ + decimal(place as nat) + "/name"@,
            (pair_of(word)->Ok_0).0,
        ) && sets_text(
            changes[2 * i + 1],
            native,
            base + "/"@ + decimal(place as nat) + "/image"@,
            (pair_of(word)->Ok_0).1->0,
        )
}

// --- the low-level path ---------------------------------------------------------------------------

/// Whether a change removes a field that some pointers name.
spec fn removed_among(native: JsonView, unset: Seq<Seq<char>>, change: ChangeView) -> bool {
    exists|i: int|
        0 <= i < unset.len() && at(native, #[trigger] unset[i]) is Some && change == (ChangeView {
            path: unset[i],
            before: at(native, unset[i]),
            after: None,
        })
}

proof fn removals_are(native: JsonView, unset: Seq<Seq<char>>)
    ensures
        forall|i: int|
            0 <= i < unset.len() && at(native, #[trigger] unset[i]) is Some ==> removals(
                native,
                unset,
            ).contains(ChangeView { path: unset[i], before: at(native, unset[i]), after: None }),
        forall|c: int|
            0 <= c < removals(native, unset).len() ==> removed_among(
                native,
                unset,
                #[trigger] removals(native, unset)[c],
            ),
    decreases unset.len(),
{
    let all = removals(native, unset);
    if unset.len() > 0 {
        let front = unset.drop_last();
        removals_are(native, front);
        let before = removals(native, front);
        let last = unset.len() - 1;
        let one = change_away(native, unset[last]);
        assert(all == before + one);
        assert forall|i: int|
            0 <= i < unset.len() && at(native, #[trigger] unset[i]) is Some implies all.contains(
            ChangeView { path: unset[i], before: at(native, unset[i]), after: None },
        ) by {
            let change = ChangeView { path: unset[i], before: at(native, unset[i]), after: None };
            if i < last {
                assert(front[i] == unset[i]);
                assert(before.contains(change));
                let k = before.index_of(change);
                assert(all[k] == change);
            } else {
                assert(all[before.len() as int] == change);
            }
        }
        assert forall|c: int| 0 <= c < all.len() implies removed_among(
            native,
            unset,
            #[trigger] all[c],
        ) by {
            if c < before.len() {
                assert(all[c] == before[c]);
                assert(removed_among(native, front, before[c]));
                let i = choose|i: int|
                    0 <= i < front.len() && at(native, #[trigger] front[i]) is Some && before[c] == (
                    ChangeView { path: front[i], before: at(native, front[i]), after: None });
                assert(unset[i] == front[i]);
            } else {
                assert(all[c] == one[0]);
                assert(at(native, unset[last]) is Some);
            }
        }
    }
}

/// Every field the low-level path names is set to the value named for it, in order; every field it
/// takes away is removed where the object holds it; and nothing else is changed.
pub proof fn fields_are_set_as_asked(
    options: Options,
    object: Object,
    intent: Intent,
    action: Action,
    fields: Seq<(Seq<char>, JsonView)>,
    paths: Seq<Seq<char>>,
)
    requires
        comes_to(options, Writes::Fields, object, intent, action),
        if fields.len() > 0 {
            gives(options@, "set"@, JsonView::Object(fields))
        } else {
            gives_no(options@, "set"@)
        },
        if paths.len() > 0 {
            gives_words(options@, "unset"@, paths)
        } else {
            gives_no(options@, "unset"@)
        },
        fields.len() > 0 || paths.len() > 0,
    ensures
        action matches Action::Apply { changes } && {
            let native = object.native@;
            &&& changes@.len() >= fields.len()
            &&& forall|i: int|
                0 <= i < fields.len() ==> {
                    &&& sets(#[trigger] changes@[i], native, fields[i].0)
                    &&& changes@[i].after matches Some(value) && value@ == fields[i].1
                }
            &&& forall|i: int|
                0 <= i < paths.len() && at(native, #[trigger] paths[i]) is Some ==> some_removes(
                    changes@,
                    native,
                    paths[i],
                )
            &&& forall|c: int|
                #![trigger changes@[c]]
                fields.len() <= c < changes@.len() ==> exists|i: int|
                    0 <= i < paths.len() && removes(changes@[c], native, #[trigger] paths[i])
        },
{
    what_it_came_to(options, Writes::Fields, object, intent, action);
    let native = object.native@;
    a_member_is_the_first_of_its_name(options@, "set"@);
    a_member_is_the_first_of_its_name(options@, "unset"@);
    words_are_texts(paths);
    if paths.len() == 1 {
        assert(paths =~= seq![paths[0]]);
    }
    the_one_that_asks(options@, 6);
    if crate::intent::set_wanted(options@) is Ok {
        if fields.len() == 0 {
            assert(crate::intent::set_wanted(options@)->Ok_0 =~= fields);
        }
    }
    if paths.len() == 0 && crate::intent::unset_wanted(options@) is Ok {
        assert(crate::intent::unset_wanted(options@)->Ok_0 =~= paths);
    }
    assert(intent@.wanted == (WantedView::Apply { set: fields, unset: paths }));
    removals_are(native, paths);
    let changes = action->Apply_changes@;
    let all = change_views(changes);
    let first = crate::actions::settings(native, fields);
    let rest = removals(native, paths);
    assert(all == first + rest);
    assert(all.len() == changes.len());
    assert(first.len() == fields.len());
    assert forall|i: int| 0 <= i < fields.len() implies {
        &&& sets(#[trigger] changes[i], native, fields[i].0)
        &&& changes[i].after matches Some(value) && value@ == fields[i].1
    } by {
        assert(all[i] == changes[i]@);
        assert(all[i] == first[i]);
    }
    assert forall|i: int|
        0 <= i < paths.len() && at(native, #[trigger] paths[i]) is Some implies some_removes(
        changes,
        native,
        paths[i],
    ) by {
        let one = ChangeView { path: paths[i], before: at(native, paths[i]), after: None };
        assert(rest.contains(one));
        let k = rest.index_of(one);
        let c = first.len() + k;
        assert(all[c] == rest[k]);
        assert(all[c] == changes[c]@);
        assert(removes(changes[c], native, paths[i]));
    }
    assert forall|c: int|
        #![trigger changes[c]]
        fields.len() <= c < changes.len() implies exists|i: int|
        0 <= i < paths.len() && removes(changes[c], native, #[trigger] paths[i]) by {
        assert(all[c] == changes[c]@);
        let k = c - first.len();
        assert(all[c] == rest[k]);
        assert(removed_among(native, paths, rest[k]));
        let i = choose|i: int|
            0 <= i < paths.len() && at(native, #[trigger] paths[i]) is Some && rest[k] == (
            ChangeView { path: paths[i], before: at(native, paths[i]), after: None });
        assert(removes(changes[c], native, paths[i]));
    }
}

}
