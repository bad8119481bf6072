//! What each field of an object's record is filled with.
//!
//! Each law here speaks of a record built from an object, whatever its schema: under the name of a
//! field stands what the object or its document states in one place, and null where it states
//! nothing there.

use vstd::prelude::*;
use vstd::string::*;

use crate::contributions::Target;
use crate::fields::{
    addresses_of, balancer_addresses, controller_of, entry_of_type, hosts_in, ready_among,
    row_is_answered, routed_names, targets_of, text_entries, texts_in, texts_under, FIELD_RULES,
};
use crate::json::{entry, JsonView};
use crate::objects::{
    restart_sum, text_under, Guarded, OwnerReference, Relation, RoutingEdge, SliceEndpoint,
};
use crate::order::arranged;
use crate::pointer::at;
use crate::projection::plain_value;
use crate::records::{record, Freshness, Record, Source};
use crate::shown::{api_version_of, list_of, signed_or_null, standing_of, text_or_null, whole};
use crate::value::{texts_value, ValueView};

verus! {

/// Whether a record shows this value, and no other, wherever it has a field of a name.
pub open spec fn says(row: Record, name: Seq<char>, value: ValueView) -> bool {
    forall|i: int|
        0 <= i < row.fields@.len() && (#[trigger] row.fields@[i]).0@ == name
            ==> row.fields@[i].1@ == value
}

/// The text at a pointer, as it is shown.
pub open spec fn text_at(native: JsonView, pointer: Seq<char>) -> ValueView {
    match at(native, pointer) {
        Some(JsonView::Text(text)) => ValueView::Text(text),
        _ => ValueView::Null,
    }
}

/// The instant at a pointer, as it is shown.
pub open spec fn instant_at(native: JsonView, pointer: Seq<char>) -> ValueView {
    match at(native, pointer) {
        Some(JsonView::Text(text)) => ValueView::Instant(text),
        _ => ValueView::Null,
    }
}

/// The flag at a pointer, as it is shown.
pub open spec fn flag_at(native: JsonView, pointer: Seq<char>) -> ValueView {
    match at(native, pointer) {
        Some(JsonView::Bool(flag)) => ValueView::Bool(flag),
        _ => ValueView::Null,
    }
}

/// The whole number at a pointer, as it is shown.
pub open spec fn whole_at(native: JsonView, pointer: Seq<char>) -> ValueView {
    match at(native, pointer) {
        Some(JsonView::Integer(n)) => if i64::MIN <= n <= i64::MAX {
            ValueView::Int(n)
        } else {
            ValueView::Null
        },
        _ => ValueView::Null,
    }
}

/// The texts of the list at a pointer, as they are shown: each item that is a text, in order.
pub open spec fn texts_at(native: JsonView, pointer: Seq<char>) -> ValueView {
    match at(native, pointer) {
        Some(JsonView::Array(items)) => ValueView::List(
            items.filter_map(
                |item: JsonView|
                    match item {
                        JsonView::Text(text) => Some(ValueView::Text(text)),
                        _ => None,
                    },
            ),
        ),
        _ => ValueView::Null,
    }
}

/// The text a member of an object holds, as it is shown.
pub open spec fn text_in(item: JsonView, name: Seq<char>) -> Option<ValueView> {
    match entry(item, name) {
        Some(JsonView::Text(text)) => Some(ValueView::Text(text)),
        _ => None,
    }
}

/// The names in the list at a pointer, as they are shown: that of each item that has one, in order.
pub open spec fn names_at(native: JsonView, pointer: Seq<char>) -> ValueView {
    match at(native, pointer) {
        Some(JsonView::Array(items)) => ValueView::List(
            items.filter_map(|item: JsonView| text_in(item, "name"@)),
        ),
        _ => ValueView::Null,
    }
}

/// The keys of the object at a pointer, as they are shown: in order, and never what they hold.
pub open spec fn keys_at(native: JsonView, pointer: Seq<char>) -> ValueView {
    match at(native, pointer) {
        Some(JsonView::Object(members)) => ValueView::List(
            arranged(Seq::new(members.len(), |i: int| members[i].0)).map_values(
                |key: Seq<char>| ValueView::Text(key),
            ),
        ),
        _ => ValueView::Null,
    }
}

/// The object at a pointer, as it is shown.
pub open spec fn members_at(native: JsonView, pointer: Seq<char>) -> ValueView {
    match at(native, pointer) {
        Some(JsonView::Object(members)) => plain_value(JsonView::Object(members)),
        _ => ValueView::Null,
    }
}

/// Whether an entry of a list is of a type.
pub open spec fn of_type(item: JsonView, kind: Seq<char>) -> bool {
    entry(item, "type"@) == Some(JsonView::Text(kind))
}

/// What the first entry of a type says under a name, in the list at a pointer: nothing where the
/// list or the entry is not there, or the entry holds no text under the name.
pub open spec fn is_stated(
    native: JsonView,
    pointer: Seq<char>,
    kind: Seq<char>,
    name: Seq<char>,
    value: ValueView,
) -> bool {
    match at(native, pointer) {
        Some(JsonView::Array(items)) => {
            ||| value == ValueView::Null && forall|i: int|
                0 <= i < items.len() ==> !of_type(#[trigger] items[i], kind)
            ||| exists|i: int|
                #![trigger items[i]]
                0 <= i < items.len() && of_type(items[i], kind) && (forall|j: int|
                    0 <= j < i ==> !of_type(#[trigger] items[j], kind)) && value == match text_in(
                    items[i],
                    name,
                ) {
                    Some(text) => text,
                    None => ValueView::Null,
                }
        },
        _ => value == ValueView::Null,
    }
}

/// Texts under keys, as they are shown: each key with the text it stands for, in order.
pub open spec fn map_of(pairs: Seq<(String, String)>) -> ValueView {
    if pairs.len() == 0 {
        ValueView::Null
    } else {
        ValueView::Entries(
            Seq::new(pairs.len(), |i: int| (pairs[i].0@, ValueView::Text(pairs[i].1@))),
        )
    }
}

/// Texts as they are shown, and nothing where there are none.
pub open spec fn list_or_null(texts: Seq<String>) -> ValueView {
    if texts.len() == 0 {
        ValueView::Null
    } else {
        list_of(texts)
    }
}

/// Owners as they are shown: each reference whole, in order.
pub open spec fn owners_of(owners: Seq<OwnerReference>) -> ValueView {
    if owners.len() == 0 {
        ValueView::Null
    } else {
        ValueView::List(
            Seq::new(
                owners.len(),
                |i: int|
                    ValueView::Entries(
                        seq![
                            ("api_version"@, ValueView::Text(owners[i].api_version@)),
                            ("kind"@, ValueView::Text(owners[i].kind@)),
                            ("name"@, ValueView::Text(owners[i].name@)),
                            ("uid"@, ValueView::Text(owners[i].uid@)),
                            ("controller"@, ValueView::Bool(owners[i].controller)),
                            (
                                "block_owner_deletion"@,
                                ValueView::Bool(owners[i].blocks_owner_deletion),
                            ),
                        ],
                    ),
            ),
        )
    }
}

/// What stands under a key of some pairs: that of the first of them.
pub open spec fn stands_under(pairs: Seq<(String, String)>, key: Seq<char>, i: int) -> bool {
    0 <= i < pairs.len() && pairs[i].0@ == key && forall|j: int|
        0 <= j < i ==> (#[trigger] pairs[j]).0@ != key
}

/// Whether some pairs have no key.
pub open spec fn stands_nowhere(pairs: Seq<(String, String)>, key: Seq<char>) -> bool {
    forall|j: int| 0 <= j < pairs.len() ==> (#[trigger] pairs[j]).0@ != key
}

/// The sum of the restart counts of some container statuses; one that states none counts nothing.
pub open spec fn restarts_in(statuses: Seq<JsonView>) -> int {
    statuses.fold_left(
        0,
        |total: int, status: JsonView|
            match entry(status, "restartCount"@) {
                Some(JsonView::Integer(n)) => if i64::MIN <= n <= i64::MAX {
                    total + n
                } else {
                    total
                },
                _ => total,
            },
    )
}

/// The address an entry of a load balancer states: its `ip`, or its `hostname` where it states
/// none.
pub open spec fn address_in(item: JsonView) -> Option<ValueView> {
    match text_in(item, "ip"@) {
        Some(ip) => Some(ip),
        None => text_in(item, "hostname"@),
    }
}

/// The claim a reference names, as it is shown: its name, behind the namespace it names.
pub open spec fn claim_in(reference: JsonView) -> ValueView {
    match entry(reference, "name"@) {
        Some(JsonView::Text(name)) => match entry(reference, "namespace"@) {
            Some(JsonView::Text(namespace)) => ValueView::Text(namespace + "/"@ + name),
            _ => ValueView::Text(name),
        },
        _ => ValueView::Null,
    }
}

/// The rules of a policy, as they are shown: those of each side that states any.
pub open spec fn rules_of(ingress: Option<JsonView>, egress: Option<JsonView>) -> ValueView {
    match (ingress, egress) {
        (Some(ingress), Some(egress)) => ValueView::Entries(
            seq![("ingress"@, plain_value(ingress)), ("egress"@, plain_value(egress))],
        ),
        (Some(ingress), None) => ValueView::Entries(seq![("ingress"@, plain_value(ingress))]),
        (None, Some(egress)) => ValueView::Entries(seq![("egress"@, plain_value(egress))]),
        (None, None) => ValueView::Null,
    }
}

/// The names the edges of a relation lead to, as they are shown, and nothing where there are none.
pub open spec fn named_once(edges: Seq<RoutingEdge>, relation: Relation) -> ValueView {
    if routed_names(edges, relation).len() == 0 {
        ValueView::Null
    } else {
        ValueView::List(
            routed_names(edges, relation).map_values(|name: Seq<char>| ValueView::Text(name)),
        )
    }
}

// --- the readings the fields are made of ----------------------------------------------------------

proof fn texts_are_filtered(items: Seq<JsonView>)
    ensures
        texts_value(texts_in(items)) == ValueView::List(
            items.filter_map(
                |item: JsonView|
                    match item {
                        JsonView::Text(text) => Some(ValueView::Text(text)),
                        _ => None,
                    },
            ),
        ),
    decreases items.len(),
{
    let f = |item: JsonView|
        match item {
            JsonView::Text(text) => Some(ValueView::Text(text)),
            _ => None,
        };
    if items.len() > 0 {
        texts_are_filtered(items.drop_last());
    }
    assert(texts_value(texts_in(items))->List_0 =~= items.filter_map(f));
}

proof fn names_are_filtered(items: Seq<JsonView>, name: Seq<char>)
    ensures
        texts_value(texts_under(items, name)) == ValueView::List(
            items.filter_map(|item: JsonView| text_in(item, name)),
        ),
    decreases items.len(),
{
    let f = |item: JsonView| text_in(item, name);
    if items.len() > 0 {
        names_are_filtered(items.drop_last(), name);
    }
    assert(texts_value(texts_under(items, name))->List_0 =~= items.filter_map(f));
}

proof fn addresses_are_filtered(items: Seq<JsonView>)
    ensures
        texts_value(balancer_addresses(items)) == ValueView::List(
            items.filter_map(|item: JsonView| address_in(item)),
        ),
    decreases items.len(),
{
    let f = |item: JsonView| address_in(item);
    if items.len() > 0 {
        addresses_are_filtered(items.drop_last());
    }
    assert(texts_value(balancer_addresses(items))->List_0 =~= items.filter_map(f));
}

proof fn targets_are_filtered(endpoints: Seq<SliceEndpoint>)
    ensures
        texts_value(targets_of(endpoints)) == ValueView::List(
            endpoints.filter_map(
                |endpoint: SliceEndpoint|
                    match endpoint.target {
                        Some(name) => Some(ValueView::Text(name@)),
                        None => None,
                    },
            ),
        ),
    decreases endpoints.len(),
{
    let f = |endpoint: SliceEndpoint|
        match endpoint.target {
            Some(name) => Some(ValueView::Text(name@)),
            None => None,
        };
    if endpoints.len() > 0 {
        targets_are_filtered(endpoints.drop_last());
    }
    assert(texts_value(targets_of(endpoints))->List_0 =~= endpoints.filter_map(f));
}

proof fn ready_are_filtered(endpoints: Seq<SliceEndpoint>)
    ensures
        ready_among(endpoints) == endpoints.filter(
            |endpoint: SliceEndpoint| endpoint.ready == Some(true),
        ).len(),
    decreases endpoints.len(),
{
    reveal(Seq::filter);
    if endpoints.len() > 0 {
        ready_are_filtered(endpoints.drop_last());
    }
}

/// The addresses of some endpoints are those of each, one after the other.
pub proof fn addresses_follow_each_other(a: Seq<SliceEndpoint>, b: Seq<SliceEndpoint>)
    ensures
        addresses_of(a + b) == addresses_of(a) + addresses_of(b),
        a.len() == 1 ==> addresses_of(a) == a[0].addresses@.map_values(|text: String| text@),
    decreases b.len(),
{
    if a.len() == 1 {
        assert(a.drop_last().len() == 0);
        assert(addresses_of(a.drop_last()) =~= Seq::<Seq<char>>::empty());
        assert(addresses_of(a) =~= a[0].addresses@.map_values(|text: String| text@));
    }
    if b.len() == 0 {
        assert(a + b =~= a);
        assert(addresses_of(a) + addresses_of(b) =~= addresses_of(a));
    } else {
        addresses_follow_each_other(a, b.drop_last());
        assert((a + b).drop_last() =~= a + b.drop_last());
        assert(addresses_of(a + b) =~= addresses_of(a) + addresses_of(b));
    }
}

pub(crate) proof fn restarts_are_summed(statuses: Seq<JsonView>)
    ensures
        restart_sum(statuses) == restarts_in(statuses),
    decreases statuses.len(),
{
    if statuses.len() > 0 {
        restarts_are_summed(statuses.drop_last());
    }
}

proof fn first_controller(owners: Seq<OwnerReference>, i: int)
    requires
        0 <= i <= owners.len(),
        forall|j: int| 0 <= j < i ==> !(#[trigger] owners[j]).controller,
        i < owners.len() ==> owners[i].controller,
    ensures
        i < owners.len() ==> controller_of(owners) == Some(owners[i]),
        i == owners.len() ==> controller_of(owners) is None,
    decreases i,
{
    if i > 0 {
        assert(!owners[0].controller);
        assert forall|j: int| 0 <= j < i - 1 implies !(#[trigger] owners.skip(1)[j]).controller by {
            assert(owners.skip(1)[j] == owners[j + 1]);
        }
        first_controller(owners.skip(1), i - 1);
    }
}

proof fn first_under(pairs: Seq<(String, String)>, key: Seq<char>, i: int)
    requires
        0 <= i <= pairs.len(),
        forall|j: int| 0 <= j < i ==> (#[trigger] pairs[j]).0@ != key,
        i < pairs.len() ==> pairs[i].0@ == key,
    ensures
        i < pairs.len() ==> text_under(pairs, key) == Some(pairs[i].1@),
        i == pairs.len() ==> text_under(pairs, key) is None,
    decreases i,
{
    if i > 0 {
        assert(pairs[0].0@ != key);
        assert forall|j: int| 0 <= j < i - 1 implies (#[trigger] pairs.skip(1)[j]).0@ != key by {
            assert(pairs.skip(1)[j] == pairs[j + 1]);
        }
        first_under(pairs.skip(1), key, i - 1);
    }
}

/// The first entry of a type, or that there is none.
proof fn first_of_type(items: Seq<JsonView>, kind: Seq<char>) -> (i: int)
    ensures
        0 <= i <= items.len(),
        forall|j: int| 0 <= j < i ==> !of_type(#[trigger] items[j], kind),
        i < items.len() ==> of_type(items[i], kind) && entry_of_type(items, kind) == Some(items[i]),
        i == items.len() ==> entry_of_type(items, kind) is None,
    decreases items.len(),
{
    if items.len() == 0 || of_type(items[0], kind) {
        0
    } else {
        let rest = items.skip(1);
        let i = first_of_type(rest, kind);
        assert forall|j: int| 0 <= j < i + 1 implies !of_type(#[trigger] items[j], kind) by {
            if j > 0 {
                assert(rest[j - 1] == items[j]);
            }
        }
        i + 1
    }
}

proof fn what_is_stated(native: JsonView, pointer: Seq<char>, kind: Seq<char>, name: Seq<char>)
    ensures
        is_stated(
            native,
            pointer,
            kind,
            name,
            match crate::fields::stated(native, pointer, kind, name) {
                Some(text) => ValueView::Text(text),
                None => ValueView::Null,
            },
        ),
{
    if let Some(JsonView::Array(items)) = at(native, pointer) {
        let i = first_of_type(items, kind);
        if i < items.len() {
            assert(of_type(items[i], kind));
        }
    }
}

/// The names that edges of one relation lead to are named once each, in the order in which each is
/// first met: exactly the targets of the edges of that relation, and what more edges add comes
/// behind.
pub proof fn routes_are_named_once(edges: Seq<RoutingEdge>, relation: Relation)
    ensures
        routed_names(edges, relation).no_duplicates(),
        forall|name: Seq<char>|
            routed_names(edges, relation).contains(name) <==> exists|i: int|
                0 <= i < edges.len() && (#[trigger] edges[i]).relation == relation
                    && edges[i].target@ == name,
        edges.len() > 0 ==> routed_names(edges.drop_last(), relation).is_prefix_of(
            routed_names(edges, relation),
        ),
    decreases edges.len(),
{
    let names = routed_names(edges, relation);
    if edges.len() > 0 {
        let front = edges.drop_last();
        routes_are_named_once(front, relation);
        let before = routed_names(front, relation);
        let edge = edges.last();
        assert forall|name: Seq<char>| names.contains(name) implies exists|i: int|
            0 <= i < edges.len() && (#[trigger] edges[i]).relation == relation && edges[i].target@
                == name by {
            if before.contains(name) {
                let i = choose|i: int|
                    0 <= i < front.len() && (#[trigger] front[i]).relation == relation
                        && front[i].target@ == name;
                assert(edges[i] == front[i]);
            } else {
                assert(edges[edges.len() - 1].target@ == name);
            }
        }
        assert forall|name: Seq<char>|
            (exists|i: int|
                0 <= i < edges.len() && (#[trigger] edges[i]).relation == relation
                    && edges[i].target@ == name) implies names.contains(name) by {
            let i = choose|i: int|
                0 <= i < edges.len() && (#[trigger] edges[i]).relation == relation
                    && edges[i].target@ == name;
            if i < front.len() {
                assert(front[i] == edges[i]);
                assert(before.contains(name));
                let k = before.index_of(name);
                assert(names[k] == before[k]);
            } else if !before.contains(name) {
                assert(names[names.len() - 1] == name);
            } else {
                let k = before.index_of(name);
                assert(names[k] == before[k]);
            }
        }
    }
}

/// The hosts that rules name are named once each, in the order in which each is first met: exactly
/// those that a rule states, and what more rules add comes behind.
pub proof fn hosts_are_named_once(rules: Seq<JsonView>)
    ensures
        hosts_in(rules).no_duplicates(),
        forall|host: Seq<char>|
            hosts_in(rules).contains(host) <==> exists|i: int|
                0 <= i < rules.len() && entry(#[trigger] rules[i], "host"@) == Some(
                    JsonView::Text(host),
                ),
        rules.len() > 0 ==> hosts_in(rules.drop_last()).is_prefix_of(hosts_in(rules)),
    decreases rules.len(),
{
    let hosts = hosts_in(rules);
    if rules.len() > 0 {
        let front = rules.drop_last();
        hosts_are_named_once(front);
        let before = hosts_in(front);
        assert forall|host: Seq<char>| hosts.contains(host) implies exists|i: int|
            0 <= i < rules.len() && entry(#[trigger] rules[i], "host"@) == Some(
                JsonView::Text(host),
            ) by {
            if before.contains(host) {
                let i = choose|i: int|
                    0 <= i < front.len() && entry(#[trigger] front[i], "host"@) == Some(
                        JsonView::Text(host),
                    );
                assert(rules[i] == front[i]);
            } else {
                assert(entry(rules[rules.len() - 1], "host"@) == Some(JsonView::Text(host)));
            }
        }
        assert forall|host: Seq<char>|
            (exists|i: int|
                0 <= i < rules.len() && entry(#[trigger] rules[i], "host"@) == Some(
                    JsonView::Text(host),
                )) implies hosts.contains(host) by {
            let i = choose|i: int|
                0 <= i < rules.len() && entry(#[trigger] rules[i], "host"@) == Some(
                    JsonView::Text(host),
                );
            if i < front.len() {
                assert(front[i] == rules[i]);
                assert(before.contains(host));
            }
            if before.contains(host) {
                let k = before.index_of(host);
                assert(hosts[k] == before[k]);
            } else {
                assert(hosts[hosts.len() - 1] == host);
            }
        }
    }
}

proof fn rules_are_stated(native: JsonView)
    ensures
        crate::fields::policy_value(native) == rules_of(
            at(native, "/spec/ingress"@),
            at(native, "/spec/egress"@),
        ),
{
    let ingress = at(native, "/spec/ingress"@);
    let egress = at(native, "/spec/egress"@);
    let sides = crate::fields::policy_side(native, "ingress"@, "/spec/ingress"@)
        + crate::fields::policy_side(native, "egress"@, "/spec/egress"@);
    if ingress is Some && egress is Some {
        assert(sides =~= seq![
            ("ingress"@, plain_value(ingress->0)),
            ("egress"@, plain_value(egress->0)),
        ]);
    } else if ingress is Some {
        assert(sides =~= seq![("ingress"@, plain_value(ingress->0))]);
    } else if egress is Some {
        assert(sides =~= seq![("egress"@, plain_value(egress->0))]);
    }
}

/// Wherever a record of an object has a field, it shows what the row of that field fills it with.
pub(crate) proof fn row_is_shown(
    row: Record,
    target: Target,
    guarded: Guarded,
    freshness: Freshness,
    k: int,
)
    requires
        call_ensures(record, (&target, &guarded, &freshness), row),
        0 <= k < FIELD_RULES@.len(),
    ensures
        says(
            row,
            FIELD_RULES@[k].0@,
            crate::fields::filled_by(FIELD_RULES@[k].1, FIELD_RULES@[k].2@, guarded),
        ),
{
    row_is_answered(k, guarded);
    crate::shown::each_is_answered(row, target.fields@, guarded);
    let rule = FIELD_RULES@[k];
    let value = crate::fields::filled_by(rule.1, rule.2@, guarded);
    assert(guarded.value_of(rule.0@) == value);
    assert(says(row, rule.0@, value));
}

// --- laws -----------------------------------------------------------------------------------------

/// A record shows the metadata of its object as the object states it: every label and annotation
/// under its own key, every owner whole, and nothing where there is none.
pub proof fn a_record_shows_its_metadata(
    row: Record,
    target: Target,
    guarded: Guarded,
    freshness: Freshness,
)
    requires
        call_ensures(record, (&target, &guarded, &freshness), row),
    ensures
        says(row, "uid"@, text_or_null(guarded.object.uid)),
        says(row, "name"@, ValueView::Text(guarded.object.name@)),
        says(row, "namespace"@, text_or_null(guarded.object.namespace)),
        says(row, "api_version"@, api_version_of(guarded.object.gvk)),
        says(row, "kind"@, ValueView::Text(guarded.object.gvk.kind@)),
        says(row, "resource_version"@, text_or_null(guarded.object.resource_version)),
        says(row, "created"@, match guarded.object.creation_timestamp {
                Some(text) => ValueView::Instant(text@),
                None => ValueView::Null,
            }),
        says(row, "labels"@, map_of(guarded.object.labels@)),
        says(row, "annotations"@, map_of(guarded.object.annotations@)),
        says(row, "terminating"@, ValueView::Bool(guarded.object.terminating)),
        says(row, "finalizers"@, list_or_null(guarded.object.finalizers@)),
        says(row, "owner_references"@, owners_of(guarded.object.owner_references@)),
        says(row, "field_managers"@, list_or_null(guarded.object.field_managers@)),
        says(row, "generation"@, signed_or_null(guarded.object.generation)),
        says(row, "claim_templates"@, list_or_null(guarded.object.claim_templates@)),
        says(row, "reconciliation"@, standing_of(guarded.object.reconciliation)),
{
    let object = guarded.object;
    let native = object.native@;
    row_is_shown(row, target, guarded, freshness, 0);
    row_is_shown(row, target, guarded, freshness, 1);
    row_is_shown(row, target, guarded, freshness, 2);
    row_is_shown(row, target, guarded, freshness, 3);
    row_is_shown(row, target, guarded, freshness, 4);
    row_is_shown(row, target, guarded, freshness, 5);
    row_is_shown(row, target, guarded, freshness, 6);
    row_is_shown(row, target, guarded, freshness, 7);
    row_is_shown(row, target, guarded, freshness, 8);
    row_is_shown(row, target, guarded, freshness, 9);
    row_is_shown(row, target, guarded, freshness, 10);
    row_is_shown(row, target, guarded, freshness, 11);
    row_is_shown(row, target, guarded, freshness, 12);
    row_is_shown(row, target, guarded, freshness, 26);
    row_is_shown(row, target, guarded, freshness, 35);
    row_is_shown(row, target, guarded, freshness, 28);
    assert(text_entries(object.labels@) =~= map_of(object.labels@)->Entries_0 || object.labels@.len()
        == 0);
    assert(text_entries(object.annotations@) =~= map_of(object.annotations@)->Entries_0
        || object.annotations@.len() == 0);
    crate::shown::texts_are_listed(object.finalizers@);
    crate::shown::texts_are_listed(object.field_managers@);
    crate::shown::texts_are_listed(object.claim_templates@);
    crate::shown::standing_is_shown(object.reconciliation);
    if object.owner_references@.len() > 0 {
        assert(crate::fields::owners_value(object.owner_references@)->List_0 =~= owners_of(
            object.owner_references@,
        )->List_0);
    }
}

/// A field that is text shows the text of the document at its own pointer, and nothing where there
/// is none.
pub proof fn texts_are_read_where_they_stand(
    row: Record,
    target: Target,
    guarded: Guarded,
    freshness: Freshness,
)
    requires
        call_ensures(record, (&target, &guarded, &freshness), row),
    ensures
        says(row, "phase"@, text_at(guarded.object.native@, "/status/phase"@)),
        says(
            row,
            "kubelet_version"@,
            text_at(guarded.object.native@, "/status/nodeInfo/kubeletVersion"@),
        ),
        says(row, "node"@, text_at(guarded.object.native@, "/spec/nodeName"@)),
        says(row, "pod_ip"@, text_at(guarded.object.native@, "/status/podIP"@)),
        says(row, "current_revision"@, text_at(guarded.object.native@, "/status/currentRevision"@)),
        says(row, "update_revision"@, text_at(guarded.object.native@, "/status/updateRevision"@)),
        says(row, "service_type"@, text_at(guarded.object.native@, "/spec/type"@)),
        says(row, "cluster_ip"@, text_at(guarded.object.native@, "/spec/clusterIP"@)),
        says(row, "external_name"@, text_at(guarded.object.native@, "/spec/externalName"@)),
        says(row, "address_type"@, text_at(guarded.object.native@, "/addressType"@)),
        says(row, "schedule"@, text_at(guarded.object.native@, "/spec/schedule"@)),
        says(
            row,
            "concurrency_policy"@,
            text_at(guarded.object.native@, "/spec/concurrencyPolicy"@),
        ),
        says(row, "volume_name"@, text_at(guarded.object.native@, "/spec/volumeName"@)),
        says(row, "storage_class"@, text_at(guarded.object.native@, "/spec/storageClassName"@)),
        says(row, "volume_mode"@, text_at(guarded.object.native@, "/spec/volumeMode"@)),
        says(
            row,
            "requested_storage"@,
            text_at(guarded.object.native@, "/spec/resources/requests/storage"@),
        ),
        says(row, "bound_capacity"@, text_at(guarded.object.native@, "/status/capacity/storage"@)),
        says(row, "capacity"@, text_at(guarded.object.native@, "/spec/capacity/storage"@)),
        says(row, "csi_driver"@, text_at(guarded.object.native@, "/spec/csi/driver"@)),
        says(row, "provisioner"@, text_at(guarded.object.native@, "/provisioner"@)),
        says(row, "volume_binding_mode"@, text_at(guarded.object.native@, "/volumeBindingMode"@)),
{
    let object = guarded.object;
    let native = object.native@;
    row_is_shown(row, target, guarded, freshness, 13);
    row_is_shown(row, target, guarded, freshness, 16);
    row_is_shown(row, target, guarded, freshness, 18);
    row_is_shown(row, target, guarded, freshness, 19);
    row_is_shown(row, target, guarded, freshness, 33);
    row_is_shown(row, target, guarded, freshness, 34);
    row_is_shown(row, target, guarded, freshness, 42);
    row_is_shown(row, target, guarded, freshness, 43);
    row_is_shown(row, target, guarded, freshness, 45);
    row_is_shown(row, target, guarded, freshness, 49);
    row_is_shown(row, target, guarded, freshness, 67);
    row_is_shown(row, target, guarded, freshness, 69);
    row_is_shown(row, target, guarded, freshness, 78);
    row_is_shown(row, target, guarded, freshness, 79);
    row_is_shown(row, target, guarded, freshness, 80);
    row_is_shown(row, target, guarded, freshness, 82);
    row_is_shown(row, target, guarded, freshness, 83);
    row_is_shown(row, target, guarded, freshness, 84);
    row_is_shown(row, target, guarded, freshness, 87);
    row_is_shown(row, target, guarded, freshness, 88);
    row_is_shown(row, target, guarded, freshness, 89);
}

/// A field that is a count shows the whole number of the document at its own pointer, and nothing
/// where there is none that fits.
pub proof fn numbers_are_read_where_they_stand(
    row: Record,
    target: Target,
    guarded: Guarded,
    freshness: Freshness,
)
    requires
        call_ensures(record, (&target, &guarded, &freshness), row),
    ensures
        says(row, "desired_replicas"@, whole_at(guarded.object.native@, "/spec/replicas"@)),
        says(row, "ready_replicas"@, whole_at(guarded.object.native@, "/status/readyReplicas"@)),
        says(
            row,
            "updated_replicas"@,
            whole_at(guarded.object.native@, "/status/updatedReplicas"@),
        ),
        says(
            row,
            "available_replicas"@,
            whole_at(guarded.object.native@, "/status/availableReplicas"@),
        ),
        says(
            row,
            "observed_generation"@,
            whole_at(guarded.object.native@, "/status/observedGeneration"@),
        ),
        says(row, "current_replicas"@, whole_at(guarded.object.native@, "/status/replicas"@)),
        says(
            row,
            "desired_scheduled"@,
            whole_at(guarded.object.native@, "/status/desiredNumberScheduled"@),
        ),
        says(
            row,
            "current_scheduled"@,
            whole_at(guarded.object.native@, "/status/currentNumberScheduled"@),
        ),
        says(row, "ready_scheduled"@, whole_at(guarded.object.native@, "/status/numberReady"@)),
        says(
            row,
            "updated_scheduled"@,
            whole_at(guarded.object.native@, "/status/updatedNumberScheduled"@),
        ),
        says(
            row,
            "available_scheduled"@,
            whole_at(guarded.object.native@, "/status/numberAvailable"@),
        ),
        says(row, "misscheduled"@, whole_at(guarded.object.native@, "/status/numberMisscheduled"@)),
        says(row, "completions"@, whole_at(guarded.object.native@, "/spec/completions"@)),
        says(row, "parallelism"@, whole_at(guarded.object.native@, "/spec/parallelism"@)),
        says(row, "active"@, whole_at(guarded.object.native@, "/status/active"@)),
        says(row, "succeeded"@, whole_at(guarded.object.native@, "/status/succeeded"@)),
        says(row, "failed"@, whole_at(guarded.object.native@, "/status/failed"@)),
{
    let object = guarded.object;
    let native = object.native@;
    row_is_shown(row, target, guarded, freshness, 22);
    row_is_shown(row, target, guarded, freshness, 23);
    row_is_shown(row, target, guarded, freshness, 24);
    row_is_shown(row, target, guarded, freshness, 25);
    row_is_shown(row, target, guarded, freshness, 27);
    row_is_shown(row, target, guarded, freshness, 29);
    row_is_shown(row, target, guarded, freshness, 36);
    row_is_shown(row, target, guarded, freshness, 37);
    row_is_shown(row, target, guarded, freshness, 38);
    row_is_shown(row, target, guarded, freshness, 39);
    row_is_shown(row, target, guarded, freshness, 40);
    row_is_shown(row, target, guarded, freshness, 41);
    row_is_shown(row, target, guarded, freshness, 58);
    row_is_shown(row, target, guarded, freshness, 59);
    row_is_shown(row, target, guarded, freshness, 60);
    row_is_shown(row, target, guarded, freshness, 61);
    row_is_shown(row, target, guarded, freshness, 62);
}

/// A field that is a flag shows the flag of the document at its own pointer, and nothing where
/// there
/// is none.
pub proof fn flags_are_read_where_they_stand(
    row: Record,
    target: Target,
    guarded: Guarded,
    freshness: Freshness,
)
    requires
        call_ensures(record, (&target, &guarded, &freshness), row),
    ensures
        says(row, "unschedulable"@, flag_at(guarded.object.native@, "/spec/unschedulable"@)),
        says(row, "suspend"@, flag_at(guarded.object.native@, "/spec/suspend"@)),
        says(row, "immutable"@, flag_at(guarded.object.native@, "/immutable"@)),
        says(
            row,
            "automount_token"@,
            flag_at(guarded.object.native@, "/automountServiceAccountToken"@),
        ),
        says(
            row,
            "allow_volume_expansion"@,
            flag_at(guarded.object.native@, "/allowVolumeExpansion"@),
        ),
{
    let object = guarded.object;
    let native = object.native@;
    row_is_shown(row, target, guarded, freshness, 15);
    row_is_shown(row, target, guarded, freshness, 68);
    row_is_shown(row, target, guarded, freshness, 74);
    row_is_shown(row, target, guarded, freshness, 77);
    row_is_shown(row, target, guarded, freshness, 90);
}

/// A field that is an instant shows the text of the document at its own pointer as one, and nothing
/// where there is none.
pub proof fn instants_are_read_where_they_stand(
    row: Record,
    target: Target,
    guarded: Guarded,
    freshness: Freshness,
)
    requires
        call_ensures(record, (&target, &guarded, &freshness), row),
    ensures
        says(row, "start_time"@, instant_at(guarded.object.native@, "/status/startTime"@)),
        says(
            row,
            "completion_time"@,
            instant_at(guarded.object.native@, "/status/completionTime"@),
        ),
        says(
            row,
            "last_schedule_time"@,
            instant_at(guarded.object.native@, "/status/lastScheduleTime"@),
        ),
        says(
            row,
            "last_successful_time"@,
            instant_at(guarded.object.native@, "/status/lastSuccessfulTime"@),
        ),
{
    let object = guarded.object;
    let native = object.native@;
    row_is_shown(row, target, guarded, freshness, 63);
    row_is_shown(row, target, guarded, freshness, 64);
    row_is_shown(row, target, guarded, freshness, 70);
    row_is_shown(row, target, guarded, freshness, 71);
}

/// A field that lists texts shows every text of the list at its own pointer, in order.
pub proof fn lists_are_read_where_they_stand(
    row: Record,
    target: Target,
    guarded: Guarded,
    freshness: Freshness,
)
    requires
        call_ensures(record, (&target, &guarded, &freshness), row),
    ensures
        says(row, "external_ips"@, texts_at(guarded.object.native@, "/spec/externalIPs"@)),
        says(row, "access_modes"@, texts_at(guarded.object.native@, "/spec/accessModes"@)),
        says(row, "policy_types"@, texts_at(guarded.object.native@, "/spec/policyTypes"@)),
{
    let object = guarded.object;
    let native = object.native@;
    row_is_shown(row, target, guarded, freshness, 44);
    row_is_shown(row, target, guarded, freshness, 81);
    row_is_shown(row, target, guarded, freshness, 94);
    if let Some(JsonView::Array(items)) = at(native, "/spec/externalIPs"@) {
        texts_are_filtered(items);
    }
    if let Some(JsonView::Array(items)) = at(native, "/spec/accessModes"@) {
        texts_are_filtered(items);
    }
    if let Some(JsonView::Array(items)) = at(native, "/spec/policyTypes"@) {
        texts_are_filtered(items);
    }
}

/// A field that lists names shows the name of every entry of the list at its own pointer that has
/// one, in order.
pub proof fn names_are_read_where_they_stand(
    row: Record,
    target: Target,
    guarded: Guarded,
    freshness: Freshness,
)
    requires
        call_ensures(record, (&target, &guarded, &freshness), row),
    ensures
        says(row, "containers"@, names_at(guarded.object.native@, "/spec/containers"@)),
        says(row, "active_jobs"@, names_at(guarded.object.native@, "/status/active"@)),
        says(row, "secrets"@, names_at(guarded.object.native@, "/secrets"@)),
        says(row, "image_pull_secrets"@, names_at(guarded.object.native@, "/imagePullSecrets"@)),
{
    let object = guarded.object;
    let native = object.native@;
    row_is_shown(row, target, guarded, freshness, 20);
    row_is_shown(row, target, guarded, freshness, 72);
    row_is_shown(row, target, guarded, freshness, 75);
    row_is_shown(row, target, guarded, freshness, 76);
    if let Some(JsonView::Array(items)) = at(native, "/spec/containers"@) {
        names_are_filtered(items, "name"@);
    }
    if let Some(JsonView::Array(items)) = at(native, "/status/active"@) {
        names_are_filtered(items, "name"@);
    }
    if let Some(JsonView::Array(items)) = at(native, "/secrets"@) {
        names_are_filtered(items, "name"@);
    }
    if let Some(JsonView::Array(items)) = at(native, "/imagePullSecrets"@) {
        names_are_filtered(items, "name"@);
    }
}

/// A field that lists keys shows those of the object at its own pointer, in order, and nothing that
/// they hold.
pub proof fn keys_are_read_where_they_stand(
    row: Record,
    target: Target,
    guarded: Guarded,
    freshness: Freshness,
)
    requires
        call_ensures(record, (&target, &guarded, &freshness), row),
    ensures
        says(row, "binary_keys"@, keys_at(guarded.object.native@, "/binaryData"@)),
{
    let object = guarded.object;
    let native = object.native@;
    row_is_shown(row, target, guarded, freshness, 73);
    if let Some(JsonView::Object(members)) = at(native, "/binaryData"@) {
        assert(crate::fields::names_of(members) =~= Seq::new(members.len(), |i: int| members[i].0));
    }
}

/// A field that is a map shows the object of the document at its own pointer, whole.
pub proof fn maps_are_read_where_they_stand(
    row: Record,
    target: Target,
    guarded: Guarded,
    freshness: Freshness,
)
    requires
        call_ensures(record, (&target, &guarded, &freshness), row),
    ensures
        says(row, "selector"@, members_at(guarded.object.native@, "/spec/selector"@)),
        says(row, "parameters"@, members_at(guarded.object.native@, "/parameters"@)),
        says(row, "pod_selector"@, members_at(guarded.object.native@, "/spec/podSelector"@)),
{
    let object = guarded.object;
    let native = object.native@;
    row_is_shown(row, target, guarded, freshness, 46);
    row_is_shown(row, target, guarded, freshness, 92);
    row_is_shown(row, target, guarded, freshness, 93);
}

/// Whether a node is ready, whether a job is complete and why it failed, and the internal address
/// of
/// a node are what the first entry of that type says, and nothing where there is no such entry.
pub proof fn conditions_are_read_by_their_type(
    row: Record,
    target: Target,
    guarded: Guarded,
    freshness: Freshness,
)
    requires
        call_ensures(record, (&target, &guarded, &freshness), row),
    ensures
        exists|value: ValueView| #[trigger]
            says(
                row,
                "ready"@,
                value) && is_stated(guarded.object.native@,
                "/status/conditions"@,
                "Ready"@,
                "status"@,
                value,
            ),
        exists|value: ValueView| #[trigger]
            says(
                row,
                "complete"@,
                value) && is_stated(guarded.object.native@,
                "/status/conditions"@,
                "Complete"@,
                "status"@,
                value,
            ),
        exists|value: ValueView| #[trigger]
            says(
                row,
                "failure_reason"@,
                value) && is_stated(guarded.object.native@,
                "/status/conditions"@,
                "Failed"@,
                "reason"@,
                value,
            ),
        exists|value: ValueView| #[trigger]
            says(
                row,
                "internal_ip"@,
                value) && is_stated(guarded.object.native@,
                "/status/addresses"@,
                "InternalIP"@,
                "address"@,
                value,
            ),
{
    let object = guarded.object;
    let native = object.native@;
    row_is_shown(row, target, guarded, freshness, 14);
    row_is_shown(row, target, guarded, freshness, 65);
    row_is_shown(row, target, guarded, freshness, 66);
    row_is_shown(row, target, guarded, freshness, 17);
    what_is_stated(native, "/status/conditions"@, "Ready"@, "status"@);
    what_is_stated(native, "/status/conditions"@, "Complete"@, "status"@);
    what_is_stated(native, "/status/conditions"@, "Failed"@, "reason"@);
    what_is_stated(native, "/status/addresses"@, "InternalIP"@, "address"@);
}

/// The controller above an object is the first owner that says it is one, and nobody where none
/// does.
pub proof fn a_controller_is_the_first_that_says_so(
    row: Record,
    target: Target,
    guarded: Guarded,
    freshness: Freshness,
)
    requires
        call_ensures(record, (&target, &guarded, &freshness), row),
    ensures
        forall|i: int|
            0 <= i < guarded.object.owner_references@.len() && (#[trigger] guarded.object.owner_references@[i]).controller
                && (forall|j: int|
                0 <= j < i ==> !(#[trigger] guarded.object.owner_references@[j]).controller) ==> {
                &&& says(row, "controller"@, ValueView::Text(guarded.object.owner_references@[i].name@))
                &&& says(row, "controller_kind"@, ValueView::Text(guarded.object.owner_references@[i].kind@))
            },
        (forall|j: int|
            0 <= j < guarded.object.owner_references@.len() ==> !(
            #[trigger] guarded.object.owner_references@[j]).controller) ==> {
            &&& says(row, "controller"@, ValueView::Null)
            &&& says(row, "controller_kind"@, ValueView::Null)
        },
{
    let object = guarded.object;
    let native = object.native@;
    row_is_shown(row, target, guarded, freshness, 30);
    row_is_shown(row, target, guarded, freshness, 31);
    let owners = object.owner_references@;
    assert forall|i: int|
        0 <= i < owners.len() && (#[trigger] owners[i]).controller && (forall|j: int|
            0 <= j < i ==> !(#[trigger] owners[j]).controller) implies controller_of(owners) == Some(
        owners[i],
    ) by {
        first_controller(owners, i);
    }
    if forall|j: int| 0 <= j < owners.len() ==> !(#[trigger] owners[j]).controller {
        first_controller(owners, owners.len() as int);
    }
}

/// The Service an object belongs to is the one it governs by; where it governs by none, it is the
/// one
/// its service-name label names, and none where it has no such label. A storage class is the
/// default
/// one exactly where its annotation says `true`, and it is unknown where it has none.
pub proof fn a_service_is_named_by_its_evidence(
    row: Record,
    target: Target,
    guarded: Guarded,
    freshness: Freshness,
)
    requires
        call_ensures(record, (&target, &guarded, &freshness), row),
    ensures
        guarded.object.governing_service matches Some(name) ==> says(
            row,
            "service_name"@,
            ValueView::Text(name@),
        ),
        guarded.object.governing_service is None ==> {
            &&& forall|i: int|
                #[trigger] stands_under(guarded.object.labels@, "kubernetes.io/service-name"@, i)
                    ==> says(row, "service_name"@, ValueView::Text(guarded.object.labels@[i].1@))
            &&& stands_nowhere(guarded.object.labels@, "kubernetes.io/service-name"@) ==> says(
                row,
                "service_name"@,
                ValueView::Null,
            )
        },
        forall|i: int|
            #[trigger] stands_under(
                guarded.object.annotations@,
                "storageclass.kubernetes.io/is-default-class"@,
                i,
            ) ==> says(
                row,
                "is_default"@,
                ValueView::Bool(guarded.object.annotations@[i].1@ == "true"@),
            ),
        stands_nowhere(
            guarded.object.annotations@,
            "storageclass.kubernetes.io/is-default-class"@,
        ) ==> says(row, "is_default"@, ValueView::Null),
{
    let object = guarded.object;
    let native = object.native@;
    row_is_shown(row, target, guarded, freshness, 32);
    row_is_shown(row, target, guarded, freshness, 91);
    let label = "kubernetes.io/service-name"@;
    let annotation = "storageclass.kubernetes.io/is-default-class"@;
    assert forall|i: int| #[trigger] stands_under(object.labels@, label, i) implies text_under(
        object.labels@,
        label,
    ) == Some(object.labels@[i].1@) by {
        first_under(object.labels@, label, i);
    }
    if stands_nowhere(object.labels@, label) {
        first_under(object.labels@, label, object.labels@.len() as int);
    }
    assert forall|i: int|
        #[trigger] stands_under(object.annotations@, annotation, i) implies text_under(
        object.annotations@,
        annotation,
    ) == Some(object.annotations@[i].1@) by {
        first_under(object.annotations@, annotation, i);
    }
    if stands_nowhere(object.annotations@, annotation) {
        first_under(object.annotations@, annotation, object.annotations@.len() as int);
    }
}

/// A slice shows how many endpoints it has and how many of them say they are ready, every address
/// they serve and every object they name; an object that is no slice shows none of it.
pub proof fn endpoints_are_counted_as_they_are(
    row: Record,
    target: Target,
    guarded: Guarded,
    freshness: Freshness,
)
    requires
        call_ensures(record, (&target, &guarded, &freshness), row),
    ensures
        guarded.object.endpoints@.len() == 0 && at(guarded.object.native@, "/endpoints"@) is None ==> {
            &&& says(row, "endpoint_count"@, ValueView::Null)
            &&& says(row, "ready_endpoints"@, ValueView::Null)
        },
        guarded.object.endpoints@.len() > 0 || at(guarded.object.native@, "/endpoints"@) is Some ==> {
            &&& says(row, "endpoint_count"@, whole(guarded.object.endpoints@.len()))
            &&& says(
                row,
                "ready_endpoints"@,
                whole(
                    guarded.object.endpoints@.filter(
                        |endpoint: SliceEndpoint| endpoint.ready == Some(true),
                    ).len(),
                ),
            )
        },
        guarded.object.endpoints@.len() == 0 ==> {
            &&& says(row, "addresses"@, ValueView::Null)
            &&& says(row, "targets"@, ValueView::Null)
        },
        guarded.object.endpoints@.len() > 0 ==> {
            &&& says(
                row,
                "addresses"@,
                ValueView::List(
                    addresses_of(guarded.object.endpoints@).map_values(
                        |address: Seq<char>| ValueView::Text(address),
                    ),
                ),
            )
            &&& says(
                row,
                "targets"@,
                ValueView::List(
                    guarded.object.endpoints@.filter_map(
                        |endpoint: SliceEndpoint|
                            match endpoint.target {
                                Some(name) => Some(ValueView::Text(name@)),
                                None => None,
                            },
                    ),
                ),
            )
        },
{
    let object = guarded.object;
    let native = object.native@;
    row_is_shown(row, target, guarded, freshness, 50);
    row_is_shown(row, target, guarded, freshness, 51);
    row_is_shown(row, target, guarded, freshness, 52);
    row_is_shown(row, target, guarded, freshness, 53);
    ready_are_filtered(object.endpoints@);
    targets_are_filtered(object.endpoints@);
}

/// An ingress shows the first class it uses, every Service it routes to and every Secret it takes
/// certificates from, each once, and nothing where there is none.
pub proof fn an_ingress_shows_where_it_leads(
    row: Record,
    target: Target,
    guarded: Guarded,
    freshness: Freshness,
)
    requires
        call_ensures(record, (&target, &guarded, &freshness), row),
    ensures
        says(row, "ingress_class"@, if routed_names(guarded.object.ingress_edges@, Relation::UsesIngressClass).len() == 0 {
                ValueView::Null
            } else {
                ValueView::Text(
                    routed_names(guarded.object.ingress_edges@, Relation::UsesIngressClass)[0],
                )
            }),
        says(row, "services"@, named_once(guarded.object.ingress_edges@, Relation::RoutesTo)),
        says(
            row,
            "tls_secrets"@,
            named_once(guarded.object.ingress_edges@, Relation::UsesTlsSecret),
        ),
        says(row, "hosts"@, match at(guarded.object.native@, "/spec/rules"@) {
                Some(JsonView::Array(rules)) => if hosts_in(rules).len() == 0 {
                    ValueView::Null
                } else {
                    ValueView::List(
                        hosts_in(rules).map_values(|host: Seq<char>| ValueView::Text(host)),
                    )
                },
                _ => ValueView::Null,
            }),
{
    let object = guarded.object;
    let native = object.native@;
    row_is_shown(row, target, guarded, freshness, 54);
    row_is_shown(row, target, guarded, freshness, 56);
    row_is_shown(row, target, guarded, freshness, 57);
    row_is_shown(row, target, guarded, freshness, 55);
}

/// The restarts of a Pod are the sum of what its containers state, and unknown where no status was
/// written; a load balancer shows the address of every entry that states one.
pub proof fn sums_and_addresses_are_those_stated(
    row: Record,
    target: Target,
    guarded: Guarded,
    freshness: Freshness,
)
    requires
        call_ensures(record, (&target, &guarded, &freshness), row),
    ensures
        says(row, "restarts"@, match at(guarded.object.native@, "/status/containerStatuses"@) {
                Some(JsonView::Array(statuses)) => ValueView::Int(restarts_in(statuses)),
                _ => ValueView::Null,
            }),
        says(row, "load_balancer"@, match at(guarded.object.native@, "/status/loadBalancer/ingress"@) {
                Some(JsonView::Array(items)) => ValueView::List(
                    items.filter_map(|item: JsonView| address_in(item)),
                ),
                _ => ValueView::Null,
            }),
{
    let object = guarded.object;
    let native = object.native@;
    row_is_shown(row, target, guarded, freshness, 21);
    row_is_shown(row, target, guarded, freshness, 47);
    if let Some(JsonView::Array(statuses)) = at(native, "/status/containerStatuses"@) {
        restarts_are_summed(statuses);
    }
    if let Some(JsonView::Array(items)) = at(native, "/status/loadBalancer/ingress"@) {
        addresses_are_filtered(items);
    }
}

/// A volume shows its reclaim policy from its spec, or from the top of a class, and the claim that
/// holds it, behind the namespace it names.
pub proof fn a_volume_shows_its_policy_and_its_claim(
    row: Record,
    target: Target,
    guarded: Guarded,
    freshness: Freshness,
)
    requires
        call_ensures(record, (&target, &guarded, &freshness), row),
    ensures
        says(row, "reclaim_policy"@, match at(guarded.object.native@, "/spec/persistentVolumeReclaimPolicy"@) {
                Some(JsonView::Text(policy)) => ValueView::Text(policy),
                _ => text_at(guarded.object.native@, "/reclaimPolicy"@),
            }),
        says(row, "claim"@, match at(guarded.object.native@, "/spec/claimRef"@) {
                Some(reference) => claim_in(reference),
                None => ValueView::Null,
            }),
{
    let object = guarded.object;
    let native = object.native@;
    row_is_shown(row, target, guarded, freshness, 85);
    row_is_shown(row, target, guarded, freshness, 86);
}

/// A network policy shows the rules of each side that it states, whole, and nothing where it states
/// none.
pub proof fn a_policy_shows_the_rules_it_states(
    row: Record,
    target: Target,
    guarded: Guarded,
    freshness: Freshness,
)
    requires
        call_ensures(record, (&target, &guarded, &freshness), row),
    ensures
        says(
            row,
            "rules"@,
            rules_of(at(guarded.object.native@, "/spec/ingress"@), at(guarded.object.native@, "/spec/egress"@)),
        ),
{
    let object = guarded.object;
    let native = object.native@;
    row_is_shown(row, target, guarded, freshness, 95);
    rules_are_stated(native);
}

/// A Secret shows the type and the keys it was guarded with; any other object shows no such type,
/// and
/// the keys of its data.
pub proof fn a_secret_shows_its_keys_and_no_more(
    row: Record,
    target: Target,
    guarded: Guarded,
    freshness: Freshness,
)
    requires
        call_ensures(record, (&target, &guarded, &freshness), row),
    ensures
        says(row, "secret_type"@, match guarded.secret {
                Some(secret) => text_or_null(secret.secret_type),
                None => ValueView::Null,
            }),
        says(row, "keys"@, match guarded.secret {
                Some(secret) => list_of(secret.keys@),
                None => keys_at(guarded.object.native@, "/data"@),
            }),
{
    let object = guarded.object;
    let native = object.native@;
    row_is_shown(row, target, guarded, freshness, 96);
    row_is_shown(row, target, guarded, freshness, 97);
    if let Some(secret) = guarded.secret {
        crate::shown::texts_are_listed(secret.keys@);
    }
    if let Some(JsonView::Object(members)) = at(native, "/data"@) {
        assert(crate::fields::names_of(members) =~= Seq::new(members.len(), |i: int| members[i].0));
    }
}

}
