//! What a record shows, field by field.
//!
//! Each law here speaks of a record that was built and of what it was built from: the value that
//! stands under a name, and what it was in the object, the change or the answer it came from.

use vstd::prelude::*;
use vstd::string::*;

use crate::calendar::instant_text;
use crate::cluster::{
    capability_entries, cluster_record, instance_name, latency_entries, probe_entries, snapshot_value, Diagnostic,
    Known, Snapshot,
};
use crate::contributions::Target;
use crate::discovery::Scope;
use crate::fields::{identity_is_answered, reconciliation_value};
use crate::mutations::{
    acceptance_text, mutation_record, sentences, standing_value, Made, Standing, DRY_RUN_PREDICTION,
};
use crate::objects::{Guarded, Gvk, Reconciliation};
use crate::planning::Contained;
use crate::plans::{
    plan_record, shown_items, CompetingWriter, Dependent, Effect, Plan, Preconditions, Recovery, Shown,
    STATIC_PREDICTION,
};
use crate::projection::Precision;
use crate::records::{
    answered, change_record, condition_record, dynamic_record, edge_record, event_record,
    evidence_record, finding_record, log_record, observation_record, record, Change, Condition,
    Discovered, Edge, Evidence, Exported, Finding, Freshness, Line, LineText, Observation, Record,
    Reported, Source, Support,
};
use crate::schemas::{schema_fields, Field, FieldSet};
use crate::text::{joined, views};
use crate::value::{entry_views, texts_value, Clock, ClockView, ValueView};

verus! {

/// Whether a record has a field of a name, and shows this value there and no other.
pub open spec fn shows(row: Record, name: Seq<char>, value: ValueView) -> bool {
    &&& exists|i: int| 0 <= i < row.fields@.len() && (#[trigger] row.fields@[i]).0@ == name
    &&& forall|i: int|
        0 <= i < row.fields@.len() && (#[trigger] row.fields@[i]).0@ == name
            ==> row.fields@[i].1@ == value
}

/// A text that may not be there, as it is shown.
pub open spec fn text_or_null(text: Option<String>) -> ValueView {
    match text {
        Some(text) => ValueView::Text(text@),
        None => ValueView::Null,
    }
}

/// A signal that may not have been obtained, as it is shown.
pub open spec fn signal_or_null(signal: Known<String>) -> ValueView {
    match signal {
        Known::Obtained(text) => ValueView::Text(text@),
        Known::Unavailable(_) => ValueView::Null,
    }
}

/// A size as it is shown: itself, as far as an `i64` goes.
pub open spec fn whole(n: nat) -> ValueView {
    if n <= i64::MAX {
        ValueView::Int(n as int)
    } else {
        ValueView::Int(i64::MAX as int)
    }
}

/// A count that may not be there, as it is shown.
pub open spec fn count_or_null(n: Option<u64>) -> ValueView {
    match n {
        Some(n) => whole(n as nat),
        None => ValueView::Null,
    }
}

/// A signed number that may not be there, as it is shown.
pub open spec fn signed_or_null(n: Option<i64>) -> ValueView {
    match n {
        Some(n) => ValueView::Int(n as int),
        None => ValueView::Null,
    }
}

/// Texts as they are shown: each of them, in their order.
pub open spec fn list_of(texts: Seq<String>) -> ValueView {
    ValueView::List(Seq::new(texts.len(), |i: int| ValueView::Text(texts[i]@)))
}

/// A clock as it is shown.
pub open spec fn clock_of(clock: Clock) -> ClockView {
    match clock {
        Clock::Unattributed => ClockView::Unattributed,
        Clock::Reporter(name) => ClockView::Reporter(name@),
        Clock::Node(name) => ClockView::Node(name@),
    }
}

/// The API version of a kind as it is shown: the version alone for the core group, and behind its
/// group for every other.
pub open spec fn api_version_of(gvk: Gvk) -> ValueView {
    if gvk.group@.len() == 0 {
        ValueView::Text(gvk.version@)
    } else {
        ValueView::Text(gvk.group@ + "/"@ + gvk.version@)
    }
}

/// Where an object stands, as it is shown.
pub open spec fn standing_of(derived: Reconciliation) -> ValueView {
    ValueView::Entries(
        seq![
            ("state"@, ValueView::Text(derived.state@)),
            ("rule"@, ValueView::Text(derived.rule@)),
            ("verified_convergence"@, ValueView::Bool(derived.verified_convergence)),
            ("stage"@, text_or_null(derived.stage)),
            ("evidence"@, list_of(derived.citations@)),
        ],
    )
}

/// Where an object stood when it was looked at again, as it is shown.
pub open spec fn standing_after(standing: Standing) -> ValueView {
    ValueView::Entries(
        seq![
            ("state"@, ValueView::Text(standing.state@)),
            ("rule"@, ValueView::Text(standing.rule@)),
            ("verified_convergence"@, ValueView::Bool(standing.verified_convergence)),
            ("evidence"@, list_of(standing.evidence@)),
        ],
    )
}

/// What a discovery pass says about itself, as it is shown.
pub open spec fn discovery_of(snapshot: Snapshot) -> ValueView {
    ValueView::Entries(
        seq![
            ("provider_instance"@, ValueView::Text(snapshot.provider_instance@)),
            ("observed_at"@, ValueView::Instant(instant_text(snapshot.observed_at as nat))),
            ("api_server"@, ValueView::Text(snapshot.api_server@)),
            (
                "coverage"@,
                if snapshot.complete {
                    ValueView::Text("complete"@)
                } else {
                    ValueView::Text(snapshot.coverage@)
                },
            ),
            ("mechanism"@, ValueView::Text(snapshot.mechanism@)),
            ("endpoints"@, list_of(snapshot.endpoints@)),
        ],
    )
}

/// What a change asserts about its target, as it is shown.
pub open spec fn preconditions_of(asserted: Preconditions) -> ValueView {
    ValueView::Entries(
        seq![
            ("resource_version"@, text_or_null(asserted.resource_version)),
            ("uid"@, text_or_null(asserted.uid)),
            ("guards_lost_update"@, ValueView::Bool(asserted.guards_lost_update)),
            ("guards_recreation"@, ValueView::Bool(asserted.guards_recreation)),
        ],
    )
}

/// What reapplying the previous values restores and what it does not, as it is shown.
pub open spec fn recovery_of(recovery: Recovery) -> ValueView {
    ValueView::Entries(
        seq![
            ("restores"@, list_of(recovery.restores@)),
            ("does_not_restore"@, list_of(recovery.does_not_restore@)),
            ("statement"@, ValueView::Text(recovery.statement@)),
        ],
    )
}

/// Competing writers as they are shown: each of them, in their order.
pub open spec fn writers_of(writers: Seq<CompetingWriter>) -> ValueView {
    ValueView::List(
        Seq::new(
            writers.len(),
            |i: int|
                ValueView::Entries(
                    seq![
                        ("name"@, ValueView::Text(writers[i].name@)),
                        ("evidence"@, ValueView::Text(writers[i].evidence@)),
                        ("writes"@, ValueView::Text(writers[i].writes@)),
                        ("detail"@, text_or_null(writers[i].detail)),
                    ],
                ),
        ),
    )
}

/// What a namespace holds as it is shown: each count, in order.
pub open spec fn contents_of(counted: Seq<Contained>) -> ValueView {
    ValueView::List(
        Seq::new(
            counted.len(),
            |i: int|
                ValueView::Entries(
                    seq![
                        ("gvr"@, ValueView::Text(counted[i].gvr@)),
                        ("count"@, ValueView::Int(counted[i].count as int)),
                        ("at_least"@, ValueView::Bool(counted[i].at_least)),
                    ],
                ),
        ),
    )
}

/// Effects as they are shown: each with the reversibility that belongs to it.
pub open spec fn effects_of(effects: Seq<Effect>) -> ValueView {
    ValueView::List(
        Seq::new(
            effects.len(),
            |i: int|
                ValueView::Entries(
                    seq![
                        ("effect"@, ValueView::Text(effects[i].kind@)),
                        ("reversibility"@, ValueView::Text(effects[i].reversibility@)),
                    ],
                ),
        ),
    )
}

/// Dependents as they are shown: each of them, in their order.
pub open spec fn dependents_of(dependents: Seq<Dependent>) -> ValueView {
    ValueView::List(
        Seq::new(
            dependents.len(),
            |i: int|
                ValueView::Entries(
                    seq![
                        ("uid"@, text_or_null(dependents[i].uid)),
                        ("name"@, ValueView::Text(dependents[i].name@)),
                        ("kind"@, ValueView::Text(dependents[i].kind@)),
                        ("controller"@, ValueView::Bool(dependents[i].controller)),
                        (
                            "blocks_owner_deletion"@,
                            ValueView::Bool(dependents[i].blocks_owner_deletion),
                        ),
                    ],
                ),
        ),
    )
}

pub(crate) proof fn texts_are_listed(texts: Seq<String>)
    ensures
        texts_value(views(texts)) == list_of(texts),
{
    assert(texts_value(views(texts))->List_0 =~= list_of(texts)->List_0);
}

pub(crate) proof fn standing_is_shown(derived: Reconciliation)
    ensures
        reconciliation_value(derived) == standing_of(derived),
{
    texts_are_listed(derived.citations@);
    assert(reconciliation_value(derived)->Entries_0 =~= standing_of(derived)->Entries_0);
}

proof fn preconditions_are_shown(asserted: Preconditions)
    ensures
        asserted.shown() == preconditions_of(asserted),
{
    assert(asserted.shown()->Entries_0 =~= preconditions_of(asserted)->Entries_0);
}

proof fn recovery_is_shown(recovery: Recovery)
    ensures
        recovery.shown() == recovery_of(recovery),
{
    texts_are_listed(recovery.restores@);
    texts_are_listed(recovery.does_not_restore@);
    assert(recovery.shown()->Entries_0 =~= recovery_of(recovery)->Entries_0);
}

proof fn writers_are_shown(writers: Seq<CompetingWriter>)
    ensures
        shown_items(writers) == writers_of(writers),
{
    assert(shown_items(writers)->List_0 =~= writers_of(writers)->List_0);
}

proof fn contents_are_shown(counted: Seq<Contained>)
    ensures
        shown_items(counted) == contents_of(counted),
{
    assert(shown_items(counted)->List_0 =~= contents_of(counted)->List_0);
}

proof fn effects_are_shown(effects: Seq<Effect>)
    ensures
        shown_items(effects) == effects_of(effects),
{
    assert(shown_items(effects)->List_0 =~= effects_of(effects)->List_0);
}

proof fn dependents_are_shown(dependents: Seq<Dependent>)
    ensures
        shown_items(dependents) == dependents_of(dependents),
{
    assert(shown_items(dependents)->List_0 =~= dependents_of(dependents)->List_0);
}

/// What an object's own record answers about its identity.
proof fn identity_is_shown(guarded: Guarded)
    ensures
        guarded.value_of("uid"@) == text_or_null(guarded.object.uid),
        guarded.value_of("name"@) == ValueView::Text(guarded.object.name@),
        guarded.value_of("namespace"@) == text_or_null(guarded.object.namespace),
        guarded.value_of("api_version"@) == api_version_of(guarded.object.gvk),
        guarded.value_of("kind"@) == ValueView::Text(guarded.object.gvk.kind@),
{
    identity_is_answered(guarded);
}

/// Each field of a record has the name the schema declares at its place, and the value its source
/// answers under that name.
pub(crate) proof fn each_is_answered<S: Source>(row: Record, fields: Seq<Field>, source: S)
    requires
        entry_views(row.fields@) == answered(fields, source),
    ensures
        row.fields@.len() == fields.len(),
        forall|i: int|
            0 <= i < row.fields@.len() ==> (#[trigger] row.fields@[i]).0@ == fields[i].name@,
        forall|i: int|
            0 <= i < row.fields@.len() ==> (#[trigger] row.fields@[i]).1@ == source.value_of(
                row.fields@[i].0@,
            ),
{
    let shown = entry_views(row.fields@);
    assert(shown.len() == row.fields@.len());
    assert forall|i: int| 0 <= i < row.fields@.len() implies (#[trigger] row.fields@[i]).0@
        == fields[i].name@ && row.fields@[i].1@ == source.value_of(row.fields@[i].0@) by {
        assert(shown[i] == (row.fields@[i].0@, row.fields@[i].1@));
        assert(shown[i] == answered(fields, source)[i]);
    }
}

/// What stands under the name a schema declares at a place is what the source answers under it.
proof fn one_is_answered<S: Source>(
    row: Record,
    fields: Seq<Field>,
    source: S,
    place: int,
    name: Seq<char>,
)
    requires
        entry_views(row.fields@) == answered(fields, source),
        0 <= place < fields.len(),
        fields[place].name@ == name,
    ensures
        shows(row, name, source.value_of(name)),
{
    each_is_answered(row, fields, source);
    assert(row.fields@[place].0@ == name);
}

// --- changes --------------------------------------------------------------------------------------

/// Whether a field is about the change itself, rather than about the object.
pub open spec fn is_of_the_change(name: Seq<char>) -> bool {
    name == "change"@ || name == "resource"@ || name == "scope"@ || name == "segment"@
        || name == "continuous"@ || name == "sync_state"@ || name == "view_state"@
        || name == "withheld"@ || name == "gap_reason"@ || name == "gap_detail"@
}

/// A record of a change names the object it happened to: every field that is not about the change
/// itself shows what the object's own record shows under the same name.
pub proof fn a_change_shows_its_object(
    row: Record,
    target: Target,
    change: Change,
    freshness: Freshness,
    own: Record,
    kind: Target,
    read: Freshness,
)
    requires
        call_ensures(change_record, (&target, &change, &freshness), row),
        change.object matches Some(object) && call_ensures(record, (&kind, &object, &read), own),
    ensures
        forall|i: int, j: int|
            0 <= i < row.fields@.len() && 0 <= j < own.fields@.len() && (
            #[trigger] row.fields@[i]).0@ == (#[trigger] own.fields@[j]).0@
                && !is_of_the_change(row.fields@[i].0@) ==> row.fields@[i].1@ == own.fields@[j].1@,
{
    each_is_answered(row, target.fields@, change);
    each_is_answered(own, kind.fields@, change.object->0);
}

/// A record of a change says what happened, where, and how continuous the observation was; it names
/// the object where there is one, and only where there is none are the fields of the object
/// unknown.
pub proof fn a_change_shows_what_happened(
    row: Record,
    target: Target,
    change: Change,
    freshness: Freshness,
)
    requires
        target.fields@ == schema_fields(FieldSet::Change),
        call_ensures(change_record, (&target, &change, &freshness), row),
    ensures
        shows(row, "change"@, ValueView::Text(change.class@)),
        shows(row, "resource"@, ValueView::Text(change.resource@)),
        shows(row, "scope"@, ValueView::Text(change.scope@)),
        shows(row, "segment"@, whole(change.segment as nat)),
        shows(row, "continuous"@, ValueView::Bool(change.continuous)),
        shows(row, "sync_state"@, ValueView::Text(change.sync_state@)),
        shows(row, "view_state"@, ValueView::Text(change.view_state@)),
        shows(row, "withheld"@, whole(change.withheld as nat)),
        shows(row, "gap_reason"@, text_or_null(change.gap_reason)),
        shows(row, "gap_detail"@, text_or_null(change.gap_detail)),
        change.object matches Some(guarded) ==> {
            &&& shows(row, "uid"@, text_or_null(guarded.object.uid))
            &&& shows(row, "name"@, ValueView::Text(guarded.object.name@))
            &&& shows(row, "namespace"@, text_or_null(guarded.object.namespace))
            &&& shows(row, "api_version"@, api_version_of(guarded.object.gvk))
            &&& shows(row, "kind"@, ValueView::Text(guarded.object.gvk.kind@))
        },
        change.object is None ==> {
            &&& shows(row, "uid"@, ValueView::Null)
            &&& shows(row, "name"@, ValueView::Null)
            &&& shows(row, "namespace"@, ValueView::Null)
            &&& shows(row, "api_version"@, ValueView::Null)
            &&& shows(row, "kind"@, ValueView::Null)
            &&& shows(row, "resource_version"@, ValueView::Null)
            &&& shows(row, "created"@, ValueView::Null)
            &&& shows(row, "labels"@, ValueView::Null)
            &&& shows(row, "terminating"@, ValueView::Null)
            &&& shows(row, "finalizers"@, ValueView::Null)
        },
{
    reveal_strlit("change");
    reveal_strlit("resource");
    reveal_strlit("scope");
    reveal_strlit("segment");
    reveal_strlit("continuous");
    reveal_strlit("sync_state");
    reveal_strlit("view_state");
    reveal_strlit("withheld");
    reveal_strlit("gap_reason");
    reveal_strlit("gap_detail");
    reveal_strlit("uid");
    reveal_strlit("name");
    reveal_strlit("namespace");
    reveal_strlit("api_version");
    reveal_strlit("kind");
    reveal_strlit("resource_version");
    reveal_strlit("created");
    reveal_strlit("labels");
    reveal_strlit("terminating");
    reveal_strlit("finalizers");
    assert("change"@.len() == 6 && "change"@[0] == 'c');
    assert("resource"@.len() == 8 && "resource"@[0] == 'r');
    assert("scope"@.len() == 5);
    assert("segment"@.len() == 7 && "segment"@[0] == 's');
    assert("continuous"@.len() == 10 && "continuous"@[0] == 'c' && "continuous"@[4] == 'i');
    assert("sync_state"@.len() == 10 && "sync_state"@[0] == 's' && "sync_state"@[4] == '_');
    assert("view_state"@.len() == 10 && "view_state"@[0] == 'v' && "view_state"@[4] == '_');
    assert("withheld"@.len() == 8 && "withheld"@[0] == 'w');
    assert("gap_reason"@.len() == 10 && "gap_reason"@[0] == 'g' && "gap_reason"@[4] == 'r');
    assert("gap_detail"@.len() == 10 && "gap_detail"@[0] == 'g' && "gap_detail"@[4] == 'd');
    assert("uid"@.len() == 3);
    assert("name"@.len() == 4 && "name"@[0] == 'n');
    assert("namespace"@.len() == 9);
    assert("api_version"@.len() == 11 && "api_version"@[0] == 'a');
    assert("kind"@.len() == 4 && "kind"@[0] == 'k');
    assert("resource_version"@.len() == 16);
    assert("created"@.len() == 7 && "created"@[0] == 'c');
    assert("labels"@.len() == 6 && "labels"@[0] == 'l');
    assert("terminating"@.len() == 11 && "terminating"@[0] == 't');
    assert("finalizers"@.len() == 10 && "finalizers"@[0] == 'f' && "finalizers"@[4] == 'l');
    one_is_answered(row, schema_fields(FieldSet::Change), change, 0, "change"@);
    one_is_answered(row, schema_fields(FieldSet::Change), change, 1, "resource"@);
    one_is_answered(row, schema_fields(FieldSet::Change), change, 2, "scope"@);
    one_is_answered(row, schema_fields(FieldSet::Change), change, 3, "segment"@);
    one_is_answered(row, schema_fields(FieldSet::Change), change, 4, "continuous"@);
    one_is_answered(row, schema_fields(FieldSet::Change), change, 5, "sync_state"@);
    one_is_answered(row, schema_fields(FieldSet::Change), change, 6, "view_state"@);
    one_is_answered(row, schema_fields(FieldSet::Change), change, 7, "withheld"@);
    one_is_answered(row, schema_fields(FieldSet::Change), change, 18, "gap_reason"@);
    one_is_answered(row, schema_fields(FieldSet::Change), change, 19, "gap_detail"@);
    if let Some(guarded) = change.object {
        identity_is_shown(guarded);
    }
    one_is_answered(row, schema_fields(FieldSet::Change), change, 8, "uid"@);
    one_is_answered(row, schema_fields(FieldSet::Change), change, 9, "name"@);
    one_is_answered(row, schema_fields(FieldSet::Change), change, 10, "namespace"@);
    one_is_answered(row, schema_fields(FieldSet::Change), change, 11, "api_version"@);
    one_is_answered(row, schema_fields(FieldSet::Change), change, 12, "kind"@);
    one_is_answered(row, schema_fields(FieldSet::Change), change, 13, "resource_version"@);
    one_is_answered(row, schema_fields(FieldSet::Change), change, 14, "created"@);
    one_is_answered(row, schema_fields(FieldSet::Change), change, 15, "labels"@);
    one_is_answered(row, schema_fields(FieldSet::Change), change, 16, "terminating"@);
    one_is_answered(row, schema_fields(FieldSet::Change), change, 17, "finalizers"@);
}

// --- reports about one object ---------------------------------------------------------------------

/// Whether a field is about the line itself, rather than about the object.
pub open spec fn is_of_the_line(name: Seq<char>) -> bool {
    name == "container"@ || name == "instance"@ || name == "line"@ || name == "text"@
        || name == "bytes"@ || name == "not_utf8_after"@ || name == "stamp"@ || name == "clock"@
        || name == "terminated"@ || name == "bounds"@ || name == "ending"@
        || name == "may_contain_secrets"@
}

/// A record of a line names the Pod it was read from: every field that is not about the line shows
/// what the Pod's own record shows under the same name.
pub proof fn a_line_shows_its_pod(
    row: Record,
    target: Target,
    line: Line,
    freshness: Freshness,
    own: Record,
    kind: Target,
    read: Freshness,
)
    requires
        call_ensures(log_record, (&target, &line, &freshness), row),
        call_ensures(record, (&kind, &line.pod, &read), own),
    ensures
        forall|i: int, j: int|
            0 <= i < row.fields@.len() && 0 <= j < own.fields@.len() && (
            #[trigger] row.fields@[i]).0@ == (#[trigger] own.fields@[j]).0@
                && !is_of_the_line(row.fields@[i].0@) ==> row.fields@[i].1@ == own.fields@[j].1@,
{
    each_is_answered(row, target.fields@, line);
    each_is_answered(own, kind.fields@, line.pod);
}

/// A line that is text shows that text and no place where decoding stopped; a line that is not
/// shows
/// that place and no text. Everything else a line says is what was read of it.
pub proof fn a_line_shows_its_text(row: Record, target: Target, line: Line, freshness: Freshness)
    requires
        target.fields@ == schema_fields(FieldSet::Log),
        call_ensures(log_record, (&target, &line, &freshness), row),
    ensures
        shows(row, "container"@, text_or_null(line.container)),
        shows(row, "instance"@, ValueView::Text(line.instance@)),
        shows(row, "line"@, whole(line.ordinal as nat)),
        shows(row, "text"@, match line.text {
                LineText::Utf8(text) => ValueView::Text(text@),
                LineText::NotUtf8 { .. } => ValueView::Null,
            }),
        shows(row, "bytes"@, whole(line.bytes as nat)),
        shows(row, "not_utf8_after"@, match line.text {
                LineText::Utf8(_) => ValueView::Null,
                LineText::NotUtf8 { valid_up_to } => whole(valid_up_to as nat),
            }),
        shows(row, "stamp"@, text_or_null(line.stamp)),
        shows(row, "clock"@, ValueView::Clock(clock_of(line.clock))),
        shows(row, "terminated"@, ValueView::Bool(line.terminated)),
        shows(row, "bounds"@, list_of(line.bounds@)),
        shows(row, "ending"@, ValueView::Text(line.ending@)),
        shows(row, "may_contain_secrets"@, ValueView::Bool(line.may_contain_secrets)),
        shows(row, "uid"@, text_or_null(line.pod.object.uid)),
        shows(row, "name"@, ValueView::Text(line.pod.object.name@)),
        shows(row, "namespace"@, text_or_null(line.pod.object.namespace)),
        shows(row, "api_version"@, api_version_of(line.pod.object.gvk)),
        shows(row, "kind"@, ValueView::Text(line.pod.object.gvk.kind@)),
{
    reveal_strlit("container");
    reveal_strlit("instance");
    reveal_strlit("line");
    reveal_strlit("text");
    reveal_strlit("bytes");
    reveal_strlit("not_utf8_after");
    reveal_strlit("stamp");
    reveal_strlit("clock");
    reveal_strlit("terminated");
    reveal_strlit("bounds");
    reveal_strlit("ending");
    reveal_strlit("may_contain_secrets");
    reveal_strlit("uid");
    reveal_strlit("name");
    reveal_strlit("namespace");
    reveal_strlit("api_version");
    reveal_strlit("kind");
    assert("container"@.len() == 9 && "container"@[0] == 'c');
    assert("instance"@.len() == 8);
    assert("line"@.len() == 4 && "line"@[0] == 'l');
    assert("text"@.len() == 4 && "text"@[0] == 't');
    assert("bytes"@.len() == 5 && "bytes"@[0] == 'b');
    assert("not_utf8_after"@.len() == 14);
    assert("stamp"@.len() == 5 && "stamp"@[0] == 's');
    assert("clock"@.len() == 5 && "clock"@[0] == 'c');
    assert("terminated"@.len() == 10);
    assert("bounds"@.len() == 6 && "bounds"@[0] == 'b');
    assert("ending"@.len() == 6 && "ending"@[0] == 'e');
    assert("may_contain_secrets"@.len() == 19);
    assert("uid"@.len() == 3);
    assert("name"@.len() == 4 && "name"@[0] == 'n');
    assert("namespace"@.len() == 9 && "namespace"@[0] == 'n');
    assert("api_version"@.len() == 11);
    assert("kind"@.len() == 4 && "kind"@[0] == 'k');
    identity_is_shown(line.pod);
    texts_are_listed(line.bounds@);
    one_is_answered(row, schema_fields(FieldSet::Log), line, 5, "container"@);
    one_is_answered(row, schema_fields(FieldSet::Log), line, 6, "instance"@);
    one_is_answered(row, schema_fields(FieldSet::Log), line, 7, "line"@);
    one_is_answered(row, schema_fields(FieldSet::Log), line, 8, "text"@);
    one_is_answered(row, schema_fields(FieldSet::Log), line, 9, "bytes"@);
    one_is_answered(row, schema_fields(FieldSet::Log), line, 10, "not_utf8_after"@);
    one_is_answered(row, schema_fields(FieldSet::Log), line, 11, "stamp"@);
    one_is_answered(row, schema_fields(FieldSet::Log), line, 12, "clock"@);
    one_is_answered(row, schema_fields(FieldSet::Log), line, 13, "terminated"@);
    one_is_answered(row, schema_fields(FieldSet::Log), line, 14, "bounds"@);
    one_is_answered(row, schema_fields(FieldSet::Log), line, 15, "ending"@);
    one_is_answered(row, schema_fields(FieldSet::Log), line, 16, "may_contain_secrets"@);
    one_is_answered(row, schema_fields(FieldSet::Log), line, 0, "uid"@);
    one_is_answered(row, schema_fields(FieldSet::Log), line, 1, "name"@);
    one_is_answered(row, schema_fields(FieldSet::Log), line, 2, "namespace"@);
    one_is_answered(row, schema_fields(FieldSet::Log), line, 3, "api_version"@);
    one_is_answered(row, schema_fields(FieldSet::Log), line, 4, "kind"@);
}

/// Whether a field is about the edge itself, rather than about the object.
pub open spec fn is_of_the_edge(name: Seq<char>) -> bool {
    name == "relation"@ || name == "source"@ || name == "target"@ || name == "target_kind"@
        || name == "target_name"@ || name == "target_namespace"@ || name == "target_uid"@
        || name == "target_resolved"@ || name == "target_roles"@ || name == "evidence_class"@
        || name == "evidence"@ || name == "evidence_path"@ || name == "asserted"@
        || name == "supporting"@
}

/// A record of a relationship names the object it starts at: every field that is not about the
/// relationship shows what that object's own record shows under the same name.
pub proof fn an_edge_shows_its_source(
    row: Record,
    target: Target,
    edge: Edge,
    freshness: Freshness,
    own: Record,
    kind: Target,
    read: Freshness,
)
    requires
        call_ensures(edge_record, (&target, &edge, &freshness), row),
        call_ensures(record, (&kind, &edge.source, &read), own),
    ensures
        forall|i: int, j: int|
            0 <= i < row.fields@.len() && 0 <= j < own.fields@.len() && (
            #[trigger] row.fields@[i]).0@ == (#[trigger] own.fields@[j]).0@
                && !is_of_the_edge(row.fields@[i].0@) ==> row.fields@[i].1@ == own.fields@[j].1@,
{
    each_is_answered(row, target.fields@, edge);
    each_is_answered(own, kind.fields@, edge.source);
}

/// A record of a relationship says where it starts, what it is, where it points, and the evidence
/// it
/// rests on, each as it was derived.
pub proof fn an_edge_shows_both_ends(row: Record, target: Target, edge: Edge, freshness: Freshness)
    requires
        target.fields@ == schema_fields(FieldSet::Relation),
        call_ensures(edge_record, (&target, &edge, &freshness), row),
    ensures
        shows(row, "relation"@, ValueView::Text(edge.relation@)),
        shows(row, "source"@, ValueView::Text(edge.here@)),
        shows(row, "target"@, ValueView::Text(edge.there@)),
        shows(row, "target_kind"@, ValueView::Text(edge.target_kind@)),
        shows(row, "target_name"@, ValueView::Text(edge.target_name@)),
        shows(row, "target_namespace"@, text_or_null(edge.target_namespace)),
        shows(row, "target_uid"@, text_or_null(edge.target_uid)),
        shows(row, "target_resolved"@, ValueView::Bool(edge.target_resolved)),
        shows(row, "target_roles"@, list_of(edge.target_roles@)),
        shows(row, "evidence_class"@, ValueView::Text(edge.evidence_class@)),
        shows(row, "evidence"@, ValueView::Text(edge.evidence@)),
        shows(row, "evidence_path"@, text_or_null(edge.evidence_path)),
        shows(row, "asserted"@, ValueView::Bool(edge.asserted)),
        shows(row, "supporting"@, ValueView::List(
                Seq::new(
                    edge.supporting@.len(),
                    |i: int|
                        ValueView::Text(edge.supporting@[i].0@ + ": "@ + edge.supporting@[i].1@),
                ),
            )),
        shows(row, "uid"@, text_or_null(edge.source.object.uid)),
        shows(row, "name"@, ValueView::Text(edge.source.object.name@)),
        shows(row, "namespace"@, text_or_null(edge.source.object.namespace)),
        shows(row, "api_version"@, api_version_of(edge.source.object.gvk)),
        shows(row, "kind"@, ValueView::Text(edge.source.object.gvk.kind@)),
{
    reveal_strlit("relation");
    reveal_strlit("source");
    reveal_strlit("target");
    reveal_strlit("target_kind");
    reveal_strlit("target_name");
    reveal_strlit("target_namespace");
    reveal_strlit("target_uid");
    reveal_strlit("target_resolved");
    reveal_strlit("target_roles");
    reveal_strlit("evidence_class");
    reveal_strlit("evidence");
    reveal_strlit("evidence_path");
    reveal_strlit("asserted");
    reveal_strlit("supporting");
    reveal_strlit("uid");
    reveal_strlit("name");
    reveal_strlit("namespace");
    reveal_strlit("api_version");
    reveal_strlit("kind");
    assert("relation"@.len() == 8 && "relation"@[0] == 'r');
    assert("source"@.len() == 6 && "source"@[0] == 's');
    assert("target"@.len() == 6 && "target"@[0] == 't');
    assert("target_kind"@.len() == 11 && "target_kind"@[7] == 'k');
    assert("target_name"@.len() == 11 && "target_name"@[7] == 'n');
    assert("target_namespace"@.len() == 16);
    assert("target_uid"@.len() == 10 && "target_uid"@[0] == 't');
    assert("target_resolved"@.len() == 15);
    assert("target_roles"@.len() == 12);
    assert("evidence_class"@.len() == 14);
    assert("evidence"@.len() == 8 && "evidence"@[0] == 'e');
    assert("evidence_path"@.len() == 13);
    assert("asserted"@.len() == 8 && "asserted"@[0] == 'a');
    assert("supporting"@.len() == 10 && "supporting"@[0] == 's');
    assert("uid"@.len() == 3);
    assert("name"@.len() == 4 && "name"@[0] == 'n');
    assert("namespace"@.len() == 9);
    assert("api_version"@.len() == 11 && "api_version"@[7] == 's');
    assert("kind"@.len() == 4 && "kind"@[0] == 'k');
    identity_is_shown(edge.source);
    texts_are_listed(edge.target_roles@);
    one_is_answered(row, schema_fields(FieldSet::Relation), edge, 6, "relation"@);
    one_is_answered(row, schema_fields(FieldSet::Relation), edge, 5, "source"@);
    one_is_answered(row, schema_fields(FieldSet::Relation), edge, 7, "target"@);
    one_is_answered(row, schema_fields(FieldSet::Relation), edge, 8, "target_kind"@);
    one_is_answered(row, schema_fields(FieldSet::Relation), edge, 9, "target_name"@);
    one_is_answered(row, schema_fields(FieldSet::Relation), edge, 10, "target_namespace"@);
    one_is_answered(row, schema_fields(FieldSet::Relation), edge, 11, "target_uid"@);
    one_is_answered(row, schema_fields(FieldSet::Relation), edge, 12, "target_resolved"@);
    one_is_answered(row, schema_fields(FieldSet::Relation), edge, 13, "target_roles"@);
    one_is_answered(row, schema_fields(FieldSet::Relation), edge, 14, "evidence_class"@);
    one_is_answered(row, schema_fields(FieldSet::Relation), edge, 15, "evidence"@);
    one_is_answered(row, schema_fields(FieldSet::Relation), edge, 16, "evidence_path"@);
    one_is_answered(row, schema_fields(FieldSet::Relation), edge, 17, "asserted"@);
    one_is_answered(row, schema_fields(FieldSet::Relation), edge, 18, "supporting"@);
    one_is_answered(row, schema_fields(FieldSet::Relation), edge, 0, "uid"@);
    one_is_answered(row, schema_fields(FieldSet::Relation), edge, 1, "name"@);
    one_is_answered(row, schema_fields(FieldSet::Relation), edge, 2, "namespace"@);
    one_is_answered(row, schema_fields(FieldSet::Relation), edge, 3, "api_version"@);
    one_is_answered(row, schema_fields(FieldSet::Relation), edge, 4, "kind"@);
    assert(edge.value_of("supporting"@)->List_0 =~= Seq::new(
        edge.supporting@.len(),
        |i: int| ValueView::Text(edge.supporting@[i].0@ + ": "@ + edge.supporting@[i].1@),
    ));
}

/// Whether a field is about the discovered resource itself, rather than about the object.
pub open spec fn is_of_the_discovered_resource(name: Seq<char>) -> bool {
    name == "api_group"@ || name == "resource_name"@ || name == "scope"@
        || name == "schema_source"@ || name == "precision"@ || name == "spec"@
        || name == "status"@ || name == "other"@ || name == "untyped"@
}

/// A record of a resource nobody declared shows its metadata as every other record does: a field
/// that is not about the resource or its typing shows what the object's own record shows.
pub proof fn a_discovered_record_shows_its_object(
    row: Record,
    target: Target,
    discovered: Discovered,
    freshness: Freshness,
    own: Record,
    kind: Target,
    read: Freshness,
)
    requires
        call_ensures(dynamic_record, (&target, &discovered, &freshness), row),
        call_ensures(record, (&kind, &discovered.guarded, &read), own),
    ensures
        forall|i: int, j: int|
            0 <= i < row.fields@.len() && 0 <= j < own.fields@.len() && (
            #[trigger] row.fields@[i]).0@ == (#[trigger] own.fields@[j]).0@
                && !is_of_the_discovered_resource(row.fields@[i].0@) ==> row.fields@[i].1@ == own.fields@[j].1@,
{
    each_is_answered(row, target.fields@, discovered);
    each_is_answered(own, kind.fields@, discovered.guarded);
}

/// A record of a resource nobody declared says which resource it is, how well it is typed, and
/// keeps
/// desired state, observed state and everything else apart.
pub proof fn a_discovered_record_shows_its_content(
    row: Record,
    target: Target,
    discovered: Discovered,
    freshness: Freshness,
)
    requires
        target.fields@ == schema_fields(FieldSet::Resource),
        call_ensures(dynamic_record, (&target, &discovered, &freshness), row),
    ensures
        shows(row, "api_group"@, ValueView::Text(discovered.resource.group@)),
        shows(row, "resource_name"@, ValueView::Text(discovered.resource.plural@)),
        shows(row, "scope"@, ValueView::Text(
                match discovered.resource.scope {
                    Scope::Namespaced => "namespaced"@,
                    Scope::Cluster => "cluster"@,
                },
            )),
        shows(row, "schema_source"@, ValueView::Text(discovered.schema_source@)),
        shows(row, "precision"@, ValueView::Text(
                match discovered.content.precision {
                    Precision::Described => "structural"@,
                    Precision::Loose => "loose"@,
                    Precision::Unknown => "unknown"@,
                },
            )),
        shows(row, "spec"@, discovered.content.desired@),
        shows(row, "status"@, discovered.content.observed@),
        shows(row, "other"@, discovered.content.other@),
        shows(row, "untyped"@, list_of(discovered.content.untyped@)),
        shows(row, "uid"@, text_or_null(discovered.guarded.object.uid)),
        shows(row, "name"@, ValueView::Text(discovered.guarded.object.name@)),
        shows(row, "namespace"@, text_or_null(discovered.guarded.object.namespace)),
        shows(row, "api_version"@, api_version_of(discovered.guarded.object.gvk)),
        shows(row, "kind"@, ValueView::Text(discovered.guarded.object.gvk.kind@)),
{
    reveal_strlit("api_group");
    reveal_strlit("resource_name");
    reveal_strlit("scope");
    reveal_strlit("schema_source");
    reveal_strlit("precision");
    reveal_strlit("spec");
    reveal_strlit("status");
    reveal_strlit("other");
    reveal_strlit("untyped");
    reveal_strlit("uid");
    reveal_strlit("name");
    reveal_strlit("namespace");
    reveal_strlit("api_version");
    reveal_strlit("kind");
    assert("api_group"@.len() == 9 && "api_group"@[0] == 'a');
    assert("resource_name"@.len() == 13 && "resource_name"@[0] == 'r');
    assert("scope"@.len() == 5 && "scope"@[0] == 's');
    assert("schema_source"@.len() == 13 && "schema_source"@[0] == 's');
    assert("precision"@.len() == 9 && "precision"@[0] == 'p');
    assert("spec"@.len() == 4 && "spec"@[0] == 's');
    assert("status"@.len() == 6);
    assert("other"@.len() == 5 && "other"@[0] == 'o');
    assert("untyped"@.len() == 7);
    assert("uid"@.len() == 3);
    assert("name"@.len() == 4 && "name"@[0] == 'n');
    assert("namespace"@.len() == 9 && "namespace"@[0] == 'n');
    assert("api_version"@.len() == 11);
    assert("kind"@.len() == 4 && "kind"@[0] == 'k');
    identity_is_shown(discovered.guarded);
    texts_are_listed(discovered.content.untyped@);
    one_is_answered(row, schema_fields(FieldSet::Resource), discovered, 13, "api_group"@);
    one_is_answered(row, schema_fields(FieldSet::Resource), discovered, 14, "resource_name"@);
    one_is_answered(row, schema_fields(FieldSet::Resource), discovered, 15, "scope"@);
    one_is_answered(row, schema_fields(FieldSet::Resource), discovered, 16, "schema_source"@);
    one_is_answered(row, schema_fields(FieldSet::Resource), discovered, 17, "precision"@);
    one_is_answered(row, schema_fields(FieldSet::Resource), discovered, 18, "spec"@);
    one_is_answered(row, schema_fields(FieldSet::Resource), discovered, 19, "status"@);
    one_is_answered(row, schema_fields(FieldSet::Resource), discovered, 20, "other"@);
    one_is_answered(row, schema_fields(FieldSet::Resource), discovered, 21, "untyped"@);
    one_is_answered(row, schema_fields(FieldSet::Resource), discovered, 0, "uid"@);
    one_is_answered(row, schema_fields(FieldSet::Resource), discovered, 1, "name"@);
    one_is_answered(row, schema_fields(FieldSet::Resource), discovered, 2, "namespace"@);
    one_is_answered(row, schema_fields(FieldSet::Resource), discovered, 3, "api_version"@);
    one_is_answered(row, schema_fields(FieldSet::Resource), discovered, 4, "kind"@);
}

/// Whether a field is about the event itself, rather than about the object.
pub open spec fn is_of_the_event(name: Seq<char>) -> bool {
    name == "representation"@ || name == "level"@ || name == "reason"@ || name == "note"@
        || name == "action"@ || name == "regarding"@ || name == "regarding_kind"@
        || name == "regarding_name"@ || name == "regarding_namespace"@
        || name == "regarding_uid"@ || name == "related"@ || name == "reporting_controller"@
        || name == "reporting_instance"@ || name == "event_time"@ || name == "clock"@
        || name == "aggregate"@ || name == "recorded_count"@ || name == "series_count"@
        || name == "series_last_observed"@ || name == "first_seen"@ || name == "last_seen"@
}

/// A record of an Event is a record of an object too: every field that is not about what it reports
/// shows what the Event's own record shows under the same name.
pub proof fn an_event_shows_its_object(
    row: Record,
    target: Target,
    event: Reported,
    freshness: Freshness,
    own: Record,
    kind: Target,
    read: Freshness,
)
    requires
        call_ensures(event_record, (&target, &event, &freshness), row),
        call_ensures(record, (&kind, &event.guarded, &read), own),
    ensures
        forall|i: int, j: int|
            0 <= i < row.fields@.len() && 0 <= j < own.fields@.len() && (
            #[trigger] row.fields@[i]).0@ == (#[trigger] own.fields@[j]).0@
                && !is_of_the_event(row.fields@[i].0@) ==> row.fields@[i].1@ == own.fields@[j].1@,
{
    each_is_answered(row, target.fields@, event);
    each_is_answered(own, kind.fields@, event.guarded);
}

/// A record of an Event says what was reported, about what, by whom, by whose clock and how often,
/// each as it was read.
#[verifier::rlimit(40)]
pub proof fn an_event_shows_what_it_reports(
    row: Record,
    target: Target,
    event: Reported,
    freshness: Freshness,
)
    requires
        target.fields@ == schema_fields(FieldSet::Event),
        call_ensures(event_record, (&target, &event, &freshness), row),
    ensures
        shows(row, "representation"@, ValueView::Text(event.representation@)),
        shows(row, "level"@, ValueView::Text(event.level@)),
        shows(row, "reason"@, text_or_null(event.reason)),
        shows(row, "note"@, text_or_null(event.note)),
        shows(row, "action"@, text_or_null(event.action)),
        shows(row, "regarding"@, text_or_null(event.place)),
        shows(row, "regarding_kind"@, match event.regarding {
                Some(target) => ValueView::Text(target.kind@),
                None => ValueView::Null,
            }),
        shows(row, "regarding_name"@, match event.regarding {
                Some(target) => ValueView::Text(target.name@),
                None => ValueView::Null,
            }),
        shows(row, "regarding_namespace"@, match event.regarding {
                Some(target) => text_or_null(target.namespace),
                None => ValueView::Null,
            }),
        shows(row, "regarding_uid"@, match event.regarding {
                Some(target) => text_or_null(target.uid),
                None => ValueView::Null,
            }),
        shows(row, "related"@, match event.related {
                Some((kind, other)) => ValueView::Text(kind@ + "/"@ + other@),
                None => ValueView::Null,
            }),
        shows(row, "reporting_controller"@, text_or_null(event.controller)),
        shows(row, "reporting_instance"@, text_or_null(event.instance)),
        shows(row, "event_time"@, text_or_null(event.event_time)),
        shows(row, "clock"@, ValueView::Clock(
                match event.controller {
                    Some(controller) => ClockView::Reporter(controller@),
                    None => ClockView::Unattributed,
                },
            )),
        shows(row, "aggregate"@, ValueView::Bool(event.aggregate)),
        shows(row, "recorded_count"@, count_or_null(event.recorded_count)),
        shows(row, "series_count"@, count_or_null(event.series_count)),
        shows(row, "series_last_observed"@, text_or_null(event.series_last_observed)),
        shows(row, "first_seen"@, text_or_null(event.first_seen)),
        shows(row, "last_seen"@, text_or_null(event.last_seen)),
        shows(row, "uid"@, text_or_null(event.guarded.object.uid)),
        shows(row, "name"@, ValueView::Text(event.guarded.object.name@)),
        shows(row, "namespace"@, text_or_null(event.guarded.object.namespace)),
        shows(row, "api_version"@, api_version_of(event.guarded.object.gvk)),
        shows(row, "kind"@, ValueView::Text(event.guarded.object.gvk.kind@)),
{
    reveal_strlit("representation");
    reveal_strlit("level");
    reveal_strlit("reason");
    reveal_strlit("note");
    reveal_strlit("action");
    reveal_strlit("regarding");
    reveal_strlit("regarding_kind");
    reveal_strlit("regarding_name");
    reveal_strlit("regarding_namespace");
    reveal_strlit("regarding_uid");
    reveal_strlit("related");
    reveal_strlit("reporting_controller");
    reveal_strlit("reporting_instance");
    reveal_strlit("event_time");
    reveal_strlit("clock");
    reveal_strlit("aggregate");
    reveal_strlit("recorded_count");
    reveal_strlit("series_count");
    reveal_strlit("series_last_observed");
    reveal_strlit("first_seen");
    reveal_strlit("last_seen");
    reveal_strlit("uid");
    reveal_strlit("name");
    reveal_strlit("namespace");
    reveal_strlit("api_version");
    reveal_strlit("kind");
    assert("representation"@.len() == 14 && "representation"@[10] == 't');
    assert("level"@.len() == 5 && "level"@[0] == 'l');
    assert("reason"@.len() == 6 && "reason"@[0] == 'r');
    assert("note"@.len() == 4 && "note"@[1] == 'o');
    assert("action"@.len() == 6 && "action"@[0] == 'a');
    assert("regarding"@.len() == 9 && "regarding"@[0] == 'r');
    assert("regarding_kind"@.len() == 14 && "regarding_kind"@[10] == 'k');
    assert("regarding_name"@.len() == 14 && "regarding_name"@[10] == 'n');
    assert("regarding_namespace"@.len() == 19);
    assert("regarding_uid"@.len() == 13);
    assert("related"@.len() == 7);
    assert("reporting_controller"@.len() == 20 && "reporting_controller"@[0] == 'r');
    assert("reporting_instance"@.len() == 18);
    assert("event_time"@.len() == 10 && "event_time"@[0] == 'e');
    assert("clock"@.len() == 5 && "clock"@[0] == 'c');
    assert("aggregate"@.len() == 9 && "aggregate"@[0] == 'a');
    assert("recorded_count"@.len() == 14 && "recorded_count"@[10] == 'o');
    assert("series_count"@.len() == 12);
    assert("series_last_observed"@.len() == 20 && "series_last_observed"@[0] == 's');
    assert("first_seen"@.len() == 10 && "first_seen"@[0] == 'f');
    assert("last_seen"@.len() == 9 && "last_seen"@[0] == 'l');
    assert("uid"@.len() == 3);
    assert("name"@.len() == 4 && "name"@[1] == 'a');
    assert("namespace"@.len() == 9 && "namespace"@[0] == 'n');
    assert("api_version"@.len() == 11);
    assert("kind"@.len() == 4 && "kind"@[1] == 'i');
    identity_is_shown(event.guarded);
    one_is_answered(row, schema_fields(FieldSet::Event), event, 13, "representation"@);
    one_is_answered(row, schema_fields(FieldSet::Event), event, 14, "level"@);
    one_is_answered(row, schema_fields(FieldSet::Event), event, 15, "reason"@);
    one_is_answered(row, schema_fields(FieldSet::Event), event, 16, "note"@);
    one_is_answered(row, schema_fields(FieldSet::Event), event, 17, "action"@);
    one_is_answered(row, schema_fields(FieldSet::Event), event, 18, "regarding"@);
    one_is_answered(row, schema_fields(FieldSet::Event), event, 19, "regarding_kind"@);
    one_is_answered(row, schema_fields(FieldSet::Event), event, 20, "regarding_name"@);
    one_is_answered(row, schema_fields(FieldSet::Event), event, 21, "regarding_namespace"@);
    one_is_answered(row, schema_fields(FieldSet::Event), event, 22, "regarding_uid"@);
    one_is_answered(row, schema_fields(FieldSet::Event), event, 23, "related"@);
    one_is_answered(row, schema_fields(FieldSet::Event), event, 24, "reporting_controller"@);
    one_is_answered(row, schema_fields(FieldSet::Event), event, 25, "reporting_instance"@);
    one_is_answered(row, schema_fields(FieldSet::Event), event, 26, "event_time"@);
    one_is_answered(row, schema_fields(FieldSet::Event), event, 27, "clock"@);
    one_is_answered(row, schema_fields(FieldSet::Event), event, 28, "aggregate"@);
    one_is_answered(row, schema_fields(FieldSet::Event), event, 29, "recorded_count"@);
    one_is_answered(row, schema_fields(FieldSet::Event), event, 30, "series_count"@);
    one_is_answered(row, schema_fields(FieldSet::Event), event, 31, "series_last_observed"@);
    one_is_answered(row, schema_fields(FieldSet::Event), event, 32, "first_seen"@);
    one_is_answered(row, schema_fields(FieldSet::Event), event, 33, "last_seen"@);
    one_is_answered(row, schema_fields(FieldSet::Event), event, 0, "uid"@);
    one_is_answered(row, schema_fields(FieldSet::Event), event, 1, "name"@);
    one_is_answered(row, schema_fields(FieldSet::Event), event, 2, "namespace"@);
    one_is_answered(row, schema_fields(FieldSet::Event), event, 3, "api_version"@);
    one_is_answered(row, schema_fields(FieldSet::Event), event, 4, "kind"@);
}

/// Whether a field is about the evidence itself, rather than about the object.
pub open spec fn is_of_the_evidence(name: Seq<char>) -> bool {
    name == "subject"@ || name == "key"@ || name == "qualifier"@ || name == "value"@
        || name == "source"@ || name == "strength"@ || name == "evidence_class"@
        || name == "evidence"@ || name == "asserted"@ || name == "lookup_key"@
        || name == "uri_scheme"@ || name == "uri_path"@ || name == "observed"@
        || name == "outcome"@
}

/// A record of a fact names the object that states it: every field that is not about the fact shows
/// what the object's own record shows under the same name.
pub proof fn evidence_shows_its_object(
    row: Record,
    target: Target,
    evidence: Evidence,
    freshness: Freshness,
    own: Record,
    kind: Target,
    read: Freshness,
)
    requires
        call_ensures(evidence_record, (&target, &evidence, &freshness), row),
        call_ensures(record, (&kind, &evidence.guarded, &read), own),
    ensures
        forall|i: int, j: int|
            0 <= i < row.fields@.len() && 0 <= j < own.fields@.len() && (
            #[trigger] row.fields@[i]).0@ == (#[trigger] own.fields@[j]).0@
                && !is_of_the_evidence(row.fields@[i].0@) ==> row.fields@[i].1@ == own.fields@[j].1@,
{
    each_is_answered(row, target.fields@, evidence);
    each_is_answered(own, kind.fields@, evidence.guarded);
}

/// A fact that was read shows its key, its value and how far it goes; a key that was not read shows
/// why, and no value.
#[verifier::rlimit(40)]
pub proof fn evidence_shows_what_is_stated(
    row: Record,
    target: Target,
    evidence: Evidence,
    freshness: Freshness,
)
    requires
        target.fields@ == schema_fields(FieldSet::Evidence),
        call_ensures(evidence_record, (&target, &evidence, &freshness), row),
    ensures
        shows(row, "subject"@, ValueView::Text(evidence.subject@)),
        shows(row, "key"@, match evidence.exported {
                Exported::Observed(item) => ValueView::Text(item.key@),
                Exported::Unobserved(gap) => ValueView::Text(gap.key@),
            }),
        shows(row, "qualifier"@, match evidence.exported {
                Exported::Observed(item) => text_or_null(item.qualifier),
                Exported::Unobserved(_) => ValueView::Null,
            }),
        shows(row, "value"@, match evidence.exported {
                Exported::Observed(item) => ValueView::Text(item.value@),
                Exported::Unobserved(_) => ValueView::Null,
            }),
        shows(row, "source"@, match evidence.exported {
                Exported::Observed(item) => ValueView::Text(item.source@),
                Exported::Unobserved(_) => ValueView::Null,
            }),
        shows(row, "strength"@, match evidence.exported {
                Exported::Observed(item) => ValueView::Text(item.strength@),
                Exported::Unobserved(_) => ValueView::Null,
            }),
        shows(row, "evidence_class"@, match evidence.exported {
                Exported::Observed(item) => ValueView::Text(item.class@),
                Exported::Unobserved(_) => ValueView::Null,
            }),
        shows(row, "evidence"@, match evidence.exported {
                Exported::Observed(item) => ValueView::Text(item.description@),
                Exported::Unobserved(_) => ValueView::Null,
            }),
        shows(row, "asserted"@, match evidence.exported {
                Exported::Observed(item) => ValueView::Bool(item.asserted),
                Exported::Unobserved(_) => ValueView::Null,
            }),
        shows(row, "lookup_key"@, match evidence.exported {
                Exported::Observed(item) => ValueView::Bool(item.lookup_key),
                Exported::Unobserved(_) => ValueView::Null,
            }),
        shows(row, "uri_scheme"@, if evidence.exported is Observed && evidence.exported->Observed_0.is_provider_id {
                match evidence.provider_shape {
                    Some(shape) => ValueView::Text(shape.scheme@),
                    None => ValueView::Null,
                }
            } else {
                ValueView::Null
            }),
        shows(row, "uri_path"@, if evidence.exported is Observed && evidence.exported->Observed_0.is_provider_id {
                match evidence.provider_shape {
                    Some(shape) => ValueView::Text(shape.path@),
                    None => ValueView::Null,
                }
            } else {
                ValueView::Null
            }),
        shows(row, "observed"@, ValueView::Bool(evidence.exported is Observed)),
        shows(row, "outcome"@, match evidence.exported {
                Exported::Observed(_) => ValueView::Null,
                Exported::Unobserved(gap) => ValueView::Text(gap.outcome@),
            }),
        shows(row, "uid"@, text_or_null(evidence.guarded.object.uid)),
        shows(row, "name"@, ValueView::Text(evidence.guarded.object.name@)),
        shows(row, "api_version"@, api_version_of(evidence.guarded.object.gvk)),
        shows(row, "kind"@, ValueView::Text(evidence.guarded.object.gvk.kind@)),
{
    reveal_strlit("subject");
    reveal_strlit("key");
    reveal_strlit("qualifier");
    reveal_strlit("value");
    reveal_strlit("source");
    reveal_strlit("strength");
    reveal_strlit("evidence_class");
    reveal_strlit("evidence");
    reveal_strlit("asserted");
    reveal_strlit("lookup_key");
    reveal_strlit("uri_scheme");
    reveal_strlit("uri_path");
    reveal_strlit("observed");
    reveal_strlit("outcome");
    reveal_strlit("uid");
    reveal_strlit("name");
    reveal_strlit("api_version");
    reveal_strlit("kind");
    assert("subject"@.len() == 7 && "subject"@[0] == 's');
    assert("key"@.len() == 3 && "key"@[0] == 'k');
    assert("qualifier"@.len() == 9);
    assert("value"@.len() == 5);
    assert("source"@.len() == 6);
    assert("strength"@.len() == 8 && "strength"@[0] == 's');
    assert("evidence_class"@.len() == 14);
    assert("evidence"@.len() == 8 && "evidence"@[0] == 'e');
    assert("asserted"@.len() == 8 && "asserted"@[0] == 'a');
    assert("lookup_key"@.len() == 10 && "lookup_key"@[0] == 'l');
    assert("uri_scheme"@.len() == 10 && "uri_scheme"@[0] == 'u');
    assert("uri_path"@.len() == 8 && "uri_path"@[0] == 'u');
    assert("observed"@.len() == 8 && "observed"@[0] == 'o');
    assert("outcome"@.len() == 7 && "outcome"@[0] == 'o');
    assert("uid"@.len() == 3 && "uid"@[0] == 'u');
    assert("name"@.len() == 4 && "name"@[0] == 'n');
    assert("api_version"@.len() == 11);
    assert("kind"@.len() == 4 && "kind"@[0] == 'k');
    identity_is_shown(evidence.guarded);
    one_is_answered(row, schema_fields(FieldSet::Evidence), evidence, 4, "subject"@);
    one_is_answered(row, schema_fields(FieldSet::Evidence), evidence, 5, "key"@);
    one_is_answered(row, schema_fields(FieldSet::Evidence), evidence, 6, "qualifier"@);
    one_is_answered(row, schema_fields(FieldSet::Evidence), evidence, 7, "value"@);
    one_is_answered(row, schema_fields(FieldSet::Evidence), evidence, 8, "source"@);
    one_is_answered(row, schema_fields(FieldSet::Evidence), evidence, 9, "strength"@);
    one_is_answered(row, schema_fields(FieldSet::Evidence), evidence, 10, "evidence_class"@);
    one_is_answered(row, schema_fields(FieldSet::Evidence), evidence, 11, "evidence"@);
    one_is_answered(row, schema_fields(FieldSet::Evidence), evidence, 12, "asserted"@);
    one_is_answered(row, schema_fields(FieldSet::Evidence), evidence, 13, "lookup_key"@);
    one_is_answered(row, schema_fields(FieldSet::Evidence), evidence, 14, "uri_scheme"@);
    one_is_answered(row, schema_fields(FieldSet::Evidence), evidence, 15, "uri_path"@);
    one_is_answered(row, schema_fields(FieldSet::Evidence), evidence, 16, "observed"@);
    one_is_answered(row, schema_fields(FieldSet::Evidence), evidence, 17, "outcome"@);
    one_is_answered(row, schema_fields(FieldSet::Evidence), evidence, 0, "uid"@);
    one_is_answered(row, schema_fields(FieldSet::Evidence), evidence, 1, "name"@);
    one_is_answered(row, schema_fields(FieldSet::Evidence), evidence, 2, "api_version"@);
    one_is_answered(row, schema_fields(FieldSet::Evidence), evidence, 3, "kind"@);
}

/// Whether a field is about the observation itself, rather than about the object.
pub open spec fn is_of_the_observation(name: Seq<char>) -> bool {
    name == "basis"@ || name == "source"@ || name == "clock"@ || name == "stamp"@
        || name == "placeable"@ || name == "detail"@ || name == "window_opened"@
        || name == "window_latest"@ || name == "continuous"@ || name == "gaps"@
        || name == "not_observed"@
}

/// A record of an observation names its subject: every field that is not about the observation
/// shows
/// what the subject's own record shows under the same name.
pub proof fn an_observation_shows_its_subject(
    row: Record,
    target: Target,
    observation: Observation,
    freshness: Freshness,
    own: Record,
    kind: Target,
    read: Freshness,
)
    requires
        call_ensures(observation_record, (&target, &observation, &freshness), row),
        call_ensures(record, (&kind, &observation.subject, &read), own),
    ensures
        forall|i: int, j: int|
            0 <= i < row.fields@.len() && 0 <= j < own.fields@.len() && (
            #[trigger] row.fields@[i]).0@ == (#[trigger] own.fields@[j]).0@
                && !is_of_the_observation(row.fields@[i].0@) ==> row.fields@[i].1@ == own.fields@[j].1@,
{
    each_is_answered(row, target.fields@, observation);
    each_is_answered(own, kind.fields@, observation.subject);
}

/// A record of an observation shows the stamp beside the clock that wrote it, and the window it was
/// made in.
pub proof fn an_observation_shows_its_window(
    row: Record,
    target: Target,
    observation: Observation,
    freshness: Freshness,
)
    requires
        target.fields@ == schema_fields(FieldSet::Timeline),
        call_ensures(observation_record, (&target, &observation, &freshness), row),
    ensures
        shows(row, "basis"@, ValueView::Text(observation.basis@)),
        shows(row, "source"@, ValueView::Text(observation.source@)),
        shows(row, "clock"@, ValueView::Text(observation.clock@)),
        shows(row, "stamp"@, ValueView::Text(observation.stamp@)),
        shows(row, "placeable"@, ValueView::Bool(observation.placeable)),
        shows(row, "detail"@, ValueView::Text(observation.detail@)),
        shows(
            row,
            "window_opened"@,
            ValueView::Instant(instant_text(observation.window_opened as nat)),
        ),
        shows(
            row,
            "window_latest"@,
            ValueView::Instant(instant_text(observation.window_latest as nat)),
        ),
        shows(row, "continuous"@, ValueView::Bool(observation.continuous)),
        shows(row, "gaps"@, list_of(observation.gaps@)),
        shows(row, "not_observed"@, list_of(observation.not_observed@)),
        shows(row, "uid"@, text_or_null(observation.subject.object.uid)),
        shows(row, "name"@, ValueView::Text(observation.subject.object.name@)),
        shows(row, "namespace"@, text_or_null(observation.subject.object.namespace)),
        shows(row, "api_version"@, api_version_of(observation.subject.object.gvk)),
        shows(row, "kind"@, ValueView::Text(observation.subject.object.gvk.kind@)),
{
    reveal_strlit("basis");
    reveal_strlit("source");
    reveal_strlit("clock");
    reveal_strlit("stamp");
    reveal_strlit("placeable");
    reveal_strlit("detail");
    reveal_strlit("window_opened");
    reveal_strlit("window_latest");
    reveal_strlit("continuous");
    reveal_strlit("gaps");
    reveal_strlit("not_observed");
    reveal_strlit("uid");
    reveal_strlit("name");
    reveal_strlit("namespace");
    reveal_strlit("api_version");
    reveal_strlit("kind");
    assert("basis"@.len() == 5 && "basis"@[0] == 'b');
    assert("source"@.len() == 6 && "source"@[0] == 's');
    assert("clock"@.len() == 5 && "clock"@[0] == 'c');
    assert("stamp"@.len() == 5 && "stamp"@[0] == 's');
    assert("placeable"@.len() == 9 && "placeable"@[0] == 'p');
    assert("detail"@.len() == 6 && "detail"@[0] == 'd');
    assert("window_opened"@.len() == 13 && "window_opened"@[7] == 'o');
    assert("window_latest"@.len() == 13 && "window_latest"@[7] == 'l');
    assert("continuous"@.len() == 10);
    assert("gaps"@.len() == 4 && "gaps"@[0] == 'g');
    assert("not_observed"@.len() == 12);
    assert("uid"@.len() == 3);
    assert("name"@.len() == 4 && "name"@[0] == 'n');
    assert("namespace"@.len() == 9 && "namespace"@[0] == 'n');
    assert("api_version"@.len() == 11);
    assert("kind"@.len() == 4 && "kind"@[0] == 'k');
    identity_is_shown(observation.subject);
    texts_are_listed(observation.gaps@);
    texts_are_listed(observation.not_observed@);
    one_is_answered(row, schema_fields(FieldSet::Timeline), observation, 5, "basis"@);
    one_is_answered(row, schema_fields(FieldSet::Timeline), observation, 6, "source"@);
    one_is_answered(row, schema_fields(FieldSet::Timeline), observation, 7, "clock"@);
    one_is_answered(row, schema_fields(FieldSet::Timeline), observation, 8, "stamp"@);
    one_is_answered(row, schema_fields(FieldSet::Timeline), observation, 9, "placeable"@);
    one_is_answered(row, schema_fields(FieldSet::Timeline), observation, 10, "detail"@);
    one_is_answered(row, schema_fields(FieldSet::Timeline), observation, 11, "window_opened"@);
    one_is_answered(row, schema_fields(FieldSet::Timeline), observation, 12, "window_latest"@);
    one_is_answered(row, schema_fields(FieldSet::Timeline), observation, 13, "continuous"@);
    one_is_answered(row, schema_fields(FieldSet::Timeline), observation, 14, "gaps"@);
    one_is_answered(row, schema_fields(FieldSet::Timeline), observation, 15, "not_observed"@);
    one_is_answered(row, schema_fields(FieldSet::Timeline), observation, 0, "uid"@);
    one_is_answered(row, schema_fields(FieldSet::Timeline), observation, 1, "name"@);
    one_is_answered(row, schema_fields(FieldSet::Timeline), observation, 2, "namespace"@);
    one_is_answered(row, schema_fields(FieldSet::Timeline), observation, 3, "api_version"@);
    one_is_answered(row, schema_fields(FieldSet::Timeline), observation, 4, "kind"@);
}

/// Whether a field is about the finding itself, rather than about the object.
pub open spec fn is_of_the_finding(name: Seq<char>) -> bool {
    name == "claim"@ || name == "claim_means"@ || name == "support_class"@ || name == "support"@
        || name == "not_proven"@ || name == "clock"@ || name == "apart_ms"@
        || name == "evidence_class"@ || name == "evidence_path"@ || name == "strongest_claim"@
        || name == "insufficient_evidence"@ || name == "not_observed"@
}

/// A record of a finding names its subject: every field that is not about the finding shows what
/// the
/// subject's own record shows under the same name.
pub proof fn a_finding_shows_its_subject(
    row: Record,
    target: Target,
    finding: Finding,
    freshness: Freshness,
    own: Record,
    kind: Target,
    read: Freshness,
)
    requires
        call_ensures(finding_record, (&target, &finding, &freshness), row),
        call_ensures(record, (&kind, &finding.subject, &read), own),
    ensures
        forall|i: int, j: int|
            0 <= i < row.fields@.len() && 0 <= j < own.fields@.len() && (
            #[trigger] row.fields@[i]).0@ == (#[trigger] own.fields@[j]).0@
                && !is_of_the_finding(row.fields@[i].0@) ==> row.fields@[i].1@ == own.fields@[j].1@,
{
    each_is_answered(row, target.fields@, finding);
    each_is_answered(own, kind.fields@, finding.subject);
}

/// A record of a finding says what is claimed, what it rests on and where it stops; what only one
/// kind of support has is unknown under every other.
pub proof fn a_finding_shows_where_it_stops(
    row: Record,
    target: Target,
    finding: Finding,
    freshness: Freshness,
)
    requires
        target.fields@ == schema_fields(FieldSet::Why),
        call_ensures(finding_record, (&target, &finding, &freshness), row),
    ensures
        shows(row, "claim"@, ValueView::Text(finding.claim@)),
        shows(row, "claim_means"@, ValueView::Text(finding.means@)),
        shows(row, "support_class"@, ValueView::Text(
                match finding.support {
                    Support::Sequence { .. } => "sequence"@,
                    Support::Path => "path"@,
                    Support::Assertion { .. } => "assertion"@,
                    Support::Nothing { .. } => "nothing"@,
                },
            )),
        shows(row, "support"@, ValueView::Text(finding.description@)),
        shows(row, "not_proven"@, match finding.support {
                Support::Nothing { unproven } => ValueView::Text(unproven@),
                _ => ValueView::Null,
            }),
        shows(row, "clock"@, match finding.support {
                Support::Sequence { clock, .. } => ValueView::Text(clock@),
                _ => ValueView::Null,
            }),
        shows(row, "apart_ms"@, match finding.support {
                Support::Sequence { apart_millis, .. } => whole(apart_millis as nat),
                _ => ValueView::Null,
            }),
        shows(row, "evidence_class"@, match finding.support {
                Support::Assertion { class, .. } => ValueView::Text(class@),
                _ => ValueView::Null,
            }),
        shows(row, "evidence_path"@, match finding.support {
                Support::Assertion { path, .. } => text_or_null(path),
                _ => ValueView::Null,
            }),
        shows(row, "strongest_claim"@, ValueView::Text(finding.strongest_claim@)),
        shows(row, "insufficient_evidence"@, ValueView::Bool(finding.insufficient)),
        shows(row, "not_observed"@, list_of(finding.not_observed@)),
        shows(row, "uid"@, text_or_null(finding.subject.object.uid)),
        shows(row, "name"@, ValueView::Text(finding.subject.object.name@)),
        shows(row, "namespace"@, text_or_null(finding.subject.object.namespace)),
        shows(row, "api_version"@, api_version_of(finding.subject.object.gvk)),
        shows(row, "kind"@, ValueView::Text(finding.subject.object.gvk.kind@)),
{
    reveal_strlit("claim");
    reveal_strlit("claim_means");
    reveal_strlit("support_class");
    reveal_strlit("support");
    reveal_strlit("not_proven");
    reveal_strlit("clock");
    reveal_strlit("apart_ms");
    reveal_strlit("evidence_class");
    reveal_strlit("evidence_path");
    reveal_strlit("strongest_claim");
    reveal_strlit("insufficient_evidence");
    reveal_strlit("not_observed");
    reveal_strlit("uid");
    reveal_strlit("name");
    reveal_strlit("namespace");
    reveal_strlit("api_version");
    reveal_strlit("kind");
    assert("claim"@.len() == 5 && "claim"@[2] == 'a');
    assert("claim_means"@.len() == 11 && "claim_means"@[0] == 'c');
    assert("support_class"@.len() == 13 && "support_class"@[0] == 's');
    assert("support"@.len() == 7);
    assert("not_proven"@.len() == 10);
    assert("clock"@.len() == 5 && "clock"@[2] == 'o');
    assert("apart_ms"@.len() == 8);
    assert("evidence_class"@.len() == 14);
    assert("evidence_path"@.len() == 13 && "evidence_path"@[0] == 'e');
    assert("strongest_claim"@.len() == 15);
    assert("insufficient_evidence"@.len() == 21);
    assert("not_observed"@.len() == 12);
    assert("uid"@.len() == 3);
    assert("name"@.len() == 4 && "name"@[0] == 'n');
    assert("namespace"@.len() == 9);
    assert("api_version"@.len() == 11 && "api_version"@[0] == 'a');
    assert("kind"@.len() == 4 && "kind"@[0] == 'k');
    identity_is_shown(finding.subject);
    texts_are_listed(finding.not_observed@);
    one_is_answered(row, schema_fields(FieldSet::Why), finding, 5, "claim"@);
    one_is_answered(row, schema_fields(FieldSet::Why), finding, 6, "claim_means"@);
    one_is_answered(row, schema_fields(FieldSet::Why), finding, 7, "support_class"@);
    one_is_answered(row, schema_fields(FieldSet::Why), finding, 8, "support"@);
    one_is_answered(row, schema_fields(FieldSet::Why), finding, 9, "not_proven"@);
    one_is_answered(row, schema_fields(FieldSet::Why), finding, 10, "clock"@);
    one_is_answered(row, schema_fields(FieldSet::Why), finding, 11, "apart_ms"@);
    one_is_answered(row, schema_fields(FieldSet::Why), finding, 12, "evidence_class"@);
    one_is_answered(row, schema_fields(FieldSet::Why), finding, 13, "evidence_path"@);
    one_is_answered(row, schema_fields(FieldSet::Why), finding, 14, "strongest_claim"@);
    one_is_answered(row, schema_fields(FieldSet::Why), finding, 15, "insufficient_evidence"@);
    one_is_answered(row, schema_fields(FieldSet::Why), finding, 16, "not_observed"@);
    one_is_answered(row, schema_fields(FieldSet::Why), finding, 0, "uid"@);
    one_is_answered(row, schema_fields(FieldSet::Why), finding, 1, "name"@);
    one_is_answered(row, schema_fields(FieldSet::Why), finding, 2, "namespace"@);
    one_is_answered(row, schema_fields(FieldSet::Why), finding, 3, "api_version"@);
    one_is_answered(row, schema_fields(FieldSet::Why), finding, 4, "kind"@);
}

/// Whether a field is about the condition itself, rather than about the object.
pub open spec fn is_of_the_condition(name: Seq<char>) -> bool {
    name == "condition_type"@ || name == "status"@ || name == "reason"@ || name == "message"@
        || name == "observed_generation"@ || name == "generation"@
        || name == "last_transition_time"@ || name == "clock"@ || name == "reconciliation"@
}

/// A record of a condition names its subject: every field that is not about the condition shows
/// what
/// the subject's own record shows under the same name.
pub proof fn a_condition_shows_its_subject(
    row: Record,
    target: Target,
    condition: Condition,
    freshness: Freshness,
    own: Record,
    kind: Target,
    read: Freshness,
)
    requires
        call_ensures(condition_record, (&target, &condition, &freshness), row),
        call_ensures(record, (&kind, &condition.subject, &read), own),
    ensures
        forall|i: int, j: int|
            0 <= i < row.fields@.len() && 0 <= j < own.fields@.len() && (
            #[trigger] row.fields@[i]).0@ == (#[trigger] own.fields@[j]).0@
                && !is_of_the_condition(row.fields@[i].0@) ==> row.fields@[i].1@ == own.fields@[j].1@,
{
    each_is_answered(row, target.fields@, condition);
    each_is_answered(own, kind.fields@, condition.subject);
}

/// A record of a condition shows what the controller wrote, with the generation it had seen beside
/// the generation there is.
pub proof fn a_condition_shows_what_was_written(
    row: Record,
    target: Target,
    condition: Condition,
    freshness: Freshness,
)
    requires
        target.fields@ == schema_fields(FieldSet::Condition),
        call_ensures(condition_record, (&target, &condition, &freshness), row),
    ensures
        shows(row, "condition_type"@, ValueView::Text(condition.condition_type@)),
        shows(row, "status"@, ValueView::Text(condition.status@)),
        shows(row, "reason"@, text_or_null(condition.reason)),
        shows(row, "message"@, text_or_null(condition.message)),
        shows(row, "observed_generation"@, signed_or_null(condition.observed_generation)),
        shows(row, "generation"@, signed_or_null(condition.subject.object.generation)),
        shows(row, "last_transition_time"@, text_or_null(condition.last_transition_time)),
        shows(row, "clock"@, ValueView::Clock(ClockView::Unattributed)),
        shows(row, "reconciliation"@, standing_of(condition.subject.object.reconciliation)),
        shows(row, "uid"@, text_or_null(condition.subject.object.uid)),
        shows(row, "name"@, ValueView::Text(condition.subject.object.name@)),
        shows(row, "namespace"@, text_or_null(condition.subject.object.namespace)),
        shows(row, "api_version"@, api_version_of(condition.subject.object.gvk)),
        shows(row, "kind"@, ValueView::Text(condition.subject.object.gvk.kind@)),
{
    reveal_strlit("condition_type");
    reveal_strlit("status");
    reveal_strlit("reason");
    reveal_strlit("message");
    reveal_strlit("observed_generation");
    reveal_strlit("generation");
    reveal_strlit("last_transition_time");
    reveal_strlit("clock");
    reveal_strlit("reconciliation");
    reveal_strlit("uid");
    reveal_strlit("name");
    reveal_strlit("namespace");
    reveal_strlit("api_version");
    reveal_strlit("kind");
    assert("condition_type"@.len() == 14 && "condition_type"@[0] == 'c');
    assert("status"@.len() == 6 && "status"@[0] == 's');
    assert("reason"@.len() == 6 && "reason"@[0] == 'r');
    assert("message"@.len() == 7);
    assert("observed_generation"@.len() == 19);
    assert("generation"@.len() == 10);
    assert("last_transition_time"@.len() == 20);
    assert("clock"@.len() == 5);
    assert("reconciliation"@.len() == 14 && "reconciliation"@[0] == 'r');
    assert("uid"@.len() == 3);
    assert("name"@.len() == 4 && "name"@[0] == 'n');
    assert("namespace"@.len() == 9);
    assert("api_version"@.len() == 11);
    assert("kind"@.len() == 4 && "kind"@[0] == 'k');
    identity_is_shown(condition.subject);
    texts_are_listed(condition.subject.object.reconciliation.citations@);
    one_is_answered(row, schema_fields(FieldSet::Condition), condition, 5, "condition_type"@);
    one_is_answered(row, schema_fields(FieldSet::Condition), condition, 6, "status"@);
    one_is_answered(row, schema_fields(FieldSet::Condition), condition, 7, "reason"@);
    one_is_answered(row, schema_fields(FieldSet::Condition), condition, 8, "message"@);
    one_is_answered(row, schema_fields(FieldSet::Condition), condition, 9, "observed_generation"@);
    one_is_answered(row, schema_fields(FieldSet::Condition), condition, 10, "generation"@);
    one_is_answered(
        row,
        schema_fields(FieldSet::Condition),
        condition,
        11,
        "last_transition_time"@,
    );
    one_is_answered(row, schema_fields(FieldSet::Condition), condition, 12, "clock"@);
    one_is_answered(row, schema_fields(FieldSet::Condition), condition, 13, "reconciliation"@);
    one_is_answered(row, schema_fields(FieldSet::Condition), condition, 0, "uid"@);
    one_is_answered(row, schema_fields(FieldSet::Condition), condition, 1, "name"@);
    one_is_answered(row, schema_fields(FieldSet::Condition), condition, 2, "namespace"@);
    one_is_answered(row, schema_fields(FieldSet::Condition), condition, 3, "api_version"@);
    one_is_answered(row, schema_fields(FieldSet::Condition), condition, 4, "kind"@);
    standing_is_shown(condition.subject.object.reconciliation);
}

// --- the diagnostic -------------------------------------------------------------------------------

/// The record of a diagnostic shows each signal as it was observed: reachable exactly where the
/// cluster
/// answered, each identity and each version where it was obtained and unknown where it was not.
#[verifier::rlimit(40)]
pub proof fn a_diagnostic_shows_what_was_observed(
    row: Record,
    fields: Vec<Field>,
    schema: &str,
    diagnostic: Diagnostic,
)
    requires
        fields@ == schema_fields(FieldSet::Cluster),
        call_ensures(cluster_record, (&fields, schema, &diagnostic), row),
    ensures
        shows(row, "uid"@, ValueView::Text(diagnostic.instance@)),
        shows(row, "server"@, signal_or_null(diagnostic.fingerprint.origin)),
        shows(row, "reachable"@, ValueView::Bool(diagnostic.reachable)),
        shows(row, "server_version"@, signal_or_null(diagnostic.version)),
        shows(row, "tls"@, ValueView::Text(diagnostic.tls@)),
        shows(row, "fingerprint"@, text_or_null(diagnostic.digest)),
        shows(row, "fingerprint_signals"@, list_of(diagnostic.signals@)),
        shows(row, "kube_system_uid"@, signal_or_null(diagnostic.fingerprint.kube_system_uid)),
        shows(
            row,
            "server_key_fingerprint"@,
            signal_or_null(diagnostic.fingerprint.server_public_key),
        ),
        shows(row, "credential_identity"@, match diagnostic.identity.credential {
                Known::Obtained(subject) => ValueView::Text(subject.username@),
                Known::Unavailable(_) => ValueView::Null,
            }),
        shows(row, "effective_identity"@, match diagnostic.identity.effective {
                Known::Obtained(subject) => ValueView::Text(subject.username@),
                Known::Unavailable(_) => ValueView::Null,
            }),
        shows(row, "effective_uid"@, match diagnostic.identity.effective {
                Known::Obtained(subject) => text_or_null(subject.uid),
                Known::Unavailable(_) => ValueView::Null,
            }),
        shows(row, "effective_groups"@, match diagnostic.identity.effective {
                Known::Obtained(subject) => list_of(subject.groups@),
                Known::Unavailable(_) => ValueView::Null,
            }),
        shows(row, "impersonating"@, ValueView::Bool(diagnostic.identity.impersonated is Some)),
        shows(row, "impersonated_user"@, text_or_null(diagnostic.identity.impersonated)),
        shows(row, "unknowns"@, list_of(diagnostic.unknowns@)),
        shows(row, "probes"@, ValueView::Entries(probe_entries(diagnostic.probes@))),
        shows(row, "latency_ms"@, ValueView::Entries(latency_entries(diagnostic.probes@))),
        shows(
            row,
            "capabilities"@,
            ValueView::Entries(capability_entries(diagnostic.capabilities@)),
        ),
        shows(row, "discovery"@, match diagnostic.discovery {
                Some(snapshot) => discovery_of(snapshot),
                None => ValueView::Null,
            }),
        shows(row, "name"@, ValueView::Text(instance_name(diagnostic.instance@))),
{
    reveal_strlit("uid");
    reveal_strlit("name");
    reveal_strlit("server");
    reveal_strlit("server_key_fingerprint");
    reveal_strlit("kube_system_uid");
    reveal_strlit("fingerprint");
    reveal_strlit("fingerprint_signals");
    reveal_strlit("reachable");
    reveal_strlit("server_version");
    reveal_strlit("tls");
    reveal_strlit("probes");
    reveal_strlit("latency_ms");
    reveal_strlit("credential_identity");
    reveal_strlit("effective_identity");
    reveal_strlit("effective_uid");
    reveal_strlit("effective_groups");
    reveal_strlit("impersonating");
    reveal_strlit("impersonated_user");
    reveal_strlit("capabilities");
    reveal_strlit("discovery");
    reveal_strlit("unknowns");
    assert("uid"@.len() == 3 && "uid"@[0] == 'u');
    assert("name"@.len() == 4);
    assert("server"@.len() == 6 && "server"@[0] == 's');
    assert("server_key_fingerprint"@.len() == 22);
    assert("kube_system_uid"@.len() == 15);
    assert("fingerprint"@.len() == 11);
    assert("fingerprint_signals"@.len() == 19 && "fingerprint_signals"@[0] == 'f');
    assert("reachable"@.len() == 9 && "reachable"@[0] == 'r');
    assert("server_version"@.len() == 14);
    assert("tls"@.len() == 3 && "tls"@[0] == 't');
    assert("probes"@.len() == 6 && "probes"@[0] == 'p');
    assert("latency_ms"@.len() == 10);
    assert("credential_identity"@.len() == 19 && "credential_identity"@[0] == 'c');
    assert("effective_identity"@.len() == 18);
    assert("effective_uid"@.len() == 13 && "effective_uid"@[0] == 'e');
    assert("effective_groups"@.len() == 16);
    assert("impersonating"@.len() == 13 && "impersonating"@[0] == 'i');
    assert("impersonated_user"@.len() == 17);
    assert("capabilities"@.len() == 12);
    assert("discovery"@.len() == 9 && "discovery"@[0] == 'd');
    assert("unknowns"@.len() == 8);
    texts_are_listed(diagnostic.signals@);
    texts_are_listed(diagnostic.unknowns@);
    one_is_answered(row, schema_fields(FieldSet::Cluster), diagnostic, 0, "uid"@);
    one_is_answered(row, schema_fields(FieldSet::Cluster), diagnostic, 2, "server"@);
    one_is_answered(row, schema_fields(FieldSet::Cluster), diagnostic, 3, "reachable"@);
    one_is_answered(row, schema_fields(FieldSet::Cluster), diagnostic, 4, "server_version"@);
    one_is_answered(row, schema_fields(FieldSet::Cluster), diagnostic, 5, "tls"@);
    one_is_answered(row, schema_fields(FieldSet::Cluster), diagnostic, 6, "fingerprint"@);
    one_is_answered(row, schema_fields(FieldSet::Cluster), diagnostic, 7, "fingerprint_signals"@);
    one_is_answered(row, schema_fields(FieldSet::Cluster), diagnostic, 8, "kube_system_uid"@);
    one_is_answered(
        row,
        schema_fields(FieldSet::Cluster),
        diagnostic,
        9,
        "server_key_fingerprint"@,
    );
    one_is_answered(row, schema_fields(FieldSet::Cluster), diagnostic, 10, "credential_identity"@);
    one_is_answered(row, schema_fields(FieldSet::Cluster), diagnostic, 11, "effective_identity"@);
    one_is_answered(row, schema_fields(FieldSet::Cluster), diagnostic, 12, "effective_uid"@);
    one_is_answered(row, schema_fields(FieldSet::Cluster), diagnostic, 13, "effective_groups"@);
    one_is_answered(row, schema_fields(FieldSet::Cluster), diagnostic, 14, "impersonating"@);
    one_is_answered(row, schema_fields(FieldSet::Cluster), diagnostic, 15, "impersonated_user"@);
    one_is_answered(row, schema_fields(FieldSet::Cluster), diagnostic, 16, "unknowns"@);
    one_is_answered(row, schema_fields(FieldSet::Cluster), diagnostic, 17, "probes"@);
    one_is_answered(row, schema_fields(FieldSet::Cluster), diagnostic, 18, "latency_ms"@);
    one_is_answered(row, schema_fields(FieldSet::Cluster), diagnostic, 19, "capabilities"@);
    one_is_answered(row, schema_fields(FieldSet::Cluster), diagnostic, 20, "discovery"@);
    one_is_answered(row, schema_fields(FieldSet::Cluster), diagnostic, 1, "name"@);
    if let Known::Obtained(subject) = diagnostic.identity.effective {
        texts_are_listed(subject.groups@);
    }
    if let Some(snapshot) = diagnostic.discovery {
        texts_are_listed(snapshot.endpoints@);
        assert(snapshot_value(snapshot)->Entries_0 =~= discovery_of(snapshot)->Entries_0);
    }
}

// --- plans and attempts ---------------------------------------------------------------------------

/// The record of a plan shows what the change is aimed at, what it would do and undo, what guards
/// it
/// and what stands in its way, each as it was planned.
#[verifier::rlimit(60)]
pub proof fn a_plan_shows_what_it_describes(
    row: Record,
    fields: Vec<Field>,
    schema: &str,
    plan: Plan,
)
    requires
        fields@ == schema_fields(FieldSet::Plan),
        call_ensures(plan_record, (&fields, schema, &plan), row),
    ensures
        shows(row, "uid"@, text_or_null(plan.target.uid)),
        shows(row, "name"@, ValueView::Text(plan.target.name@)),
        shows(row, "namespace"@, text_or_null(plan.target.namespace)),
        shows(row, "kind"@, ValueView::Text(plan.target.kind@)),
        shows(row, "api_version"@, ValueView::Text(
                if plan.target.group@.len() == 0 {
                    plan.target.version@
                } else {
                    plan.target.group@ + "/"@ + plan.target.version@
                },
            )),
        shows(row, "resource_version"@, text_or_null(plan.target.resource_version)),
        shows(row, "action"@, ValueView::Text(plan.action_verb@)),
        shows(row, "changes"@, list_of(plan.changes@)),
        shows(row, "preconditions"@, preconditions_of(plan.preconditions)),
        shows(row, "propagation"@, text_or_null(plan.propagation)),
        shows(row, "caveats"@, list_of(plan.caveats@)),
        shows(row, "competing_writers"@, writers_of(plan.competing_writers@)),
        shows(row, "competing_writer_coverage"@, ValueView::Text(plan.competing_writer_coverage@)),
        shows(row, "contained"@, match plan.contents {
                Some(contents) => contents_of(contents.counted@),
                None => ValueView::Null,
            }),
        shows(row, "contained_coverage"@, match plan.contents {
                Some(contents) => ValueView::Text(contents.coverage@),
                None => ValueView::Null,
            }),
        shows(row, "prediction"@, ValueView::Text(STATIC_PREDICTION@)),
        shows(row, "precondition_guarded"@, ValueView::Bool(plan.precondition_guarded)),
        shows(row, "effects"@, effects_of(plan.effects@)),
        shows(row, "reversibility"@, ValueView::Text(plan.reversibility@)),
        shows(row, "recovery"@, recovery_of(plan.recovery)),
        shows(row, "dependents"@, dependents_of(plan.dependents@)),
        shows(row, "dependent_coverage"@, ValueView::Text(plan.dependent_coverage@)),
        shows(row, "preflight"@, ValueView::Text(plan.preflight@)),
        shows(row, "verification"@, ValueView::Text(plan.verification@)),
        shows(row, "verification_stage"@, text_or_null(plan.verification_stage)),
        shows(row, "statement"@, ValueView::Text(plan.statement@)),
{
    reveal_strlit("prediction");
    reveal_strlit("precondition_guarded");
    reveal_strlit("effects");
    reveal_strlit("reversibility");
    reveal_strlit("recovery");
    reveal_strlit("dependents");
    reveal_strlit("dependent_coverage");
    reveal_strlit("preflight");
    reveal_strlit("verification");
    reveal_strlit("verification_stage");
    reveal_strlit("statement");
    reveal_strlit("caveats");
    reveal_strlit("competing_writers");
    reveal_strlit("competing_writer_coverage");
    reveal_strlit("contained");
    reveal_strlit("contained_coverage");
    reveal_strlit("uid");
    reveal_strlit("name");
    reveal_strlit("namespace");
    reveal_strlit("api_version");
    reveal_strlit("kind");
    reveal_strlit("resource_version");
    reveal_strlit("action");
    reveal_strlit("changes");
    reveal_strlit("preconditions");
    reveal_strlit("propagation");
    assert("prediction"@.len() == 10 && "prediction"@[0] == 'p');
    assert("precondition_guarded"@.len() == 20);
    assert("effects"@.len() == 7 && "effects"@[1] == 'f');
    assert("reversibility"@.len() == 13 && "reversibility"@[0] == 'r');
    assert("recovery"@.len() == 8);
    assert("dependents"@.len() == 10 && "dependents"@[0] == 'd');
    assert("dependent_coverage"@.len() == 18 && "dependent_coverage"@[0] == 'd');
    assert("preflight"@.len() == 9 && "preflight"@[0] == 'p');
    assert("verification"@.len() == 12);
    assert("verification_stage"@.len() == 18 && "verification_stage"@[0] == 'v');
    assert("statement"@.len() == 9 && "statement"@[0] == 's');
    assert("caveats"@.len() == 7 && "caveats"@[1] == 'a');
    assert("competing_writers"@.len() == 17);
    assert("competing_writer_coverage"@.len() == 25);
    assert("contained"@.len() == 9 && "contained"@[0] == 'c');
    assert("contained_coverage"@.len() == 18 && "contained_coverage"@[0] == 'c');
    assert("uid"@.len() == 3);
    assert("name"@.len() == 4 && "name"@[0] == 'n');
    assert("namespace"@.len() == 9 && "namespace"@[0] == 'n');
    assert("api_version"@.len() == 11 && "api_version"@[0] == 'a');
    assert("kind"@.len() == 4 && "kind"@[0] == 'k');
    assert("resource_version"@.len() == 16);
    assert("action"@.len() == 6);
    assert("changes"@.len() == 7 && "changes"@[1] == 'h');
    assert("preconditions"@.len() == 13 && "preconditions"@[0] == 'p');
    assert("propagation"@.len() == 11 && "propagation"@[0] == 'p');
    texts_are_listed(plan.changes@);
    texts_are_listed(plan.caveats@);
    one_is_answered(row, schema_fields(FieldSet::Plan), plan, 0, "uid"@);
    one_is_answered(row, schema_fields(FieldSet::Plan), plan, 1, "name"@);
    one_is_answered(row, schema_fields(FieldSet::Plan), plan, 2, "namespace"@);
    one_is_answered(row, schema_fields(FieldSet::Plan), plan, 4, "kind"@);
    one_is_answered(row, schema_fields(FieldSet::Plan), plan, 3, "api_version"@);
    one_is_answered(row, schema_fields(FieldSet::Plan), plan, 5, "resource_version"@);
    one_is_answered(row, schema_fields(FieldSet::Plan), plan, 6, "action"@);
    one_is_answered(row, schema_fields(FieldSet::Plan), plan, 7, "changes"@);
    one_is_answered(row, schema_fields(FieldSet::Plan), plan, 8, "preconditions"@);
    one_is_answered(row, schema_fields(FieldSet::Plan), plan, 10, "propagation"@);
    one_is_answered(row, schema_fields(FieldSet::Plan), plan, 23, "caveats"@);
    one_is_answered(row, schema_fields(FieldSet::Plan), plan, 19, "competing_writers"@);
    one_is_answered(row, schema_fields(FieldSet::Plan), plan, 20, "competing_writer_coverage"@);
    one_is_answered(row, schema_fields(FieldSet::Plan), plan, 21, "contained"@);
    one_is_answered(row, schema_fields(FieldSet::Plan), plan, 22, "contained_coverage"@);
    one_is_answered(row, schema_fields(FieldSet::Plan), plan, 24, "prediction"@);
    one_is_answered(row, schema_fields(FieldSet::Plan), plan, 9, "precondition_guarded"@);
    one_is_answered(row, schema_fields(FieldSet::Plan), plan, 11, "effects"@);
    one_is_answered(row, schema_fields(FieldSet::Plan), plan, 12, "reversibility"@);
    one_is_answered(row, schema_fields(FieldSet::Plan), plan, 13, "recovery"@);
    one_is_answered(row, schema_fields(FieldSet::Plan), plan, 14, "dependents"@);
    one_is_answered(row, schema_fields(FieldSet::Plan), plan, 15, "dependent_coverage"@);
    one_is_answered(row, schema_fields(FieldSet::Plan), plan, 16, "preflight"@);
    one_is_answered(row, schema_fields(FieldSet::Plan), plan, 17, "verification"@);
    one_is_answered(row, schema_fields(FieldSet::Plan), plan, 18, "verification_stage"@);
    one_is_answered(row, schema_fields(FieldSet::Plan), plan, 25, "statement"@);
    preconditions_are_shown(plan.preconditions);
    writers_are_shown(plan.competing_writers@);
    if let Some(contents) = plan.contents {
        contents_are_shown(contents.counted@);
    }
    effects_are_shown(plan.effects@);
    recovery_is_shown(plan.recovery);
    dependents_are_shown(plan.dependents@);
}

/// The record of an attempt shows what the API server answered, whether anything was written and by
/// whom, what stood in the way, and what a later look established, each as it came back.
#[verifier::rlimit(60)]
pub proof fn an_attempt_shows_what_came_back(
    row: Record,
    fields: Vec<Field>,
    schema: &str,
    made: Made,
)
    requires
        fields@ == schema_fields(FieldSet::Mutation),
        call_ensures(mutation_record, (&fields, schema, &made), row),
    ensures
        shows(row, "uid"@, text_or_null(made.plan.target.uid)),
        shows(row, "name"@, ValueView::Text(made.plan.target.name@)),
        shows(row, "namespace"@, text_or_null(made.plan.target.namespace)),
        shows(row, "kind"@, ValueView::Text(made.plan.target.kind@)),
        shows(row, "api_version"@, ValueView::Text(
                if made.plan.target.group@.len() == 0 {
                    made.plan.target.version@
                } else {
                    made.plan.target.group@ + "/"@ + made.plan.target.version@
                },
            )),
        shows(row, "resource_version"@, text_or_null(made.plan.target.resource_version)),
        shows(row, "action"@, ValueView::Text(made.plan.action_verb@)),
        shows(row, "changes"@, list_of(made.plan.changes@)),
        shows(row, "preconditions"@, preconditions_of(made.plan.preconditions)),
        shows(row, "propagation"@, text_or_null(made.plan.propagation)),
        shows(row, "caveats"@, list_of(made.plan.caveats@)),
        shows(row, "competing_writers"@, writers_of(made.plan.competing_writers@)),
        shows(
            row,
            "competing_writer_coverage"@,
            ValueView::Text(made.plan.competing_writer_coverage@),
        ),
        shows(row, "contained"@, match made.plan.contents {
                Some(contents) => contents_of(contents.counted@),
                None => ValueView::Null,
            }),
        shows(row, "contained_coverage"@, match made.plan.contents {
                Some(contents) => ValueView::Text(contents.coverage@),
                None => ValueView::Null,
            }),
        shows(row, "acceptance"@, ValueView::Text(acceptance_text(made.accepted))),
        shows(row, "dry_run"@, ValueView::Bool(made.how.dry_run)),
        shows(row, "prediction"@, if made.how.dry_run {
                ValueView::Text(DRY_RUN_PREDICTION@)
            } else {
                ValueView::Null
            }),
        shows(row, "code"@, ValueView::Int(made.code as int)),
        shows(row, "stage"@, text_or_null(made.stage)),
        shows(row, "field_manager"@, ValueView::Text(made.how.manager@)),
        shows(row, "forced"@, ValueView::Bool(made.how.force_because is Some)),
        shows(row, "forced_because"@, text_or_null(made.how.force_because)),
        shows(row, "conflict_fields"@, match made.conflict {
                Some(conflict) => list_of(conflict.fields@),
                None => ValueView::Null,
            }),
        shows(row, "conflict_managers"@, match made.conflict {
                Some(conflict) => list_of(conflict.managers@),
                None => ValueView::Null,
            }),
        shows(row, "resolution"@, match made.conflict {
                Some(conflict) => ValueView::Text(conflict.resolution@),
                None => ValueView::Null,
            }),
        shows(row, "admission_differences"@, if made.admission@.len() == 0 {
                ValueView::Null
            } else {
                list_of(made.admission@)
            }),
        shows(row, "deletion_state"@, match made.deletion {
                Some(deletion) => ValueView::Text(deletion.state@),
                None => ValueView::Null,
            }),
        shows(row, "finalizers"@, match made.deletion {
                Some(deletion) => list_of(deletion.finalizers@),
                None => ValueView::Null,
            }),
        shows(row, "verification"@, ValueView::Text(made.plan.verification@)),
        shows(row, "verdict"@, match made.verification {
                Some(verification) => ValueView::Text(verification.verdict@),
                None => ValueView::Null,
            }),
        shows(row, "verification_detail"@, match made.verification {
                Some(verification) => ValueView::Text(verification.description@),
                None => ValueView::Null,
            }),
        shows(row, "reconciliation"@, match made.verification {
                Some(verification) => match verification.reconciliation {
                    Some(standing) => standing_after(standing),
                    None => ValueView::Null,
                },
                None => ValueView::Null,
            }),
        shows(row, "statement"@, ValueView::Text(joined(sentences(made), "; "@))),
{
    reveal_strlit("acceptance");
    reveal_strlit("dry_run");
    reveal_strlit("prediction");
    reveal_strlit("code");
    reveal_strlit("stage");
    reveal_strlit("field_manager");
    reveal_strlit("forced");
    reveal_strlit("forced_because");
    reveal_strlit("conflict_fields");
    reveal_strlit("conflict_managers");
    reveal_strlit("resolution");
    reveal_strlit("admission_differences");
    reveal_strlit("deletion_state");
    reveal_strlit("finalizers");
    reveal_strlit("verification");
    reveal_strlit("verdict");
    reveal_strlit("verification_detail");
    reveal_strlit("reconciliation");
    reveal_strlit("statement");
    reveal_strlit("caveats");
    reveal_strlit("competing_writers");
    reveal_strlit("competing_writer_coverage");
    reveal_strlit("contained");
    reveal_strlit("contained_coverage");
    reveal_strlit("uid");
    reveal_strlit("name");
    reveal_strlit("namespace");
    reveal_strlit("api_version");
    reveal_strlit("kind");
    reveal_strlit("resource_version");
    reveal_strlit("action");
    reveal_strlit("changes");
    reveal_strlit("preconditions");
    reveal_strlit("propagation");
    assert("acceptance"@.len() == 10 && "acceptance"@[0] == 'a');
    assert("dry_run"@.len() == 7 && "dry_run"@[1] == 'r');
    assert("prediction"@.len() == 10 && "prediction"@[0] == 'p');
    assert("code"@.len() == 4 && "code"@[0] == 'c');
    assert("stage"@.len() == 5);
    assert("field_manager"@.len() == 13 && "field_manager"@[0] == 'f');
    assert("forced"@.len() == 6 && "forced"@[0] == 'f');
    assert("forced_because"@.len() == 14 && "forced_because"@[0] == 'f');
    assert("conflict_fields"@.len() == 15);
    assert("conflict_managers"@.len() == 17 && "conflict_managers"@[2] == 'n');
    assert("resolution"@.len() == 10 && "resolution"@[0] == 'r');
    assert("admission_differences"@.len() == 21);
    assert("deletion_state"@.len() == 14 && "deletion_state"@[0] == 'd');
    assert("finalizers"@.len() == 10 && "finalizers"@[0] == 'f');
    assert("verification"@.len() == 12);
    assert("verdict"@.len() == 7 && "verdict"@[1] == 'e');
    assert("verification_detail"@.len() == 19);
    assert("reconciliation"@.len() == 14 && "reconciliation"@[0] == 'r');
    assert("statement"@.len() == 9 && "statement"@[0] == 's');
    assert("caveats"@.len() == 7 && "caveats"@[1] == 'a');
    assert("competing_writers"@.len() == 17 && "competing_writers"@[2] == 'm');
    assert("competing_writer_coverage"@.len() == 25);
    assert("contained"@.len() == 9 && "contained"@[0] == 'c');
    assert("contained_coverage"@.len() == 18);
    assert("uid"@.len() == 3);
    assert("name"@.len() == 4 && "name"@[0] == 'n');
    assert("namespace"@.len() == 9 && "namespace"@[0] == 'n');
    assert("api_version"@.len() == 11 && "api_version"@[0] == 'a');
    assert("kind"@.len() == 4 && "kind"@[0] == 'k');
    assert("resource_version"@.len() == 16);
    assert("action"@.len() == 6 && "action"@[0] == 'a');
    assert("changes"@.len() == 7 && "changes"@[1] == 'h');
    assert("preconditions"@.len() == 13 && "preconditions"@[0] == 'p');
    assert("propagation"@.len() == 11 && "propagation"@[0] == 'p');
    texts_are_listed(made.plan.changes@);
    texts_are_listed(made.plan.caveats@);
    texts_are_listed(made.admission@);
    one_is_answered(row, schema_fields(FieldSet::Mutation), made, 0, "uid"@);
    one_is_answered(row, schema_fields(FieldSet::Mutation), made, 1, "name"@);
    one_is_answered(row, schema_fields(FieldSet::Mutation), made, 2, "namespace"@);
    one_is_answered(row, schema_fields(FieldSet::Mutation), made, 4, "kind"@);
    one_is_answered(row, schema_fields(FieldSet::Mutation), made, 3, "api_version"@);
    one_is_answered(row, schema_fields(FieldSet::Mutation), made, 5, "resource_version"@);
    one_is_answered(row, schema_fields(FieldSet::Mutation), made, 6, "action"@);
    one_is_answered(row, schema_fields(FieldSet::Mutation), made, 7, "changes"@);
    one_is_answered(row, schema_fields(FieldSet::Mutation), made, 8, "preconditions"@);
    one_is_answered(row, schema_fields(FieldSet::Mutation), made, 23, "propagation"@);
    one_is_answered(row, schema_fields(FieldSet::Mutation), made, 28, "caveats"@);
    one_is_answered(row, schema_fields(FieldSet::Mutation), made, 29, "competing_writers"@);
    one_is_answered(row, schema_fields(FieldSet::Mutation), made, 30, "competing_writer_coverage"@);
    one_is_answered(row, schema_fields(FieldSet::Mutation), made, 31, "contained"@);
    one_is_answered(row, schema_fields(FieldSet::Mutation), made, 32, "contained_coverage"@);
    one_is_answered(row, schema_fields(FieldSet::Mutation), made, 9, "acceptance"@);
    one_is_answered(row, schema_fields(FieldSet::Mutation), made, 10, "dry_run"@);
    one_is_answered(row, schema_fields(FieldSet::Mutation), made, 11, "prediction"@);
    one_is_answered(row, schema_fields(FieldSet::Mutation), made, 12, "code"@);
    one_is_answered(row, schema_fields(FieldSet::Mutation), made, 13, "stage"@);
    one_is_answered(row, schema_fields(FieldSet::Mutation), made, 14, "field_manager"@);
    one_is_answered(row, schema_fields(FieldSet::Mutation), made, 15, "forced"@);
    one_is_answered(row, schema_fields(FieldSet::Mutation), made, 16, "forced_because"@);
    one_is_answered(row, schema_fields(FieldSet::Mutation), made, 17, "conflict_fields"@);
    one_is_answered(row, schema_fields(FieldSet::Mutation), made, 18, "conflict_managers"@);
    one_is_answered(row, schema_fields(FieldSet::Mutation), made, 19, "resolution"@);
    one_is_answered(row, schema_fields(FieldSet::Mutation), made, 20, "admission_differences"@);
    one_is_answered(row, schema_fields(FieldSet::Mutation), made, 21, "deletion_state"@);
    one_is_answered(row, schema_fields(FieldSet::Mutation), made, 22, "finalizers"@);
    one_is_answered(row, schema_fields(FieldSet::Mutation), made, 24, "verification"@);
    one_is_answered(row, schema_fields(FieldSet::Mutation), made, 25, "verdict"@);
    one_is_answered(row, schema_fields(FieldSet::Mutation), made, 26, "verification_detail"@);
    one_is_answered(row, schema_fields(FieldSet::Mutation), made, 27, "reconciliation"@);
    one_is_answered(row, schema_fields(FieldSet::Mutation), made, 33, "statement"@);
    preconditions_are_shown(made.plan.preconditions);
    writers_are_shown(made.plan.competing_writers@);
    if let Some(contents) = made.plan.contents {
        contents_are_shown(contents.counted@);
    }
    if let Some(conflict) = made.conflict {
        texts_are_listed(conflict.fields@);
        texts_are_listed(conflict.managers@);
    }
    if let Some(deletion) = made.deletion {
        texts_are_listed(deletion.finalizers@);
    }
    if let Some(verification) = made.verification {
        if let Some(standing) = verification.reconciliation {
            texts_are_listed(standing.evidence@);
            assert(standing_value(standing)->Entries_0 =~= standing_after(standing)->Entries_0);
        }
    }
}

}
