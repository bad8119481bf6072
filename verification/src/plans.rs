//! One plan, as the record that shows it.

use vstd::prelude::*;
use vstd::string::*;

use crate::discovery::{group_version, group_version_of};
use crate::emission::RECORD_REFUSED_HELP;
use crate::failure::{failure, refusal, Class, WireError};
use crate::planning::Contained;
use crate::records::{answered, build, Provenance, Record, Source};
use crate::schemas::Field;
use crate::text::{fill1, filled, same, text_view, views};
use crate::value::{
    entry_views, group_values, optional, string, text_value, texts, texts_value, value_views,
    FieldValue, ValueView,
};

verus! {

// --- values made of parts -------------------------------------------------------------------------

/// Something a record shows as one value.
pub trait Shown {
    /// The value it is shown as.
    spec fn shown(&self) -> ValueView;

    /// The value it is shown as.
    fn show(&self) -> (r: FieldValue)
        ensures
            r@ == self.shown(),
    ;
}

/// Each of some things as a value.
pub open spec fn shown_items<T: Shown>(items: Seq<T>) -> ValueView {
    ValueView::List(items.map_values(|item: T| item.shown()))
}

/// Each of some things as a value.
pub fn show_all<T: Shown>(items: &Vec<T>) -> (r: FieldValue)
    ensures
        r@ == shown_items(items@),
{
    let ghost wanted = items@.map_values(|item: T| item.shown());
    let mut out: Vec<FieldValue> = Vec::new();
    let mut i: usize = 0;
    while i < items.len()
        invariant
            i <= items.len(),
            wanted == items@.map_values(|item: T| item.shown()),
            value_views(out@) == wanted.take(i as int),
        decreases items.len() - i,
    {
        broadcast use group_values;

        out.push(items[i].show());
        i = i + 1;
        assert(wanted.take(i as int) =~= wanted.take(i - 1).push(wanted[i - 1]));
    }
    assert(wanted.take(i as int) =~= wanted);
    FieldValue::List(out)
}

/// One expected effect, with the reversibility that belongs to it rather than to the plan.
pub struct Effect {
    pub kind: String,
    pub reversibility: String,
}

impl Shown for Effect {
    open spec fn shown(&self) -> ValueView {
        ValueView::Entries(
            seq![
                ("effect"@, ValueView::Text(self.kind@)),
                ("reversibility"@, ValueView::Text(self.reversibility@)),
            ],
        )
    }

    fn show(&self) -> (r: FieldValue) {
        let entries: Vec<(String, FieldValue)> = vec![
            ("effect".to_owned(), string(self.kind.as_str())),
            ("reversibility".to_owned(), string(self.reversibility.as_str())),
        ];
        assert(entry_views(entries@) =~= self.shown()->Entries_0);
        FieldValue::Entries(entries)
    }
}

/// One object that names the target as an owner.
pub struct Dependent {
    pub uid: Option<String>,
    pub name: String,
    pub kind: String,
    pub controller: bool,
    pub blocks_owner_deletion: bool,
}

impl Shown for Dependent {
    open spec fn shown(&self) -> ValueView {
        ValueView::Entries(
            seq![
                ("uid"@, text_value(text_view(self.uid))),
                ("name"@, ValueView::Text(self.name@)),
                ("kind"@, ValueView::Text(self.kind@)),
                ("controller"@, ValueView::Bool(self.controller)),
                ("blocks_owner_deletion"@, ValueView::Bool(self.blocks_owner_deletion)),
            ],
        )
    }

    fn show(&self) -> (r: FieldValue) {
        let entries: Vec<(String, FieldValue)> = vec![
            ("uid".to_owned(), optional(&self.uid)),
            ("name".to_owned(), string(self.name.as_str())),
            ("kind".to_owned(), string(self.kind.as_str())),
            ("controller".to_owned(), FieldValue::Bool(self.controller)),
            ("blocks_owner_deletion".to_owned(), FieldValue::Bool(self.blocks_owner_deletion)),
        ];
        assert(entry_views(entries@) =~= self.shown()->Entries_0);
        FieldValue::Entries(entries)
    }
}

/// One competing desired-state writer, with the source that named it.
pub struct CompetingWriter {
    pub name: String,
    pub evidence: String,
    pub writes: String,
    pub detail: Option<String>,
}

impl Shown for CompetingWriter {
    open spec fn shown(&self) -> ValueView {
        ValueView::Entries(
            seq![
                ("name"@, ValueView::Text(self.name@)),
                ("evidence"@, ValueView::Text(self.evidence@)),
                ("writes"@, ValueView::Text(self.writes@)),
                ("detail"@, text_value(text_view(self.detail))),
            ],
        )
    }

    fn show(&self) -> (r: FieldValue) {
        let entries: Vec<(String, FieldValue)> = vec![
            ("name".to_owned(), string(self.name.as_str())),
            ("evidence".to_owned(), string(self.evidence.as_str())),
            ("writes".to_owned(), string(self.writes.as_str())),
            ("detail".to_owned(), optional(&self.detail)),
        ];
        assert(entry_views(entries@) =~= self.shown()->Entries_0);
        FieldValue::Entries(entries)
    }
}

impl Shown for Contained {
    open spec fn shown(&self) -> ValueView {
        ValueView::Entries(
            seq![
                ("gvr"@, ValueView::Text(self.gvr@)),
                ("count"@, ValueView::Int(self.count as int)),
                ("at_least"@, ValueView::Bool(self.at_least)),
            ],
        )
    }

    fn show(&self) -> (r: FieldValue) {
        let entries: Vec<(String, FieldValue)> = vec![
            ("gvr".to_owned(), string(self.gvr.as_str())),
            ("count".to_owned(), FieldValue::Int(self.count as i128)),
            ("at_least".to_owned(), FieldValue::Bool(self.at_least)),
        ];
        assert(entry_views(entries@) =~= self.shown()->Entries_0);
        FieldValue::Entries(entries)
    }
}

/// What the mutation will assert about its target.
pub struct Preconditions {
    pub resource_version: Option<String>,
    pub uid: Option<String>,
    pub guards_lost_update: bool,
    pub guards_recreation: bool,
}

impl Shown for Preconditions {
    open spec fn shown(&self) -> ValueView {
        ValueView::Entries(
            seq![
                ("resource_version"@, text_value(text_view(self.resource_version))),
                ("uid"@, text_value(text_view(self.uid))),
                ("guards_lost_update"@, ValueView::Bool(self.guards_lost_update)),
                ("guards_recreation"@, ValueView::Bool(self.guards_recreation)),
            ],
        )
    }

    fn show(&self) -> (r: FieldValue) {
        let entries: Vec<(String, FieldValue)> = vec![
            ("resource_version".to_owned(), optional(&self.resource_version)),
            ("uid".to_owned(), optional(&self.uid)),
            ("guards_lost_update".to_owned(), FieldValue::Bool(self.guards_lost_update)),
            ("guards_recreation".to_owned(), FieldValue::Bool(self.guards_recreation)),
        ];
        assert(entry_views(entries@) =~= self.shown()->Entries_0);
        FieldValue::Entries(entries)
    }
}

/// What reapplying the previous values would and would not restore: two lists and a sentence, never
/// a verdict.
pub struct Recovery {
    pub restores: Vec<String>,
    pub does_not_restore: Vec<String>,
    pub statement: String,
}

impl Shown for Recovery {
    open spec fn shown(&self) -> ValueView {
        ValueView::Entries(
            seq![
                ("restores"@, texts_value(views(self.restores@))),
                ("does_not_restore"@, texts_value(views(self.does_not_restore@))),
                ("statement"@, ValueView::Text(self.statement@)),
            ],
        )
    }

    fn show(&self) -> (r: FieldValue) {
        let entries: Vec<(String, FieldValue)> = vec![
            ("restores".to_owned(), texts(&self.restores)),
            ("does_not_restore".to_owned(), texts(&self.does_not_restore)),
            ("statement".to_owned(), string(self.statement.as_str())),
        ];
        assert(entry_views(entries@) =~= self.shown()->Entries_0);
        FieldValue::Entries(entries)
    }
}

// --- the plan -------------------------------------------------------------------------------------

/// What a change is aimed at.
pub struct ChangeTarget {
    pub uid: Option<String>,
    pub name: String,
    pub namespace: Option<String>,
    pub group: String,
    pub version: String,
    pub kind: String,
    pub resource_version: Option<String>,
}

/// What a namespace holds, and what the counting covered.
pub struct Contents {
    pub counted: Vec<Contained>,
    pub coverage: String,
}

/// A change described before it is made.
pub struct Plan {
    pub target: ChangeTarget,
    /// The word of the action.
    pub action_verb: String,
    /// Each field change in one line.
    pub changes: Vec<String>,
    pub preconditions: Preconditions,
    pub propagation: Option<String>,
    pub precondition_guarded: bool,
    pub effects: Vec<Effect>,
    pub reversibility: String,
    pub recovery: Recovery,
    pub dependents: Vec<Dependent>,
    pub dependent_coverage: String,
    pub preflight: String,
    pub verification: String,
    pub verification_stage: Option<String>,
    pub statement: String,
    pub caveats: Vec<String>,
    pub competing_writers: Vec<CompetingWriter>,
    pub competing_writer_coverage: String,
    /// What a namespace holds, for the deletion of one and for nothing else.
    pub contents: Option<Contents>,
}

pub const STATIC_PREDICTION: &'static str =
    "static provider metadata: derived from the object as it was read and from this \
    provider's own rules. No server dry run was made, so admission and defaulting are \
    unpreviewed (§21.4 of the generic provider contract, §44.5)";

impl Plan {
    /// What a record says a change is aimed at.
    pub open spec fn target_value(&self, name: Seq<char>) -> ValueView {
        if name == "uid"@ {
            text_value(text_view(self.target.uid))
        } else if name == "name"@ {
            ValueView::Text(self.target.name@)
        } else if name == "namespace"@ {
            text_value(text_view(self.target.namespace))
        } else if name == "api_version"@ {
            ValueView::Text(group_version(self.target.group@, self.target.version@))
        } else if name == "kind"@ {
            ValueView::Text(self.target.kind@)
        } else if name == "resource_version"@ {
            text_value(text_view(self.target.resource_version))
        } else if name == "action"@ {
            ValueView::Text(self.action_verb@)
        } else if name == "changes"@ {
            texts_value(views(self.changes@))
        } else if name == "preconditions"@ {
            self.preconditions.shown()
        } else if name == "propagation"@ {
            text_value(text_view(self.propagation))
        } else {
            ValueView::Null
        }
    }

    /// What a record says is true of a change beyond its target: on the record of the plan and on
    /// that of the attempt alike.
    pub open spec fn analysis_value(&self, name: Seq<char>) -> ValueView {
        if name == "caveats"@ {
            texts_value(views(self.caveats@))
        } else if name == "competing_writers"@ {
            shown_items(self.competing_writers@)
        } else if name == "competing_writer_coverage"@ {
            ValueView::Text(self.competing_writer_coverage@)
        } else if name == "contained"@ {
            match self.contents {
                Some(contents) => shown_items(contents.counted@),
                None => ValueView::Null,
            }
        } else if name == "contained_coverage"@ {
            match self.contents {
                Some(contents) => ValueView::Text(contents.coverage@),
                None => ValueView::Null,
            }
        } else {
            self.target_value(name)
        }
    }

    /// The fields a plan record and a mutation record share: what the change is aimed at.
    pub fn target_field(&self, name: &str) -> (r: FieldValue)
        ensures
            r@ == self.target_value(name@),
    {
        if same(name, "uid") {
            optional(&self.target.uid)
        } else if same(name, "name") {
            string(self.target.name.as_str())
        } else if same(name, "namespace") {
            optional(&self.target.namespace)
        } else if same(name, "api_version") {
            FieldValue::Text(
                group_version_of(self.target.group.as_str(), self.target.version.as_str()),
            )
        } else if same(name, "kind") {
            string(self.target.kind.as_str())
        } else if same(name, "resource_version") {
            optional(&self.target.resource_version)
        } else if same(name, "action") {
            string(self.action_verb.as_str())
        } else if same(name, "changes") {
            texts(&self.changes)
        } else if same(name, "preconditions") {
            self.preconditions.show()
        } else if same(name, "propagation") {
            optional(&self.propagation)
        } else {
            FieldValue::Null
        }
    }

    /// The fields a plan record and a mutation record share about what else is true of the change.
    pub fn analysis_field(&self, name: &str) -> (r: FieldValue)
        ensures
            r@ == self.analysis_value(name@),
    {
        if same(name, "caveats") {
            texts(&self.caveats)
        } else if same(name, "competing_writers") {
            show_all(&self.competing_writers)
        } else if same(name, "competing_writer_coverage") {
            string(self.competing_writer_coverage.as_str())
        } else if same(name, "contained") {
            match &self.contents {
                Some(contents) => show_all(&contents.counted),
                None => FieldValue::Null,
            }
        } else if same(name, "contained_coverage") {
            match &self.contents {
                Some(contents) => string(contents.coverage.as_str()),
                None => FieldValue::Null,
            }
        } else {
            self.target_field(name)
        }
    }
}

impl Source for Plan {
    open spec fn answers(&self, name: Seq<char>) -> bool {
        true
    }

    open spec fn value_of(&self, name: Seq<char>) -> ValueView {
        if name == "prediction"@ {
            ValueView::Text(STATIC_PREDICTION@)
        } else if name == "precondition_guarded"@ {
            ValueView::Bool(self.precondition_guarded)
        } else if name == "effects"@ {
            shown_items(self.effects@)
        } else if name == "reversibility"@ {
            ValueView::Text(self.reversibility@)
        } else if name == "recovery"@ {
            self.recovery.shown()
        } else if name == "dependents"@ {
            shown_items(self.dependents@)
        } else if name == "dependent_coverage"@ {
            ValueView::Text(self.dependent_coverage@)
        } else if name == "preflight"@ {
            ValueView::Text(self.preflight@)
        } else if name == "verification"@ {
            ValueView::Text(self.verification@)
        } else if name == "verification_stage"@ {
            text_value(text_view(self.verification_stage))
        } else if name == "statement"@ {
            ValueView::Text(self.statement@)
        } else {
            self.analysis_value(name)
        }
    }

    fn value(&self, name: &str) -> (r: FieldValue) {
        if same(name, "prediction") {
            string(STATIC_PREDICTION)
        } else if same(name, "precondition_guarded") {
            FieldValue::Bool(self.precondition_guarded)
        } else if same(name, "effects") {
            show_all(&self.effects)
        } else if same(name, "reversibility") {
            string(self.reversibility.as_str())
        } else if same(name, "recovery") {
            self.recovery.show()
        } else if same(name, "dependents") {
            show_all(&self.dependents)
        } else if same(name, "dependent_coverage") {
            string(self.dependent_coverage.as_str())
        } else if same(name, "preflight") {
            string(self.preflight.as_str())
        } else if same(name, "verification") {
            string(self.verification.as_str())
        } else if same(name, "verification_stage") {
            optional(&self.verification_stage)
        } else if same(name, "statement") {
            string(self.statement.as_str())
        } else {
            self.analysis_field(name)
        }
    }
}

/// One plan, as a record of its schema.
pub fn plan_record(fields: &Vec<Field>, schema: &str, plan: &Plan) -> (r: Record)
    ensures
        r.provenance.is_local(schema@),
        entry_views(r.fields@) == answered(fields@, *plan),
{
    Record { provenance: Provenance::local(schema), fields: build(fields, plan) }
}

pub const PLAN_NOT_TAKEN: &'static str = "the host refused the plan: {}";

/// A plan the host would not take.
pub fn plan_refused(error: &str) -> (r: WireError)
    ensures
        r@ == refusal(
            Class::Unavailable,
            filled(PLAN_NOT_TAKEN@, seq![error@]),
            RECORD_REFUSED_HELP@,
        ),
{
    failure(Class::Unavailable, fill1(PLAN_NOT_TAKEN, error), RECORD_REFUSED_HELP)
}

}
