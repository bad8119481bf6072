//! A Kubernetes object, and everything that is said about one, as the record a pipeline works with.
//!
//! The input is always a [`Guarded`]: a Secret's payload is destroyed at the boundary rather than
//! filtered on the way out, so there is one door into the emission path. Every record holds exactly
//! the fields its schema declares, in the order it declares them.

use vstd::prelude::*;
use vstd::string::*;

use crate::calendar::{instant_text, rfc3339};
use crate::contributions::{Target, PACKAGE};
use crate::discovery::{Resource, Scope};
use crate::document::is_document;
use crate::dynamic::scope_word;
use crate::fields::{field_value, field_value_of, reconciliation, reconciliation_value};
use crate::objects::{Guarded, Object};
use crate::projection::Content;
use crate::schemas::{only_a_pod_sums_restarts, schema_fields, Field, FieldSet};
use crate::text::{fill5, filled, group_views, join3, same, text_view, views};
use crate::value::{
    count, count_i64, entry_views, group_values, optional, string, text_value, texts, texts_value,
    Clock, ClockView, FieldValue, ValueView,
};

verus! {

// --- what a read says about itself ----------------------------------------------------------------

/// How this provider came by an object.
#[derive(Debug, Clone, Copy, PartialEq, Eq, Structural)]
pub enum Origin {
    DirectRead,
    Cache,
    WatchEvent,
}

/// Which REST surface answered.
#[derive(Debug, Clone, Copy, PartialEq, Eq, Structural)]
pub enum EndpointCategory {
    Core,
    Group,
}

/// What a read states about itself: when, by whom, of what, from where and how.
#[derive(Debug, PartialEq, Eq)]
pub struct Freshness {
    pub provider_instance: String,
    pub origin: Origin,
    pub scope: String,
    pub endpoint: EndpointCategory,
    pub resource_version: Option<String>,
    /// When it was observed, in Unix milliseconds.
    pub observed_at: u64,
}

impl Freshness {
    /// The version that was read, or the word for one that is not known.
    pub open spec fn version_text(self) -> Seq<char> {
        match self.resource_version {
            Some(version) => version@,
            None => UNKNOWN_VERSION@,
        }
    }
}

/// Where a record comes from.
#[derive(Debug, PartialEq, Eq)]
pub struct Provenance {
    pub package: String,
    pub schema: String,
    /// What the read states about itself, where there was one.
    pub source: Option<String>,
    /// When it was observed, as RFC 3339 text.
    pub observed: Option<String>,
}

/// One record.
#[derive(Debug, PartialEq)]
pub struct Record {
    pub provenance: Provenance,
    /// Each field with its value, in the order the schema declares them.
    pub fields: Vec<(String, FieldValue)>,
}

pub const PROVENANCE: &'static str =
    "provider_instance={} origin={} scope={} endpoint={} resource_version={}";

pub const UNKNOWN_VERSION: &'static str = "unknown";

/// How this provider came by an object, in the word a reader sees.
pub open spec fn origin_text(origin: Origin) -> Seq<char> {
    match origin {
        Origin::DirectRead => "direct-read"@,
        Origin::Cache => "cache"@,
        Origin::WatchEvent => "watch-event"@,
    }
}

/// Which REST surface answered, in the word a reader sees.
pub open spec fn endpoint_text(endpoint: EndpointCategory) -> Seq<char> {
    match endpoint {
        EndpointCategory::Core => "core"@,
        EndpointCategory::Group => "group"@,
    }
}

/// How this provider came by the object, in the word a reader sees.
fn origin_word(origin: Origin) -> (r: &'static str)
    ensures
        r@ == origin_text(origin),
{
    match origin {
        Origin::DirectRead => "direct-read",
        Origin::Cache => "cache",
        Origin::WatchEvent => "watch-event",
    }
}

/// Which REST surface answered.
fn endpoint_word(endpoint: EndpointCategory) -> (r: &'static str)
    ensures
        r@ == endpoint_text(endpoint),
{
    match endpoint {
        EndpointCategory::Core => "core",
        EndpointCategory::Group => "group",
    }
}

impl Provenance {
    /// Whether this is what a read of a schema says about itself.
    pub open spec fn states(self, schema: Seq<char>, freshness: Freshness) -> bool {
        &&& self.package@ == PACKAGE@
        &&& self.schema@ == schema
        &&& text_view(self.source) == Some(
            filled(
                PROVENANCE@,
                seq![
                    freshness.provider_instance@,
                    origin_text(freshness.origin),
                    freshness.scope@,
                    endpoint_text(freshness.endpoint),
                    freshness.version_text(),
                ],
            ),
        )
        &&& text_view(self.observed) == Some(instant_text(freshness.observed_at as nat))
    }
}

impl Provenance {
    /// Whether this says of a record of a schema only that it is this package's own.
    pub open spec fn is_local(self, schema: Seq<char>) -> bool {
        self.package@ == PACKAGE@ && self.schema@ == schema && self.source is None && self.observed
            is None
    }

    /// The provenance of a record that is about a session or a change rather than about one read.
    pub fn local(schema: &str) -> (r: Provenance)
        ensures
            r.is_local(schema@),
    {
        Provenance {
            package: PACKAGE.to_owned(),
            schema: schema.to_owned(),
            source: None,
            observed: None,
        }
    }
}

/// The record's provenance, carrying what a read is required to state about itself.
fn provenance(schema: &str, freshness: &Freshness) -> (r: Provenance)
    ensures
        r.states(schema@, *freshness),
{
    let version: &str = match &freshness.resource_version {
        Some(version) => version.as_str(),
        None => UNKNOWN_VERSION,
    };
    assert(version@ == freshness.version_text());
    Provenance {
        package: PACKAGE.to_owned(),
        schema: schema.to_owned(),
        source: Some(
            fill5(
                PROVENANCE,
                freshness.provider_instance.as_str(),
                origin_word(freshness.origin),
                freshness.scope.as_str(),
                endpoint_word(freshness.endpoint),
                version,
            ),
        ),
        observed: Some(rfc3339(freshness.observed_at)),
    }
}

/// A Unix millisecond instant, as the value model's timestamp.
pub fn instant(unix_millis: u64) -> (r: FieldValue)
    ensures
        r@ == ValueView::Instant(instant_text(unix_millis as nat)),
{
    FieldValue::Instant(rfc3339(unix_millis))
}

// --- building a record ----------------------------------------------------------------------------

/// Something that answers for the fields of a record by name.
pub trait Source {
    /// Whether it can answer for a field.
    spec fn answers(&self, name: Seq<char>) -> bool;

    /// The value of a field.
    spec fn value_of(&self, name: Seq<char>) -> ValueView;

    /// The value of a field.
    fn value(&self, name: &str) -> (r: FieldValue)
        requires
            self.answers(name@),
        ensures
            r@ == self.value_of(name@),
    ;
}

/// Whether a source can answer for every field a schema declares.
pub open spec fn answers_all<S: Source>(source: S, fields: Seq<Field>) -> bool {
    forall|i: int| 0 <= i < fields.len() ==> source.answers((#[trigger] fields[i]).name@)
}

/// The fields of a record: each that the schema declares, in order, with its value.
pub open spec fn answered<S: Source>(fields: Seq<Field>, source: S) -> Seq<(Seq<char>, ValueView)> {
    fields.map_values(|field: Field| (field.name@, source.value_of(field.name@)))
}

/// The fields of a record: each that the schema declares, in order, with its value.
pub fn build<S: Source>(fields: &Vec<Field>, source: &S) -> (r: Vec<(String, FieldValue)>)
    requires
        answers_all(*source, fields@),
    ensures
        entry_views(r@) == answered(fields@, *source),
{
    let ghost wanted = answered(fields@, *source);
    let mut out: Vec<(String, FieldValue)> = Vec::new();
    let mut i: usize = 0;
    while i < fields.len()
        invariant
            i <= fields.len(),
            answers_all(*source, fields@),
            wanted == answered(fields@, *source),
            entry_views(out@) == wanted.take(i as int),
        decreases fields.len() - i,
    {
        broadcast use group_values;

        let value: FieldValue = source.value(fields[i].name);
        out.push((fields[i].name.to_owned(), value));
        i = i + 1;
        assert(wanted.take(i as int) =~= wanted.take(i - 1).push(wanted[i - 1]));
    }
    assert(wanted.take(i as int) =~= wanted);
    out
}

impl Record {
    /// Whether this is the record of a target's schema that a source answers for.
    pub open spec fn records<S: Source>(self, target: Target, source: S, freshness: Freshness) -> bool {
        &&& self.provenance.states(target.schema@, freshness)
        &&& entry_views(self.fields@) == answered(target.fields@, source)
    }
}

/// One record of a target's schema, from whatever answers for its fields.
fn recorded<S: Source>(target: &Target, source: &S, freshness: &Freshness) -> (r: Record)
    requires
        answers_all(*source, target.fields@),
    ensures
        r.records(*target, *source, *freshness),
{
    Record {
        provenance: provenance(target.schema, freshness),
        fields: build(&target.fields, source),
    }
}

// --- small readings -------------------------------------------------------------------------------

/// A size as far as an `i64` goes.
pub open spec fn capped(n: nat) -> int {
    if n <= i64::MAX {
        n as int
    } else {
        i64::MAX as int
    }
}

/// A count, or null where there was none.
pub open spec fn count_value(n: Option<u64>) -> ValueView {
    match n {
        Some(n) => ValueView::Int(capped(n as nat)),
        None => ValueView::Null,
    }
}

/// A signed count, or null where there was none.
pub open spec fn signed_value(n: Option<i64>) -> ValueView {
    match n {
        Some(n) => ValueView::Int(n as int),
        None => ValueView::Null,
    }
}

/// A size as far as an `i64` goes.
fn size(n: usize) -> (r: FieldValue)
    ensures
        r@ == ValueView::Int(capped(n as nat)),
{
    count(Some(n as u64))
}

/// The scope word a record reports.
pub open spec fn scope_text(scope: Scope) -> Seq<char> {
    match scope {
        Scope::Namespaced => "namespaced"@,
        Scope::Cluster => "cluster"@,
    }
}

/// Each supporting fact with its own class.
pub open spec fn support_lines(supporting: Seq<(String, String)>) -> Seq<Seq<char>> {
    supporting.map_values(|pair: (String, String)| pair.0@ + ": "@ + pair.1@)
}

/// Each supporting fact with its own class.
fn lines_of_support(supporting: &Vec<(String, String)>) -> (r: Vec<String>)
    ensures
        views(r@) == support_lines(supporting@),
{
    let ghost wanted = support_lines(supporting@);
    let mut out: Vec<String> = Vec::new();
    let mut i: usize = 0;
    while i < supporting.len()
        invariant
            i <= supporting.len(),
            wanted == support_lines(supporting@),
            views(out@) == wanted.take(i as int),
        decreases supporting.len() - i,
    {
        broadcast use group_views;

        out.push(join3(supporting[i].0.as_str(), ": ", supporting[i].1.as_str()));
        i = i + 1;
        assert(wanted.take(i as int) =~= wanted.take(i - 1).push(wanted[i - 1]));
    }
    assert(wanted.take(i as int) =~= wanted);
    out
}

/// Whose clock wrote an Event's time: the reporting controller's where it names one, nobody's in
/// particular where it does not, and never this provider's.
pub open spec fn reporting_clock(controller: Option<Seq<char>>) -> ClockView {
    match controller {
        Some(controller) => ClockView::Reporter(controller),
        None => ClockView::Unattributed,
    }
}

/// Which machine's clock wrote an Event's `eventTime`.
fn event_clock(controller: &Option<String>) -> (r: Clock)
    ensures
        r@ == reporting_clock(text_view(*controller)),
{
    match controller {
        Some(controller) => Clock::Reporter(controller.clone()),
        None => Clock::Unattributed,
    }
}

/// Which of the four shapes of support a finding rests on.
pub open spec fn support_word(support: Support) -> Seq<char> {
    match support {
        Support::Sequence { .. } => "sequence"@,
        Support::Path => "path"@,
        Support::Assertion { .. } => "assertion"@,
        Support::Nothing { .. } => "nothing"@,
    }
}

/// Which of the four shapes of support a finding rests on.
fn support_class(support: &Support) -> (r: &'static str)
    ensures
        r@ == support_word(*support),
{
    match support {
        Support::Sequence { .. } => "sequence",
        Support::Path => "path",
        Support::Assertion { .. } => "assertion",
        Support::Nothing { .. } => "nothing",
    }
}

impl Evidence {
    /// The decomposition that belongs to this fact: only to the one that is an identifier shaped
    /// like a URI, and to no other.
    pub open spec fn shape(self) -> Option<UriShape> {
        match self.exported {
            Exported::Observed(item) => if item.is_provider_id {
                self.provider_shape
            } else {
                None
            },
            Exported::Unobserved(_) => None,
        }
    }

    /// The decomposition that belongs to this fact.
    fn decomposed(&self) -> (r: Option<&UriShape>)
        ensures
            match r {
                Some(shape) => self.shape() == Some(*shape),
                None => self.shape() is None,
            },
    {
        match &self.exported {
            Exported::Observed(item) => if item.is_provider_id {
                self.provider_shape.as_ref()
            } else {
                None
            },
            Exported::Unobserved(_) => None,
        }
    }
}

// --- what records are built from ------------------------------------------------------------------

impl Source for Guarded {
    open spec fn answers(&self, name: Seq<char>) -> bool {
        self.object.shows(name)
    }

    open spec fn value_of(&self, name: Seq<char>) -> ValueView {
        field_value_of(name, *self)
    }

    fn value(&self, name: &str) -> (r: FieldValue) {
        field_value(name, self)
    }
}

/// One relationship of an object, with the evidence it rests on.
pub struct Edge {
    /// The object the edge starts at.
    pub source: Guarded,
    /// The word `follow` takes.
    pub relation: String,
    /// Where it starts and where it points, as addresses.
    pub here: String,
    pub there: String,
    pub target_kind: String,
    pub target_name: String,
    /// `None` is cluster scope and never "wherever the source lives".
    pub target_namespace: Option<String>,
    pub target_uid: Option<String>,
    /// Whether anybody read the far end.
    pub target_resolved: bool,
    /// The roles of the far end beside its kind; an empty list is a kind with no role.
    pub target_roles: Vec<String>,
    pub evidence_class: String,
    pub evidence: String,
    /// The pointer, for the classes that rest on one field.
    pub evidence_path: Option<String>,
    /// Whether this provider derived it rather than the server stating it.
    pub asserted: bool,
    /// What qualifies the edge without deciding it: class and description.
    pub supporting: Vec<(String, String)>,
}

impl Source for Edge {
    open spec fn answers(&self, name: Seq<char>) -> bool {
        self.source.object.shows(name)
    }

    open spec fn value_of(&self, name: Seq<char>) -> ValueView {
        if name == "relation"@ {
            ValueView::Text(self.relation@)
        } else if name == "source"@ {
            ValueView::Text(self.here@)
        } else if name == "target"@ {
            ValueView::Text(self.there@)
        } else if name == "target_kind"@ {
            ValueView::Text(self.target_kind@)
        } else if name == "target_name"@ {
            ValueView::Text(self.target_name@)
        } else if name == "target_namespace"@ {
            text_value(text_view(self.target_namespace))
        } else if name == "target_uid"@ {
            text_value(text_view(self.target_uid))
        } else if name == "target_resolved"@ {
            ValueView::Bool(self.target_resolved)
        } else if name == "target_roles"@ {
            texts_value(views(self.target_roles@))
        } else if name == "evidence_class"@ {
            ValueView::Text(self.evidence_class@)
        } else if name == "evidence"@ {
            ValueView::Text(self.evidence@)
        } else if name == "evidence_path"@ {
            text_value(text_view(self.evidence_path))
        } else if name == "asserted"@ {
            ValueView::Bool(self.asserted)
        } else if name == "supporting"@ {
            texts_value(support_lines(self.supporting@))
        } else {
            field_value_of(name, self.source)
        }
    }

    fn value(&self, name: &str) -> (r: FieldValue) {
        if same(name, "relation") {
            string(self.relation.as_str())
        } else if same(name, "source") {
            string(self.here.as_str())
        } else if same(name, "target") {
            string(self.there.as_str())
        } else if same(name, "target_kind") {
            string(self.target_kind.as_str())
        } else if same(name, "target_name") {
            string(self.target_name.as_str())
        } else if same(name, "target_namespace") {
            optional(&self.target_namespace)
        } else if same(name, "target_uid") {
            optional(&self.target_uid)
        } else if same(name, "target_resolved") {
            FieldValue::Bool(self.target_resolved)
        } else if same(name, "target_roles") {
            texts(&self.target_roles)
        } else if same(name, "evidence_class") {
            string(self.evidence_class.as_str())
        } else if same(name, "evidence") {
            string(self.evidence.as_str())
        } else if same(name, "evidence_path") {
            optional(&self.evidence_path)
        } else if same(name, "asserted") {
            FieldValue::Bool(self.asserted)
        } else if same(name, "supporting") {
            texts(&lines_of_support(&self.supporting))
        } else {
            field_value(name, &self.source)
        }
    }
}

/// One object of a resource this package has never heard of.
pub struct Discovered {
    pub guarded: Guarded,
    pub resource: Resource,
    /// Where the typing came from, as the record reports it.
    pub schema_source: String,
    pub content: Content,
}

impl Source for Discovered {
    open spec fn answers(&self, name: Seq<char>) -> bool {
        self.guarded.object.shows(name)
    }

    open spec fn value_of(&self, name: Seq<char>) -> ValueView {
        if name == "api_group"@ {
            ValueView::Text(self.resource.group@)
        } else if name == "resource_name"@ {
            ValueView::Text(self.resource.plural@)
        } else if name == "scope"@ {
            ValueView::Text(scope_text(self.resource.scope))
        } else if name == "schema_source"@ {
            ValueView::Text(self.schema_source@)
        } else if name == "precision"@ {
            ValueView::Text(self.content.precision.word())
        } else if name == "spec"@ {
            self.content.desired@
        } else if name == "status"@ {
            self.content.observed@
        } else if name == "other"@ {
            self.content.other@
        } else if name == "untyped"@ {
            texts_value(views(self.content.untyped@))
        } else {
            field_value_of(name, self.guarded)
        }
    }

    fn value(&self, name: &str) -> (r: FieldValue) {
        if same(name, "api_group") {
            string(self.resource.group.as_str())
        } else if same(name, "resource_name") {
            string(self.resource.plural.as_str())
        } else if same(name, "scope") {
            string(scope_word(self.resource.scope))
        } else if same(name, "schema_source") {
            string(self.schema_source.as_str())
        } else if same(name, "precision") {
            string(self.content.precision.as_str())
        } else if same(name, "spec") {
            self.content.desired.clone()
        } else if same(name, "status") {
            self.content.observed.clone()
        } else if same(name, "other") {
            self.content.other.clone()
        } else if same(name, "untyped") {
            texts(&self.content.untyped)
        } else {
            field_value(name, &self.guarded)
        }
    }
}

/// One observed change, or one period that was not observed, with its continuity.
pub struct Change {
    /// `listed`, `added`, `modified`, `deleted`, `gap` or `notice`.
    pub class: String,
    /// The REST collection being observed.
    pub resource: String,
    /// What was asked about.
    pub scope: String,
    /// Which unbroken period of observation this record belongs to, counting from one.
    pub segment: usize,
    /// Whether observation has been unbroken from the acquisition to this record.
    pub continuous: bool,
    /// What the connection may honestly say of itself right now.
    pub sync_state: String,
    /// What a reader is looking at right now.
    pub view_state: String,
    /// How many objects the view is not holding.
    pub withheld: usize,
    /// Why continuity broke, for the record that reports a break.
    pub gap_reason: Option<String>,
    /// The break with both of its edges.
    pub gap_detail: Option<String>,
    /// The object it happened to, absent for what is about a period rather than an object.
    pub object: Option<Guarded>,
}

impl Source for Change {
    open spec fn answers(&self, name: Seq<char>) -> bool {
        self.object matches Some(guarded) ==> guarded.object.shows(name)
    }

    open spec fn value_of(&self, name: Seq<char>) -> ValueView {
        if name == "change"@ {
            ValueView::Text(self.class@)
        } else if name == "resource"@ {
            ValueView::Text(self.resource@)
        } else if name == "scope"@ {
            ValueView::Text(self.scope@)
        } else if name == "segment"@ {
            ValueView::Int(capped(self.segment as nat))
        } else if name == "continuous"@ {
            ValueView::Bool(self.continuous)
        } else if name == "sync_state"@ {
            ValueView::Text(self.sync_state@)
        } else if name == "view_state"@ {
            ValueView::Text(self.view_state@)
        } else if name == "withheld"@ {
            ValueView::Int(capped(self.withheld as nat))
        } else if name == "gap_reason"@ {
            text_value(text_view(self.gap_reason))
        } else if name == "gap_detail"@ {
            text_value(text_view(self.gap_detail))
        } else {
            match self.object {
                Some(guarded) => field_value_of(name, guarded),
                None => ValueView::Null,
            }
        }
    }

    fn value(&self, name: &str) -> (r: FieldValue) {
        if same(name, "change") {
            string(self.class.as_str())
        } else if same(name, "resource") {
            string(self.resource.as_str())
        } else if same(name, "scope") {
            string(self.scope.as_str())
        } else if same(name, "segment") {
            size(self.segment)
        } else if same(name, "continuous") {
            FieldValue::Bool(self.continuous)
        } else if same(name, "sync_state") {
            string(self.sync_state.as_str())
        } else if same(name, "view_state") {
            string(self.view_state.as_str())
        } else if same(name, "withheld") {
            size(self.withheld)
        } else if same(name, "gap_reason") {
            optional(&self.gap_reason)
        } else if same(name, "gap_detail") {
            optional(&self.gap_detail)
        } else {
            match &self.object {
                Some(guarded) => field_value(name, guarded),
                None => FieldValue::Null,
            }
        }
    }
}

/// What an Event is about.
pub struct Regarding {
    pub kind: String,
    pub name: String,
    pub namespace: Option<String>,
    pub uid: Option<String>,
}

/// One Event, with the object it is. An aggregated Event is one of these however many occurrences
/// it counts.
pub struct Reported {
    pub guarded: Guarded,
    pub representation: String,
    pub level: String,
    pub reason: Option<String>,
    pub note: Option<String>,
    pub action: Option<String>,
    pub regarding: Option<Regarding>,
    /// The address of what it is about, where the reference names something completely enough.
    pub place: Option<String>,
    /// The kind and the name of what it relates to.
    pub related: Option<(String, String)>,
    pub controller: Option<String>,
    pub instance: Option<String>,
    pub event_time: Option<String>,
    /// Whether it stands for more than one occurrence.
    pub aggregate: bool,
    pub recorded_count: Option<u64>,
    pub series_count: Option<u64>,
    pub series_last_observed: Option<String>,
    pub first_seen: Option<String>,
    pub last_seen: Option<String>,
}

impl Source for Reported {
    open spec fn answers(&self, name: Seq<char>) -> bool {
        self.guarded.object.shows(name)
    }

    open spec fn value_of(&self, name: Seq<char>) -> ValueView {
        if name == "representation"@ {
            ValueView::Text(self.representation@)
        } else if name == "level"@ {
            ValueView::Text(self.level@)
        } else if name == "reason"@ {
            text_value(text_view(self.reason))
        } else if name == "note"@ {
            text_value(text_view(self.note))
        } else if name == "action"@ {
            text_value(text_view(self.action))
        } else if name == "regarding"@ {
            text_value(text_view(self.place))
        } else if name == "regarding_kind"@ {
            match self.regarding {
                Some(target) => ValueView::Text(target.kind@),
                None => ValueView::Null,
            }
        } else if name == "regarding_name"@ {
            match self.regarding {
                Some(target) => ValueView::Text(target.name@),
                None => ValueView::Null,
            }
        } else if name == "regarding_namespace"@ {
            match self.regarding {
                Some(target) => text_value(text_view(target.namespace)),
                None => ValueView::Null,
            }
        } else if name == "regarding_uid"@ {
            match self.regarding {
                Some(target) => text_value(text_view(target.uid)),
                None => ValueView::Null,
            }
        } else if name == "related"@ {
            match self.related {
                Some((kind, other)) => ValueView::Text(kind@ + "/"@ + other@),
                None => ValueView::Null,
            }
        } else if name == "reporting_controller"@ {
            text_value(text_view(self.controller))
        } else if name == "reporting_instance"@ {
            text_value(text_view(self.instance))
        } else if name == "event_time"@ {
            text_value(text_view(self.event_time))
        } else if name == "clock"@ {
            ValueView::Clock(reporting_clock(text_view(self.controller)))
        } else if name == "aggregate"@ {
            ValueView::Bool(self.aggregate)
        } else if name == "recorded_count"@ {
            count_value(self.recorded_count)
        } else if name == "series_count"@ {
            count_value(self.series_count)
        } else if name == "series_last_observed"@ {
            text_value(text_view(self.series_last_observed))
        } else if name == "first_seen"@ {
            text_value(text_view(self.first_seen))
        } else if name == "last_seen"@ {
            text_value(text_view(self.last_seen))
        } else {
            field_value_of(name, self.guarded)
        }
    }

    fn value(&self, name: &str) -> (r: FieldValue) {
        if same(name, "representation") {
            string(self.representation.as_str())
        } else if same(name, "level") {
            string(self.level.as_str())
        } else if same(name, "reason") {
            optional(&self.reason)
        } else if same(name, "note") {
            optional(&self.note)
        } else if same(name, "action") {
            optional(&self.action)
        } else if same(name, "regarding") {
            optional(&self.place)
        } else if same(name, "regarding_kind") {
            match &self.regarding {
                Some(target) => string(target.kind.as_str()),
                None => FieldValue::Null,
            }
        } else if same(name, "regarding_name") {
            match &self.regarding {
                Some(target) => string(target.name.as_str()),
                None => FieldValue::Null,
            }
        } else if same(name, "regarding_namespace") {
            match &self.regarding {
                Some(target) => optional(&target.namespace),
                None => FieldValue::Null,
            }
        } else if same(name, "regarding_uid") {
            match &self.regarding {
                Some(target) => optional(&target.uid),
                None => FieldValue::Null,
            }
        } else if same(name, "related") {
            match &self.related {
                Some((kind, other)) => FieldValue::Text(
                    join3(kind.as_str(), "/", other.as_str()),
                ),
                None => FieldValue::Null,
            }
        } else if same(name, "reporting_controller") {
            optional(&self.controller)
        } else if same(name, "reporting_instance") {
            optional(&self.instance)
        } else if same(name, "event_time") {
            optional(&self.event_time)
        } else if same(name, "clock") {
            FieldValue::Clock(event_clock(&self.controller))
        } else if same(name, "aggregate") {
            FieldValue::Bool(self.aggregate)
        } else if same(name, "recorded_count") {
            count(self.recorded_count)
        } else if same(name, "series_count") {
            count(self.series_count)
        } else if same(name, "series_last_observed") {
            optional(&self.series_last_observed)
        } else if same(name, "first_seen") {
            optional(&self.first_seen)
        } else if same(name, "last_seen") {
            optional(&self.last_seen)
        } else {
            field_value(name, &self.guarded)
        }
    }
}

/// A value an object states about a system outside, with where it was read and how far it goes.
pub struct IdentityEvidence {
    pub key: String,
    pub qualifier: Option<String>,
    pub value: String,
    /// The pointer it was read at.
    pub source: String,
    pub strength: String,
    pub class: String,
    pub description: String,
    pub asserted: bool,
    pub lookup_key: bool,
    /// Whether it is the one fact that is an identifier shaped like a URI.
    pub is_provider_id: bool,
}

/// A key that could not be read, and whether that is about the cluster or about the read.
pub struct Unobserved {
    pub key: String,
    pub outcome: String,
}

/// One row of an object's exported evidence: a value that was read, or a key that was not.
pub enum Exported {
    Observed(IdentityEvidence),
    Unobserved(Unobserved),
}

/// How an identifier shaped like a URI decomposes, and no further.
pub struct UriShape {
    pub scheme: String,
    pub path: String,
}

/// One exported fact, with the object that states it. Nothing here presents a match.
pub struct Evidence {
    pub guarded: Guarded,
    /// The address of the object.
    pub subject: String,
    pub exported: Exported,
    /// The decomposition of the object's own identifier, where it has that shape.
    pub provider_shape: Option<UriShape>,
}

impl Source for Evidence {
    open spec fn answers(&self, name: Seq<char>) -> bool {
        self.guarded.object.shows(name)
    }

    open spec fn value_of(&self, name: Seq<char>) -> ValueView {
        if name == "subject"@ {
            ValueView::Text(self.subject@)
        } else if name == "key"@ {
            match self.exported {
                Exported::Observed(item) => ValueView::Text(item.key@),
                Exported::Unobserved(gap) => ValueView::Text(gap.key@),
            }
        } else if name == "qualifier"@ {
            match self.exported {
                Exported::Observed(item) => text_value(text_view(item.qualifier)),
                Exported::Unobserved(_) => ValueView::Null,
            }
        } else if name == "value"@ {
            match self.exported {
                Exported::Observed(item) => ValueView::Text(item.value@),
                Exported::Unobserved(_) => ValueView::Null,
            }
        } else if name == "source"@ {
            match self.exported {
                Exported::Observed(item) => ValueView::Text(item.source@),
                Exported::Unobserved(_) => ValueView::Null,
            }
        } else if name == "strength"@ {
            match self.exported {
                Exported::Observed(item) => ValueView::Text(item.strength@),
                Exported::Unobserved(_) => ValueView::Null,
            }
        } else if name == "evidence_class"@ {
            match self.exported {
                Exported::Observed(item) => ValueView::Text(item.class@),
                Exported::Unobserved(_) => ValueView::Null,
            }
        } else if name == "evidence"@ {
            match self.exported {
                Exported::Observed(item) => ValueView::Text(item.description@),
                Exported::Unobserved(_) => ValueView::Null,
            }
        } else if name == "asserted"@ {
            match self.exported {
                Exported::Observed(item) => ValueView::Bool(item.asserted),
                Exported::Unobserved(_) => ValueView::Null,
            }
        } else if name == "lookup_key"@ {
            match self.exported {
                Exported::Observed(item) => ValueView::Bool(item.lookup_key),
                Exported::Unobserved(_) => ValueView::Null,
            }
        } else if name == "uri_scheme"@ {
            match self.shape() {
                Some(shape) => ValueView::Text(shape.scheme@),
                None => ValueView::Null,
            }
        } else if name == "uri_path"@ {
            match self.shape() {
                Some(shape) => ValueView::Text(shape.path@),
                None => ValueView::Null,
            }
        } else if name == "observed"@ {
            ValueView::Bool(self.exported is Observed)
        } else if name == "outcome"@ {
            match self.exported {
                Exported::Observed(_) => ValueView::Null,
                Exported::Unobserved(gap) => ValueView::Text(gap.outcome@),
            }
        } else {
            field_value_of(name, self.guarded)
        }
    }

    fn value(&self, name: &str) -> (r: FieldValue) {
        if same(name, "subject") {
            string(self.subject.as_str())
        } else if same(name, "key") {
            match &self.exported {
                Exported::Observed(item) => string(item.key.as_str()),
                Exported::Unobserved(gap) => string(gap.key.as_str()),
            }
        } else if same(name, "qualifier") {
            match &self.exported {
                Exported::Observed(item) => optional(&item.qualifier),
                Exported::Unobserved(_) => FieldValue::Null,
            }
        } else if same(name, "value") {
            match &self.exported {
                Exported::Observed(item) => string(item.value.as_str()),
                Exported::Unobserved(_) => FieldValue::Null,
            }
        } else if same(name, "source") {
            match &self.exported {
                Exported::Observed(item) => string(item.source.as_str()),
                Exported::Unobserved(_) => FieldValue::Null,
            }
        } else if same(name, "strength") {
            match &self.exported {
                Exported::Observed(item) => string(item.strength.as_str()),
                Exported::Unobserved(_) => FieldValue::Null,
            }
        } else if same(name, "evidence_class") {
            match &self.exported {
                Exported::Observed(item) => string(item.class.as_str()),
                Exported::Unobserved(_) => FieldValue::Null,
            }
        } else if same(name, "evidence") {
            match &self.exported {
                Exported::Observed(item) => string(item.description.as_str()),
                Exported::Unobserved(_) => FieldValue::Null,
            }
        } else if same(name, "asserted") {
            match &self.exported {
                Exported::Observed(item) => FieldValue::Bool(item.asserted),
                Exported::Unobserved(_) => FieldValue::Null,
            }
        } else if same(name, "lookup_key") {
            match &self.exported {
                Exported::Observed(item) => FieldValue::Bool(item.lookup_key),
                Exported::Unobserved(_) => FieldValue::Null,
            }
        } else if same(name, "uri_scheme") {
            match self.decomposed() {
                Some(shape) => string(shape.scheme.as_str()),
                None => FieldValue::Null,
            }
        } else if same(name, "uri_path") {
            match self.decomposed() {
                Some(shape) => string(shape.path.as_str()),
                None => FieldValue::Null,
            }
        } else if same(name, "observed") {
            FieldValue::Bool(
                match &self.exported {
                    Exported::Observed(_) => true,
                    Exported::Unobserved(_) => false,
                },
            )
        } else if same(name, "outcome") {
            match &self.exported {
                Exported::Observed(_) => FieldValue::Null,
                Exported::Unobserved(gap) => string(gap.outcome.as_str()),
            }
        } else {
            field_value(name, &self.guarded)
        }
    }
}

/// The text of a line, or how far decoding got where its bytes are no text.
pub enum LineText {
    Utf8(String),
    NotUtf8 { valid_up_to: usize },
}

/// One line of a retrieved log, with what the retrieval as a whole was.
pub struct Line {
    /// The Pod the log was read from.
    pub pod: Guarded,
    pub container: Option<String>,
    pub instance: String,
    /// Which line of this retrieval it is, counting from one.
    pub ordinal: usize,
    pub text: LineText,
    /// How many bytes the line has.
    pub bytes: usize,
    /// The prefix the server wrote, as text.
    pub stamp: Option<String>,
    /// The clock that wrote the prefix.
    pub clock: Clock,
    pub terminated: bool,
    /// Everything that kept the read short of what the container wrote; never empty.
    pub bounds: Vec<String>,
    pub ending: String,
    pub may_contain_secrets: bool,
}

impl Source for Line {
    open spec fn answers(&self, name: Seq<char>) -> bool {
        self.pod.object.shows(name)
    }

    open spec fn value_of(&self, name: Seq<char>) -> ValueView {
        if name == "container"@ {
            text_value(text_view(self.container))
        } else if name == "instance"@ {
            ValueView::Text(self.instance@)
        } else if name == "line"@ {
            ValueView::Int(capped(self.ordinal as nat))
        } else if name == "text"@ {
            match self.text {
                LineText::Utf8(text) => ValueView::Text(text@),
                LineText::NotUtf8 { .. } => ValueView::Null,
            }
        } else if name == "bytes"@ {
            ValueView::Int(capped(self.bytes as nat))
        } else if name == "not_utf8_after"@ {
            match self.text {
                LineText::Utf8(_) => ValueView::Null,
                LineText::NotUtf8 { valid_up_to } => ValueView::Int(capped(valid_up_to as nat)),
            }
        } else if name == "stamp"@ {
            text_value(text_view(self.stamp))
        } else if name == "clock"@ {
            ValueView::Clock(self.clock@)
        } else if name == "terminated"@ {
            ValueView::Bool(self.terminated)
        } else if name == "bounds"@ {
            texts_value(views(self.bounds@))
        } else if name == "ending"@ {
            ValueView::Text(self.ending@)
        } else if name == "may_contain_secrets"@ {
            ValueView::Bool(self.may_contain_secrets)
        } else {
            field_value_of(name, self.pod)
        }
    }

    fn value(&self, name: &str) -> (r: FieldValue) {
        if same(name, "container") {
            optional(&self.container)
        } else if same(name, "instance") {
            string(self.instance.as_str())
        } else if same(name, "line") {
            size(self.ordinal)
        } else if same(name, "text") {
            match &self.text {
                LineText::Utf8(text) => string(text.as_str()),
                LineText::NotUtf8 { .. } => FieldValue::Null,
            }
        } else if same(name, "bytes") {
            size(self.bytes)
        } else if same(name, "not_utf8_after") {
            match &self.text {
                LineText::Utf8(_) => FieldValue::Null,
                LineText::NotUtf8 { valid_up_to } => size(*valid_up_to),
            }
        } else if same(name, "stamp") {
            optional(&self.stamp)
        } else if same(name, "clock") {
            FieldValue::Clock(self.clock.clone())
        } else if same(name, "terminated") {
            FieldValue::Bool(self.terminated)
        } else if same(name, "bounds") {
            texts(&self.bounds)
        } else if same(name, "ending") {
            string(self.ending.as_str())
        } else if same(name, "may_contain_secrets") {
            FieldValue::Bool(self.may_contain_secrets)
        } else {
            field_value(name, &self.pod)
        }
    }
}

/// One temporal observation, with the window it was made in.
pub struct Observation {
    pub subject: Guarded,
    pub basis: String,
    pub source: String,
    /// The clock that wrote the stamp, in words.
    pub clock: String,
    /// The string the clock wrote, never an instant.
    pub stamp: String,
    pub placeable: bool,
    pub detail: String,
    /// When the window opened and when it was last looked through, in Unix milliseconds.
    pub window_opened: u64,
    pub window_latest: u64,
    pub continuous: bool,
    pub gaps: Vec<String>,
    pub not_observed: Vec<String>,
}

impl Source for Observation {
    open spec fn answers(&self, name: Seq<char>) -> bool {
        self.subject.object.shows(name)
    }

    open spec fn value_of(&self, name: Seq<char>) -> ValueView {
        if name == "basis"@ {
            ValueView::Text(self.basis@)
        } else if name == "source"@ {
            ValueView::Text(self.source@)
        } else if name == "clock"@ {
            ValueView::Text(self.clock@)
        } else if name == "stamp"@ {
            ValueView::Text(self.stamp@)
        } else if name == "placeable"@ {
            ValueView::Bool(self.placeable)
        } else if name == "detail"@ {
            ValueView::Text(self.detail@)
        } else if name == "window_opened"@ {
            ValueView::Instant(instant_text(self.window_opened as nat))
        } else if name == "window_latest"@ {
            ValueView::Instant(instant_text(self.window_latest as nat))
        } else if name == "continuous"@ {
            ValueView::Bool(self.continuous)
        } else if name == "gaps"@ {
            texts_value(views(self.gaps@))
        } else if name == "not_observed"@ {
            texts_value(views(self.not_observed@))
        } else {
            field_value_of(name, self.subject)
        }
    }

    fn value(&self, name: &str) -> (r: FieldValue) {
        if same(name, "basis") {
            string(self.basis.as_str())
        } else if same(name, "source") {
            string(self.source.as_str())
        } else if same(name, "clock") {
            string(self.clock.as_str())
        } else if same(name, "stamp") {
            string(self.stamp.as_str())
        } else if same(name, "placeable") {
            FieldValue::Bool(self.placeable)
        } else if same(name, "detail") {
            string(self.detail.as_str())
        } else if same(name, "window_opened") {
            instant(self.window_opened)
        } else if same(name, "window_latest") {
            instant(self.window_latest)
        } else if same(name, "continuous") {
            FieldValue::Bool(self.continuous)
        } else if same(name, "gaps") {
            texts(&self.gaps)
        } else if same(name, "not_observed") {
            texts(&self.not_observed)
        } else {
            field_value(name, &self.subject)
        }
    }
}

/// What a finding rests on.
pub enum Support {
    /// Two things one clock saw, and how far apart.
    Sequence { clock: String, apart_millis: u64 },
    Path,
    /// Something Kubernetes asserts.
    Assertion { class: String, path: Option<String> },
    /// Nothing, and why.
    Nothing { unproven: String },
}

/// One thing that may be said about the state an object is in, and the rung it stops at.
pub struct Finding {
    pub subject: Guarded,
    pub claim: String,
    /// Where the claim stops.
    pub means: String,
    pub support: Support,
    pub description: String,
    /// The ceiling of the whole answer.
    pub strongest_claim: String,
    pub insufficient: bool,
    pub not_observed: Vec<String>,
}

impl Source for Finding {
    open spec fn answers(&self, name: Seq<char>) -> bool {
        self.subject.object.shows(name)
    }

    open spec fn value_of(&self, name: Seq<char>) -> ValueView {
        if name == "claim"@ {
            ValueView::Text(self.claim@)
        } else if name == "claim_means"@ {
            ValueView::Text(self.means@)
        } else if name == "support_class"@ {
            ValueView::Text(support_word(self.support))
        } else if name == "support"@ {
            ValueView::Text(self.description@)
        } else if name == "not_proven"@ {
            match self.support {
                Support::Nothing { unproven } => ValueView::Text(unproven@),
                _ => ValueView::Null,
            }
        } else if name == "clock"@ {
            match self.support {
                Support::Sequence { clock, .. } => ValueView::Text(clock@),
                _ => ValueView::Null,
            }
        } else if name == "apart_ms"@ {
            match self.support {
                Support::Sequence { apart_millis, .. } => ValueView::Int(capped(apart_millis as nat)),
                _ => ValueView::Null,
            }
        } else if name == "evidence_class"@ {
            match self.support {
                Support::Assertion { class, .. } => ValueView::Text(class@),
                _ => ValueView::Null,
            }
        } else if name == "evidence_path"@ {
            match self.support {
                Support::Assertion { path, .. } => text_value(text_view(path)),
                _ => ValueView::Null,
            }
        } else if name == "strongest_claim"@ {
            ValueView::Text(self.strongest_claim@)
        } else if name == "insufficient_evidence"@ {
            ValueView::Bool(self.insufficient)
        } else if name == "not_observed"@ {
            texts_value(views(self.not_observed@))
        } else {
            field_value_of(name, self.subject)
        }
    }

    fn value(&self, name: &str) -> (r: FieldValue) {
        if same(name, "claim") {
            string(self.claim.as_str())
        } else if same(name, "claim_means") {
            string(self.means.as_str())
        } else if same(name, "support_class") {
            string(support_class(&self.support))
        } else if same(name, "support") {
            string(self.description.as_str())
        } else if same(name, "not_proven") {
            match &self.support {
                Support::Nothing { unproven } => string(unproven.as_str()),
                _ => FieldValue::Null,
            }
        } else if same(name, "clock") {
            match &self.support {
                Support::Sequence { clock, .. } => string(clock.as_str()),
                _ => FieldValue::Null,
            }
        } else if same(name, "apart_ms") {
            match &self.support {
                Support::Sequence { apart_millis, .. } => count(Some(*apart_millis)),
                _ => FieldValue::Null,
            }
        } else if same(name, "evidence_class") {
            match &self.support {
                Support::Assertion { class, .. } => string(class.as_str()),
                _ => FieldValue::Null,
            }
        } else if same(name, "evidence_path") {
            match &self.support {
                Support::Assertion { path, .. } => optional(path),
                _ => FieldValue::Null,
            }
        } else if same(name, "strongest_claim") {
            string(self.strongest_claim.as_str())
        } else if same(name, "insufficient_evidence") {
            FieldValue::Bool(self.insufficient)
        } else if same(name, "not_observed") {
            texts(&self.not_observed)
        } else {
            field_value(name, &self.subject)
        }
    }
}

/// One condition a controller wrote about an object.
pub struct Condition {
    pub subject: Guarded,
    pub condition_type: String,
    /// The string the API carries; three states, or one more nobody has seen.
    pub status: String,
    pub reason: Option<String>,
    pub message: Option<String>,
    pub observed_generation: Option<i64>,
    pub last_transition_time: Option<String>,
}

impl Source for Condition {
    open spec fn answers(&self, name: Seq<char>) -> bool {
        self.subject.object.shows(name)
    }

    open spec fn value_of(&self, name: Seq<char>) -> ValueView {
        if name == "condition_type"@ {
            ValueView::Text(self.condition_type@)
        } else if name == "status"@ {
            ValueView::Text(self.status@)
        } else if name == "reason"@ {
            text_value(text_view(self.reason))
        } else if name == "message"@ {
            text_value(text_view(self.message))
        } else if name == "observed_generation"@ {
            signed_value(self.observed_generation)
        } else if name == "generation"@ {
            signed_value(self.subject.object.generation)
        } else if name == "last_transition_time"@ {
            text_value(text_view(self.last_transition_time))
        } else if name == "clock"@ {
            ValueView::Clock(ClockView::Unattributed)
        } else if name == "reconciliation"@ {
            reconciliation_value(self.subject.object.reconciliation)
        } else {
            field_value_of(name, self.subject)
        }
    }

    fn value(&self, name: &str) -> (r: FieldValue) {
        if same(name, "condition_type") {
            string(self.condition_type.as_str())
        } else if same(name, "status") {
            string(self.status.as_str())
        } else if same(name, "reason") {
            optional(&self.reason)
        } else if same(name, "message") {
            optional(&self.message)
        } else if same(name, "observed_generation") {
            count_i64(self.observed_generation)
        } else if same(name, "generation") {
            count_i64(self.subject.object.generation)
        } else if same(name, "last_transition_time") {
            optional(&self.last_transition_time)
        } else if same(name, "clock") {
            FieldValue::Clock(Clock::Unattributed)
        } else if same(name, "reconciliation") {
            reconciliation(&self.subject.object.reconciliation)
        } else {
            field_value(name, &self.subject)
        }
    }
}

// --- one record of each kind ----------------------------------------------------------------------

/// Whether every field a target's schema declares can be told from an object.
pub fn recordable(target: &Target, guarded: &Guarded) -> (r: bool)
    requires
        is_document(guarded.object.native@),
    ensures
        r == answers_all(*guarded, target.fields@),
{
    if guarded.object.adds_up() {
        return true;
    }
    let mut i: usize = 0;
    while i < target.fields.len()
        invariant
            i <= target.fields.len(),
            is_document(guarded.object.native@),
            !guarded.object.restarts_fit(),
            forall|j: int| 0 <= j < i ==> guarded.answers((#[trigger] target.fields@[j]).name@),
        decreases target.fields.len() - i,
    {
        if same(target.fields[i].name, "restarts") {
            assert(!guarded.answers(target.fields@[i as int].name@));
            return false;
        }
        i = i + 1;
    }
    true
}

/// Builds one record of `target`'s schema from a guarded object.
pub fn record(target: &Target, guarded: &Guarded, freshness: &Freshness) -> (r: Record)
    requires
        answers_all(*guarded, target.fields@),
    ensures
        r.records(*target, *guarded, *freshness),
{
    recorded(target, guarded, freshness)
}

/// Builds one record of one relationship, with the evidence it rests on.
pub fn edge_record(target: &Target, edge: &Edge, freshness: &Freshness) -> (r: Record)
    requires
        answers_all(*edge, target.fields@),
    ensures
        r.records(*target, *edge, *freshness),
{
    recorded(target, edge, freshness)
}

/// Builds one record of a resource this package has never heard of.
pub fn dynamic_record(target: &Target, discovered: &Discovered, freshness: &Freshness) -> (r: Record)
    requires
        answers_all(*discovered, target.fields@),
    ensures
        r.records(*target, *discovered, *freshness),
{
    recorded(target, discovered, freshness)
}

/// Builds one record of one observed change, or of one period that was not observed.
pub fn change_record(target: &Target, change: &Change, freshness: &Freshness) -> (r: Record)
    requires
        answers_all(*change, target.fields@),
    ensures
        r.records(*target, *change, *freshness),
{
    recorded(target, change, freshness)
}

/// Builds one record of one Event.
pub fn event_record(target: &Target, event: &Reported, freshness: &Freshness) -> (r: Record)
    requires
        answers_all(*event, target.fields@),
    ensures
        r.records(*target, *event, *freshness),
{
    recorded(target, event, freshness)
}

/// Builds one record of one exported identity fact.
pub fn evidence_record(target: &Target, evidence: &Evidence, freshness: &Freshness) -> (r: Record)
    requires
        answers_all(*evidence, target.fields@),
    ensures
        r.records(*target, *evidence, *freshness),
{
    recorded(target, evidence, freshness)
}

/// Builds one record of one log line.
pub fn log_record(target: &Target, line: &Line, freshness: &Freshness) -> (r: Record)
    requires
        answers_all(*line, target.fields@),
    ensures
        r.records(*target, *line, *freshness),
{
    recorded(target, line, freshness)
}

/// Builds one record of one temporal observation, with the window it was made in.
pub fn observation_record(
    target: &Target,
    observation: &Observation,
    freshness: &Freshness,
) -> (r: Record)
    requires
        answers_all(*observation, target.fields@),
    ensures
        r.records(*target, *observation, *freshness),
{
    recorded(target, observation, freshness)
}

/// Builds one record of one finding, and of the rung it stops at.
pub fn finding_record(target: &Target, finding: &Finding, freshness: &Freshness) -> (r: Record)
    requires
        answers_all(*finding, target.fields@),
    ensures
        r.records(*target, *finding, *freshness),
{
    recorded(target, finding, freshness)
}

/// Builds one record of one condition.
pub fn condition_record(target: &Target, condition: &Condition, freshness: &Freshness) -> (r: Record)
    requires
        answers_all(*condition, target.fields@),
    ensures
        r.records(*target, *condition, *freshness),
{
    recorded(target, condition, freshness)
}

// --- laws -----------------------------------------------------------------------------------------

/// Only the record of a Pod asks anything of restart counts: for the fields of every other schema a
/// document that a parser gives is enough.
pub proof fn a_document_is_enough(object: Object, set: FieldSet)
    requires
        is_document(object.native@),
        set != FieldSet::Pod,
    ensures
        forall|i: int|
            0 <= i < schema_fields(set).len() ==> object.shows(
                (#[trigger] schema_fields(set)[i]).name@,
            ),
{
    only_a_pod_sums_restarts(set);
}

/// A record holds exactly the fields its schema declares, in the order it declares them.
pub proof fn a_record_holds_its_schema<S: Source>(
    record: Record,
    target: Target,
    source: S,
    freshness: Freshness,
)
    requires
        record.records(target, source, freshness),
    ensures
        record.fields@.len() == target.fields@.len(),
        forall|i: int|
            0 <= i < target.fields@.len() ==> (#[trigger] record.fields@[i]).0@
                == target.fields@[i].name@,
{
    let shown = entry_views(record.fields@);
    assert(shown.len() == record.fields@.len());
    assert forall|i: int| 0 <= i < target.fields@.len() implies (#[trigger] record.fields@[i]).0@
        == target.fields@[i].name@ by {
        assert(shown[i] == (record.fields@[i].0@, record.fields@[i].1@));
        assert(shown[i] == answered(target.fields@, source)[i]);
    }
}

}
