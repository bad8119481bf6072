//! What this package declares before any of its code runs: the targets it answers for, the schemas
//! their records carry, and the commands that change a cluster.
//!
//! The table below is the single place a declaration comes from. Each entry also carries what it
//! reads. For a curated noun that is a group and a kind, and deliberately not a REST collection:
//! which collection serves a kind, and at which version, is discovery's answer.

use vstd::prelude::*;
use vstd::string::*;

use crate::parameters::{
    add_all, add_first, parameter_of, parameters_of, Arity, ParameterContribution, APPLY_OPTIONS,
    BUDGET, CHANGES, CLUSTER, DELETE_OPTIONS, DRY_RUN, EVIDENCE_KIND, LOG_OPTIONS, MAX_PAGES, NAMED,
    PLAN_OPTIONS, RELATION, RESOURCE, SCOPE, SELECTORS, WITHIN,
};
use crate::schemas::{declares, fields, schema_fields, FieldSet};
use crate::text::{join3, same, views};

pub use crate::parameters::Parameter;
pub use crate::schemas::Field;

verus! {

/// The package id, exactly as its manifest declares it.
pub const PACKAGE: &'static str = "io.github.godspeed-you.kubernetes";

/// The package version, as its manifest declares it.
pub const VERSION: &'static str = "0.1.0";

/// How many invocations this package's code is willing to answer at once: a live watch, and the
/// two contexts that may be asked about while it runs.
pub const CONCURRENT_INVOCATIONS: u32 = 3;

// --- what a target reads --------------------------------------------------------------------------

/// What a target reads, which is one named kind, whatever the query names, or no object at all.
#[derive(Debug, Clone, Copy, PartialEq, Eq)]
pub enum Reads {
    /// One kind, named in this table.
    Kind {
        /// The API group the kind lives in; empty for the core group.
        group: &'static str,
        /// The kind, as `apiVersion`/`kind` spells it.
        kind: &'static str,
    },
    /// Whatever kind the query names, resolved against the cluster's discovery.
    Discovered,
    /// No Kubernetes object at all: the provider instance itself.
    Instance,
    /// The relationships of one object, rather than the object.
    Relations,
    /// What changed in one collection while this provider was watching it.
    Changes,
    /// The Events regarding one object, rather than the object.
    Events,
    /// What one object states about the systems around Kubernetes, as evidence.
    Evidence,
    /// One container's log, as lines.
    Logs,
    /// What was observed about one object, when, and by whose clock.
    Timeline,
    /// What may be said about the state one object is in, and the rung above which it may not
    /// climb.
    Why,
    /// The structured observations one object's controllers wrote about it.
    Conditions,
    /// What a change *would* do, described before anybody is asked to agree to it.
    Plan,
}

impl Reads {
    /// The API group, where the table names one.
    pub fn group(self) -> (r: Option<&'static str>)
        ensures
            r == match self {
                Reads::Kind { group, kind } => Some(group),
                _ => None,
            },
    {
        match self {
            Reads::Kind { group, .. } => Some(group),
            Reads::Discovered
            | Reads::Instance
            | Reads::Relations
            | Reads::Changes
            | Reads::Events
            | Reads::Evidence
            | Reads::Logs
            | Reads::Timeline
            | Reads::Why
            | Reads::Conditions
            | Reads::Plan => None,
        }
    }

    /// The kind, where the table names one.
    pub fn kind(self) -> (r: Option<&'static str>)
        ensures
            r == match self {
                Reads::Kind { group, kind } => Some(kind),
                _ => None,
            },
    {
        match self {
            Reads::Kind { kind, .. } => Some(kind),
            Reads::Evidence
            | Reads::Discovered
            | Reads::Instance
            | Reads::Relations
            | Reads::Changes
            | Reads::Events
            | Reads::Logs
            | Reads::Timeline
            | Reads::Why
            | Reads::Conditions
            | Reads::Plan => None,
        }
    }
}

/// Whether an answer ends by itself.
#[derive(Debug, Clone, Copy, PartialEq, Eq, Structural)]
pub enum Answer {
    Bounded,
    Unbounded,
}

/// Which handler answers a target.
#[derive(Debug, Clone, Copy, PartialEq, Eq, Structural)]
pub enum Handler {
    Cluster,
    Relations,
    Changes,
    Planning,
    Events,
    Evidence,
    Logs,
    Timeline,
    Why,
    Conditions,
    Query,
}

/// Which handler answers a target: decided by what it reads, so that a table entry cannot be wired
/// to a handler that does not fit it.
pub open spec fn handled_by(reads: Reads) -> Handler {
    match reads {
        Reads::Instance => Handler::Cluster,
        Reads::Relations => Handler::Relations,
        Reads::Changes => Handler::Changes,
        Reads::Plan => Handler::Planning,
        Reads::Events => Handler::Events,
        Reads::Evidence => Handler::Evidence,
        Reads::Logs => Handler::Logs,
        Reads::Timeline => Handler::Timeline,
        Reads::Why => Handler::Why,
        Reads::Conditions => Handler::Conditions,
        Reads::Kind { .. } => Handler::Query,
        Reads::Discovered => Handler::Query,
    }
}

/// Which handler answers a target.
pub fn handler(reads: Reads) -> (r: Handler)
    ensures
        r == handled_by(reads),
{
    match reads {
        Reads::Instance => Handler::Cluster,
        Reads::Relations => Handler::Relations,
        Reads::Changes => Handler::Changes,
        Reads::Plan => Handler::Planning,
        Reads::Events => Handler::Events,
        Reads::Evidence => Handler::Evidence,
        Reads::Logs => Handler::Logs,
        Reads::Timeline => Handler::Timeline,
        Reads::Why => Handler::Why,
        Reads::Conditions => Handler::Conditions,
        Reads::Kind { .. } => Handler::Query,
        Reads::Discovered => Handler::Query,
    }
}

// --- identity -------------------------------------------------------------------------------------

/// The identity field of everything that projects a Kubernetes object.
///
/// A name is a label a human reuses; a schema keyed on it would let a recreated Pod inherit the
/// history of the one it replaced.
pub const IDENTITY: &'static str = "uid";

/// [`IDENTITY`] as a list.
pub const OBJECT_IDENTITY: [&'static str; 1] = [IDENTITY];

/// What makes two edges the same edge: the object it starts at, the word, the far end, and the
/// field that decided.
pub const EDGE_IDENTITY: [&'static str; 4] = ["uid", "relation", "target", "evidence_path"];

/// What makes two observations the same observed change.
pub const CHANGE_IDENTITY: [&'static str; 5] = ["resource", "segment", "change", "uid", "resource_version"];

/// What makes two exported facts the same fact.
pub const EVIDENCE_IDENTITY: [&'static str; 3] = ["uid", "key", "source"];

/// What makes two log lines the same line.
pub const LOG_IDENTITY: [&'static str; 4] = ["uid", "container", "instance", "line"];

/// What makes two temporal observations the same observation. The clock is part of it.
pub const OBSERVATION_IDENTITY: [&'static str; 5] = ["uid", "source", "clock", "stamp", "detail"];

/// What makes two findings the same finding.
pub const FINDING_IDENTITY: [&'static str; 3] = ["uid", "claim", "support"];

/// What makes two conditions the same condition.
pub const CONDITION_IDENTITY: [&'static str; 2] = ["uid", "condition_type"];

/// What makes two prospective changes, or two attempts at one, the same thing.
pub const PLAN_IDENTITY: [&'static str; 4] = ["uid", "resource_version", "action", "changes"];

/// What makes two records of a target's schema the same thing.
pub open spec fn identity_of(reads: Reads) -> Seq<&'static str> {
    match reads {
        Reads::Relations => EDGE_IDENTITY@,
        Reads::Changes => CHANGE_IDENTITY@,
        Reads::Evidence => EVIDENCE_IDENTITY@,
        Reads::Logs => LOG_IDENTITY@,
        Reads::Timeline => OBSERVATION_IDENTITY@,
        Reads::Why => FINDING_IDENTITY@,
        Reads::Conditions => CONDITION_IDENTITY@,
        Reads::Plan => PLAN_IDENTITY@,
        _ => OBJECT_IDENTITY@,
    }
}

/// The names of a table, as a list.
fn listed<const N: usize>(names: &[&'static str; N]) -> (r: Vec<&'static str>)
    ensures
        r@ == names@,
{
    let mut out: Vec<&'static str> = Vec::new();
    let mut i: usize = 0;
    while i < N
        invariant
            i <= N,
            names@.len() == N,
            out@ == names@.take(i as int),
        decreases N - i,
    {
        out.push(names[i]);
        i = i + 1;
        assert(names@.take(i as int) =~= names@.take(i - 1).push(names@[i - 1]));
    }
    assert(names@.take(i as int) =~= names@);
    out
}

/// What some names are.
pub open spec fn name_views(names: Seq<&'static str>) -> Seq<Seq<char>> {
    names.map_values(|name: &'static str| name@)
}

/// Some names, owned.
fn owned_names(names: &Vec<&'static str>) -> (r: Vec<String>)
    ensures
        views(r@) == name_views(names@),
{
    let mut out: Vec<String> = Vec::new();
    let mut i: usize = 0;
    let ghost wanted = name_views(names@);
    while i < names.len()
        invariant
            i <= names.len(),
            wanted == name_views(names@),
            views(out@) == wanted.take(i as int),
        decreases names.len() - i,
    {
        broadcast use crate::text::group_views;

        out.push(names[i].to_owned());
        i = i + 1;
        assert(wanted.take(i as int) =~= wanted.take(i - 1).push(wanted[i - 1]));
    }
    assert(wanted.take(i as int) =~= wanted);
    out
}

// --- targets --------------------------------------------------------------------------------------

/// One noun this package answers for, with everything needed to declare it and to read it.
#[derive(Debug, PartialEq, Eq)]
pub struct Target {
    /// The target word, as `get k8s-pod` spells it.
    pub name: &'static str,
    /// The schema id the target's records carry.
    pub schema: &'static str,
    /// The schema's display name.
    pub schema_name: &'static str,
    /// One line: what an object of this schema is.
    pub schema_summary: &'static str,
    /// One line, for `help` and completion.
    pub summary: &'static str,
    /// What makes two observations the same object, in prose.
    pub identity_doc: &'static str,
    /// Which resource the target reads, and whether the table or the query names it.
    pub reads: Reads,
    /// The schema's fields, in declaration order.
    pub fields: Vec<Field>,
}

/// One field of a schema, as the handshake carries it.
#[derive(Debug, PartialEq, Eq)]
pub struct SchemaFieldContribution {
    pub name: String,
    pub field_type: String,
    pub required: bool,
    pub nullable: bool,
}

/// A schema, as the handshake carries it.
#[derive(Debug, PartialEq, Eq)]
pub struct SchemaContribution {
    pub id: String,
    pub name: String,
    pub summary: String,
    pub identity: Vec<String>,
    pub fields: Vec<SchemaFieldContribution>,
}

/// A target, as the handshake carries it.
#[derive(Debug, PartialEq)]
pub struct TargetContribution {
    pub name: String,
    pub schema: String,
    pub summary: String,
    pub identity_doc: String,
    pub options: Vec<ParameterContribution>,
    pub answer: Answer,
}

/// Whether contributed fields are those of a schema, one for one: each required or nullable, and
/// never both.
pub open spec fn fields_contributed_as(
    fields: Seq<Field>,
    contributed: Seq<SchemaFieldContribution>,
) -> bool {
    &&& contributed.len() == fields.len()
    &&& forall|i: int|
        0 <= i < fields.len() ==> {
            &&& (#[trigger] contributed[i]).name@ == fields[i].name@
            &&& contributed[i].field_type@ == fields[i].field_type@
            &&& contributed[i].required == fields[i].required
            &&& contributed[i].nullable == !fields[i].required
        }
}

/// Whether contributed arguments are declared ones, one for one.
pub open spec fn options_contributed_as(
    options: Seq<Parameter>,
    contributed: Seq<ParameterContribution>,
) -> bool {
    &&& contributed.len() == options.len()
    &&& forall|i: int|
        0 <= i < options.len() ==> options[i].contributed_as(#[trigger] contributed[i])
}

/// Each field of a schema, as the handshake carries it.
fn contributed_fields(fields: &Vec<Field>) -> (r: Vec<SchemaFieldContribution>)
    ensures
        fields_contributed_as(fields@, r@),
{
    let mut out: Vec<SchemaFieldContribution> = Vec::new();
    let mut i: usize = 0;
    while i < fields.len()
        invariant
            i <= fields.len(),
            fields_contributed_as(fields@.take(i as int), out@),
        decreases fields.len() - i,
    {
        let field: Field = fields[i];
        let ghost before = out@;
        out.push(
            SchemaFieldContribution {
                name: field.name.to_owned(),
                field_type: field.field_type.to_owned(),
                required: field.required,
                nullable: !field.required,
            },
        );
        i = i + 1;
        proof {
            let some = fields@.take(i as int);
            assert forall|j: int| 0 <= j < some.len() implies {
                &&& (#[trigger] out@[j]).name@ == some[j].name@
                &&& out@[j].field_type@ == some[j].field_type@
                &&& out@[j].required == some[j].required
                &&& out@[j].nullable == !some[j].required
            } by {
                if j < i - 1 {
                    assert(out@[j] == before[j]);
                    assert(fields@.take(i - 1)[j] == some[j]);
                }
            }
        }
    }
    assert(fields@.take(i as int) =~= fields@);
    out
}

/// Each declared argument, as the handshake carries it.
fn contributed_options(options: &Vec<Parameter>) -> (r: Vec<ParameterContribution>)
    ensures
        options_contributed_as(options@, r@),
{
    let mut out: Vec<ParameterContribution> = Vec::new();
    let mut i: usize = 0;
    while i < options.len()
        invariant
            i <= options.len(),
            options_contributed_as(options@.take(i as int), out@),
        decreases options.len() - i,
    {
        let ghost before = out@;
        out.push(options[i].contribution());
        i = i + 1;
        proof {
            let some = options@.take(i as int);
            assert forall|j: int| 0 <= j < some.len() implies some[j].contributed_as(
                #[trigger] out@[j],
            ) by {
                if j < i - 1 {
                    assert(out@[j] == before[j]);
                    assert(options@.take(i - 1)[j] == some[j]);
                }
            }
        }
    }
    assert(options@.take(i as int) =~= options@);
    out
}

/// The arguments a target takes, decided by what it reads.
///
/// Every word takes the four cluster arguments, because none of them can answer without reaching an
/// API server. What is added beyond that is exactly what the handler reads out of the arguments.
pub open spec fn options_of(reads: Reads) -> Seq<Parameter> {
    let cluster = parameters_of(CLUSTER@);
    let scope = parameters_of(SCOPE@);
    let namespace = parameters_of(SCOPE@.take(1));
    let resource = parameters_of(RESOURCE@);
    let named = parameters_of(NAMED@);
    let selectors = parameters_of(SELECTORS@);
    let pages = parameters_of(MAX_PAGES@);
    let budget = parameters_of(BUDGET@);
    match reads {
        Reads::Instance => cluster,
        Reads::Kind { .. } => cluster + scope + named + selectors + pages + budget,
        Reads::Discovered => cluster + scope + resource + named + selectors + pages + budget,
        Reads::Relations => cluster + scope + resource + named + pages + budget + parameters_of(
            RELATION@,
        ),
        Reads::Changes => cluster + scope + resource + pages + budget + parameters_of(CHANGES@),
        Reads::Events => cluster + scope + resource + named + pages + budget,
        Reads::Evidence => cluster + namespace + named + parameters_of(EVIDENCE_KIND@),
        Reads::Logs => cluster + namespace + named + parameters_of(LOG_OPTIONS@),
        Reads::Timeline => cluster + scope + resource + named,
        Reads::Conditions => cluster + scope + resource + named,
        Reads::Why => cluster + scope + resource + named + parameters_of(WITHIN@),
        Reads::Plan => cluster + scope + resource + named + parameters_of(PLAN_OPTIONS@),
    }
}

impl Target {
    /// Whether a contribution is that of this target's schema.
    pub open spec fn schema_contributed_as(self, contribution: SchemaContribution) -> bool {
        &&& contribution.id@ == self.schema@
        &&& contribution.name@ == self.schema_name@
        &&& contribution.summary@ == self.schema_summary@
        &&& views(contribution.identity@) == name_views(identity_of(self.reads))
        &&& fields_contributed_as(self.fields@, contribution.fields@)
    }

    /// Whether a contribution is that of this target.
    pub open spec fn contributed_as(self, contribution: TargetContribution) -> bool {
        &&& contribution.name@ == self.name@
        &&& contribution.schema@ == self.schema@
        &&& contribution.summary@ == self.summary@
        &&& contribution.identity_doc@ == self.identity_doc@
        &&& options_contributed_as(options_of(self.reads), contribution.options@)
        &&& contribution.answer == self.ends()
    }

    /// Whether this target's answer ends by itself. A watch has no natural end, and a log has none
    /// where it is followed; what is declared is the worst case.
    pub open spec fn ends(self) -> Answer {
        match self.reads {
            Reads::Changes => Answer::Unbounded,
            Reads::Logs => Answer::Unbounded,
            _ => Answer::Bounded,
        }
    }

    /// The schema as the handshake carries it.
    pub fn schema_contribution(&self) -> (r: SchemaContribution)
        ensures
            self.schema_contributed_as(r),
    {
        SchemaContribution {
            id: self.schema.to_owned(),
            name: self.schema_name.to_owned(),
            summary: self.schema_summary.to_owned(),
            identity: owned_names(&self.identity_fields()),
            fields: contributed_fields(&self.fields),
        }
    }

    /// What makes two records of this target's schema the same thing.
    pub fn identity_fields(&self) -> (r: Vec<&'static str>)
        ensures
            r@ == identity_of(self.reads),
    {
        match self.reads {
            Reads::Relations => listed(&EDGE_IDENTITY),
            Reads::Changes => listed(&CHANGE_IDENTITY),
            Reads::Evidence => listed(&EVIDENCE_IDENTITY),
            Reads::Logs => listed(&LOG_IDENTITY),
            Reads::Timeline => listed(&OBSERVATION_IDENTITY),
            Reads::Why => listed(&FINDING_IDENTITY),
            Reads::Conditions => listed(&CONDITION_IDENTITY),
            Reads::Plan => listed(&PLAN_IDENTITY),
            Reads::Kind { .. } | Reads::Discovered | Reads::Instance | Reads::Events => listed(
                &OBJECT_IDENTITY,
            ),
        }
    }

    /// The target as the handshake carries it.
    pub fn target_contribution(&self) -> (r: TargetContribution)
        ensures
            self.contributed_as(r),
    {
        TargetContribution {
            name: self.name.to_owned(),
            schema: self.schema.to_owned(),
            summary: self.summary.to_owned(),
            identity_doc: self.identity_doc.to_owned(),
            options: contributed_options(&self.options()),
            answer: self.answer(),
        }
    }

    /// Whether this target's answer ends by itself.
    pub fn answer(&self) -> (r: Answer)
        ensures
            r == self.ends(),
    {
        match self.reads {
            Reads::Changes | Reads::Logs => Answer::Unbounded,
            Reads::Instance
            | Reads::Kind { .. }
            | Reads::Discovered
            | Reads::Relations
            | Reads::Events
            | Reads::Evidence
            | Reads::Timeline
            | Reads::Why
            | Reads::Conditions
            | Reads::Plan => Answer::Bounded,
        }
    }

    /// The arguments this target takes, decided by what it reads.
    pub fn options(&self) -> (r: Vec<Parameter>)
        ensures
            r@ == options_of(self.reads),
    {
        let mut options: Vec<Parameter> = Vec::new();
        add_all(&mut options, &CLUSTER);
        assert(options@ =~= parameters_of(CLUSTER@));
        match self.reads {
            Reads::Instance => {},
            Reads::Kind { .. } => {
                add_all(&mut options, &SCOPE);
                add_all(&mut options, &NAMED);
                add_all(&mut options, &SELECTORS);
                add_all(&mut options, &MAX_PAGES);
                add_all(&mut options, &BUDGET);
            },
            Reads::Discovered => {
                add_all(&mut options, &SCOPE);
                add_all(&mut options, &RESOURCE);
                add_all(&mut options, &NAMED);
                add_all(&mut options, &SELECTORS);
                add_all(&mut options, &MAX_PAGES);
                add_all(&mut options, &BUDGET);
            },
            Reads::Relations => {
                add_all(&mut options, &SCOPE);
                add_all(&mut options, &RESOURCE);
                add_all(&mut options, &NAMED);
                add_all(&mut options, &MAX_PAGES);
                add_all(&mut options, &BUDGET);
                add_all(&mut options, &RELATION);
            },
            Reads::Changes => {
                add_all(&mut options, &SCOPE);
                add_all(&mut options, &RESOURCE);
                add_all(&mut options, &MAX_PAGES);
                add_all(&mut options, &BUDGET);
                add_all(&mut options, &CHANGES);
            },
            Reads::Events => {
                add_all(&mut options, &SCOPE);
                add_all(&mut options, &RESOURCE);
                add_all(&mut options, &NAMED);
                add_all(&mut options, &MAX_PAGES);
                add_all(&mut options, &BUDGET);
            },
            // A namespace is nameable and `all_namespaces` is not, because this is a question
            // about one object.
            Reads::Evidence => {
                add_first(&mut options, &SCOPE, 1);
                add_all(&mut options, &NAMED);
                add_all(&mut options, &EVIDENCE_KIND);
            },
            Reads::Logs => {
                add_first(&mut options, &SCOPE, 1);
                add_all(&mut options, &NAMED);
                add_all(&mut options, &LOG_OPTIONS);
            },
            Reads::Timeline | Reads::Conditions => {
                add_all(&mut options, &SCOPE);
                add_all(&mut options, &RESOURCE);
                add_all(&mut options, &NAMED);
            },
            Reads::Why => {
                add_all(&mut options, &SCOPE);
                add_all(&mut options, &RESOURCE);
                add_all(&mut options, &NAMED);
                add_all(&mut options, &WITHIN);
            },
            Reads::Plan => {
                add_all(&mut options, &SCOPE);
                add_all(&mut options, &RESOURCE);
                add_all(&mut options, &NAMED);
                add_all(&mut options, &PLAN_OPTIONS);
            },
        }
        options
    }
}

/// What a row of the table reads.
#[derive(Debug, Clone, Copy, PartialEq, Eq, Structural)]
pub enum Tier {
    /// The kind of the group that the row names.
    Curated,
    Discovered,
    Instance,
    Relations,
    Changes,
    Events,
    Evidence,
    Logs,
    Timeline,
    Why,
    Conditions,
    Plan,
}

/// One row of the table of targets: the word, the schema, its name, its summary, the target's
/// summary, its identity in prose, what it reads, the group and the kind of a curated one, and the
/// fields.
pub type TargetRow = (
    &'static str,
    &'static str,
    &'static str,
    &'static str,
    &'static str,
    &'static str,
    Tier,
    &'static str,
    &'static str,
    FieldSet,
);

/// The targets this package answers for: the curated kinds in the order of a walk through workload
/// troubleshooting, then everything that is not a collection of one kind.
pub const TARGETS: [TargetRow; 30] = [
    (
        "k8s-namespace",
        "io.github.godspeed-you.kubernetes.namespace/1",
        "KubernetesNamespace",
        "A namespace, the primary scope dimension of a cluster.",
        "Namespaces, the primary scope dimension of a cluster.",
        "Two observations are the same namespace when their `metadata.uid` matches.",
        Tier::Curated,
        "",
        "Namespace",
        FieldSet::Namespace,
    ),
    (
        "k8s-node",
        "io.github.godspeed-you.kubernetes.node/1",
        "KubernetesNode",
        "A node, and what the kubelet on it reports about itself.",
        "Nodes, and the cloud instances underneath them.",
        "Two observations are the same node when their `metadata.uid` matches; a name reused \
        after deletion is a new node.",
        Tier::Curated,
        "",
        "Node",
        FieldSet::Node,
    ),
    (
        "k8s-pod",
        "io.github.godspeed-you.kubernetes.pod/1",
        "KubernetesPod",
        "A pod, the workload that actually runs.",
        "Pods, the workload that actually runs.",
        "Two observations are the same pod when their `metadata.uid` matches. A recreated pod \
        with the same name is a different pod.",
        Tier::Curated,
        "",
        "Pod",
        FieldSet::Pod,
    ),
    (
        "k8s-deployment",
        "io.github.godspeed-you.kubernetes.deployment/1",
        "KubernetesDeployment",
        "A deployment, with what was asked of it beside what has been observed.",
        "Deployments, and the ReplicaSets they control.",
        "Two observations are the same deployment when their `metadata.uid` matches.",
        Tier::Curated,
        "apps",
        "Deployment",
        FieldSet::Deployment,
    ),
    (
        "k8s-replicaset",
        "io.github.godspeed-you.kubernetes.replicaset/1",
        "KubernetesReplicaSet",
        "A ReplicaSet, and the controller above it.",
        "ReplicaSets, which sit between a Deployment and its Pods.",
        "Two observations are the same ReplicaSet when their `metadata.uid` matches.",
        Tier::Curated,
        "apps",
        "ReplicaSet",
        FieldSet::ReplicaSet,
    ),
    (
        "k8s-statefulset",
        "io.github.godspeed-you.kubernetes.statefulset/1",
        "KubernetesStatefulSet",
        "A StatefulSet, its rollout revisions and the claims its templates ask for.",
        "StatefulSets, and the claims their templates materialise.",
        "Two observations are the same StatefulSet when their `metadata.uid` matches.",
        Tier::Curated,
        "apps",
        "StatefulSet",
        FieldSet::StatefulSet,
    ),
    (
        "k8s-daemonset",
        "io.github.godspeed-you.kubernetes.daemonset/1",
        "KubernetesDaemonSet",
        "A DaemonSet, counted per node rather than per replica.",
        "DaemonSets, and their rollout across nodes.",
        "Two observations are the same DaemonSet when their `metadata.uid` matches.",
        Tier::Curated,
        "apps",
        "DaemonSet",
        FieldSet::DaemonSet,
    ),
    (
        "k8s-service",
        "io.github.godspeed-you.kubernetes.service/1",
        "KubernetesService",
        "A service: how it is addressed, on which ports, and what it selects.",
        "Services, and the Pods their selectors reach.",
        "Two observations are the same service when their `metadata.uid` matches.",
        Tier::Curated,
        "",
        "Service",
        FieldSet::Service,
    ),
    (
        "k8s-endpointslice",
        "io.github.godspeed-you.kubernetes.endpointslice/1",
        "KubernetesEndpointSlice",
        "An EndpointSlice: which addresses answer for a service, and which of them are ready.",
        "EndpointSlices, the endpoints a Service is represented by.",
        "Two observations are the same slice when their `metadata.uid` matches.",
        Tier::Curated,
        "discovery.k8s.io",
        "EndpointSlice",
        FieldSet::EndpointSlice,
    ),
    (
        "k8s-ingress",
        "io.github.godspeed-you.kubernetes.ingress/1",
        "KubernetesIngress",
        "An ingress: which hosts it answers for, which services it routes to, and which secrets \
        terminate its TLS.",
        "Ingresses, and the Services they route to.",
        "Two observations are the same ingress when their `metadata.uid` matches.",
        Tier::Curated,
        "networking.k8s.io",
        "Ingress",
        FieldSet::Ingress,
    ),
    (
        "k8s-job",
        "io.github.godspeed-you.kubernetes.job/1",
        "KubernetesJob",
        "A job, with what it was asked to complete beside what it has.",
        "Jobs, and the Pods they own.",
        "Two observations are the same job when their `metadata.uid` matches.",
        Tier::Curated,
        "batch",
        "Job",
        FieldSet::Job,
    ),
    (
        "k8s-cronjob",
        "io.github.godspeed-you.kubernetes.cronjob/1",
        "KubernetesCronJob",
        "A CronJob: its schedule, whether it is suspended, and what it has running now.",
        "CronJobs, and the Jobs they create.",
        "Two observations are the same CronJob when their `metadata.uid` matches.",
        Tier::Curated,
        "batch",
        "CronJob",
        FieldSet::CronJob,
    ),
    (
        "k8s-configmap",
        "io.github.godspeed-you.kubernetes.configmap/1",
        "KubernetesConfigMap",
        "A ConfigMap's keys and whether it may still change.",
        "ConfigMaps, and what consumes them.",
        "Two observations are the same ConfigMap when their `metadata.uid` matches.",
        Tier::Curated,
        "",
        "ConfigMap",
        FieldSet::ConfigMap,
    ),
    (
        "k8s-secret",
        "io.github.godspeed-you.kubernetes.secret/1",
        "KubernetesSecret",
        "A secret's metadata — which keys exist, never what they hold (§22).",
        "Secret metadata — which keys exist and what mounts them, never the values (specification \
        section 22).",
        "Two observations are the same secret when their `metadata.uid` matches.",
        Tier::Curated,
        "",
        "Secret",
        FieldSet::Secret,
    ),
    (
        "k8s-serviceaccount",
        "io.github.godspeed-you.kubernetes.serviceaccount/1",
        "KubernetesServiceAccount",
        "A ServiceAccount, and the secrets it carries — never their contents.",
        "ServiceAccounts, the identity a workload runs as.",
        "Two observations are the same account when their `metadata.uid` matches.",
        Tier::Curated,
        "",
        "ServiceAccount",
        FieldSet::ServiceAccount,
    ),
    (
        "k8s-persistentvolumeclaim",
        "io.github.godspeed-you.kubernetes.persistentvolumeclaim/1",
        "KubernetesPersistentVolumeClaim",
        "A claim: what it asked for, and which volume — if any — it is bound to.",
        "PersistentVolumeClaims, and the volumes they bind.",
        "Two observations are the same claim when their `metadata.uid` matches.",
        Tier::Curated,
        "",
        "PersistentVolumeClaim",
        FieldSet::PersistentVolumeClaim,
    ),
    (
        "k8s-persistentvolume",
        "io.github.godspeed-you.kubernetes.persistentvolume/1",
        "KubernetesPersistentVolume",
        "A volume, what happens to the storage when it is released, and which claim holds it.",
        "PersistentVolumes, and the storage behind them.",
        "Two observations are the same volume when their `metadata.uid` matches.",
        Tier::Curated,
        "",
        "PersistentVolume",
        FieldSet::PersistentVolume,
    ),
    (
        "k8s-storageclass",
        "io.github.godspeed-you.kubernetes.storageclass/1",
        "KubernetesStorageClass",
        "A storage class: what provisions it, when it binds, and what happens on release.",
        "StorageClasses, and what they provision.",
        "Two observations are the same class when their `metadata.uid` matches.",
        Tier::Curated,
        "storage.k8s.io",
        "StorageClass",
        FieldSet::StorageClass,
    ),
    (
        "k8s-networkpolicy",
        "io.github.godspeed-you.kubernetes.networkpolicy/1",
        "KubernetesNetworkPolicy",
        "A network policy's intent, in the structure the API states it — never reduced to a \
        verdict about reachability (§31.2, §31.3).",
        "NetworkPolicies, and the Pods their selectors govern.",
        "Two observations are the same policy when their `metadata.uid` matches.",
        Tier::Curated,
        "networking.k8s.io",
        "NetworkPolicy",
        FieldSet::NetworkPolicy,
    ),
    (
        "k8s-resource",
        "io.github.godspeed-you.kubernetes.resource/1",
        "KubernetesResource",
        "Any resource the cluster serves, typed by the schema the cluster publishes for it.",
        "Any resource this cluster serves, named by `kind` and `group` (specification section \
        15.1).",
        "Two observations are the same object when their `metadata.uid` matches, whatever kind \
        they are.",
        Tier::Discovered,
        "",
        "",
        FieldSet::Resource,
    ),
    (
        "k8s-relation",
        "io.github.godspeed-you.kubernetes.relation/1",
        "KubernetesRelation",
        "One relationship between two Kubernetes objects, and the evidence it rests on.",
        "What one object is related to, with the evidence class and the fields that decided each \
        edge (specification sections 23 to 32).",
        "Two observations are the same edge when the object they start at, the relationship word, \
        the far end's address and the field that decided all match. An edge has no \
        `metadata.uid` of its own.",
        Tier::Relations,
        "",
        "",
        FieldSet::Relation,
    ),
    (
        "k8s-change",
        "io.github.godspeed-you.kubernetes.change/1",
        "KubernetesChange",
        "One observed change in a watched collection, or one period that was not observed at all.",
        "What changed in a collection while this provider was watching it, and every period it \
        could not observe (specification section 19).",
        "Two observations are the same change when the collection, the observation period, the \
        word, the object's UID and its resourceVersion all match. A change has no `metadata.uid` \
        of its own; the UID on the record is the object's.",
        Tier::Changes,
        "",
        "",
        FieldSet::Change,
    ),
    (
        "k8s-event",
        "io.github.godspeed-you.kubernetes.event/1",
        "KubernetesEvent",
        "One Kubernetes Event: what a component reported, about what, and how many times the \
        server recorded it.",
        "The Events a cluster reported about an object — best-effort, briefly retained, and never \
        a history (specification section 38).",
        "Two observations are the same Event when their `metadata.uid` matches. An Event is an \
        object of its own; what it regards is a field of it. An aggregated Event is one Event \
        however many occurrences it counts.",
        Tier::Events,
        "",
        "",
        FieldSet::Event,
    ),
    (
        "k8s-evidence",
        "io.github.godspeed-you.kubernetes.evidence/1",
        "KubernetesIdentityEvidence",
        "One value an object states about a system outside Kubernetes, with where it was read and \
        how far it goes — never a link to that system.",
        "What a Node, a Pod, a Service or an Ingress states about the machine, the container \
        runtime or the load balancer behind it, as inspectable evidence for a resolver that has \
        read the other system (specification section 47).",
        "Two observations are the same evidence when the object's `metadata.uid`, the published \
        key and the field pointer all match. A Node rebuilt under the same name is a different \
        machine, and a Pod restarted under the same name runs different containers.",
        Tier::Evidence,
        "",
        "",
        FieldSet::Evidence,
    ),
    (
        "k8s-log",
        "io.github.godspeed-you.kubernetes.log/1",
        "KubernetesLogLine",
        "One line of a container's log, with everything that kept the read short of what the \
        container wrote.",
        "A container's log, as lines that state their bounds — never the container's complete \
        output (specification section 42.1).",
        "Two observations are the same line when the Pod's `metadata.uid`, the container, the run \
        and the ordinal within the read all match. A line has no identity of its own; a process \
        that printed one message twice printed it twice.",
        Tier::Logs,
        "",
        "",
        FieldSet::Log,
    ),
    (
        "k8s-timeline",
        "io.github.godspeed-you.kubernetes.timeline/1",
        "KubernetesObservation",
        "One thing known to have a time attached, the clock that wrote it, and the window this \
        provider was observing in.",
        "What is known to have happened to an object, with the clock behind every time and the \
        periods nobody observed (specification section 39).",
        "Two observations are the same observation when the object, the source, the clock, the \
        raw timestamp and what was observed all match. Two observations on two clocks are never \
        in an order.",
        Tier::Timeline,
        "",
        "",
        FieldSet::Timeline,
    ),
    (
        "k8s-why",
        "io.github.godspeed-you.kubernetes.why/1",
        "KubernetesFinding",
        "One thing this provider is prepared to say about the state an object is in, and the rung \
        above which it will not climb.",
        "What can be said about the state an object is in — correlation, order, a dependency path \
        or something Kubernetes asserts, and never a cause (specification section 40).",
        "Two observations are the same finding when the object, the claim and what the claim \
        rests on all match. A finding has no `metadata.uid` of its own.",
        Tier::Why,
        "",
        "",
        FieldSet::Why,
    ),
    (
        "k8s-condition",
        "io.github.godspeed-you.kubernetes.condition/1",
        "KubernetesCondition",
        "One condition a controller wrote about an object, kept structured rather than reduced to \
        a status word.",
        "The conditions an object's controllers wrote about it, each with the generation it was \
        written about (specification section 37).",
        "Two observations are the same condition when the object's `metadata.uid` and the \
        condition `type` match. A condition that flipped is the same condition.",
        Tier::Conditions,
        "",
        "",
        FieldSet::Condition,
    ),
    (
        "k8s-cluster",
        "io.github.godspeed-you.kubernetes.cluster/1",
        "KubernetesCluster",
        "One provider instance: which cluster it reaches, whether it answers, and who it is to it.",
        "Which cluster this is, whether it can be reached, and who you are to it.",
        "Two observations are the same provider instance when their `uid` — \
        `kubernetes:<context>` — matches. Two instances that reach one cluster share a \
        fingerprint and are never one instance (specification section 10.3).",
        Tier::Instance,
        "",
        "",
        FieldSet::Cluster,
    ),
    (
        "k8s-plan",
        "io.github.godspeed-you.kubernetes.plan/1",
        "KubernetesChangePlan",
        "A change described before it is made: its target, its preconditions, its effects and \
        what could be verified afterwards.",
        "What a change would do, before anything is changed (specification section 46).",
        "Two records describe the same prospective change when the object lifetime, the \
        `resourceVersion` the plan is aimed at, the action and the fields it touches all match. \
        A plan has no `metadata.uid` of its own; the uid on the record is the target object's.",
        Tier::Plan,
        "",
        "",
        FieldSet::Plan,
    ),
];

/// What a row of the table reads.
pub open spec fn reads_of(row: TargetRow) -> Reads {
    match row.6 {
        Tier::Curated => Reads::Kind { group: row.7, kind: row.8 },
        Tier::Discovered => Reads::Discovered,
        Tier::Instance => Reads::Instance,
        Tier::Relations => Reads::Relations,
        Tier::Changes => Reads::Changes,
        Tier::Events => Reads::Events,
        Tier::Evidence => Reads::Evidence,
        Tier::Logs => Reads::Logs,
        Tier::Timeline => Reads::Timeline,
        Tier::Why => Reads::Why,
        Tier::Conditions => Reads::Conditions,
        Tier::Plan => Reads::Plan,
    }
}

impl Target {
    /// Whether this is the target of a row.
    pub open spec fn is_row(self, row: TargetRow) -> bool {
        &&& self.name == row.0
        &&& self.schema == row.1
        &&& self.schema_name == row.2
        &&& self.schema_summary == row.3
        &&& self.summary == row.4
        &&& self.identity_doc == row.5
        &&& self.reads == reads_of(row)
        &&& self.fields@ == schema_fields(row.9)
    }
}

/// The first row of a name.
pub open spec fn target_row(rows: Seq<TargetRow>, name: Seq<char>) -> Option<TargetRow>
    decreases rows.len(),
{
    if rows.len() == 0 {
        None
    } else if rows[0].0@ == name {
        Some(rows[0])
    } else {
        target_row(rows.skip(1), name)
    }
}

/// The target of a row.
fn target_of(row: TargetRow) -> (r: Target)
    ensures
        r.is_row(row),
{
    Target {
        name: row.0,
        schema: row.1,
        schema_name: row.2,
        schema_summary: row.3,
        summary: row.4,
        identity_doc: row.5,
        reads: match row.6 {
            Tier::Curated => Reads::Kind { group: row.7, kind: row.8 },
            Tier::Discovered => Reads::Discovered,
            Tier::Instance => Reads::Instance,
            Tier::Relations => Reads::Relations,
            Tier::Changes => Reads::Changes,
            Tier::Events => Reads::Events,
            Tier::Evidence => Reads::Evidence,
            Tier::Logs => Reads::Logs,
            Tier::Timeline => Reads::Timeline,
            Tier::Why => Reads::Why,
            Tier::Conditions => Reads::Conditions,
            Tier::Plan => Reads::Plan,
        },
        fields: fields(row.9),
    }
}

/// Every target this package answers for, in the order of the table.
pub fn targets() -> (r: Vec<Target>)
    ensures
        r@.len() == TARGETS@.len(),
        forall|i: int| 0 <= i < r@.len() ==> (#[trigger] r@[i]).is_row(TARGETS@[i]),
{
    let mut out: Vec<Target> = Vec::new();
    let mut i: usize = 0;
    while i < TARGETS.len()
        invariant
            i <= TARGETS@.len(),
            out@.len() == i,
            forall|j: int| 0 <= j < i ==> (#[trigger] out@[j]).is_row(TARGETS@[j]),
        decreases TARGETS@.len() - i,
    {
        out.push(target_of(TARGETS[i]));
        i = i + 1;
    }
    out
}

/// The target of that name, where this package answers for one.
pub fn target(name: &str) -> (r: Option<Target>)
    ensures
        match r {
            Some(target) => target_row(TARGETS@, name@) matches Some(row) && target.is_row(row),
            None => target_row(TARGETS@, name@) is None,
        },
{
    let mut i: usize = 0;
    assert(TARGETS@.skip(0) =~= TARGETS@);
    while i < TARGETS.len()
        invariant
            i <= TARGETS@.len(),
            target_row(TARGETS@.skip(i as int), name@) == target_row(TARGETS@, name@),
        decreases TARGETS@.len() - i,
    {
        if same(TARGETS[i].0, name) {
            return Some(target_of(TARGETS[i]));
        }
        assert(TARGETS@.skip(i as int).skip(1) =~= TARGETS@.skip(i + 1));
        i = i + 1;
    }
    None
}

// --- commands -------------------------------------------------------------------------------------

/// What a contributed command changes, which decides which handler answers it.
#[derive(Debug, Clone, Copy, PartialEq, Eq, Structural)]
pub enum Writes {
    /// A bounded set of field changes, applied with field ownership tracked.
    Fields,
    /// The object, with the propagation policy the invocation chose.
    Object,
}

/// One schema this package contributes that no target answers for.
///
/// A mutation's answer belongs to a command: it is what one attempt produced, and there is no
/// collection of attempts to enumerate.
#[derive(Debug, PartialEq, Eq)]
pub struct SchemaDef {
    /// The schema id, as records of it carry it.
    pub id: &'static str,
    /// The schema's display name.
    pub name: &'static str,
    /// One line: what a record of this schema is.
    pub summary: &'static str,
    /// What makes two records of it the same thing.
    pub identity: Vec<&'static str>,
    /// The fields, in declaration order.
    pub fields: Vec<Field>,
}

impl SchemaDef {
    /// Whether a contribution is that of this schema.
    pub open spec fn contributed_as(self, contribution: SchemaContribution) -> bool {
        &&& contribution.id@ == self.id@
        &&& contribution.name@ == self.name@
        &&& contribution.summary@ == self.summary@
        &&& views(contribution.identity@) == name_views(self.identity@)
        &&& fields_contributed_as(self.fields@, contribution.fields@)
    }

    /// The schema as the handshake carries it.
    pub fn contribution(&self) -> (r: SchemaContribution)
        ensures
            self.contributed_as(r),
    {
        SchemaContribution {
            id: self.id.to_owned(),
            name: self.name.to_owned(),
            summary: self.summary.to_owned(),
            identity: owned_names(&self.identity),
            fields: contributed_fields(&self.fields),
        }
    }
}

pub const MUTATION_SCHEMA: &'static str = "io.github.godspeed-you.kubernetes.mutation/1";

pub const MUTATION_SCHEMA_NAME: &'static str = "KubernetesMutation";

pub const MUTATION_SCHEMA_SUMMARY: &'static str = "What one attempt at a change asked for, what the API server did with it, and the one rung of \
    the ladder that establishes.";

/// The schemas that belong to a command rather than to a target.
pub fn command_schemas() -> (r: Vec<SchemaDef>)
    ensures
        r@.len() == 1,
        r@[0].id == MUTATION_SCHEMA,
        r@[0].name == MUTATION_SCHEMA_NAME,
        r@[0].summary == MUTATION_SCHEMA_SUMMARY,
        r@[0].identity@ == PLAN_IDENTITY@,
        r@[0].fields@ == schema_fields(FieldSet::Mutation),
{
    let mut out: Vec<SchemaDef> = Vec::new();
    out.push(
        SchemaDef {
            id: MUTATION_SCHEMA,
            name: MUTATION_SCHEMA_NAME,
            summary: MUTATION_SCHEMA_SUMMARY,
            identity: listed(&PLAN_IDENTITY),
            fields: fields(FieldSet::Mutation),
        },
    );
    out
}

/// One command this package contributes: a word that changes a cluster.
///
/// A command rather than a target, because a command declares a risk and the capabilities it needs,
/// which the host checks at every invocation, and a target has nowhere to declare either.
#[derive(Debug, PartialEq, Eq)]
pub struct Command {
    /// The kebab name after `<package>.command.`.
    pub name: &'static str,
    /// A verb the shell already has.
    pub verb: &'static str,
    /// The noun the verb acts on, which is a target this package already contributes.
    pub target: &'static str,
    /// One line, for `help` and completion.
    pub summary: &'static str,
    /// The schema of the records the command emits.
    pub schema: &'static str,
    /// The risk level.
    pub risk: &'static str,
    /// The capabilities the command needs, checked by the host at each invocation.
    pub capabilities: Vec<&'static str>,
    /// What the command changes.
    pub writes: Writes,
    /// The arguments that belong to this command alone, beyond the ones every write takes.
    pub extra: Vec<Parameter>,
    /// Documented examples.
    pub examples: Vec<&'static str>,
}

/// A command, as the handshake carries it.
#[derive(Debug, PartialEq)]
pub struct CommandContribution {
    pub id: String,
    pub verb: String,
    pub target: String,
    pub summary: String,
    /// What flows into it, which is nothing: a mutation resolves its one object for itself.
    pub input: Option<String>,
    pub output: String,
    pub capabilities: Vec<String>,
    pub argument_mode: String,
    /// What a bare word binds to, which is nothing.
    pub selectors: Vec<String>,
    pub options: Vec<ParameterContribution>,
    pub risk: Option<String>,
    pub examples: Vec<String>,
}

/// The capabilities both commands need: everything they do to a cluster travels through the host's
/// network broker.
pub const CAPABILITIES: [&'static str; 1] = ["network.connect"];

/// How the word that sets is used.
pub const SET_EXAMPLES: [&'static str; 7] = [
    "set k8s-resource --context prod --kind Deployment --name api --replicas 2",
    "set k8s-resource --context prod --kind Deployment --name api --replicas 2 --dry_run false",
    "set k8s-resource --context prod --kind Deployment --name api --image \
    web=registry.example/web:1.4.0",
    "set k8s-resource --context prod --kind Deployment --name api --restart_rollout true",
    "set k8s-resource --context prod --kind Node --name node-7 --schedulable false",
    "set k8s-resource --context prod --kind Deployment --name api --label tier=edge",
    "set k8s-resource --context prod --kind Deployment --name api --set \
    '{\"/spec/minReadySeconds\": 10}'",
];

/// How the word that removes is used.
pub const REMOVE_EXAMPLES: [&'static str; 2] = [
    "remove k8s-resource --context prod --kind ConfigMap --name stale",
    "remove k8s-resource --context prod --kind ConfigMap --name stale --dry_run false",
];

/// One row of the table of commands: name, verb, target, summary, schema, risk, and what it changes.
pub type CommandRow = (
    &'static str,
    &'static str,
    &'static str,
    &'static str,
    &'static str,
    &'static str,
    Writes,
);

/// The two words that change a cluster, and nothing else.
pub const COMMANDS: [CommandRow; 2] = [
    (
        "set-k8s-resource",
        "set",
        "k8s-resource",
        "Change one Kubernetes object through a curated action — `--replicas` to scale, `--image` \
        to set an image, `--restart_rollout`, `--schedulable` to cordon or uncordon a Node, \
        `--label`, `--annotation` — or through the low-level `--set`/`--unset` JSON-pointer \
        escape hatch. A server dry run unless `dry_run false` is given (specification sections \
        43.3, 43.4, 44).",
        MUTATION_SCHEMA,
        "mutate",
        Writes::Fields,
    ),
    (
        "remove-k8s-resource",
        "remove",
        "k8s-resource",
        "Delete one Kubernetes object, as a server dry run unless `dry_run false` is given \
        (specification section 45).",
        MUTATION_SCHEMA,
        "destructive",
        Writes::Object,
    ),
];

/// The arguments that belong to a command alone.
pub open spec fn extra_of(writes: Writes) -> Seq<Parameter> {
    match writes {
        Writes::Fields => parameters_of(APPLY_OPTIONS@),
        Writes::Object => parameters_of(DELETE_OPTIONS@),
    }
}

/// How a command is used.
pub open spec fn examples_of(writes: Writes) -> Seq<&'static str> {
    match writes {
        Writes::Fields => SET_EXAMPLES@,
        Writes::Object => REMOVE_EXAMPLES@,
    }
}

impl Command {
    /// Whether this is the command of a row.
    pub open spec fn is_row(self, row: CommandRow) -> bool {
        &&& self.name == row.0
        &&& self.verb == row.1
        &&& self.target == row.2
        &&& self.summary == row.3
        &&& self.schema == row.4
        &&& self.risk == row.5
        &&& self.capabilities@ == CAPABILITIES@
        &&& self.writes == row.6
        &&& self.extra@ == extra_of(row.6)
        &&& self.examples@ == examples_of(row.6)
    }

    /// The full contributed id.
    pub open spec fn full_id(self) -> Seq<char> {
        PACKAGE@ + ".command."@ + self.name@
    }

    /// The arguments this command takes: which cluster, which namespace, which resource, which
    /// object, then `dry_run`, then its own. A write is aimed at one object in one namespace, so
    /// there is no argument that spreads it over all of them.
    pub open spec fn takes(self) -> Seq<Parameter> {
        parameters_of(CLUSTER@) + parameters_of(SCOPE@.take(1)) + parameters_of(RESOURCE@)
            + parameters_of(NAMED@) + parameters_of(DRY_RUN@) + self.extra@
    }

    /// Whether a contribution is that of this command.
    pub open spec fn contributed_as(self, contribution: CommandContribution) -> bool {
        &&& contribution.id@ == self.full_id()
        &&& contribution.verb@ == self.verb@
        &&& contribution.target@ == self.target@
        &&& contribution.summary@ == self.summary@
        &&& contribution.input is None
        &&& contribution.output@ == "stream<"@ + self.schema@ + ">"@
        &&& views(contribution.capabilities@) == name_views(self.capabilities@)
        &&& contribution.argument_mode@ == "words"@
        &&& contribution.selectors@.len() == 0
        &&& options_contributed_as(self.takes(), contribution.options@)
        &&& contribution.risk matches Some(risk) && risk@ == self.risk@
        &&& views(contribution.examples@) == name_views(self.examples@)
    }

    /// The full contributed id, `<package>.command.<kebab-name>`.
    pub fn id(&self) -> (r: String)
        ensures
            r@ == self.full_id(),
    {
        join3(PACKAGE, ".command.", self.name)
    }

    /// The command as the handshake carries it.
    pub fn contribution(&self) -> (r: CommandContribution)
        ensures
            self.contributed_as(r),
    {
        CommandContribution {
            id: self.id(),
            verb: self.verb.to_owned(),
            target: self.target.to_owned(),
            summary: self.summary.to_owned(),
            input: None,
            output: join3("stream<", self.schema, ">"),
            capabilities: owned_names(&self.capabilities),
            argument_mode: "words".to_owned(),
            selectors: Vec::new(),
            options: contributed_options(&self.options()),
            risk: Some(self.risk.to_owned()),
            examples: owned_names(&self.examples),
        }
    }

    /// The arguments this command takes.
    ///
    /// `dry_run` declares its default rather than relying on the handler's, which falls back to the
    /// same value: a package whose safe behaviour depends on the host having applied a default is a
    /// package with a latent write in it.
    pub fn options(&self) -> (r: Vec<Parameter>)
        ensures
            r@ == self.takes(),
    {
        let mut options: Vec<Parameter> = Vec::new();
        add_all(&mut options, &CLUSTER);
        assert(options@ =~= parameters_of(CLUSTER@));
        add_first(&mut options, &SCOPE, 1);
        add_all(&mut options, &RESOURCE);
        add_all(&mut options, &NAMED);
        add_all(&mut options, &DRY_RUN);
        let ghost before = options@;
        let mut i: usize = 0;
        assert(self.extra@.take(0) =~= Seq::<Parameter>::empty());
        while i < self.extra.len()
            invariant
                i <= self.extra.len(),
                options@ == before + self.extra@.take(i as int),
            decreases self.extra.len() - i,
        {
            options.push(self.extra[i]);
            i = i + 1;
            assert(before + self.extra@.take(i as int) =~= (before + self.extra@.take(i - 1)).push(
                self.extra@[i - 1],
            ));
        }
        assert(self.extra@.take(i as int) =~= self.extra@);
        options
    }
}

/// The first row of a name.
pub open spec fn command_row(rows: Seq<CommandRow>, name: Seq<char>) -> Option<CommandRow>
    decreases rows.len(),
{
    if rows.len() == 0 {
        None
    } else if rows[0].0@ == name {
        Some(rows[0])
    } else {
        command_row(rows.skip(1), name)
    }
}

/// The command of a row.
fn command_of(row: CommandRow) -> (r: Command)
    ensures
        r.is_row(row),
{
    let mut extra: Vec<Parameter> = Vec::new();
    match row.6 {
        Writes::Fields => add_all(&mut extra, &APPLY_OPTIONS),
        Writes::Object => add_all(&mut extra, &DELETE_OPTIONS),
    }
    assert(extra@ =~= extra_of(row.6));
    Command {
        name: row.0,
        verb: row.1,
        target: row.2,
        summary: row.3,
        schema: row.4,
        risk: row.5,
        capabilities: listed(&CAPABILITIES),
        writes: row.6,
        extra,
        examples: match row.6 {
            Writes::Fields => listed(&SET_EXAMPLES),
            Writes::Object => listed(&REMOVE_EXAMPLES),
        },
    }
}

/// Every command this package contributes.
pub fn commands() -> (r: Vec<Command>)
    ensures
        r@.len() == COMMANDS@.len(),
        forall|i: int| 0 <= i < r@.len() ==> (#[trigger] r@[i]).is_row(COMMANDS@[i]),
{
    let mut out: Vec<Command> = Vec::new();
    let mut i: usize = 0;
    while i < COMMANDS.len()
        invariant
            i <= COMMANDS@.len(),
            out@.len() == i,
            forall|j: int| 0 <= j < i ==> (#[trigger] out@[j]).is_row(COMMANDS@[j]),
        decreases COMMANDS@.len() - i,
    {
        out.push(command_of(COMMANDS[i]));
        i = i + 1;
    }
    out
}

/// The command of that kebab name, where this package contributes one.
pub fn command(name: &str) -> (r: Option<Command>)
    ensures
        match r {
            Some(command) => command_row(COMMANDS@, name@) matches Some(row) && command.is_row(
                row,
            ),
            None => command_row(COMMANDS@, name@) is None,
        },
{
    let mut i: usize = 0;
    assert(COMMANDS@.skip(0) =~= COMMANDS@);
    while i < COMMANDS.len()
        invariant
            i <= COMMANDS@.len(),
            command_row(COMMANDS@.skip(i as int), name@) == command_row(COMMANDS@, name@),
        decreases COMMANDS@.len() - i,
    {
        if same(COMMANDS[i].0, name) {
            return Some(command_of(COMMANDS[i]));
        }
        assert(COMMANDS@.skip(i as int).skip(1) =~= COMMANDS@.skip(i + 1));
        i = i + 1;
    }
    None
}

// --- laws -----------------------------------------------------------------------------------------

/// Every target takes the four cluster arguments first, because none of them can answer without
/// reaching an API server.
pub proof fn every_target_names_its_cluster(reads: Reads)
    ensures
        options_of(reads).len() >= CLUSTER@.len(),
        options_of(reads).take(CLUSTER@.len() as int) == parameters_of(CLUSTER@),
{
    assert(options_of(reads).take(CLUSTER@.len() as int) =~= parameters_of(CLUSTER@));
}

/// Every command takes `dry_run`, and the value the host supplies for it is the one that changes
/// nothing.
pub proof fn every_command_predicts_by_default(command: Command)
    ensures
        exists|i: int|
            0 <= i < command.takes().len() && (#[trigger] command.takes()[i]).name == "dry_run"
                && command.takes()[i].default == Some("true"),
{
    let before = parameters_of(CLUSTER@) + parameters_of(SCOPE@.take(1)) + parameters_of(RESOURCE@)
        + parameters_of(NAMED@);
    let i = before.len() as int;
    let own = parameters_of(DRY_RUN@);
    assert(DRY_RUN@.len() == 1);
    assert(own[0] == parameter_of(DRY_RUN@[0]));
    assert(command.takes()[i] == own[0]);
    assert(DRY_RUN@[0].0 == "dry_run");
    assert(DRY_RUN@[0].4 == "true");
    assert(DRY_RUN@[0].3 == Arity::Defaulting);
}

/// No command takes an argument that would spread a change over every namespace: of the two
/// arguments that name a scope it takes the one that names one namespace.
pub proof fn every_command_is_aimed_at_one_namespace(command: Command)
    ensures
        command.takes().subrange(CLUSTER@.len() as int, CLUSTER@.len() as int + 1) == seq![
            parameter_of(SCOPE@[0]),
        ],
        SCOPE@[0].0 == "namespace",
{
    assert(SCOPE@.take(1)[0] == SCOPE@[0]);
    assert(command.takes().subrange(CLUSTER@.len() as int, CLUSTER@.len() as int + 1) =~= seq![
        parameter_of(SCOPE@[0]),
    ]);
}

/// Whether a target that reads something has the schema for it.
pub open spec fn fits(reads: Reads, set: FieldSet) -> bool {
    match reads {
        Reads::Relations => set == FieldSet::Relation,
        Reads::Changes => set == FieldSet::Change,
        Reads::Evidence => set == FieldSet::Evidence,
        Reads::Logs => set == FieldSet::Log,
        Reads::Timeline => set == FieldSet::Timeline,
        Reads::Why => set == FieldSet::Why,
        Reads::Conditions => set == FieldSet::Condition,
        Reads::Plan => set == FieldSet::Plan,
        Reads::Instance => set == FieldSet::Cluster,
        Reads::Events => set == FieldSet::Event,
        Reads::Discovered => set == FieldSet::Resource,
        Reads::Kind { .. } => carries_metadata(set),
    }
}

/// Whether a schema begins with the metadata every object carries.
pub open spec fn carries_metadata(set: FieldSet) -> bool {
    match set {
        FieldSet::Relation | FieldSet::Change | FieldSet::Evidence | FieldSet::Log => false,
        FieldSet::Timeline | FieldSet::Why | FieldSet::Condition | FieldSet::Cluster => false,
        FieldSet::Plan | FieldSet::Mutation => false,
        _ => true,
    }
}

/// Every row of the table has the schema for what it reads.
proof fn rows_fit(i: int)
    requires
        0 <= i < TARGETS@.len(),
    ensures
        fits(reads_of(TARGETS@[i]), TARGETS@[i].9),
{
    if i == 0 {
    } else if i == 1 {
    } else if i == 2 {
    } else if i == 3 {
    } else if i == 4 {
    } else if i == 5 {
    } else if i == 6 {
    } else if i == 7 {
    } else if i == 8 {
    } else if i == 9 {
    } else if i == 10 {
    } else if i == 11 {
    } else if i == 12 {
    } else if i == 13 {
    } else if i == 14 {
    } else if i == 15 {
    } else if i == 16 {
    } else if i == 17 {
    } else if i == 18 {
    } else if i == 19 {
    } else if i == 20 {
    } else if i == 21 {
    } else if i == 22 {
    } else if i == 23 {
    } else if i == 24 {
    } else if i == 25 {
    } else if i == 26 {
    } else if i == 27 {
    } else if i == 28 {
    } else if i == 29 {
    }
}

/// What tells the records of a target apart is a field of their schema.
proof fn identity_fits(reads: Reads, set: FieldSet, k: int)
    requires
        fits(reads, set),
        0 <= k < identity_of(reads).len(),
    ensures
        declares(set, identity_of(reads)[k]@),
{
    let place: int = match reads {
        Reads::Relations => if k == 0 {
            0int
        } else if k == 1 {
            6int
        } else if k == 2 {
            7int
        } else {
            16int
        },
        Reads::Changes => if k == 0 {
            1int
        } else if k == 1 {
            3int
        } else if k == 2 {
            0int
        } else if k == 3 {
            8int
        } else {
            13int
        },
        Reads::Evidence => if k == 0 {
            0int
        } else if k == 1 {
            5int
        } else {
            8int
        },
        Reads::Logs => if k == 0 {
            0int
        } else if k == 1 {
            5int
        } else if k == 2 {
            6int
        } else {
            7int
        },
        Reads::Timeline => if k == 0 {
            0int
        } else if k == 1 {
            6int
        } else if k == 2 {
            7int
        } else if k == 3 {
            8int
        } else {
            10int
        },
        Reads::Why => if k == 0 {
            0int
        } else if k == 1 {
            5int
        } else {
            8int
        },
        Reads::Conditions => if k == 0 {
            0int
        } else {
            5int
        },
        Reads::Plan => if k == 0 {
            0int
        } else if k == 1 {
            5int
        } else if k == 2 {
            6int
        } else {
            7int
        },
        _ => 0int,
    };
    assert(schema_fields(set)[place].name == identity_of(reads)[k]);
}

/// Every name that tells the records of a target apart is a field its schema declares.
pub proof fn every_identity_is_declared(i: int, k: int)
    requires
        0 <= i < TARGETS@.len(),
        0 <= k < identity_of(reads_of(TARGETS@[i])).len(),
    ensures
        declares(TARGETS@[i].9, identity_of(reads_of(TARGETS@[i]))[k]@),
{
    rows_fit(i);
    identity_fits(reads_of(TARGETS@[i]), TARGETS@[i].9, k);
}

/// Every identity holds the lifetime of an object and no name twice, and it is that lifetime alone
/// exactly where the records are the objects themselves, the instance, or Events.
pub proof fn identities_hold_the_lifetime(reads: Reads)
    ensures
        name_views(identity_of(reads)).contains(IDENTITY@),
        name_views(identity_of(reads)).no_duplicates(),
        name_views(identity_of(reads)) == seq![IDENTITY@] <==> (reads is Kind || reads is Discovered
            || reads is Instance || reads is Events),
{
    reveal_strlit("uid");
    reveal_strlit("relation");
    reveal_strlit("target");
    reveal_strlit("evidence_path");
    reveal_strlit("resource");
    reveal_strlit("segment");
    reveal_strlit("change");
    reveal_strlit("resource_version");
    reveal_strlit("key");
    reveal_strlit("source");
    reveal_strlit("container");
    reveal_strlit("instance");
    reveal_strlit("line");
    reveal_strlit("clock");
    reveal_strlit("stamp");
    reveal_strlit("detail");
    reveal_strlit("claim");
    reveal_strlit("support");
    reveal_strlit("condition_type");
    reveal_strlit("action");
    reveal_strlit("changes");
    assert("uid"@[0] == 'u' && "key"@[0] == 'k');
    assert("source"@[0] == 's' && "detail"@[0] == 'd');
    assert("clock"@[0] == 'c' && "stamp"@[0] == 's');
    assert("action"@.len() == 6);
    assert("change"@.len() == 6);
    assert("changes"@.len() == 7);
    assert("claim"@.len() == 5);
    assert("clock"@.len() == 5);
    assert("condition_type"@.len() == 14);
    assert("container"@.len() == 9);
    assert("detail"@.len() == 6);
    assert("evidence_path"@.len() == 13);
    assert("instance"@.len() == 8);
    assert("key"@.len() == 3);
    assert("line"@.len() == 4);
    assert("relation"@.len() == 8);
    assert("resource"@.len() == 8);
    assert("resource_version"@.len() == 16);
    assert("segment"@.len() == 7);
    assert("source"@.len() == 6);
    assert("stamp"@.len() == 5);
    assert("support"@.len() == 7);
    assert("target"@.len() == 6);
    assert("uid"@.len() == 3);
    let names = name_views(identity_of(reads));
    match reads {
        Reads::Relations => {
            assert(names =~= seq!["uid"@, "relation"@, "target"@, "evidence_path"@]);
        },
        Reads::Changes => {
            assert(names =~= seq!["resource"@, "segment"@, "change"@, "uid"@, "resource_version"@]);
        },
        Reads::Evidence => {
            assert(names =~= seq!["uid"@, "key"@, "source"@]);
        },
        Reads::Logs => {
            assert(names =~= seq!["uid"@, "container"@, "instance"@, "line"@]);
        },
        Reads::Timeline => {
            assert(names =~= seq!["uid"@, "source"@, "clock"@, "stamp"@, "detail"@]);
        },
        Reads::Why => {
            assert(names =~= seq!["uid"@, "claim"@, "support"@]);
        },
        Reads::Conditions => {
            assert(names =~= seq!["uid"@, "condition_type"@]);
        },
        Reads::Plan => {
            assert(names =~= seq!["uid"@, "resource_version"@, "action"@, "changes"@]);
        },
        _ => {
            assert(names =~= seq!["uid"@]);
        },
    }
    assert(names.no_duplicates());
    let place: int = if reads is Changes {
        3
    } else {
        0
    };
    assert(names[place] == IDENTITY@);
    if reads is Kind || reads is Discovered || reads is Instance || reads is Events {
        assert(names =~= seq![IDENTITY@]);
    } else {
        assert(names.len() > 1);
        assert(seq![IDENTITY@].len() == 1);
    }
}

}
