//! The arguments every word of this package declares.
//!
//! Declaring an argument is not the same as accepting it. What a declaration buys is what the host
//! can only do when it knows the argument exists: a help line, a completion candidate, a type the
//! written word is coerced to, and a default supplied when nothing is written.

use vstd::prelude::*;

use crate::json::{Json, JsonView};

verus! {

/// One argument a contribution declares.
#[derive(Debug, Clone, Copy, PartialEq, Eq)]
pub struct Parameter {
    /// The name, without the `--` an option is written with, and spelled exactly as the handler
    /// reads it out of the arguments.
    pub name: &'static str,
    /// The registry type the written word is coerced to, e.g. `string`, `int`, `bool`, `map`.
    pub declared_type: &'static str,
    /// One line, shown by `help` and beside a completion candidate.
    pub doc: &'static str,
    /// The value the host supplies when the argument is absent. `None` means the argument simply
    /// does not arrive.
    pub default: Option<&'static str>,
    /// Whether the argument may be written more than once, accumulating.
    pub repeatable: bool,
}

/// One declared argument, as the handshake and the on-disk document carry it.
#[derive(Debug, PartialEq)]
pub struct ParameterContribution {
    pub name: String,
    pub declared_type: String,
    pub doc: String,
    pub repeatable: bool,
    /// Whether the argument may be written without its value, which none may.
    pub optional_value: bool,
    pub default: Option<Json>,
}

impl Parameter {
    /// A declared argument with no default: absent means absent.
    pub fn new(name: &'static str, declared_type: &'static str, doc: &'static str) -> (r: Parameter)
        ensures
            r == (Parameter { name, declared_type, doc, default: None, repeatable: false }),
    {
        Parameter { name, declared_type, doc, default: None, repeatable: false }
    }

    /// A declared argument that may be written more than once, accumulating into a list.
    pub fn repeatable(
        name: &'static str,
        declared_type: &'static str,
        doc: &'static str,
    ) -> (r: Parameter)
        ensures
            r == (Parameter { name, declared_type, doc, default: None, repeatable: true }),
    {
        Parameter { name, declared_type, doc, default: None, repeatable: true }
    }

    /// A declared argument the host fills in when nothing is written.
    pub fn defaulting(
        name: &'static str,
        declared_type: &'static str,
        doc: &'static str,
        default: &'static str,
    ) -> (r: Parameter)
        ensures
            r == (Parameter {
                name,
                declared_type,
                doc,
                default: Some(default),
                repeatable: false,
            }),
    {
        Parameter { name, declared_type, doc, default: Some(default), repeatable: false }
    }

    /// Whether a contribution is this argument's.
    pub open spec fn contributed_as(self, contribution: ParameterContribution) -> bool {
        &&& contribution.name@ == self.name@
        &&& contribution.declared_type@ == self.declared_type@
        &&& contribution.doc@ == self.doc@
        &&& contribution.repeatable == self.repeatable
        &&& contribution.optional_value == false
        &&& match (self.default, contribution.default) {
            (Some(text), Some(json)) => json@ == JsonView::Text(text@),
            (None, None) => true,
            _ => false,
        }
    }

    /// The parameter as the handshake and the on-disk document carry it.
    pub fn contribution(&self) -> (r: ParameterContribution)
        ensures
            self.contributed_as(r),
    {
        ParameterContribution {
            name: self.name.to_owned(),
            declared_type: self.declared_type.to_owned(),
            doc: self.doc.to_owned(),
            repeatable: self.repeatable,
            optional_value: false,
            default: match self.default {
                Some(text) => Some(Json::Text(text.to_owned())),
                None => None,
            },
        }
    }
}

/// How often an argument may be written, and what stands for it when it is not.
#[derive(Debug, Clone, Copy, PartialEq, Eq, Structural)]
pub enum Arity {
    Once,
    Repeatable,
    Defaulting,
}

/// One row of a table: name, type, line, arity, and the default of an argument that has one.
pub type Row = (&'static str, &'static str, &'static str, Arity, &'static str);

// --- the tables -----------------------------------------------------------------------------------

/// Which cluster the invocation is about. No endpoint is ever defaulted.
pub const CLUSTER: [Row; 4] = [
    (
        "context",
        "string",
        "A kubeconfig context: its server, default namespace, trust anchors and credential.",
        Arity::Once,
        "",
    ),
    (
        "kubeconfig",
        "string",
        "Which kubeconfig file to read the context from. An absolute path; default \
        `~/.kube/config`.",
        Arity::Once,
        "",
    ),
    (
        "host",
        "string",
        "An explicit API server host instead of a context (specification section 7.3).",
        Arity::Once,
        "",
    ),
    (
        "port",
        "int",
        "The API server port, where `host` names one and the default 443 is wrong.",
        Arity::Once,
        "",
    ),
];

/// Which namespace, for a read that has one.
pub const SCOPE: [Row; 2] = [
    (
        "namespace",
        "string",
        "One namespace, beating the context's default (specification section 7.5).",
        Arity::Once,
        "",
    ),
    (
        "all_namespaces",
        "bool",
        "Every namespace the caller can see. Deliberate rather than implied: there is no silent \
        fan-out (specification section 9.4).",
        Arity::Once,
        "",
    ),
];

/// Which resource, for the nouns that take the kind from the query rather than from the table.
pub const RESOURCE: [Row; 4] = [
    (
        "kind",
        "string",
        "The Kubernetes kind, e.g. `Widget`, resolved against the cluster's own discovery.",
        Arity::Once,
        "",
    ),
    (
        "group",
        "string",
        "The API group, e.g. `example.io`. Written empty it names the core group; omitted it \
        searches every group the server lists.",
        Arity::Once,
        "",
    ),
    (
        "version",
        "string",
        "One served version instead of the group's preferred one (specification section 13.4).",
        Arity::Once,
        "",
    ),
    (
        "resource",
        "string",
        "The REST collection name, e.g. `widgets`, where the kind is ambiguous or unknown.",
        Arity::Once,
        "",
    ),
];

/// One object rather than a collection.
pub const NAMED: [Row; 1] = [
    (
        "name",
        "string",
        "One object, read at its own endpoint rather than filtered out of the collection. A \
        different request with different permissions (specification section 17.1).",
        Arity::Once,
        "",
    ),
];

/// Whose evidence, for the noun that reads it; the answer differs per kind.
pub const EVIDENCE_KIND: [Row; 1] = [
    (
        "kind",
        "string",
        "Whose evidence: `Node`, `Pod`, `Service` or `Ingress`. Each states a different kind of \
        cross-system fact, and a kind with no rule is refused by name rather than answered empty \
        (specification section 47).",
        Arity::Defaulting,
        "Node",
    ),
];

/// Server-side filtering, handed to the API server exactly as written.
pub const SELECTORS: [Row; 2] = [
    (
        "selector",
        "string",
        "A Kubernetes label selector, e.g. `app=api,tier!=cache` or `env in (staging, prod)`. \
        Pushed to the API server verbatim, so the semantics are Kubernetes' own (specification \
        section 17.4).",
        Arity::Once,
        "",
    ),
    (
        "field_selector",
        "string",
        "A Kubernetes field selector, e.g. `status.phase=Running`. Support varies by resource and \
        by server; one this server will not index is refused by name rather than answered with \
        an empty collection (specification section 17.5).",
        Arity::Once,
        "",
    ),
];

/// A page budget for a listing.
pub const MAX_PAGES: [Row; 1] = [
    (
        "max_pages",
        "int",
        "How many pages of a listing to read before stopping. The stop is coverage, never a \
        silently short answer (specification section 18.4).",
        Arity::Once,
        "",
    ),
];

/// What one invocation may spend against the API server.
pub const BUDGET: [Row; 3] = [
    (
        "max_requests",
        "int",
        "How many requests this query may send to the API server before it stops and says so. \
        Default 64, which is what an interactive question costs (specification section 49.5).",
        Arity::Once,
        "",
    ),
    (
        "max_scopes",
        "int",
        "How many distinct scopes — namespaces, API group-versions — the query may reach into. \
        Checked against the estimated breadth before the first request rather than halfway \
        through (specification section 17.6). Default 32.",
        Arity::Once,
        "",
    ),
    (
        "budget_ms",
        "int",
        "How long the query may take before it stops with what it has. Default 10000: an \
        interactive answer is one somebody is waiting for (specification section 50.1).",
        Arity::Once,
        "",
    ),
];

/// Which relationship, instead of every one.
pub const RELATION: [Row; 1] = [
    (
        "relation",
        "string",
        "One relationship word, e.g. `owned-by` or `selects`, instead of every edge this object \
        states.",
        Arity::Once,
        "",
    ),
];

/// Where a watch stops, what it does after a gap, and when it calls itself stale.
pub const CHANGES: [Row; 3] = [
    (
        "max_changes",
        "int",
        "Stop after this many changes. Absent is unbounded, which is what a watch is: the \
        operator ends it.",
        Arity::Once,
        "",
    ),
    (
        "reacquire",
        "bool",
        "After a continuity gap, list the collection again to resume from a known version. \
        Default true; the gap record is emitted either way (specification section 19.4).",
        Arity::Once,
        "",
    ),
    (
        "stale_after_ms",
        "int",
        "How long without a live observation before the view calls itself stale (specification \
        section 41.4). A threshold this source declares, not a rule the shell applies to \
        everything.",
        Arity::Defaulting,
        "30000",
    ),
];

/// How close two observations must be to be considered together.
pub const WITHIN: [Row; 1] = [
    (
        "within_ms",
        "int",
        "How close in time two observations must be before they are considered together. Never a \
        claim that one caused the other (specification section 40).",
        Arity::Once,
        "",
    ),
];

/// What a log read may narrow, and the one option that unbounds it.
pub const LOG_OPTIONS: [Row; 7] = [
    (
        "container",
        "string",
        "Which container's log, where the Pod has more than one.",
        Arity::Once,
        "",
    ),
    (
        "previous",
        "bool",
        "The previous instance of the container, where one is retained.",
        Arity::Once,
        "",
    ),
    (
        "timestamps",
        "bool",
        "Ask the API server to prefix each line with the time it wrote it.",
        Arity::Once,
        "",
    ),
    (
        "tail_lines",
        "int",
        "Read only the last N lines, which is a bound on the read and is reported as one.",
        Arity::Once,
        "",
    ),
    (
        "since_seconds",
        "int",
        "Read only what was written in the last N seconds.",
        Arity::Once,
        "",
    ),
    (
        "limit_bytes",
        "int",
        "Stop after N bytes. The stop is coverage, never a silently short log.",
        Arity::Once,
        "",
    ),
    (
        "follow",
        "bool",
        "Keep the body open and answer with each line as the container writes it, until the query \
        is cancelled. Refused with `previous`: a run that has already ended cannot produce \
        another line.",
        Arity::Once,
        "",
    ),
];

/// What a plan names about the change itself.
pub const PLAN_OPTIONS: [Row; 4] = [
    (
        "action",
        "string",
        "`apply` for a bounded field change or `delete` for the object. Default `apply` \
        (specification section 43.3).",
        Arity::Once,
        "",
    ),
    (
        "set",
        "record",
        "A mapping from a JSON pointer to the value the field should hold, e.g. \
        `{\"/spec/replicas\": 2}`.",
        Arity::Once,
        "",
    ),
    (
        "unset",
        "list<string>",
        "A pointer whose field the apply gives up rather than sets. Write it more than once for \
        more than one (specification section 44.1).",
        Arity::Repeatable,
        "",
    ),
    (
        "propagation",
        "string",
        "`Foreground`, `Background` or `Orphan` for a deletion's dependents (specification \
        section 45.2).",
        Arity::Once,
        "",
    ),
];

/// Whether a cluster changes at all. The safe value is the one the host supplies.
pub const DRY_RUN: [Row; 1] = [
    (
        "dry_run",
        "bool",
        "Ask the API server what it would do without doing it. Default true: the shortest \
        sentence a user can write predicts (specification section 44.5).",
        Arity::Defaulting,
        "true",
    ),
];

/// What a field-writing command names beyond the object: the curated transitions first, the
/// low-level path behind them.
pub const APPLY_OPTIONS: [Row; 10] = [
    (
        "replicas",
        "int",
        "Scale: how many replicas the workload should ask for. The curated form of \
        `/spec/replicas` (specification section 43.3).",
        Arity::Once,
        "",
    ),
    (
        "image",
        "list<string>",
        "Set image: `<container>=<image>`, naming the container rather than its position in the \
        list. Write it more than once for more than one container (specification section 43.3).",
        Arity::Repeatable,
        "",
    ),
    (
        "restart_rollout",
        "bool",
        "Restart the rollout by marking the pod template as changed, which is what makes a \
        controller roll its pods. Nothing is deleted (specification section 43.3).",
        Arity::Once,
        "",
    ),
    (
        "schedulable",
        "bool",
        "Cordon or uncordon a Node: `false` stops the scheduler placing new pods on it, `true` \
        lets it again. Pods already running are neither stopped nor moved (specification section \
        43.3).",
        Arity::Once,
        "",
    ),
    (
        "label",
        "list<string>",
        "Label: `<key>=<value>`, or `<key>=` to remove the label. Write it more than once for \
        more than one (specification sections 43.3, 14.5).",
        Arity::Repeatable,
        "",
    ),
    (
        "annotation",
        "list<string>",
        "Annotate: `<key>=<value>`, or `<key>=` to remove the annotation. Write it more than once \
        for more than one (specification sections 43.3, 14.5).",
        Arity::Repeatable,
        "",
    ),
    (
        "set",
        "record",
        "LOW-LEVEL EXPERT PATH (specification section 43.4): a mapping from a raw JSON pointer to \
        the value the field should hold, e.g. `{\"/spec/replicas\": 2}`. It names fields \
        against a schema you are expected to know and no curated action vouches for what they \
        mean together. Prefer `--replicas`, `--image`, `--restart_rollout`, `--schedulable`, \
        `--label` or `--annotation`, which each carry their own effects and verification rule.",
        Arity::Once,
        "",
    ),
    (
        "unset",
        "list<string>",
        "LOW-LEVEL EXPERT PATH (specification section 43.4): a pointer whose field this apply \
        gives up rather than sets. Write it more than once for more than one (specification \
        section 44.1).",
        Arity::Repeatable,
        "",
    ),
    (
        "field_manager",
        "string",
        "The name field ownership is recorded under (specification section 44.2).",
        Arity::Defaulting,
        "ono-sendai",
    ),
    (
        "force_because",
        "string",
        "The reason ownership is taken from a conflicting manager. There is deliberately no \
        `force` flag: forcing is a sentence somebody wrote (specification section 44.4).",
        Arity::Once,
        "",
    ),
];

/// What a deletion names beyond the object.
pub const DELETE_OPTIONS: [Row; 1] = [
    (
        "propagation",
        "string",
        "`Foreground` keeps the object until its dependents are gone, `Background` removes it now \
        and collects them afterwards, `Orphan` leaves them behind owned by nothing.",
        Arity::Defaulting,
        "Background",
    ),
];

// --- from a table to arguments --------------------------------------------------------------------

/// One row of a table as an argument.
pub open spec fn parameter_of(row: Row) -> Parameter {
    Parameter {
        name: row.0,
        declared_type: row.1,
        doc: row.2,
        default: if row.3 == Arity::Defaulting {
            Some(row.4)
        } else {
            None
        },
        repeatable: row.3 == Arity::Repeatable,
    }
}

/// The rows of a table as arguments.
pub open spec fn parameters_of(rows: Seq<Row>) -> Seq<Parameter> {
    rows.map_values(|row: Row| parameter_of(row))
}

/// One row of a table as an argument.
fn parameter(row: Row) -> (r: Parameter)
    ensures
        r == parameter_of(row),
{
    match row.3 {
        Arity::Once => Parameter::new(row.0, row.1, row.2),
        Arity::Repeatable => Parameter::repeatable(row.0, row.1, row.2),
        Arity::Defaulting => Parameter::defaulting(row.0, row.1, row.2, row.4),
    }
}

/// Appends the first `upto` rows of a table as arguments.
pub(crate) fn add_first<const N: usize>(out: &mut Vec<Parameter>, rows: &[Row; N], upto: usize)
    requires
        upto <= N,
    ensures
        final(out)@ == old(out)@ + parameters_of(rows@.take(upto as int)),
{
    let ghost before = out@;
    let ghost wanted = parameters_of(rows@.take(upto as int));
    let mut i: usize = 0;
    assert(before + wanted.take(0) =~= before);
    while i < upto
        invariant
            i <= upto <= N,
            rows@.len() == N,
            wanted == parameters_of(rows@.take(upto as int)),
            out@ == before + wanted.take(i as int),
        decreases upto - i,
    {
        out.push(parameter(rows[i]));
        i = i + 1;
        assert(before + wanted.take(i as int) =~= (before + wanted.take(i - 1)).push(
            wanted[i - 1],
        ));
    }
    assert(wanted.take(i as int) =~= wanted);
}

/// Appends the rows of a table as arguments.
pub(crate) fn add_all<const N: usize>(out: &mut Vec<Parameter>, rows: &[Row; N])
    ensures
        final(out)@ == old(out)@ + parameters_of(rows@),
{
    assert(rows@.take(rows@.len() as int) =~= rows@);
    add_first(out, rows, N);
}

}
