//! What the package declares is what it takes and what it shows.
//!
//! Each law here speaks of a declaration and of what is taken or shown under it: every argument by
//! its name and its type, and every field of a record by the type its schema declares.

use vstd::prelude::*;
use vstd::string::*;

use crate::contributions::{Command, Target, Writes};
use crate::parameters::{parameters_of, Parameter, APPLY_OPTIONS, DELETE_OPTIONS};
use crate::schemas::{fields, Field, FieldSet};

verus! {

// --- arguments ------------------------------------------------------------------------------------

/// Whether an argument is taken once, under a name and of a type.
pub open spec fn is_once(parameter: Parameter, name: Seq<char>, kind: Seq<char>) -> bool {
    &&& parameter.name@ == name
    &&& parameter.declared_type@ == kind
    &&& !parameter.repeatable
    &&& parameter.default is None
}

/// Whether an argument may be given more than once, under a name and of a type.
pub open spec fn is_often(parameter: Parameter, name: Seq<char>, kind: Seq<char>) -> bool {
    &&& parameter.name@ == name
    &&& parameter.declared_type@ == kind
    &&& parameter.repeatable
    &&& parameter.default is None
}

/// Whether an argument has a default, under a name and of a type.
pub open spec fn is_usually(
    parameter: Parameter,
    name: Seq<char>,
    kind: Seq<char>,
    default: Seq<char>,
) -> bool {
    &&& parameter.name@ == name
    &&& parameter.declared_type@ == kind
    &&& !parameter.repeatable
    &&& parameter.default is Some
    &&& parameter.default->0@ == default
}

/// The diagnostic takes what names an API server, and nothing else.
pub proof fn the_diagnostic_takes_a_server(held: Target, options: Vec<Parameter>)
    requires
        held.reads is Instance,
        call_ensures(Target::options, (&held,), options),
    ensures
        options@.len() == 4,
        is_once(options@[0], "context"@, "string"@),
        is_once(options@[1], "kubeconfig"@, "string"@),
        is_once(options@[2], "host"@, "string"@),
        is_once(options@[3], "port"@, "int"@),
{
}

/// A kind is read of a server and a scope, by its name or by selectors, within a budget.
pub proof fn a_kind_takes_a_scope_and_selectors(held: Target, options: Vec<Parameter>)
    requires
        held.reads is Kind,
        call_ensures(Target::options, (&held,), options),
    ensures
        options@.len() == 13,
        is_once(options@[0], "context"@, "string"@),
        is_once(options@[1], "kubeconfig"@, "string"@),
        is_once(options@[2], "host"@, "string"@),
        is_once(options@[3], "port"@, "int"@),
        is_once(options@[4], "namespace"@, "string"@),
        is_once(options@[5], "all_namespaces"@, "bool"@),
        is_once(options@[6], "name"@, "string"@),
        is_once(options@[7], "selector"@, "string"@),
        is_once(options@[8], "field_selector"@, "string"@),
        is_once(options@[9], "max_pages"@, "int"@),
        is_once(options@[10], "max_requests"@, "int"@),
        is_once(options@[11], "max_scopes"@, "int"@),
        is_once(options@[12], "budget_ms"@, "int"@),
{
}

/// Any resource is read as a kind is, and by what names it.
pub proof fn any_resource_takes_what_names_it(held: Target, options: Vec<Parameter>)
    requires
        held.reads is Discovered,
        call_ensures(Target::options, (&held,), options),
    ensures
        options@.len() == 17,
        is_once(options@[0], "context"@, "string"@),
        is_once(options@[1], "kubeconfig"@, "string"@),
        is_once(options@[2], "host"@, "string"@),
        is_once(options@[3], "port"@, "int"@),
        is_once(options@[4], "namespace"@, "string"@),
        is_once(options@[5], "all_namespaces"@, "bool"@),
        is_once(options@[6], "kind"@, "string"@),
        is_once(options@[7], "group"@, "string"@),
        is_once(options@[8], "version"@, "string"@),
        is_once(options@[9], "resource"@, "string"@),
        is_once(options@[10], "name"@, "string"@),
        is_once(options@[11], "selector"@, "string"@),
        is_once(options@[12], "field_selector"@, "string"@),
        is_once(options@[13], "max_pages"@, "int"@),
        is_once(options@[14], "max_requests"@, "int"@),
        is_once(options@[15], "max_scopes"@, "int"@),
        is_once(options@[16], "budget_ms"@, "int"@),
{
}

/// Relationships are read of one object of any resource, of one relation where it is named.
pub proof fn relationships_take_an_object(held: Target, options: Vec<Parameter>)
    requires
        held.reads is Relations,
        call_ensures(Target::options, (&held,), options),
    ensures
        options@.len() == 16,
        is_once(options@[0], "context"@, "string"@),
        is_once(options@[1], "kubeconfig"@, "string"@),
        is_once(options@[2], "host"@, "string"@),
        is_once(options@[3], "port"@, "int"@),
        is_once(options@[4], "namespace"@, "string"@),
        is_once(options@[5], "all_namespaces"@, "bool"@),
        is_once(options@[6], "kind"@, "string"@),
        is_once(options@[7], "group"@, "string"@),
        is_once(options@[8], "version"@, "string"@),
        is_once(options@[9], "resource"@, "string"@),
        is_once(options@[10], "name"@, "string"@),
        is_once(options@[11], "max_pages"@, "int"@),
        is_once(options@[12], "max_requests"@, "int"@),
        is_once(options@[13], "max_scopes"@, "int"@),
        is_once(options@[14], "budget_ms"@, "int"@),
        is_once(options@[15], "relation"@, "string"@),
{
}

/// A watch is of any resource, of so many records, and says what it does where it breaks or falls
/// silent.
pub proof fn a_watch_takes_its_bounds(held: Target, options: Vec<Parameter>)
    requires
        held.reads is Changes,
        call_ensures(Target::options, (&held,), options),
    ensures
        options@.len() == 17,
        is_once(options@[0], "context"@, "string"@),
        is_once(options@[1], "kubeconfig"@, "string"@),
        is_once(options@[2], "host"@, "string"@),
        is_once(options@[3], "port"@, "int"@),
        is_once(options@[4], "namespace"@, "string"@),
        is_once(options@[5], "all_namespaces"@, "bool"@),
        is_once(options@[6], "kind"@, "string"@),
        is_once(options@[7], "group"@, "string"@),
        is_once(options@[8], "version"@, "string"@),
        is_once(options@[9], "resource"@, "string"@),
        is_once(options@[10], "max_pages"@, "int"@),
        is_once(options@[11], "max_requests"@, "int"@),
        is_once(options@[12], "max_scopes"@, "int"@),
        is_once(options@[13], "budget_ms"@, "int"@),
        is_once(options@[14], "max_changes"@, "int"@),
        is_once(options@[15], "reacquire"@, "bool"@),
        is_usually(options@[16], "stale_after_ms"@, "int"@, "30000"@),
{
}

/// Events are read of one object of any resource.
pub proof fn events_take_an_object(held: Target, options: Vec<Parameter>)
    requires
        held.reads is Events,
        call_ensures(Target::options, (&held,), options),
    ensures
        options@.len() == 15,
        is_once(options@[0], "context"@, "string"@),
        is_once(options@[1], "kubeconfig"@, "string"@),
        is_once(options@[2], "host"@, "string"@),
        is_once(options@[3], "port"@, "int"@),
        is_once(options@[4], "namespace"@, "string"@),
        is_once(options@[5], "all_namespaces"@, "bool"@),
        is_once(options@[6], "kind"@, "string"@),
        is_once(options@[7], "group"@, "string"@),
        is_once(options@[8], "version"@, "string"@),
        is_once(options@[9], "resource"@, "string"@),
        is_once(options@[10], "name"@, "string"@),
        is_once(options@[11], "max_pages"@, "int"@),
        is_once(options@[12], "max_requests"@, "int"@),
        is_once(options@[13], "max_scopes"@, "int"@),
        is_once(options@[14], "budget_ms"@, "int"@),
{
}

/// Evidence is read of one object, of a Node where nothing else is named.
pub proof fn evidence_takes_a_node(held: Target, options: Vec<Parameter>)
    requires
        held.reads is Evidence,
        call_ensures(Target::options, (&held,), options),
    ensures
        options@.len() == 7,
        is_once(options@[0], "context"@, "string"@),
        is_once(options@[1], "kubeconfig"@, "string"@),
        is_once(options@[2], "host"@, "string"@),
        is_once(options@[3], "port"@, "int"@),
        is_once(options@[4], "namespace"@, "string"@),
        is_once(options@[5], "name"@, "string"@),
        is_usually(options@[6], "kind"@, "string"@, "Node"@),
{
}

/// A log is read of one Pod, of one container of it, and within the bounds that are named.
pub proof fn a_log_takes_its_bounds(held: Target, options: Vec<Parameter>)
    requires
        held.reads is Logs,
        call_ensures(Target::options, (&held,), options),
    ensures
        options@.len() == 13,
        is_once(options@[0], "context"@, "string"@),
        is_once(options@[1], "kubeconfig"@, "string"@),
        is_once(options@[2], "host"@, "string"@),
        is_once(options@[3], "port"@, "int"@),
        is_once(options@[4], "namespace"@, "string"@),
        is_once(options@[5], "name"@, "string"@),
        is_once(options@[6], "container"@, "string"@),
        is_once(options@[7], "previous"@, "bool"@),
        is_once(options@[8], "timestamps"@, "bool"@),
        is_once(options@[9], "tail_lines"@, "int"@),
        is_once(options@[10], "since_seconds"@, "int"@),
        is_once(options@[11], "limit_bytes"@, "int"@),
        is_once(options@[12], "follow"@, "bool"@),
{
}

/// A timeline is of one object of any resource.
pub proof fn a_timeline_takes_an_object(held: Target, options: Vec<Parameter>)
    requires
        held.reads is Timeline,
        call_ensures(Target::options, (&held,), options),
    ensures
        options@.len() == 11,
        is_once(options@[0], "context"@, "string"@),
        is_once(options@[1], "kubeconfig"@, "string"@),
        is_once(options@[2], "host"@, "string"@),
        is_once(options@[3], "port"@, "int"@),
        is_once(options@[4], "namespace"@, "string"@),
        is_once(options@[5], "all_namespaces"@, "bool"@),
        is_once(options@[6], "kind"@, "string"@),
        is_once(options@[7], "group"@, "string"@),
        is_once(options@[8], "version"@, "string"@),
        is_once(options@[9], "resource"@, "string"@),
        is_once(options@[10], "name"@, "string"@),
{
}

/// Conditions are those of one object of any resource.
pub proof fn conditions_take_an_object(held: Target, options: Vec<Parameter>)
    requires
        held.reads is Conditions,
        call_ensures(Target::options, (&held,), options),
    ensures
        options@.len() == 11,
        is_once(options@[0], "context"@, "string"@),
        is_once(options@[1], "kubeconfig"@, "string"@),
        is_once(options@[2], "host"@, "string"@),
        is_once(options@[3], "port"@, "int"@),
        is_once(options@[4], "namespace"@, "string"@),
        is_once(options@[5], "all_namespaces"@, "bool"@),
        is_once(options@[6], "kind"@, "string"@),
        is_once(options@[7], "group"@, "string"@),
        is_once(options@[8], "version"@, "string"@),
        is_once(options@[9], "resource"@, "string"@),
        is_once(options@[10], "name"@, "string"@),
{
}

/// What may be said of an object is said of any resource, within a time where it is named.
pub proof fn a_reason_takes_an_object(held: Target, options: Vec<Parameter>)
    requires
        held.reads is Why,
        call_ensures(Target::options, (&held,), options),
    ensures
        options@.len() == 12,
        is_once(options@[0], "context"@, "string"@),
        is_once(options@[1], "kubeconfig"@, "string"@),
        is_once(options@[2], "host"@, "string"@),
        is_once(options@[3], "port"@, "int"@),
        is_once(options@[4], "namespace"@, "string"@),
        is_once(options@[5], "all_namespaces"@, "bool"@),
        is_once(options@[6], "kind"@, "string"@),
        is_once(options@[7], "group"@, "string"@),
        is_once(options@[8], "version"@, "string"@),
        is_once(options@[9], "resource"@, "string"@),
        is_once(options@[10], "name"@, "string"@),
        is_once(options@[11], "within_ms"@, "int"@),
{
}

/// A plan is of one object of any resource, and of one action on it.
pub proof fn a_plan_takes_an_action(held: Target, options: Vec<Parameter>)
    requires
        held.reads is Plan,
        call_ensures(Target::options, (&held,), options),
    ensures
        options@.len() == 15,
        is_once(options@[0], "context"@, "string"@),
        is_once(options@[1], "kubeconfig"@, "string"@),
        is_once(options@[2], "host"@, "string"@),
        is_once(options@[3], "port"@, "int"@),
        is_once(options@[4], "namespace"@, "string"@),
        is_once(options@[5], "all_namespaces"@, "bool"@),
        is_once(options@[6], "kind"@, "string"@),
        is_once(options@[7], "group"@, "string"@),
        is_once(options@[8], "version"@, "string"@),
        is_once(options@[9], "resource"@, "string"@),
        is_once(options@[10], "name"@, "string"@),
        is_once(options@[11], "action"@, "string"@),
        is_once(options@[12], "set"@, "record"@),
        is_often(options@[13], "unset"@, "list<string>"@),
        is_once(options@[14], "propagation"@, "string"@),
{
}

/// A command that changes fields takes one object, whether it is a prediction, and every action
/// there
/// is.
pub proof fn a_change_takes_one_action(name: &str, found: Option<Command>, options: Vec<Parameter>)
    requires
        call_ensures(crate::contributions::command, (name,), found),
        found matches Some(held) && held.writes == Writes::Fields && call_ensures(
            Command::options,
            (&held,),
            options,
        ),
    ensures
        options@.len() == 21,
        is_once(options@[0], "context"@, "string"@),
        is_once(options@[1], "kubeconfig"@, "string"@),
        is_once(options@[2], "host"@, "string"@),
        is_once(options@[3], "port"@, "int"@),
        is_once(options@[4], "namespace"@, "string"@),
        is_once(options@[5], "kind"@, "string"@),
        is_once(options@[6], "group"@, "string"@),
        is_once(options@[7], "version"@, "string"@),
        is_once(options@[8], "resource"@, "string"@),
        is_once(options@[9], "name"@, "string"@),
        is_usually(options@[10], "dry_run"@, "bool"@, "true"@),
        is_once(options@[11], "replicas"@, "int"@),
        is_often(options@[12], "image"@, "list<string>"@),
        is_once(options@[13], "restart_rollout"@, "bool"@),
        is_once(options@[14], "schedulable"@, "bool"@),
        is_often(options@[15], "label"@, "list<string>"@),
        is_often(options@[16], "annotation"@, "list<string>"@),
        is_once(options@[17], "set"@, "record"@),
        is_often(options@[18], "unset"@, "list<string>"@),
        is_usually(options@[19], "field_manager"@, "string"@, "ono-sendai"@),
        is_once(options@[20], "force_because"@, "string"@),
{
    let held = found->0;
    assert(held.extra@ == parameters_of(APPLY_OPTIONS@));
}

/// A command that deletes takes one object, whether it is a prediction, and a policy.
pub proof fn a_deletion_takes_a_policy(name: &str, found: Option<Command>, options: Vec<Parameter>)
    requires
        call_ensures(crate::contributions::command, (name,), found),
        found matches Some(held) && held.writes == Writes::Object && call_ensures(
            Command::options,
            (&held,),
            options,
        ),
    ensures
        options@.len() == 12,
        is_once(options@[0], "context"@, "string"@),
        is_once(options@[1], "kubeconfig"@, "string"@),
        is_once(options@[2], "host"@, "string"@),
        is_once(options@[3], "port"@, "int"@),
        is_once(options@[4], "namespace"@, "string"@),
        is_once(options@[5], "kind"@, "string"@),
        is_once(options@[6], "group"@, "string"@),
        is_once(options@[7], "version"@, "string"@),
        is_once(options@[8], "resource"@, "string"@),
        is_once(options@[9], "name"@, "string"@),
        is_usually(options@[10], "dry_run"@, "bool"@, "true"@),
        is_usually(options@[11], "propagation"@, "string"@, "Background"@),
{
    let held = found->0;
    assert(held.extra@ == parameters_of(DELETE_OPTIONS@));
}

// --- fields ---------------------------------------------------------------------------------------

/// Whether the rows of a table declare a field at a place: its name, its type, and whether it is
/// always known.
pub open spec fn declares_at(
    rows: Seq<(&'static str, &'static str, bool)>,
    place: int,
    name: Seq<char>,
    kind: Seq<char>,
    required: bool,
) -> bool {
    rows[place].0@ == name && rows[place].1@ == kind && rows[place].2 == required
}

/// The metadata of an object without a namespace declares these fields, in this order, each of its
/// own type.
pub proof fn cluster_metadata_are_declared()
    ensures
        crate::schemas::CLUSTER_METADATA@.len() == 12,
        declares_at(crate::schemas::CLUSTER_METADATA@, 0, "uid"@, "string"@, false),
        declares_at(crate::schemas::CLUSTER_METADATA@, 1, "name"@, "string"@, true),
        declares_at(crate::schemas::CLUSTER_METADATA@, 2, "api_version"@, "string"@, true),
        declares_at(crate::schemas::CLUSTER_METADATA@, 3, "kind"@, "string"@, true),
        declares_at(crate::schemas::CLUSTER_METADATA@, 4, "resource_version"@, "string"@, false),
        declares_at(crate::schemas::CLUSTER_METADATA@, 5, "created"@, "timestamp"@, false),
        declares_at(crate::schemas::CLUSTER_METADATA@, 6, "labels"@, "map"@, false),
        declares_at(crate::schemas::CLUSTER_METADATA@, 7, "annotations"@, "map"@, false),
        declares_at(crate::schemas::CLUSTER_METADATA@, 8, "terminating"@, "bool"@, true),
        declares_at(crate::schemas::CLUSTER_METADATA@, 9, "finalizers"@, "list<string>"@, false),
        declares_at(crate::schemas::CLUSTER_METADATA@, 10, "owner_references"@, "list<map>"@, false),
        declares_at(crate::schemas::CLUSTER_METADATA@, 11, "field_managers"@, "list<string>"@, false),
{
}

/// The metadata of an object in a namespace declares these fields, in this order, each of its own
/// type.
pub proof fn namespaced_metadata_are_declared()
    ensures
        crate::schemas::NAMESPACED_METADATA@.len() == 13,
        declares_at(crate::schemas::NAMESPACED_METADATA@, 0, "uid"@, "string"@, false),
        declares_at(crate::schemas::NAMESPACED_METADATA@, 1, "name"@, "string"@, true),
        declares_at(crate::schemas::NAMESPACED_METADATA@, 2, "namespace"@, "string"@, false),
        declares_at(crate::schemas::NAMESPACED_METADATA@, 3, "api_version"@, "string"@, true),
        declares_at(crate::schemas::NAMESPACED_METADATA@, 4, "kind"@, "string"@, true),
        declares_at(crate::schemas::NAMESPACED_METADATA@, 5, "resource_version"@, "string"@, false),
        declares_at(crate::schemas::NAMESPACED_METADATA@, 6, "created"@, "timestamp"@, false),
        declares_at(crate::schemas::NAMESPACED_METADATA@, 7, "labels"@, "map"@, false),
        declares_at(crate::schemas::NAMESPACED_METADATA@, 8, "annotations"@, "map"@, false),
        declares_at(crate::schemas::NAMESPACED_METADATA@, 9, "terminating"@, "bool"@, true),
        declares_at(crate::schemas::NAMESPACED_METADATA@, 10, "finalizers"@, "list<string>"@, false),
        declares_at(crate::schemas::NAMESPACED_METADATA@, 11, "owner_references"@, "list<map>"@, false),
        declares_at(crate::schemas::NAMESPACED_METADATA@, 12, "field_managers"@, "list<string>"@, false),
{
}

/// What a change is aimed at declares these fields, in this order, each of its own type.
pub proof fn change_target_are_declared()
    ensures
        crate::schemas::CHANGE_TARGET@.len() == 9,
        declares_at(crate::schemas::CHANGE_TARGET@, 0, "uid"@, "string"@, false),
        declares_at(crate::schemas::CHANGE_TARGET@, 1, "name"@, "string"@, true),
        declares_at(crate::schemas::CHANGE_TARGET@, 2, "namespace"@, "string"@, false),
        declares_at(crate::schemas::CHANGE_TARGET@, 3, "api_version"@, "string"@, true),
        declares_at(crate::schemas::CHANGE_TARGET@, 4, "kind"@, "string"@, true),
        declares_at(crate::schemas::CHANGE_TARGET@, 5, "resource_version"@, "string"@, false),
        declares_at(crate::schemas::CHANGE_TARGET@, 6, "action"@, "string"@, true),
        declares_at(crate::schemas::CHANGE_TARGET@, 7, "changes"@, "list<string>"@, true),
        declares_at(crate::schemas::CHANGE_TARGET@, 8, "preconditions"@, "map"@, true),
{
}

/// A record of a Namespace declares these fields, in this order, each of its own type.
pub proof fn namespace_fields_are_declared()
    ensures
        crate::schemas::NAMESPACE_FIELDS@.len() == 1,
        declares_at(crate::schemas::NAMESPACE_FIELDS@, 0, "phase"@, "string"@, false),
{
}

/// A record of a Node declares these fields, in this order, each of its own type.
pub proof fn node_fields_are_declared()
    ensures
        crate::schemas::NODE_FIELDS@.len() == 4,
        declares_at(crate::schemas::NODE_FIELDS@, 0, "ready"@, "string"@, false),
        declares_at(crate::schemas::NODE_FIELDS@, 1, "unschedulable"@, "bool"@, false),
        declares_at(crate::schemas::NODE_FIELDS@, 2, "kubelet_version"@, "string"@, false),
        declares_at(crate::schemas::NODE_FIELDS@, 3, "internal_ip"@, "string"@, false),
{
}

/// A record of a Pod declares these fields, in this order, each of its own type.
pub proof fn pod_fields_are_declared()
    ensures
        crate::schemas::POD_FIELDS@.len() == 5,
        declares_at(crate::schemas::POD_FIELDS@, 0, "phase"@, "string"@, false),
        declares_at(crate::schemas::POD_FIELDS@, 1, "node"@, "string"@, false),
        declares_at(crate::schemas::POD_FIELDS@, 2, "pod_ip"@, "string"@, false),
        declares_at(crate::schemas::POD_FIELDS@, 3, "containers"@, "list<string>"@, false),
        declares_at(crate::schemas::POD_FIELDS@, 4, "restarts"@, "int"@, false),
{
}

/// A record of a Deployment declares these fields, in this order, each of its own type.
pub proof fn deployment_fields_are_declared()
    ensures
        crate::schemas::DEPLOYMENT_FIELDS@.len() == 7,
        declares_at(crate::schemas::DEPLOYMENT_FIELDS@, 0, "desired_replicas"@, "int"@, false),
        declares_at(crate::schemas::DEPLOYMENT_FIELDS@, 1, "ready_replicas"@, "int"@, false),
        declares_at(crate::schemas::DEPLOYMENT_FIELDS@, 2, "updated_replicas"@, "int"@, false),
        declares_at(crate::schemas::DEPLOYMENT_FIELDS@, 3, "available_replicas"@, "int"@, false),
        declares_at(crate::schemas::DEPLOYMENT_FIELDS@, 4, "generation"@, "int"@, false),
        declares_at(crate::schemas::DEPLOYMENT_FIELDS@, 5, "observed_generation"@, "int"@, false),
        declares_at(crate::schemas::DEPLOYMENT_FIELDS@, 6, "reconciliation"@, "map"@, true),
{
}

/// A record of a ReplicaSet declares these fields, in this order, each of its own type.
pub proof fn replicaset_fields_are_declared()
    ensures
        crate::schemas::REPLICASET_FIELDS@.len() == 9,
        declares_at(crate::schemas::REPLICASET_FIELDS@, 0, "desired_replicas"@, "int"@, false),
        declares_at(crate::schemas::REPLICASET_FIELDS@, 1, "current_replicas"@, "int"@, false),
        declares_at(crate::schemas::REPLICASET_FIELDS@, 2, "ready_replicas"@, "int"@, false),
        declares_at(crate::schemas::REPLICASET_FIELDS@, 3, "available_replicas"@, "int"@, false),
        declares_at(crate::schemas::REPLICASET_FIELDS@, 4, "generation"@, "int"@, false),
        declares_at(crate::schemas::REPLICASET_FIELDS@, 5, "observed_generation"@, "int"@, false),
        declares_at(crate::schemas::REPLICASET_FIELDS@, 6, "controller"@, "string"@, false),
        declares_at(crate::schemas::REPLICASET_FIELDS@, 7, "controller_kind"@, "string"@, false),
        declares_at(crate::schemas::REPLICASET_FIELDS@, 8, "reconciliation"@, "map"@, true),
{
}

/// A record of a StatefulSet declares these fields, in this order, each of its own type.
pub proof fn statefulset_fields_are_declared()
    ensures
        crate::schemas::STATEFULSET_FIELDS@.len() == 10,
        declares_at(crate::schemas::STATEFULSET_FIELDS@, 0, "desired_replicas"@, "int"@, false),
        declares_at(crate::schemas::STATEFULSET_FIELDS@, 1, "current_replicas"@, "int"@, false),
        declares_at(crate::schemas::STATEFULSET_FIELDS@, 2, "ready_replicas"@, "int"@, false),
        declares_at(crate::schemas::STATEFULSET_FIELDS@, 3, "updated_replicas"@, "int"@, false),
        declares_at(crate::schemas::STATEFULSET_FIELDS@, 4, "available_replicas"@, "int"@, false),
        declares_at(crate::schemas::STATEFULSET_FIELDS@, 5, "service_name"@, "string"@, false),
        declares_at(crate::schemas::STATEFULSET_FIELDS@, 6, "current_revision"@, "string"@, false),
        declares_at(crate::schemas::STATEFULSET_FIELDS@, 7, "update_revision"@, "string"@, false),
        declares_at(crate::schemas::STATEFULSET_FIELDS@, 8, "claim_templates"@, "list<string>"@, false),
        declares_at(crate::schemas::STATEFULSET_FIELDS@, 9, "reconciliation"@, "map"@, true),
{
}

/// A record of a DaemonSet declares these fields, in this order, each of its own type.
pub proof fn daemonset_fields_are_declared()
    ensures
        crate::schemas::DAEMONSET_FIELDS@.len() == 9,
        declares_at(crate::schemas::DAEMONSET_FIELDS@, 0, "desired_scheduled"@, "int"@, false),
        declares_at(crate::schemas::DAEMONSET_FIELDS@, 1, "current_scheduled"@, "int"@, false),
        declares_at(crate::schemas::DAEMONSET_FIELDS@, 2, "ready_scheduled"@, "int"@, false),
        declares_at(crate::schemas::DAEMONSET_FIELDS@, 3, "updated_scheduled"@, "int"@, false),
        declares_at(crate::schemas::DAEMONSET_FIELDS@, 4, "available_scheduled"@, "int"@, false),
        declares_at(crate::schemas::DAEMONSET_FIELDS@, 5, "misscheduled"@, "int"@, false),
        declares_at(crate::schemas::DAEMONSET_FIELDS@, 6, "generation"@, "int"@, false),
        declares_at(crate::schemas::DAEMONSET_FIELDS@, 7, "observed_generation"@, "int"@, false),
        declares_at(crate::schemas::DAEMONSET_FIELDS@, 8, "reconciliation"@, "map"@, true),
{
}

/// A record of a Service declares these fields, in this order, each of its own type.
pub proof fn service_fields_are_declared()
    ensures
        crate::schemas::SERVICE_FIELDS@.len() == 7,
        declares_at(crate::schemas::SERVICE_FIELDS@, 0, "service_type"@, "string"@, false),
        declares_at(crate::schemas::SERVICE_FIELDS@, 1, "cluster_ip"@, "string"@, false),
        declares_at(crate::schemas::SERVICE_FIELDS@, 2, "external_ips"@, "list<string>"@, false),
        declares_at(crate::schemas::SERVICE_FIELDS@, 3, "external_name"@, "string"@, false),
        declares_at(crate::schemas::SERVICE_FIELDS@, 4, "load_balancer"@, "list<string>"@, false),
        declares_at(crate::schemas::SERVICE_FIELDS@, 5, "ports"@, "map"@, false),
        declares_at(crate::schemas::SERVICE_FIELDS@, 6, "selector"@, "map"@, false),
{
}

/// A record of an EndpointSlice declares these fields, in this order, each of its own type.
pub proof fn endpointslice_fields_are_declared()
    ensures
        crate::schemas::ENDPOINTSLICE_FIELDS@.len() == 7,
        declares_at(crate::schemas::ENDPOINTSLICE_FIELDS@, 0, "address_type"@, "string"@, false),
        declares_at(crate::schemas::ENDPOINTSLICE_FIELDS@, 1, "service_name"@, "string"@, false),
        declares_at(crate::schemas::ENDPOINTSLICE_FIELDS@, 2, "endpoint_count"@, "int"@, false),
        declares_at(crate::schemas::ENDPOINTSLICE_FIELDS@, 3, "ready_endpoints"@, "int"@, false),
        declares_at(crate::schemas::ENDPOINTSLICE_FIELDS@, 4, "addresses"@, "list<string>"@, false),
        declares_at(crate::schemas::ENDPOINTSLICE_FIELDS@, 5, "targets"@, "list<string>"@, false),
        declares_at(crate::schemas::ENDPOINTSLICE_FIELDS@, 6, "ports"@, "map"@, false),
{
}

/// A record of an Ingress declares these fields, in this order, each of its own type.
pub proof fn ingress_fields_are_declared()
    ensures
        crate::schemas::INGRESS_FIELDS@.len() == 5,
        declares_at(crate::schemas::INGRESS_FIELDS@, 0, "ingress_class"@, "string"@, false),
        declares_at(crate::schemas::INGRESS_FIELDS@, 1, "hosts"@, "list<string>"@, false),
        declares_at(crate::schemas::INGRESS_FIELDS@, 2, "services"@, "list<string>"@, false),
        declares_at(crate::schemas::INGRESS_FIELDS@, 3, "tls_secrets"@, "list<string>"@, false),
        declares_at(crate::schemas::INGRESS_FIELDS@, 4, "load_balancer"@, "list<string>"@, false),
{
}

/// A record of a Job declares these fields, in this order, each of its own type.
pub proof fn job_fields_are_declared()
    ensures
        crate::schemas::JOB_FIELDS@.len() == 12,
        declares_at(crate::schemas::JOB_FIELDS@, 0, "completions"@, "int"@, false),
        declares_at(crate::schemas::JOB_FIELDS@, 1, "parallelism"@, "int"@, false),
        declares_at(crate::schemas::JOB_FIELDS@, 2, "active"@, "int"@, false),
        declares_at(crate::schemas::JOB_FIELDS@, 3, "succeeded"@, "int"@, false),
        declares_at(crate::schemas::JOB_FIELDS@, 4, "failed"@, "int"@, false),
        declares_at(crate::schemas::JOB_FIELDS@, 5, "start_time"@, "timestamp"@, false),
        declares_at(crate::schemas::JOB_FIELDS@, 6, "completion_time"@, "timestamp"@, false),
        declares_at(crate::schemas::JOB_FIELDS@, 7, "complete"@, "string"@, false),
        declares_at(crate::schemas::JOB_FIELDS@, 8, "failure_reason"@, "string"@, false),
        declares_at(crate::schemas::JOB_FIELDS@, 9, "controller"@, "string"@, false),
        declares_at(crate::schemas::JOB_FIELDS@, 10, "controller_kind"@, "string"@, false),
        declares_at(crate::schemas::JOB_FIELDS@, 11, "reconciliation"@, "map"@, true),
{
}

/// A record of a CronJob declares these fields, in this order, each of its own type.
pub proof fn cronjob_fields_are_declared()
    ensures
        crate::schemas::CRONJOB_FIELDS@.len() == 6,
        declares_at(crate::schemas::CRONJOB_FIELDS@, 0, "schedule"@, "string"@, false),
        declares_at(crate::schemas::CRONJOB_FIELDS@, 1, "suspend"@, "bool"@, false),
        declares_at(crate::schemas::CRONJOB_FIELDS@, 2, "concurrency_policy"@, "string"@, false),
        declares_at(crate::schemas::CRONJOB_FIELDS@, 3, "last_schedule_time"@, "timestamp"@, false),
        declares_at(crate::schemas::CRONJOB_FIELDS@, 4, "last_successful_time"@, "timestamp"@, false),
        declares_at(crate::schemas::CRONJOB_FIELDS@, 5, "active_jobs"@, "list<string>"@, false),
{
}

/// A record of a ConfigMap declares these fields, in this order, each of its own type.
pub proof fn configmap_fields_are_declared()
    ensures
        crate::schemas::CONFIGMAP_FIELDS@.len() == 3,
        declares_at(crate::schemas::CONFIGMAP_FIELDS@, 0, "keys"@, "list<string>"@, false),
        declares_at(crate::schemas::CONFIGMAP_FIELDS@, 1, "binary_keys"@, "list<string>"@, false),
        declares_at(crate::schemas::CONFIGMAP_FIELDS@, 2, "immutable"@, "bool"@, false),
{
}

/// A record of a Secret declares these fields, in this order, each of its own type.
pub proof fn secret_fields_are_declared()
    ensures
        crate::schemas::SECRET_FIELDS@.len() == 2,
        declares_at(crate::schemas::SECRET_FIELDS@, 0, "secret_type"@, "string"@, false),
        declares_at(crate::schemas::SECRET_FIELDS@, 1, "keys"@, "list<string>"@, false),
{
}

/// A record of a ServiceAccount declares these fields, in this order, each of its own type.
pub proof fn serviceaccount_fields_are_declared()
    ensures
        crate::schemas::SERVICEACCOUNT_FIELDS@.len() == 3,
        declares_at(crate::schemas::SERVICEACCOUNT_FIELDS@, 0, "secrets"@, "list<string>"@, false),
        declares_at(crate::schemas::SERVICEACCOUNT_FIELDS@, 1, "image_pull_secrets"@, "list<string>"@, false),
        declares_at(crate::schemas::SERVICEACCOUNT_FIELDS@, 2, "automount_token"@, "bool"@, false),
{
}

/// A record of a PersistentVolumeClaim declares these fields, in this order, each of its own type.
pub proof fn persistentvolumeclaim_fields_are_declared()
    ensures
        crate::schemas::PERSISTENTVOLUMECLAIM_FIELDS@.len() == 7,
        declares_at(crate::schemas::PERSISTENTVOLUMECLAIM_FIELDS@, 0, "phase"@, "string"@, false),
        declares_at(crate::schemas::PERSISTENTVOLUMECLAIM_FIELDS@, 1, "volume_name"@, "string"@, false),
        declares_at(crate::schemas::PERSISTENTVOLUMECLAIM_FIELDS@, 2, "storage_class"@, "string"@, false),
        declares_at(crate::schemas::PERSISTENTVOLUMECLAIM_FIELDS@, 3, "volume_mode"@, "string"@, false),
        declares_at(crate::schemas::PERSISTENTVOLUMECLAIM_FIELDS@, 4, "access_modes"@, "list<string>"@, false),
        declares_at(crate::schemas::PERSISTENTVOLUMECLAIM_FIELDS@, 5, "requested_storage"@, "string"@, false),
        declares_at(crate::schemas::PERSISTENTVOLUMECLAIM_FIELDS@, 6, "bound_capacity"@, "string"@, false),
{
}

/// A record of a PersistentVolume declares these fields, in this order, each of its own type.
pub proof fn persistentvolume_fields_are_declared()
    ensures
        crate::schemas::PERSISTENTVOLUME_FIELDS@.len() == 8,
        declares_at(crate::schemas::PERSISTENTVOLUME_FIELDS@, 0, "phase"@, "string"@, false),
        declares_at(crate::schemas::PERSISTENTVOLUME_FIELDS@, 1, "capacity"@, "string"@, false),
        declares_at(crate::schemas::PERSISTENTVOLUME_FIELDS@, 2, "storage_class"@, "string"@, false),
        declares_at(crate::schemas::PERSISTENTVOLUME_FIELDS@, 3, "volume_mode"@, "string"@, false),
        declares_at(crate::schemas::PERSISTENTVOLUME_FIELDS@, 4, "access_modes"@, "list<string>"@, false),
        declares_at(crate::schemas::PERSISTENTVOLUME_FIELDS@, 5, "reclaim_policy"@, "string"@, false),
        declares_at(crate::schemas::PERSISTENTVOLUME_FIELDS@, 6, "claim"@, "string"@, false),
        declares_at(crate::schemas::PERSISTENTVOLUME_FIELDS@, 7, "csi_driver"@, "string"@, false),
{
}

/// A record of a StorageClass declares these fields, in this order, each of its own type.
pub proof fn storageclass_fields_are_declared()
    ensures
        crate::schemas::STORAGECLASS_FIELDS@.len() == 6,
        declares_at(crate::schemas::STORAGECLASS_FIELDS@, 0, "provisioner"@, "string"@, false),
        declares_at(crate::schemas::STORAGECLASS_FIELDS@, 1, "reclaim_policy"@, "string"@, false),
        declares_at(crate::schemas::STORAGECLASS_FIELDS@, 2, "volume_binding_mode"@, "string"@, false),
        declares_at(crate::schemas::STORAGECLASS_FIELDS@, 3, "allow_volume_expansion"@, "bool"@, false),
        declares_at(crate::schemas::STORAGECLASS_FIELDS@, 4, "is_default"@, "bool"@, false),
        declares_at(crate::schemas::STORAGECLASS_FIELDS@, 5, "parameters"@, "map"@, false),
{
}

/// A record of a NetworkPolicy declares these fields, in this order, each of its own type.
pub proof fn networkpolicy_fields_are_declared()
    ensures
        crate::schemas::NETWORKPOLICY_FIELDS@.len() == 3,
        declares_at(crate::schemas::NETWORKPOLICY_FIELDS@, 0, "pod_selector"@, "map"@, false),
        declares_at(crate::schemas::NETWORKPOLICY_FIELDS@, 1, "policy_types"@, "list<string>"@, false),
        declares_at(crate::schemas::NETWORKPOLICY_FIELDS@, 2, "rules"@, "map"@, false),
{
}

/// A record of any resource declares these fields, in this order, each of its own type.
pub proof fn resource_fields_are_declared()
    ensures
        crate::schemas::RESOURCE_FIELDS@.len() == 9,
        declares_at(crate::schemas::RESOURCE_FIELDS@, 0, "api_group"@, "string"@, true),
        declares_at(crate::schemas::RESOURCE_FIELDS@, 1, "resource_name"@, "string"@, true),
        declares_at(crate::schemas::RESOURCE_FIELDS@, 2, "scope"@, "enum<namespaced|cluster>"@, true),
        declares_at(crate::schemas::RESOURCE_FIELDS@, 3, "schema_source"@, "enum<openapi-v3|crd-structural|absent>"@, true),
        declares_at(crate::schemas::RESOURCE_FIELDS@, 4, "precision"@, "enum<structural|loose|unknown>"@, true),
        declares_at(crate::schemas::RESOURCE_FIELDS@, 5, "spec"@, "map"@, false),
        declares_at(crate::schemas::RESOURCE_FIELDS@, 6, "status"@, "map"@, false),
        declares_at(crate::schemas::RESOURCE_FIELDS@, 7, "other"@, "map"@, false),
        declares_at(crate::schemas::RESOURCE_FIELDS@, 8, "untyped"@, "list<string>"@, true),
{
}

/// A record of an Event declares these fields, in this order, each of its own type.
pub proof fn event_fields_are_declared()
    ensures
        crate::schemas::EVENT_FIELDS@.len() == 21,
        declares_at(crate::schemas::EVENT_FIELDS@, 0, "representation"@, "enum<events.k8s.io|core>"@, true),
        declares_at(crate::schemas::EVENT_FIELDS@, 1, "level"@, "string"@, true),
        declares_at(crate::schemas::EVENT_FIELDS@, 2, "reason"@, "string"@, false),
        declares_at(crate::schemas::EVENT_FIELDS@, 3, "note"@, "string"@, false),
        declares_at(crate::schemas::EVENT_FIELDS@, 4, "action"@, "string"@, false),
        declares_at(crate::schemas::EVENT_FIELDS@, 5, "regarding"@, "string"@, false),
        declares_at(crate::schemas::EVENT_FIELDS@, 6, "regarding_kind"@, "string"@, false),
        declares_at(crate::schemas::EVENT_FIELDS@, 7, "regarding_name"@, "string"@, false),
        declares_at(crate::schemas::EVENT_FIELDS@, 8, "regarding_namespace"@, "string"@, false),
        declares_at(crate::schemas::EVENT_FIELDS@, 9, "regarding_uid"@, "string"@, false),
        declares_at(crate::schemas::EVENT_FIELDS@, 10, "related"@, "string"@, false),
        declares_at(crate::schemas::EVENT_FIELDS@, 11, "reporting_controller"@, "string"@, false),
        declares_at(crate::schemas::EVENT_FIELDS@, 12, "reporting_instance"@, "string"@, false),
        declares_at(crate::schemas::EVENT_FIELDS@, 13, "event_time"@, "string"@, false),
        declares_at(crate::schemas::EVENT_FIELDS@, 14, "clock"@, "string"@, true),
        declares_at(crate::schemas::EVENT_FIELDS@, 15, "aggregate"@, "bool"@, true),
        declares_at(crate::schemas::EVENT_FIELDS@, 16, "recorded_count"@, "int"@, false),
        declares_at(crate::schemas::EVENT_FIELDS@, 17, "series_count"@, "int"@, false),
        declares_at(crate::schemas::EVENT_FIELDS@, 18, "series_last_observed"@, "string"@, false),
        declares_at(crate::schemas::EVENT_FIELDS@, 19, "first_seen"@, "string"@, false),
        declares_at(crate::schemas::EVENT_FIELDS@, 20, "last_seen"@, "string"@, false),
{
}

/// A record of a plan declares these fields, in this order, each of its own type.
pub proof fn plan_fields_are_declared()
    ensures
        crate::schemas::PLAN_FIELDS@.len() == 17,
        declares_at(crate::schemas::PLAN_FIELDS@, 0, "precondition_guarded"@, "bool"@, true),
        declares_at(crate::schemas::PLAN_FIELDS@, 1, "propagation"@, "string"@, false),
        declares_at(crate::schemas::PLAN_FIELDS@, 2, "effects"@, "list<map>"@, true),
        declares_at(crate::schemas::PLAN_FIELDS@, 3, "reversibility"@, "string"@, true),
        declares_at(crate::schemas::PLAN_FIELDS@, 4, "recovery"@, "map"@, true),
        declares_at(crate::schemas::PLAN_FIELDS@, 5, "dependents"@, "list<map>"@, true),
        declares_at(crate::schemas::PLAN_FIELDS@, 6, "dependent_coverage"@, "string"@, true),
        declares_at(crate::schemas::PLAN_FIELDS@, 7, "preflight"@, "string"@, true),
        declares_at(crate::schemas::PLAN_FIELDS@, 8, "verification"@, "string"@, true),
        declares_at(crate::schemas::PLAN_FIELDS@, 9, "verification_stage"@, "string"@, false),
        declares_at(crate::schemas::PLAN_FIELDS@, 10, "competing_writers"@, "list<map>"@, true),
        declares_at(crate::schemas::PLAN_FIELDS@, 11, "competing_writer_coverage"@, "string"@, true),
        declares_at(crate::schemas::PLAN_FIELDS@, 12, "contained"@, "list<map>"@, false),
        declares_at(crate::schemas::PLAN_FIELDS@, 13, "contained_coverage"@, "string"@, false),
        declares_at(crate::schemas::PLAN_FIELDS@, 14, "caveats"@, "list<string>"@, true),
        declares_at(crate::schemas::PLAN_FIELDS@, 15, "prediction"@, "string"@, true),
        declares_at(crate::schemas::PLAN_FIELDS@, 16, "statement"@, "string"@, true),
{
}

/// A record of an attempt declares these fields, in this order, each of its own type.
pub proof fn mutation_fields_are_declared()
    ensures
        crate::schemas::MUTATION_FIELDS@.len() == 25,
        declares_at(crate::schemas::MUTATION_FIELDS@, 0, "acceptance"@, "string"@, true),
        declares_at(crate::schemas::MUTATION_FIELDS@, 1, "dry_run"@, "bool"@, true),
        declares_at(crate::schemas::MUTATION_FIELDS@, 2, "prediction"@, "string"@, false),
        declares_at(crate::schemas::MUTATION_FIELDS@, 3, "code"@, "int"@, true),
        declares_at(crate::schemas::MUTATION_FIELDS@, 4, "stage"@, "string"@, false),
        declares_at(crate::schemas::MUTATION_FIELDS@, 5, "field_manager"@, "string"@, true),
        declares_at(crate::schemas::MUTATION_FIELDS@, 6, "forced"@, "bool"@, true),
        declares_at(crate::schemas::MUTATION_FIELDS@, 7, "forced_because"@, "string"@, false),
        declares_at(crate::schemas::MUTATION_FIELDS@, 8, "conflict_fields"@, "list<string>"@, false),
        declares_at(crate::schemas::MUTATION_FIELDS@, 9, "conflict_managers"@, "list<string>"@, false),
        declares_at(crate::schemas::MUTATION_FIELDS@, 10, "resolution"@, "string"@, false),
        declares_at(crate::schemas::MUTATION_FIELDS@, 11, "admission_differences"@, "list<string>"@, false),
        declares_at(crate::schemas::MUTATION_FIELDS@, 12, "deletion_state"@, "string"@, false),
        declares_at(crate::schemas::MUTATION_FIELDS@, 13, "finalizers"@, "list<string>"@, false),
        declares_at(crate::schemas::MUTATION_FIELDS@, 14, "propagation"@, "string"@, false),
        declares_at(crate::schemas::MUTATION_FIELDS@, 15, "verification"@, "string"@, true),
        declares_at(crate::schemas::MUTATION_FIELDS@, 16, "verdict"@, "string"@, false),
        declares_at(crate::schemas::MUTATION_FIELDS@, 17, "verification_detail"@, "string"@, false),
        declares_at(crate::schemas::MUTATION_FIELDS@, 18, "reconciliation"@, "map"@, false),
        declares_at(crate::schemas::MUTATION_FIELDS@, 19, "caveats"@, "list<string>"@, true),
        declares_at(crate::schemas::MUTATION_FIELDS@, 20, "competing_writers"@, "list<map>"@, true),
        declares_at(crate::schemas::MUTATION_FIELDS@, 21, "competing_writer_coverage"@, "string"@, true),
        declares_at(crate::schemas::MUTATION_FIELDS@, 22, "contained"@, "list<map>"@, false),
        declares_at(crate::schemas::MUTATION_FIELDS@, 23, "contained_coverage"@, "string"@, false),
        declares_at(crate::schemas::MUTATION_FIELDS@, 24, "statement"@, "string"@, true),
{
}

/// A record of a relationship declares these fields, in this order, each of its own type.
pub proof fn relation_fields_are_declared()
    ensures
        crate::schemas::RELATION_FIELDS@.len() == 20,
        declares_at(crate::schemas::RELATION_FIELDS@, 0, "uid"@, "string"@, false),
        declares_at(crate::schemas::RELATION_FIELDS@, 1, "name"@, "string"@, true),
        declares_at(crate::schemas::RELATION_FIELDS@, 2, "namespace"@, "string"@, false),
        declares_at(crate::schemas::RELATION_FIELDS@, 3, "api_version"@, "string"@, true),
        declares_at(crate::schemas::RELATION_FIELDS@, 4, "kind"@, "string"@, true),
        declares_at(crate::schemas::RELATION_FIELDS@, 5, "source"@, "string"@, true),
        declares_at(crate::schemas::RELATION_FIELDS@, 6, "relation"@, "string"@, true),
        declares_at(crate::schemas::RELATION_FIELDS@, 7, "target"@, "string"@, true),
        declares_at(crate::schemas::RELATION_FIELDS@, 8, "target_kind"@, "string"@, true),
        declares_at(crate::schemas::RELATION_FIELDS@, 9, "target_name"@, "string"@, true),
        declares_at(crate::schemas::RELATION_FIELDS@, 10, "target_namespace"@, "string"@, false),
        declares_at(crate::schemas::RELATION_FIELDS@, 11, "target_uid"@, "string"@, false),
        declares_at(crate::schemas::RELATION_FIELDS@, 12, "target_resolved"@, "bool"@, true),
        declares_at(crate::schemas::RELATION_FIELDS@, 13, "target_roles"@, "list<string>"@, true),
        declares_at(crate::schemas::RELATION_FIELDS@, 14, "evidence_class"@, "enum<native-field|owner-reference|selector|convention|adapter-derivation|inference>"@, true),
        declares_at(crate::schemas::RELATION_FIELDS@, 15, "evidence"@, "string"@, true),
        declares_at(crate::schemas::RELATION_FIELDS@, 16, "evidence_path"@, "string"@, false),
        declares_at(crate::schemas::RELATION_FIELDS@, 17, "asserted"@, "bool"@, true),
        declares_at(crate::schemas::RELATION_FIELDS@, 18, "supporting"@, "list<string>"@, true),
        declares_at(crate::schemas::RELATION_FIELDS@, 19, "observed_resource_versions"@, "map"@, true),
{
}

/// A record of a fact declares these fields, in this order, each of its own type.
pub proof fn evidence_fields_are_declared()
    ensures
        crate::schemas::EVIDENCE_FIELDS@.len() == 18,
        declares_at(crate::schemas::EVIDENCE_FIELDS@, 0, "uid"@, "string"@, false),
        declares_at(crate::schemas::EVIDENCE_FIELDS@, 1, "name"@, "string"@, true),
        declares_at(crate::schemas::EVIDENCE_FIELDS@, 2, "api_version"@, "string"@, true),
        declares_at(crate::schemas::EVIDENCE_FIELDS@, 3, "kind"@, "string"@, true),
        declares_at(crate::schemas::EVIDENCE_FIELDS@, 4, "subject"@, "string"@, true),
        declares_at(crate::schemas::EVIDENCE_FIELDS@, 5, "key"@, "string"@, true),
        declares_at(crate::schemas::EVIDENCE_FIELDS@, 6, "qualifier"@, "string"@, false),
        declares_at(crate::schemas::EVIDENCE_FIELDS@, 7, "value"@, "string"@, false),
        declares_at(crate::schemas::EVIDENCE_FIELDS@, 8, "source"@, "string"@, false),
        declares_at(crate::schemas::EVIDENCE_FIELDS@, 9, "strength"@, "enum<distinguishing|correlating|placement>"@, false),
        declares_at(crate::schemas::EVIDENCE_FIELDS@, 10, "evidence_class"@, "enum<native-field|owner-reference|selector|convention|adapter-derivation|inference>"@, false),
        declares_at(crate::schemas::EVIDENCE_FIELDS@, 11, "evidence"@, "string"@, false),
        declares_at(crate::schemas::EVIDENCE_FIELDS@, 12, "asserted"@, "bool"@, false),
        declares_at(crate::schemas::EVIDENCE_FIELDS@, 13, "lookup_key"@, "bool"@, false),
        declares_at(crate::schemas::EVIDENCE_FIELDS@, 14, "uri_scheme"@, "string"@, false),
        declares_at(crate::schemas::EVIDENCE_FIELDS@, 15, "uri_path"@, "string"@, false),
        declares_at(crate::schemas::EVIDENCE_FIELDS@, 16, "observed"@, "bool"@, true),
        declares_at(crate::schemas::EVIDENCE_FIELDS@, 17, "outcome"@, "string"@, false),
{
}

/// A record of a line declares these fields, in this order, each of its own type.
pub proof fn log_fields_are_declared()
    ensures
        crate::schemas::LOG_FIELDS@.len() == 17,
        declares_at(crate::schemas::LOG_FIELDS@, 0, "uid"@, "string"@, false),
        declares_at(crate::schemas::LOG_FIELDS@, 1, "name"@, "string"@, true),
        declares_at(crate::schemas::LOG_FIELDS@, 2, "namespace"@, "string"@, false),
        declares_at(crate::schemas::LOG_FIELDS@, 3, "api_version"@, "string"@, true),
        declares_at(crate::schemas::LOG_FIELDS@, 4, "kind"@, "string"@, true),
        declares_at(crate::schemas::LOG_FIELDS@, 5, "container"@, "string"@, false),
        declares_at(crate::schemas::LOG_FIELDS@, 6, "instance"@, "enum<current|previous>"@, true),
        declares_at(crate::schemas::LOG_FIELDS@, 7, "line"@, "int"@, true),
        declares_at(crate::schemas::LOG_FIELDS@, 8, "text"@, "string"@, false),
        declares_at(crate::schemas::LOG_FIELDS@, 9, "bytes"@, "int"@, true),
        declares_at(crate::schemas::LOG_FIELDS@, 10, "not_utf8_after"@, "int"@, false),
        declares_at(crate::schemas::LOG_FIELDS@, 11, "stamp"@, "string"@, false),
        declares_at(crate::schemas::LOG_FIELDS@, 12, "clock"@, "string"@, true),
        declares_at(crate::schemas::LOG_FIELDS@, 13, "terminated"@, "bool"@, true),
        declares_at(crate::schemas::LOG_FIELDS@, 14, "bounds"@, "list<string>"@, true),
        declares_at(crate::schemas::LOG_FIELDS@, 15, "ending"@, "string"@, true),
        declares_at(crate::schemas::LOG_FIELDS@, 16, "may_contain_secrets"@, "bool"@, true),
{
}

/// A record of an observation declares these fields, in this order, each of its own type.
pub proof fn timeline_fields_are_declared()
    ensures
        crate::schemas::TIMELINE_FIELDS@.len() == 16,
        declares_at(crate::schemas::TIMELINE_FIELDS@, 0, "uid"@, "string"@, false),
        declares_at(crate::schemas::TIMELINE_FIELDS@, 1, "name"@, "string"@, true),
        declares_at(crate::schemas::TIMELINE_FIELDS@, 2, "namespace"@, "string"@, false),
        declares_at(crate::schemas::TIMELINE_FIELDS@, 3, "api_version"@, "string"@, true),
        declares_at(crate::schemas::TIMELINE_FIELDS@, 4, "kind"@, "string"@, true),
        declares_at(crate::schemas::TIMELINE_FIELDS@, 5, "basis"@, "enum<observed|reported>"@, true),
        declares_at(crate::schemas::TIMELINE_FIELDS@, 6, "source"@, "enum<watch-event|resource-snapshot|event-record|object-metadata|condition-transition|managed-field>"@, true),
        declares_at(crate::schemas::TIMELINE_FIELDS@, 7, "clock"@, "string"@, true),
        declares_at(crate::schemas::TIMELINE_FIELDS@, 8, "stamp"@, "string"@, true),
        declares_at(crate::schemas::TIMELINE_FIELDS@, 9, "placeable"@, "bool"@, true),
        declares_at(crate::schemas::TIMELINE_FIELDS@, 10, "detail"@, "string"@, true),
        declares_at(crate::schemas::TIMELINE_FIELDS@, 11, "window_opened"@, "timestamp"@, true),
        declares_at(crate::schemas::TIMELINE_FIELDS@, 12, "window_latest"@, "timestamp"@, true),
        declares_at(crate::schemas::TIMELINE_FIELDS@, 13, "continuous"@, "bool"@, true),
        declares_at(crate::schemas::TIMELINE_FIELDS@, 14, "gaps"@, "list<string>"@, true),
        declares_at(crate::schemas::TIMELINE_FIELDS@, 15, "not_observed"@, "list<string>"@, true),
{
}

/// A record of a finding declares these fields, in this order, each of its own type.
pub proof fn why_fields_are_declared()
    ensures
        crate::schemas::WHY_FIELDS@.len() == 17,
        declares_at(crate::schemas::WHY_FIELDS@, 0, "uid"@, "string"@, false),
        declares_at(crate::schemas::WHY_FIELDS@, 1, "name"@, "string"@, true),
        declares_at(crate::schemas::WHY_FIELDS@, 2, "namespace"@, "string"@, false),
        declares_at(crate::schemas::WHY_FIELDS@, 3, "api_version"@, "string"@, true),
        declares_at(crate::schemas::WHY_FIELDS@, 4, "kind"@, "string"@, true),
        declares_at(crate::schemas::WHY_FIELDS@, 5, "claim"@, "enum<CAUSALITY_NOT_PROVEN|CORRELATED_WITH|PRECEDED_BY|DEPENDENCY_PATH_EXISTS|ASSERTED_BY_KUBERNETES>"@, true),
        declares_at(crate::schemas::WHY_FIELDS@, 6, "claim_means"@, "string"@, true),
        declares_at(crate::schemas::WHY_FIELDS@, 7, "support_class"@, "enum<sequence|path|assertion|nothing>"@, true),
        declares_at(crate::schemas::WHY_FIELDS@, 8, "support"@, "string"@, true),
        declares_at(crate::schemas::WHY_FIELDS@, 9, "not_proven"@, "string"@, false),
        declares_at(crate::schemas::WHY_FIELDS@, 10, "clock"@, "string"@, false),
        declares_at(crate::schemas::WHY_FIELDS@, 11, "apart_ms"@, "int"@, false),
        declares_at(crate::schemas::WHY_FIELDS@, 12, "evidence_class"@, "enum<native-field|owner-reference|selector|convention|adapter-derivation|inference>"@, false),
        declares_at(crate::schemas::WHY_FIELDS@, 13, "evidence_path"@, "string"@, false),
        declares_at(crate::schemas::WHY_FIELDS@, 14, "strongest_claim"@, "enum<CAUSALITY_NOT_PROVEN|CORRELATED_WITH|PRECEDED_BY|DEPENDENCY_PATH_EXISTS|ASSERTED_BY_KUBERNETES>"@, true),
        declares_at(crate::schemas::WHY_FIELDS@, 15, "insufficient_evidence"@, "bool"@, true),
        declares_at(crate::schemas::WHY_FIELDS@, 16, "not_observed"@, "list<string>"@, true),
{
}

/// A record of a condition declares these fields, in this order, each of its own type.
pub proof fn condition_fields_are_declared()
    ensures
        crate::schemas::CONDITION_FIELDS@.len() == 14,
        declares_at(crate::schemas::CONDITION_FIELDS@, 0, "uid"@, "string"@, false),
        declares_at(crate::schemas::CONDITION_FIELDS@, 1, "name"@, "string"@, true),
        declares_at(crate::schemas::CONDITION_FIELDS@, 2, "namespace"@, "string"@, false),
        declares_at(crate::schemas::CONDITION_FIELDS@, 3, "api_version"@, "string"@, true),
        declares_at(crate::schemas::CONDITION_FIELDS@, 4, "kind"@, "string"@, true),
        declares_at(crate::schemas::CONDITION_FIELDS@, 5, "condition_type"@, "string"@, true),
        declares_at(crate::schemas::CONDITION_FIELDS@, 6, "status"@, "string"@, true),
        declares_at(crate::schemas::CONDITION_FIELDS@, 7, "reason"@, "string"@, false),
        declares_at(crate::schemas::CONDITION_FIELDS@, 8, "message"@, "string"@, false),
        declares_at(crate::schemas::CONDITION_FIELDS@, 9, "observed_generation"@, "int"@, false),
        declares_at(crate::schemas::CONDITION_FIELDS@, 10, "generation"@, "int"@, false),
        declares_at(crate::schemas::CONDITION_FIELDS@, 11, "last_transition_time"@, "string"@, false),
        declares_at(crate::schemas::CONDITION_FIELDS@, 12, "clock"@, "string"@, true),
        declares_at(crate::schemas::CONDITION_FIELDS@, 13, "reconciliation"@, "map"@, true),
{
}

/// A record of a change declares these fields, in this order, each of its own type.
pub proof fn change_fields_are_declared()
    ensures
        crate::schemas::CHANGE_FIELDS@.len() == 20,
        declares_at(crate::schemas::CHANGE_FIELDS@, 0, "change"@, "enum<listed|added|modified|deleted|gap|notice>"@, true),
        declares_at(crate::schemas::CHANGE_FIELDS@, 1, "resource"@, "string"@, true),
        declares_at(crate::schemas::CHANGE_FIELDS@, 2, "scope"@, "string"@, true),
        declares_at(crate::schemas::CHANGE_FIELDS@, 3, "segment"@, "int"@, true),
        declares_at(crate::schemas::CHANGE_FIELDS@, 4, "continuous"@, "bool"@, true),
        declares_at(crate::schemas::CHANGE_FIELDS@, 5, "sync_state"@, "string"@, true),
        declares_at(crate::schemas::CHANGE_FIELDS@, 6, "view_state"@, "enum<syncing|live|reconnecting|gap detected|stale|denied>"@, true),
        declares_at(crate::schemas::CHANGE_FIELDS@, 7, "withheld"@, "int"@, true),
        declares_at(crate::schemas::CHANGE_FIELDS@, 8, "uid"@, "string"@, false),
        declares_at(crate::schemas::CHANGE_FIELDS@, 9, "name"@, "string"@, false),
        declares_at(crate::schemas::CHANGE_FIELDS@, 10, "namespace"@, "string"@, false),
        declares_at(crate::schemas::CHANGE_FIELDS@, 11, "api_version"@, "string"@, false),
        declares_at(crate::schemas::CHANGE_FIELDS@, 12, "kind"@, "string"@, false),
        declares_at(crate::schemas::CHANGE_FIELDS@, 13, "resource_version"@, "string"@, false),
        declares_at(crate::schemas::CHANGE_FIELDS@, 14, "created"@, "timestamp"@, false),
        declares_at(crate::schemas::CHANGE_FIELDS@, 15, "labels"@, "map"@, false),
        declares_at(crate::schemas::CHANGE_FIELDS@, 16, "terminating"@, "bool"@, false),
        declares_at(crate::schemas::CHANGE_FIELDS@, 17, "finalizers"@, "list<string>"@, false),
        declares_at(crate::schemas::CHANGE_FIELDS@, 18, "gap_reason"@, "enum<watch_expired_410|watch_denied|restarted_without_checkpoint|change_log_trimmed>"@, false),
        declares_at(crate::schemas::CHANGE_FIELDS@, 19, "gap_detail"@, "string"@, false),
{
}

/// A record of a cluster declares these fields, in this order, each of its own type.
pub proof fn cluster_fields_are_declared()
    ensures
        crate::schemas::CLUSTER_FIELDS@.len() == 21,
        declares_at(crate::schemas::CLUSTER_FIELDS@, 0, "uid"@, "string"@, true),
        declares_at(crate::schemas::CLUSTER_FIELDS@, 1, "name"@, "string"@, true),
        declares_at(crate::schemas::CLUSTER_FIELDS@, 2, "server"@, "string"@, false),
        declares_at(crate::schemas::CLUSTER_FIELDS@, 3, "reachable"@, "bool"@, true),
        declares_at(crate::schemas::CLUSTER_FIELDS@, 4, "server_version"@, "string"@, false),
        declares_at(crate::schemas::CLUSTER_FIELDS@, 5, "tls"@, "string"@, true),
        declares_at(crate::schemas::CLUSTER_FIELDS@, 6, "fingerprint"@, "string"@, false),
        declares_at(crate::schemas::CLUSTER_FIELDS@, 7, "fingerprint_signals"@, "list<string>"@, true),
        declares_at(crate::schemas::CLUSTER_FIELDS@, 8, "kube_system_uid"@, "string"@, false),
        declares_at(crate::schemas::CLUSTER_FIELDS@, 9, "server_key_fingerprint"@, "string"@, false),
        declares_at(crate::schemas::CLUSTER_FIELDS@, 10, "credential_identity"@, "string"@, false),
        declares_at(crate::schemas::CLUSTER_FIELDS@, 11, "effective_identity"@, "string"@, false),
        declares_at(crate::schemas::CLUSTER_FIELDS@, 12, "effective_uid"@, "string"@, false),
        declares_at(crate::schemas::CLUSTER_FIELDS@, 13, "effective_groups"@, "list<string>"@, false),
        declares_at(crate::schemas::CLUSTER_FIELDS@, 14, "impersonating"@, "bool"@, true),
        declares_at(crate::schemas::CLUSTER_FIELDS@, 15, "impersonated_user"@, "string"@, false),
        declares_at(crate::schemas::CLUSTER_FIELDS@, 16, "unknowns"@, "list<string>"@, true),
        declares_at(crate::schemas::CLUSTER_FIELDS@, 17, "probes"@, "map"@, true),
        declares_at(crate::schemas::CLUSTER_FIELDS@, 18, "latency_ms"@, "map"@, true),
        declares_at(crate::schemas::CLUSTER_FIELDS@, 19, "capabilities"@, "map"@, true),
        declares_at(crate::schemas::CLUSTER_FIELDS@, 20, "discovery"@, "map"@, false),
{
}

/// Whether some fields are those of two tables, one behind the other.
pub open spec fn are_of(
    fields: Seq<Field>,
    front: Seq<(&'static str, &'static str, bool)>,
    back: Seq<(&'static str, &'static str, bool)>,
) -> bool {
    &&& fields.len() == front.len() + back.len()
    &&& forall|i: int|
        0 <= i < front.len() ==> (#[trigger] fields[i]) == (Field {
            name: front[i].0,
            field_type: front[i].1,
            required: front[i].2,
        })
    &&& forall|i: int|
        0 <= i < back.len() ==> (#[trigger] fields[front.len() + i]) == (Field {
            name: back[i].0,
            field_type: back[i].1,
            required: back[i].2,
        })
}

/// A schema is the metadata of its kind and the table of its own behind it, and one that is about
/// something else than an object is its table alone.
pub proof fn a_schema_is_its_metadata_and_its_table(set: FieldSet, made: Vec<Field>)
    requires
        call_ensures(fields, (set,), made),
    ensures
        set == FieldSet::Namespace ==> are_of(
            made@,
            crate::schemas::CLUSTER_METADATA@,
            crate::schemas::NAMESPACE_FIELDS@,
        ),
        set == FieldSet::Node ==> are_of(
            made@,
            crate::schemas::CLUSTER_METADATA@,
            crate::schemas::NODE_FIELDS@,
        ),
        set == FieldSet::Pod ==> are_of(
            made@,
            crate::schemas::NAMESPACED_METADATA@,
            crate::schemas::POD_FIELDS@,
        ),
        set == FieldSet::Deployment ==> are_of(
            made@,
            crate::schemas::NAMESPACED_METADATA@,
            crate::schemas::DEPLOYMENT_FIELDS@,
        ),
        set == FieldSet::ReplicaSet ==> are_of(
            made@,
            crate::schemas::NAMESPACED_METADATA@,
            crate::schemas::REPLICASET_FIELDS@,
        ),
        set == FieldSet::StatefulSet ==> are_of(
            made@,
            crate::schemas::NAMESPACED_METADATA@,
            crate::schemas::STATEFULSET_FIELDS@,
        ),
        set == FieldSet::DaemonSet ==> are_of(
            made@,
            crate::schemas::NAMESPACED_METADATA@,
            crate::schemas::DAEMONSET_FIELDS@,
        ),
        set == FieldSet::Service ==> are_of(
            made@,
            crate::schemas::NAMESPACED_METADATA@,
            crate::schemas::SERVICE_FIELDS@,
        ),
        set == FieldSet::EndpointSlice ==> are_of(
            made@,
            crate::schemas::NAMESPACED_METADATA@,
            crate::schemas::ENDPOINTSLICE_FIELDS@,
        ),
        set == FieldSet::Ingress ==> are_of(
            made@,
            crate::schemas::NAMESPACED_METADATA@,
            crate::schemas::INGRESS_FIELDS@,
        ),
        set == FieldSet::Job ==> are_of(
            made@,
            crate::schemas::NAMESPACED_METADATA@,
            crate::schemas::JOB_FIELDS@,
        ),
        set == FieldSet::CronJob ==> are_of(
            made@,
            crate::schemas::NAMESPACED_METADATA@,
            crate::schemas::CRONJOB_FIELDS@,
        ),
        set == FieldSet::ConfigMap ==> are_of(
            made@,
            crate::schemas::NAMESPACED_METADATA@,
            crate::schemas::CONFIGMAP_FIELDS@,
        ),
        set == FieldSet::Secret ==> are_of(
            made@,
            crate::schemas::NAMESPACED_METADATA@,
            crate::schemas::SECRET_FIELDS@,
        ),
        set == FieldSet::ServiceAccount ==> are_of(
            made@,
            crate::schemas::NAMESPACED_METADATA@,
            crate::schemas::SERVICEACCOUNT_FIELDS@,
        ),
        set == FieldSet::PersistentVolumeClaim ==> are_of(
            made@,
            crate::schemas::NAMESPACED_METADATA@,
            crate::schemas::PERSISTENTVOLUMECLAIM_FIELDS@,
        ),
        set == FieldSet::PersistentVolume ==> are_of(
            made@,
            crate::schemas::CLUSTER_METADATA@,
            crate::schemas::PERSISTENTVOLUME_FIELDS@,
        ),
        set == FieldSet::StorageClass ==> are_of(
            made@,
            crate::schemas::CLUSTER_METADATA@,
            crate::schemas::STORAGECLASS_FIELDS@,
        ),
        set == FieldSet::NetworkPolicy ==> are_of(
            made@,
            crate::schemas::NAMESPACED_METADATA@,
            crate::schemas::NETWORKPOLICY_FIELDS@,
        ),
        set == FieldSet::Resource ==> are_of(
            made@,
            crate::schemas::NAMESPACED_METADATA@,
            crate::schemas::RESOURCE_FIELDS@,
        ),
        set == FieldSet::Event ==> are_of(
            made@,
            crate::schemas::NAMESPACED_METADATA@,
            crate::schemas::EVENT_FIELDS@,
        ),
        set == FieldSet::Plan ==> are_of(
            made@,
            crate::schemas::CHANGE_TARGET@,
            crate::schemas::PLAN_FIELDS@,
        ),
        set == FieldSet::Mutation ==> are_of(
            made@,
            crate::schemas::CHANGE_TARGET@,
            crate::schemas::MUTATION_FIELDS@,
        ),
        set == FieldSet::Relation ==> are_of(made@, Seq::empty(), crate::schemas::RELATION_FIELDS@),
        set == FieldSet::Change ==> are_of(made@, Seq::empty(), crate::schemas::CHANGE_FIELDS@),
        set == FieldSet::Evidence ==> are_of(made@, Seq::empty(), crate::schemas::EVIDENCE_FIELDS@),
        set == FieldSet::Log ==> are_of(made@, Seq::empty(), crate::schemas::LOG_FIELDS@),
        set == FieldSet::Timeline ==> are_of(made@, Seq::empty(), crate::schemas::TIMELINE_FIELDS@),
        set == FieldSet::Why ==> are_of(made@, Seq::empty(), crate::schemas::WHY_FIELDS@),
        set == FieldSet::Condition ==> are_of(made@, Seq::empty(), crate::schemas::CONDITION_FIELDS@),
        set == FieldSet::Cluster ==> are_of(made@, Seq::empty(), crate::schemas::CLUSTER_FIELDS@),
{
}

}
