//! The value of one field of a record, by the name the schema declares it under.
//!
//! Two rules decide every field. Unknown is null: what an object does not state is never filled in
//! with a default. And nothing is derived that the object did not say: `restarts` is the only sum,
//! and `ready` is a condition's status word for word.

use vstd::prelude::*;
use vstd::string::*;

use crate::digits::{decimal, number};
use crate::discovery::{group_version, group_version_of};
use crate::document::{is_document, render, rendered};
use crate::json::{
    entry, flag_of, found, group_json, int_of, items_of, json_views, member_views, members_of,
    text_of, Json, JsonView,
};
use crate::objects::{
    field_is_document, restart_sum, step_is_document, text_at_key, text_under, Guarded, Object,
    OwnerReference, Reconciliation, Relation, RoutingEdge, SliceEndpoint,
};
use crate::order::{arranged, sort};
use crate::pointer::at;
use crate::projection::{json_value, plain_value};
use crate::text::{among, group_views, join3, same, str_view, text_view, views};
use crate::value::{
    bool_value, entry_views, group_values, insert, instant_value, int_value, integer, list,
    optional, put, some_texts_value, string, text, text_value, texts, texts_value, timestamp,
    value_views, FieldValue, ValueView,
};

verus! {

/// How one field is filled.
#[derive(Debug, Clone, Copy, PartialEq, Eq, Structural)]
pub enum Rule {
    // --- the metadata every object carries ---
    Uid,
    Name,
    Namespace,
    ApiVersion,
    Kind,
    ResourceVersion,
    Created,
    Labels,
    Annotations,
    Terminating,
    Finalizers,
    OwnerReferences,
    FieldManagers,
    Generation,
    // --- what stands at the pointer ---
    Text,
    Flag,
    Whole,
    Instant,
    Texts,
    Names,
    Keys,
    Members,
    // --- what a list entry of the given type states ---
    ConditionStatus,
    ConditionReason,
    NodeAddress,
    // --- what the domain layer answers ---
    Reconciliation,
    Controller,
    ControllerKind,
    ServiceName,
    ClaimTemplates,
    EndpointCount,
    ReadyEndpoints,
    Addresses,
    Targets,
    IngressClass,
    Services,
    TlsSecrets,
    // --- everything else ---
    Restarts,
    LoadBalancer,
    Ports,
    Hosts,
    ReclaimPolicy,
    Claim,
    IsDefault,
    PolicyRules,
    SecretType,
    SecretKeys,
}

/// Every field some schema of an object declares: its name, how it is filled, and the pointer or
/// the type that goes with that.
pub const FIELD_RULES: [(&'static str, Rule, &'static str); 98] = [
    ("uid", Rule::Uid, ""),
    ("name", Rule::Name, ""),
    ("namespace", Rule::Namespace, ""),
    ("api_version", Rule::ApiVersion, ""),
    ("kind", Rule::Kind, ""),
    ("resource_version", Rule::ResourceVersion, ""),
    ("created", Rule::Created, ""),
    ("labels", Rule::Labels, ""),
    ("annotations", Rule::Annotations, ""),
    ("terminating", Rule::Terminating, ""),
    ("finalizers", Rule::Finalizers, ""),
    ("owner_references", Rule::OwnerReferences, ""),
    ("field_managers", Rule::FieldManagers, ""),
    ("phase", Rule::Text, "/status/phase"),
    ("ready", Rule::ConditionStatus, "Ready"),
    ("unschedulable", Rule::Flag, "/spec/unschedulable"),
    ("kubelet_version", Rule::Text, "/status/nodeInfo/kubeletVersion"),
    ("internal_ip", Rule::NodeAddress, "InternalIP"),
    ("node", Rule::Text, "/spec/nodeName"),
    ("pod_ip", Rule::Text, "/status/podIP"),
    ("containers", Rule::Names, "/spec/containers"),
    ("restarts", Rule::Restarts, ""),
    ("desired_replicas", Rule::Whole, "/spec/replicas"),
    ("ready_replicas", Rule::Whole, "/status/readyReplicas"),
    ("updated_replicas", Rule::Whole, "/status/updatedReplicas"),
    ("available_replicas", Rule::Whole, "/status/availableReplicas"),
    ("generation", Rule::Generation, ""),
    ("observed_generation", Rule::Whole, "/status/observedGeneration"),
    ("reconciliation", Rule::Reconciliation, ""),
    ("current_replicas", Rule::Whole, "/status/replicas"),
    ("controller", Rule::Controller, ""),
    ("controller_kind", Rule::ControllerKind, ""),
    ("service_name", Rule::ServiceName, ""),
    ("current_revision", Rule::Text, "/status/currentRevision"),
    ("update_revision", Rule::Text, "/status/updateRevision"),
    ("claim_templates", Rule::ClaimTemplates, ""),
    ("desired_scheduled", Rule::Whole, "/status/desiredNumberScheduled"),
    ("current_scheduled", Rule::Whole, "/status/currentNumberScheduled"),
    ("ready_scheduled", Rule::Whole, "/status/numberReady"),
    ("updated_scheduled", Rule::Whole, "/status/updatedNumberScheduled"),
    ("available_scheduled", Rule::Whole, "/status/numberAvailable"),
    ("misscheduled", Rule::Whole, "/status/numberMisscheduled"),
    ("service_type", Rule::Text, "/spec/type"),
    ("cluster_ip", Rule::Text, "/spec/clusterIP"),
    ("external_ips", Rule::Texts, "/spec/externalIPs"),
    ("external_name", Rule::Text, "/spec/externalName"),
    ("selector", Rule::Members, "/spec/selector"),
    ("load_balancer", Rule::LoadBalancer, ""),
    ("ports", Rule::Ports, ""),
    ("address_type", Rule::Text, "/addressType"),
    ("endpoint_count", Rule::EndpointCount, ""),
    ("ready_endpoints", Rule::ReadyEndpoints, ""),
    ("addresses", Rule::Addresses, ""),
    ("targets", Rule::Targets, ""),
    ("ingress_class", Rule::IngressClass, ""),
    ("hosts", Rule::Hosts, ""),
    ("services", Rule::Services, ""),
    ("tls_secrets", Rule::TlsSecrets, ""),
    ("completions", Rule::Whole, "/spec/completions"),
    ("parallelism", Rule::Whole, "/spec/parallelism"),
    ("active", Rule::Whole, "/status/active"),
    ("succeeded", Rule::Whole, "/status/succeeded"),
    ("failed", Rule::Whole, "/status/failed"),
    ("start_time", Rule::Instant, "/status/startTime"),
    ("completion_time", Rule::Instant, "/status/completionTime"),
    ("complete", Rule::ConditionStatus, "Complete"),
    ("failure_reason", Rule::ConditionReason, "Failed"),
    ("schedule", Rule::Text, "/spec/schedule"),
    ("suspend", Rule::Flag, "/spec/suspend"),
    ("concurrency_policy", Rule::Text, "/spec/concurrencyPolicy"),
    ("last_schedule_time", Rule::Instant, "/status/lastScheduleTime"),
    ("last_successful_time", Rule::Instant, "/status/lastSuccessfulTime"),
    ("active_jobs", Rule::Names, "/status/active"),
    ("binary_keys", Rule::Keys, "/binaryData"),
    ("immutable", Rule::Flag, "/immutable"),
    ("secrets", Rule::Names, "/secrets"),
    ("image_pull_secrets", Rule::Names, "/imagePullSecrets"),
    ("automount_token", Rule::Flag, "/automountServiceAccountToken"),
    ("volume_name", Rule::Text, "/spec/volumeName"),
    ("storage_class", Rule::Text, "/spec/storageClassName"),
    ("volume_mode", Rule::Text, "/spec/volumeMode"),
    ("access_modes", Rule::Texts, "/spec/accessModes"),
    ("requested_storage", Rule::Text, "/spec/resources/requests/storage"),
    ("bound_capacity", Rule::Text, "/status/capacity/storage"),
    ("capacity", Rule::Text, "/spec/capacity/storage"),
    ("reclaim_policy", Rule::ReclaimPolicy, ""),
    ("claim", Rule::Claim, ""),
    ("csi_driver", Rule::Text, "/spec/csi/driver"),
    ("provisioner", Rule::Text, "/provisioner"),
    ("volume_binding_mode", Rule::Text, "/volumeBindingMode"),
    ("allow_volume_expansion", Rule::Flag, "/allowVolumeExpansion"),
    ("is_default", Rule::IsDefault, ""),
    ("parameters", Rule::Members, "/parameters"),
    ("pod_selector", Rule::Members, "/spec/podSelector"),
    ("policy_types", Rule::Texts, "/spec/policyTypes"),
    ("rules", Rule::PolicyRules, ""),
    ("secret_type", Rule::SecretType, ""),
    ("keys", Rule::SecretKeys, "/data"),
];

// --- what stands at a pointer ---------------------------------------------------------------------

/// The text at a pointer, where there is one.
fn field_str<'a>(object: &'a Object, pointer: &str) -> (r: Option<&'a str>)
    ensures
        str_view(r) == text_of(at(object.native@, pointer@)),
{
    match object.native.field(pointer) {
        Some(json) => json.as_str(),
        None => None,
    }
}

/// An integer field by JSON pointer, null where absent or not a number.
fn field_int(object: &Object, pointer: &str) -> (r: FieldValue)
    ensures
        r@ == int_value(int_of(at(object.native@, pointer@))),
{
    let held: Option<i64> = match object.native.field(pointer) {
        Some(json) => json.as_i64(),
        None => None,
    };
    match held {
        Some(n) => integer(n),
        None => FieldValue::Null,
    }
}

/// A boolean field by JSON pointer, null where absent, never defaulted to `false`.
fn field_bool(object: &Object, pointer: &str) -> (r: FieldValue)
    ensures
        r@ == bool_value(flag_of(at(object.native@, pointer@))),
{
    let held: Option<bool> = match object.native.field(pointer) {
        Some(json) => json.as_bool(),
        None => None,
    };
    match held {
        Some(flag) => FieldValue::Bool(flag),
        None => FieldValue::Null,
    }
}

/// The items at a pointer, where there is a list.
fn field_items<'a>(object: &'a Object, pointer: &str) -> (r: Option<&'a Vec<Json>>)
    ensures
        match r {
            Some(items) => items_of(at(object.native@, pointer@)) == Some(json_views(items@)),
            None => items_of(at(object.native@, pointer@)) is None,
        },
{
    match object.native.field(pointer) {
        Some(json) => json.as_array(),
        None => None,
    }
}

/// The texts among some values, in order.
pub open spec fn texts_in(items: Seq<JsonView>) -> Seq<Seq<char>>
    decreases items.len(),
{
    if items.len() == 0 {
        Seq::empty()
    } else {
        match text_of(Some(items.last())) {
            Some(text) => texts_in(items.drop_last()).push(text),
            None => texts_in(items.drop_last()),
        }
    }
}

/// The texts some values hold under a name, in order.
pub open spec fn texts_under(items: Seq<JsonView>, name: Seq<char>) -> Seq<Seq<char>>
    decreases items.len(),
{
    if items.len() == 0 {
        Seq::empty()
    } else {
        match text_of(entry(items.last(), name)) {
            Some(text) => texts_under(items.drop_last(), name).push(text),
            None => texts_under(items.drop_last(), name),
        }
    }
}

/// The texts among some values, in order.
pub(crate) fn collect(items: &Vec<Json>) -> (r: Vec<String>)
    ensures
        views(r@) == texts_in(json_views(items@)),
{
    broadcast use group_json;

    let ghost all = json_views(items@);
    let mut out: Vec<String> = Vec::new();
    let mut i: usize = 0;
    assert(texts_in(all.take(0)) =~= views(out@));
    while i < items.len()
        invariant
            i <= items.len(),
            all == json_views(items@),
            views(out@) == texts_in(all.take(i as int)),
        decreases items.len() - i,
    {
        broadcast use group_json, group_views;

        assert(all.take(i + 1).drop_last() =~= all.take(i as int));
        assert(all.take(i + 1).last() == items@[i as int]@);
        if let Some(text) = items[i].as_str() {
            out.push(text.to_owned());
        }
        i = i + 1;
    }
    assert(all.take(i as int) =~= all);
    out
}

/// A list of strings at a pointer, or null where the object has none.
fn strings(object: &Object, pointer: &str) -> (r: FieldValue)
    ensures
        r@ == match items_of(at(object.native@, pointer@)) {
            Some(items) => texts_value(texts_in(items)),
            None => ValueView::Null,
        },
{
    match field_items(object, pointer) {
        Some(items) => texts(&collect(items)),
        None => FieldValue::Null,
    }
}

/// The texts the items of a list hold under a name.
pub(crate) fn collect_texts(items: &Vec<Json>, name: &str) -> (r: Vec<String>)
    ensures
        views(r@) == texts_under(json_views(items@), name@),
{
    broadcast use group_json;

    let ghost all = json_views(items@);
    let mut out: Vec<String> = Vec::new();
    let mut i: usize = 0;
    assert(texts_under(all.take(0), name@) =~= views(out@));
    while i < items.len()
        invariant
            i <= items.len(),
            all == json_views(items@),
            views(out@) == texts_under(all.take(i as int), name@),
        decreases items.len() - i,
    {
        broadcast use group_json, group_views;

        assert(all.take(i + 1).drop_last() =~= all.take(i as int));
        assert(all.take(i + 1).last() == items@[i as int]@);
        let held: Option<&str> = match items[i].get(name) {
            Some(json) => json.as_str(),
            None => None,
        };
        if let Some(text) = held {
            out.push(text.to_owned());
        }
        i = i + 1;
    }
    assert(all.take(i as int) =~= all);
    out
}

/// The `name` of each entry of an array at a pointer, in order.
fn names_at(object: &Object, pointer: &str) -> (r: FieldValue)
    ensures
        r@ == match items_of(at(object.native@, pointer@)) {
            Some(items) => texts_value(texts_under(items, "name"@)),
            None => ValueView::Null,
        },
{
    match field_items(object, pointer) {
        Some(items) => texts(&collect_texts(items, "name")),
        None => FieldValue::Null,
    }
}

/// The names of some members, in order.
pub open spec fn names_of(members: Seq<(Seq<char>, JsonView)>) -> Seq<Seq<char>> {
    members.map_values(|member: (Seq<char>, JsonView)| member.0)
}

/// The key names of a data map, sorted, and never their values.
fn data_keys(object: &Object, pointer: &str) -> (r: FieldValue)
    ensures
        r@ == match members_of(at(object.native@, pointer@)) {
            Some(members) => texts_value(arranged(names_of(members))),
            None => ValueView::Null,
        },
{
    let members: Option<&Vec<(String, Json)>> = match object.native.field(pointer) {
        Some(json) => json.as_object(),
        None => None,
    };
    match members {
        Some(members) => {
            let ghost wanted = names_of(member_views(members@));
            let mut keys: Vec<String> = Vec::new();
            let mut i: usize = 0;
            while i < members.len()
                invariant
                    i <= members.len(),
                    wanted == names_of(member_views(members@)),
                    views(keys@) == wanted.take(i as int),
                decreases members.len() - i,
            {
                broadcast use group_json, group_views;

                keys.push(members[i].0.clone());
                i = i + 1;
                assert(member_views(members@)[i - 1].0 == members@[i - 1].0@);
                assert(wanted.take(i as int) =~= wanted.take(i - 1).push(wanted[i - 1]));
            }
            broadcast use group_json;

            assert(wanted.take(i as int) =~= wanted);
            texts(&sort(&keys))
        },
        None => FieldValue::Null,
    }
}

/// A JSON object at a pointer, as a map, or null where the object has none.
fn map_field(object: &Object, pointer: &str) -> (r: FieldValue)
    ensures
        r@ == match at(object.native@, pointer@) {
            Some(JsonView::Object(members)) => plain_value(JsonView::Object(members)),
            _ => ValueView::Null,
        },
{
    match object.native.field(pointer) {
        Some(json) => match json {
            Json::Object(_) => json_value(json),
            _ => FieldValue::Null,
        },
        None => FieldValue::Null,
    }
}

// --- what a list entry of a type states -----------------------------------------------------------

/// The first of some entries whose `type` is a given one.
pub open spec fn entry_of_type(items: Seq<JsonView>, kind: Seq<char>) -> Option<JsonView>
    decreases items.len(),
{
    if items.len() == 0 {
        None
    } else if text_of(entry(items[0], "type"@)) == Some(kind) {
        Some(items[0])
    } else {
        entry_of_type(items.skip(1), kind)
    }
}

/// What the first entry of a type states under a name, in the list at a pointer.
pub open spec fn stated(
    native: JsonView,
    pointer: Seq<char>,
    kind: Seq<char>,
    name: Seq<char>,
) -> Option<Seq<char>> {
    match items_of(at(native, pointer)) {
        Some(items) => match entry_of_type(items, kind) {
            Some(found) => text_of(entry(found, name)),
            None => None,
        },
        None => None,
    }
}

/// What the first entry of a type states under a name, in the list at a pointer.
fn stated_text<'a>(object: &'a Object, pointer: &str, kind: &str, name: &str) -> (r: Option<&'a str>)
    ensures
        str_view(r) == stated(object.native@, pointer@, kind@, name@),
{
    match field_items(object, pointer) {
        Some(items) => {
            let ghost all = json_views(items@);
            let mut i: usize = 0;
            assert(all.skip(0) =~= all);
            while i < items.len()
                invariant
                    i <= items.len(),
                    all == json_views(items@),
                    items_of(at(object.native@, pointer@)) == Some(all),
                    entry_of_type(all.skip(i as int), kind@) == entry_of_type(all, kind@),
                decreases items.len() - i,
            {
                broadcast use group_json;

                assert(all.skip(i as int)[0] == items@[i as int]@);
                let held: Option<&str> = match items[i].get("type") {
                    Some(json) => json.as_str(),
                    None => None,
                };
                let matched: bool = match held {
                    Some(text) => same(text, kind),
                    None => false,
                };
                if matched {
                    return match items[i].get(name) {
                        Some(json) => json.as_str(),
                        None => None,
                    };
                }
                assert(all.skip(i as int).skip(1) =~= all.skip(i + 1));
                i = i + 1;
            }
            broadcast use group_json;

            None
        },
        None => None,
    }
}

// --- maps and lists the projection already holds --------------------------------------------------

/// A map of texts.
pub open spec fn text_entries(entries: Seq<(String, String)>) -> Seq<(Seq<char>, ValueView)> {
    entries.map_values(|pair: (String, String)| (pair.0@, ValueView::Text(pair.1@)))
}

/// A map of texts, or null where there are none: the API server leaves the key out entirely for an
/// object with none, so there is no observation that tells them apart.
pub open spec fn text_map_value(entries: Seq<(String, String)>) -> ValueView {
    if entries.len() == 0 {
        ValueView::Null
    } else {
        ValueView::Entries(text_entries(entries))
    }
}

/// A `metadata` string map, or null where the object carries none.
fn string_map(entries: &Vec<(String, String)>) -> (r: FieldValue)
    ensures
        r@ == text_map_value(entries@),
{
    if entries.len() == 0 {
        return FieldValue::Null;
    }
    let ghost wanted = text_entries(entries@);
    let mut out: Vec<(String, FieldValue)> = Vec::new();
    let mut i: usize = 0;
    while i < entries.len()
        invariant
            i <= entries.len(),
            wanted == text_entries(entries@),
            entry_views(out@) == wanted.take(i as int),
        decreases entries.len() - i,
    {
        broadcast use group_values;

        out.push((entries[i].0.clone(), FieldValue::Text(entries[i].1.clone())));
        i = i + 1;
        assert(wanted.take(i as int) =~= wanted.take(i - 1).push(wanted[i - 1]));
    }
    assert(wanted.take(i as int) =~= wanted);
    FieldValue::Entries(out)
}

/// One owner reference as a map.
pub open spec fn owner_value(owner: OwnerReference) -> ValueView {
    ValueView::Entries(
        seq![
            ("api_version"@, ValueView::Text(owner.api_version@)),
            ("kind"@, ValueView::Text(owner.kind@)),
            ("name"@, ValueView::Text(owner.name@)),
            ("uid"@, ValueView::Text(owner.uid@)),
            ("controller"@, ValueView::Bool(owner.controller)),
            ("block_owner_deletion"@, ValueView::Bool(owner.blocks_owner_deletion)),
        ],
    )
}

/// The owner references, each whole, or null where the object states none.
pub open spec fn owners_value(owners: Seq<OwnerReference>) -> ValueView {
    if owners.len() == 0 {
        ValueView::Null
    } else {
        ValueView::List(owners.map_values(|owner: OwnerReference| owner_value(owner)))
    }
}

/// One owner reference as a map.
fn owner_reference(owner: &OwnerReference) -> (r: FieldValue)
    ensures
        r@ == owner_value(*owner),
{
    let entries: Vec<(String, FieldValue)> = vec![
        ("api_version".to_owned(), FieldValue::Text(owner.api_version.clone())),
        ("kind".to_owned(), FieldValue::Text(owner.kind.clone())),
        ("name".to_owned(), FieldValue::Text(owner.name.clone())),
        ("uid".to_owned(), FieldValue::Text(owner.uid.clone())),
        ("controller".to_owned(), FieldValue::Bool(owner.controller)),
        ("block_owner_deletion".to_owned(), FieldValue::Bool(owner.blocks_owner_deletion)),
    ];
    assert(entry_views(entries@) =~= owner_value(*owner)->Entries_0);
    FieldValue::Entries(entries)
}

/// `metadata.ownerReferences`, each whole, or null where the object states none.
fn owner_references(object: &Object) -> (r: FieldValue)
    ensures
        r@ == owners_value(object.owner_references@),
{
    if object.owner_references.len() == 0 {
        return FieldValue::Null;
    }
    let ghost wanted = object.owner_references@.map_values(
        |owner: OwnerReference| owner_value(owner),
    );
    let mut out: Vec<FieldValue> = Vec::new();
    let mut i: usize = 0;
    while i < object.owner_references.len()
        invariant
            i <= object.owner_references.len(),
            wanted == object.owner_references@.map_values(
                |owner: OwnerReference| owner_value(owner),
            ),
            value_views(out@) == wanted.take(i as int),
        decreases object.owner_references.len() - i,
    {
        broadcast use group_values;

        out.push(owner_reference(&object.owner_references[i]));
        i = i + 1;
        assert(wanted.take(i as int) =~= wanted.take(i - 1).push(wanted[i - 1]));
    }
    assert(wanted.take(i as int) =~= wanted);
    FieldValue::List(out)
}

/// The reconciliation as a map: the state with the rule that produced it and the fields that rule
/// read.
pub open spec fn reconciliation_value(derived: Reconciliation) -> ValueView {
    ValueView::Entries(
        seq![
            ("state"@, ValueView::Text(derived.state@)),
            ("rule"@, ValueView::Text(derived.rule@)),
            ("verified_convergence"@, ValueView::Bool(derived.verified_convergence)),
            ("stage"@, text_value(text_view(derived.stage))),
            ("evidence"@, texts_value(views(derived.citations@))),
        ],
    )
}

/// Where the object stands between desired and observed state, with its rule and its evidence.
pub fn reconciliation(derived: &Reconciliation) -> (r: FieldValue)
    ensures
        r@ == reconciliation_value(*derived),
{
    let entries: Vec<(String, FieldValue)> = vec![
        ("state".to_owned(), FieldValue::Text(derived.state.clone())),
        ("rule".to_owned(), FieldValue::Text(derived.rule.clone())),
        ("verified_convergence".to_owned(), FieldValue::Bool(derived.verified_convergence)),
        ("stage".to_owned(), optional(&derived.stage)),
        ("evidence".to_owned(), texts(&derived.citations)),
    ];
    assert(entry_views(entries@) =~= reconciliation_value(*derived)->Entries_0);
    FieldValue::Entries(entries)
}

// --- owners, services, routes and endpoints -------------------------------------------------------

/// The owner reference that names an object's controller, where one does.
pub open spec fn controller_of(owners: Seq<OwnerReference>) -> Option<OwnerReference>
    decreases owners.len(),
{
    if owners.len() == 0 {
        None
    } else if owners[0].controller {
        Some(owners[0])
    } else {
        controller_of(owners.skip(1))
    }
}

/// The owner reference that names this object's controller, where one does.
fn controller(object: &Object) -> (r: Option<&OwnerReference>)
    ensures
        match r {
            Some(owner) => controller_of(object.owner_references@) == Some(*owner),
            None => controller_of(object.owner_references@) is None,
        },
{
    let ghost all = object.owner_references@;
    let mut i: usize = 0;
    assert(all.skip(0) =~= all);
    while i < object.owner_references.len()
        invariant
            i <= object.owner_references.len(),
            all == object.owner_references@,
            controller_of(all.skip(i as int)) == controller_of(all),
        decreases object.owner_references.len() - i,
    {
        assert(all.skip(i as int)[0] == all[i as int]);
        if object.owner_references[i].controller {
            return Some(&object.owner_references[i]);
        }
        assert(all.skip(i as int).skip(1) =~= all.skip(i + 1));
        i = i + 1;
    }
    None
}

/// The label by which an EndpointSlice says which Service it represents. A convention rather than
/// API structure: an operator can relabel a slice.
pub const SERVICE_NAME_LABEL: &'static str = "kubernetes.io/service-name";

/// The Service an object belongs to: the one it governs by, or the one its label names.
pub open spec fn service_of(object: Object) -> Option<Seq<char>> {
    match object.governing_service {
        Some(name) => Some(name@),
        None => text_under(object.labels@, SERVICE_NAME_LABEL@),
    }
}

/// The Service this object belongs to, by whichever evidence its kind offers.
fn service_name(object: &Object) -> (r: FieldValue)
    ensures
        r@ == text_value(service_of(*object)),
{
    match &object.governing_service {
        Some(name) => FieldValue::Text(name.clone()),
        None => text(text_at_key(&object.labels, SERVICE_NAME_LABEL)),
    }
}

/// The distinct names the edges of one relation point at, in order.
pub open spec fn routed_names(edges: Seq<RoutingEdge>, relation: Relation) -> Seq<Seq<char>>
    decreases edges.len(),
{
    if edges.len() == 0 {
        Seq::empty()
    } else {
        let before = routed_names(edges.drop_last(), relation);
        let edge = edges.last();
        if edge.relation == relation && !before.contains(edge.target@) {
            before.push(edge.target@)
        } else {
            before
        }
    }
}

/// The names an Ingress's routing edges point at, for one relation.
fn routed(object: &Object, relation: Relation) -> (r: Vec<String>)
    ensures
        views(r@) == routed_names(object.ingress_edges@, relation),
{
    let ghost all = object.ingress_edges@;
    let mut names: Vec<String> = Vec::new();
    let mut i: usize = 0;
    assert(routed_names(all.take(0), relation) =~= views(names@));
    while i < object.ingress_edges.len()
        invariant
            i <= object.ingress_edges.len(),
            all == object.ingress_edges@,
            views(names@) == routed_names(all.take(i as int), relation),
        decreases object.ingress_edges.len() - i,
    {
        broadcast use group_views;

        let edge: &RoutingEdge = &object.ingress_edges[i];
        assert(all.take(i + 1).drop_last() =~= all.take(i as int));
        assert(all.take(i + 1).last() == *edge);
        if edge.relation == relation && !among(&names, edge.target.as_str()) {
            names.push(edge.target.clone());
        }
        i = i + 1;
    }
    assert(all.take(i as int) =~= all);
    names
}

/// The distinct hosts some rules name, in the order they name them.
pub open spec fn hosts_in(rules: Seq<JsonView>) -> Seq<Seq<char>>
    decreases rules.len(),
{
    if rules.len() == 0 {
        Seq::empty()
    } else {
        let before = hosts_in(rules.drop_last());
        match text_of(entry(rules.last(), "host"@)) {
            Some(host) => if before.contains(host) {
                before
            } else {
                before.push(host)
            },
            None => before,
        }
    }
}

/// The hosts an Ingress answers for, in the order it lists its rules.
fn ingress_hosts(object: &Object) -> (r: FieldValue)
    ensures
        r@ == match items_of(at(object.native@, "/spec/rules"@)) {
            Some(rules) => some_texts_value(hosts_in(rules)),
            None => ValueView::Null,
        },
{
    match field_items(object, "/spec/rules") {
        Some(rules) => {
            let ghost all = json_views(rules@);
            let mut hosts: Vec<String> = Vec::new();
            let mut i: usize = 0;
            assert(hosts_in(all.take(0)) =~= views(hosts@));
            while i < rules.len()
                invariant
                    i <= rules.len(),
                    all == json_views(rules@),
                    views(hosts@) == hosts_in(all.take(i as int)),
                decreases rules.len() - i,
            {
                broadcast use group_json, group_views;

                assert(all.take(i + 1).drop_last() =~= all.take(i as int));
                assert(all.take(i + 1).last() == rules@[i as int]@);
                let held: Option<&str> = match rules[i].get("host") {
                    Some(json) => json.as_str(),
                    None => None,
                };
                if let Some(host) = held {
                    if !among(&hosts, host) {
                        hosts.push(host.to_owned());
                    }
                }
                i = i + 1;
            }
            broadcast use group_json;

            assert(all.take(i as int) =~= all);
            list(&hosts)
        },
        None => FieldValue::Null,
    }
}

/// How many of some endpoints say they are ready.
pub open spec fn ready_among(endpoints: Seq<SliceEndpoint>) -> nat
    decreases endpoints.len(),
{
    if endpoints.len() == 0 {
        0
    } else {
        ready_among(endpoints.drop_last()) + if endpoints.last().ready == Some(true) {
            1nat
        } else {
            0
        }
    }
}

/// A count of endpoints; null for an object that has no endpoints at all, which is a kind that has
/// none rather than a slice with zero of them.
pub open spec fn endpoint_count_value(object: Object, counted: nat) -> ValueView {
    if object.endpoints@.len() == 0 && at(object.native@, "/endpoints"@) is None {
        ValueView::Null
    } else {
        ValueView::Int(
            if counted <= i64::MAX {
                counted as int
            } else {
                i64::MAX as int
            },
        )
    }
}

/// How many endpoints a slice has, or how many of them say they are ready.
fn endpoint_count(object: &Object, ready_only: bool) -> (r: FieldValue)
    ensures
        r@ == endpoint_count_value(
            *object,
            if ready_only {
                ready_among(object.endpoints@)
            } else {
                object.endpoints@.len()
            },
        ),
{
    if object.endpoints.len() == 0 && object.native.field("/endpoints").is_none() {
        return FieldValue::Null;
    }
    let ghost all = object.endpoints@;
    let mut ready: usize = 0;
    let mut i: usize = 0;
    while i < object.endpoints.len()
        invariant
            i <= object.endpoints.len(),
            all == object.endpoints@,
            ready == ready_among(all.take(i as int)),
            ready <= i,
        decreases object.endpoints.len() - i,
    {
        assert(all.take(i + 1).drop_last() =~= all.take(i as int));
        assert(all.take(i + 1).last() == all[i as int]);
        let is_ready: bool = match object.endpoints[i].ready {
            Some(flag) => flag,
            None => false,
        };
        if is_ready {
            ready = ready + 1;
        }
        i = i + 1;
    }
    assert(all.take(i as int) =~= all);
    let counted: usize = if ready_only {
        ready
    } else {
        object.endpoints.len()
    };
    if counted as u64 <= i64::MAX as u64 {
        integer(counted as i64)
    } else {
        integer(i64::MAX)
    }
}

/// Every address some endpoints serve, in order.
pub open spec fn addresses_of(endpoints: Seq<SliceEndpoint>) -> Seq<Seq<char>>
    decreases endpoints.len(),
{
    if endpoints.len() == 0 {
        Seq::empty()
    } else {
        addresses_of(endpoints.drop_last()) + views(endpoints.last().addresses@)
    }
}

/// Every address a slice's endpoints serve, in the slice's own order.
fn endpoint_addresses(object: &Object) -> (r: FieldValue)
    ensures
        r@ == if object.endpoints@.len() == 0 {
            ValueView::Null
        } else {
            texts_value(addresses_of(object.endpoints@))
        },
{
    if object.endpoints.len() == 0 {
        return FieldValue::Null;
    }
    let ghost all = object.endpoints@;
    let mut out: Vec<String> = Vec::new();
    let mut i: usize = 0;
    assert(addresses_of(all.take(0)) =~= views(out@));
    while i < object.endpoints.len()
        invariant
            i <= object.endpoints.len(),
            all == object.endpoints@,
            views(out@) == addresses_of(all.take(i as int)),
        decreases object.endpoints.len() - i,
    {
        let endpoint: &SliceEndpoint = &object.endpoints[i];
        let ghost before = views(out@);
        let ghost own = views(endpoint.addresses@);
        let mut k: usize = 0;
        assert(before + own.take(0) =~= before);
        while k < endpoint.addresses.len()
            invariant
                k <= endpoint.addresses.len(),
                own == views(endpoint.addresses@),
                views(out@) == before + own.take(k as int),
            decreases endpoint.addresses.len() - k,
        {
            broadcast use group_views;

            out.push(endpoint.addresses[k].clone());
            k = k + 1;
            assert(before + own.take(k as int) =~= (before + own.take(k - 1)).push(own[k - 1]));
        }
        proof {
            assert(own.take(k as int) =~= own);
            assert(all.take(i + 1).drop_last() =~= all.take(i as int));
            assert(all.take(i + 1).last() == *endpoint);
        }
        i = i + 1;
    }
    assert(all.take(i as int) =~= all);
    texts(&out)
}

/// The names of the objects behind some endpoints, where they name one.
pub open spec fn targets_of(endpoints: Seq<SliceEndpoint>) -> Seq<Seq<char>>
    decreases endpoints.len(),
{
    if endpoints.len() == 0 {
        Seq::empty()
    } else {
        match endpoints.last().target {
            Some(name) => targets_of(endpoints.drop_last()).push(name@),
            None => targets_of(endpoints.drop_last()),
        }
    }
}

/// The objects behind a slice's endpoints, where one is named. An endpoint that names none
/// contributes nothing rather than a placeholder.
fn endpoint_targets(object: &Object) -> (r: FieldValue)
    ensures
        r@ == if object.endpoints@.len() == 0 {
            ValueView::Null
        } else {
            texts_value(targets_of(object.endpoints@))
        },
{
    if object.endpoints.len() == 0 {
        return FieldValue::Null;
    }
    let ghost all = object.endpoints@;
    let mut out: Vec<String> = Vec::new();
    let mut i: usize = 0;
    assert(targets_of(all.take(0)) =~= views(out@));
    while i < object.endpoints.len()
        invariant
            i <= object.endpoints.len(),
            all == object.endpoints@,
            views(out@) == targets_of(all.take(i as int)),
        decreases object.endpoints.len() - i,
    {
        broadcast use group_views;

        assert(all.take(i + 1).drop_last() =~= all.take(i as int));
        assert(all.take(i + 1).last() == all[i as int]);
        if let Some(name) = &object.endpoints[i].target {
            out.push(name.clone());
        }
        i = i + 1;
    }
    assert(all.take(i as int) =~= all);
    texts(&out)
}

// --- ports, addresses, claims and policies --------------------------------------------------------

/// The key one port goes under: its name, or the JSON text of its number, or its place.
pub open spec fn port_key(entry_: JsonView, index: int) -> Seq<char> {
    match text_of(entry(entry_, "name"@)) {
        Some(name) => name,
        None => match entry(entry_, "port"@) {
            Some(port) => rendered(port),
            None => decimal(index as nat),
        },
    }
}

/// Ports by key, a later one under the key of an earlier one in its place.
pub open spec fn ports_by_key(items: Seq<JsonView>) -> Seq<(Seq<char>, ValueView)>
    decreases items.len(),
{
    if items.len() == 0 {
        Seq::empty()
    } else {
        put(
            ports_by_key(items.drop_last()),
            port_key(items.last(), items.len() - 1),
            plain_value(items.last()),
        )
    }
}

/// The ports an object declares: a Service under `spec`, an EndpointSlice at the top level.
pub open spec fn ports_value(native: JsonView) -> ValueView {
    let declared = match at(native, "/spec/ports"@) {
        Some(ports) => Some(ports),
        None => at(native, "/ports"@),
    };
    match items_of(declared) {
        Some(items) => ValueView::Entries(ports_by_key(items)),
        None => ValueView::Null,
    }
}

/// The key one port goes under.
fn key_of_port(port: &Json, index: usize) -> (r: String)
    requires
        is_document(port@),
    ensures
        r@ == port_key(port@, index as int),
{
    let named: Option<&str> = match port.get("name") {
        Some(json) => json.as_str(),
        None => None,
    };
    match named {
        Some(name) => name.to_owned(),
        None => match port.get("port") {
            Some(n) => {
                proof {
                    step_is_document(port@, "port"@);
                }
                render(n)
            },
            None => number(index as u128),
        },
    }
}

/// The ports an object declares, keyed by name where it names them.
fn ports(object: &Object) -> (r: FieldValue)
    requires
        is_document(object.native@),
    ensures
        r@ == ports_value(object.native@),
{
    let declared: Option<&Json> = match object.native.field("/spec/ports") {
        Some(ports) => Some(ports),
        None => object.native.field("/ports"),
    };
    let declared: &Json = match declared {
        Some(json) => json,
        None => {
            return FieldValue::Null;
        },
    };
    proof {
        field_is_document(object.native@, "/spec/ports"@);
        field_is_document(object.native@, "/ports"@);
    }
    match declared.as_array() {
        Some(items) => {
            let ghost all = json_views(items@);
            let mut out: Vec<(String, FieldValue)> = Vec::new();
            let mut i: usize = 0;
            assert(ports_by_key(all.take(0)) =~= entry_views(out@));
            proof {
                crate::document::parts_are_documents(declared@);
            }
            while i < items.len()
                invariant
                    i <= items.len(),
                    all == json_views(items@),
                    forall|j: int| 0 <= j < all.len() ==> is_document(#[trigger] all[j]),
                    entry_views(out@) == ports_by_key(all.take(i as int)),
                decreases items.len() - i,
            {
                broadcast use group_json;

                assert(all[i as int] == items@[i as int]@);
                assert(all.take(i + 1).drop_last() =~= all.take(i as int));
                assert(all.take(i + 1).last() == items@[i as int]@);
                let key: String = key_of_port(&items[i], i);
                insert(&mut out, key, json_value(&items[i]));
                i = i + 1;
            }
            broadcast use group_json;

            assert(all.take(i as int) =~= all);
            FieldValue::Entries(out)
        },
        None => FieldValue::Null,
    }
}

/// The address an entry states: the `ip`, or the `hostname` of one that states no `ip`.
pub open spec fn balancer_address(item: JsonView) -> Option<Seq<char>> {
    match text_of(entry(item, "ip"@)) {
        Some(ip) => Some(ip),
        None => text_of(entry(item, "hostname"@)),
    }
}

/// The addresses some entries state, in order.
pub open spec fn balancer_addresses(items: Seq<JsonView>) -> Seq<Seq<char>>
    decreases items.len(),
{
    if items.len() == 0 {
        Seq::empty()
    } else {
        match balancer_address(items.last()) {
            Some(address) => balancer_addresses(items.drop_last()).push(address),
            None => balancer_addresses(items.drop_last()),
        }
    }
}

/// The addresses a load balancer answers on. An entry that states neither contributes nothing.
fn load_balancer(object: &Object) -> (r: FieldValue)
    ensures
        r@ == match items_of(at(object.native@, "/status/loadBalancer/ingress"@)) {
            Some(items) => texts_value(balancer_addresses(items)),
            None => ValueView::Null,
        },
{
    match field_items(object, "/status/loadBalancer/ingress") {
        Some(items) => {
            let ghost all = json_views(items@);
            let mut out: Vec<String> = Vec::new();
            let mut i: usize = 0;
            assert(balancer_addresses(all.take(0)) =~= views(out@));
            while i < items.len()
                invariant
                    i <= items.len(),
                    all == json_views(items@),
                    views(out@) == balancer_addresses(all.take(i as int)),
                decreases items.len() - i,
            {
                broadcast use group_json, group_views;

                assert(all.take(i + 1).drop_last() =~= all.take(i as int));
                assert(all.take(i + 1).last() == items@[i as int]@);
                let ip: Option<&str> = match items[i].get("ip") {
                    Some(json) => json.as_str(),
                    None => None,
                };
                let hostname: Option<&str> = match items[i].get("hostname") {
                    Some(json) => json.as_str(),
                    None => None,
                };
                let address: Option<&str> = match ip {
                    Some(ip) => Some(ip),
                    None => hostname,
                };
                if let Some(address) = address {
                    out.push(address.to_owned());
                }
                i = i + 1;
            }
            broadcast use group_json;

            assert(all.take(i as int) =~= all);
            texts(&out)
        },
        None => FieldValue::Null,
    }
}

/// The claim holding a volume, as `namespace/name`, or as its name where it names no namespace.
pub open spec fn claim_text(native: JsonView) -> Option<Seq<char>> {
    match at(native, "/spec/claimRef"@) {
        Some(reference) => match text_of(entry(reference, "name"@)) {
            Some(name) => match text_of(entry(reference, "namespace"@)) {
                Some(namespace) => Some(namespace + "/"@ + name),
                None => Some(name),
            },
            None => None,
        },
        None => None,
    }
}

/// The claim holding a volume, as `namespace/name`.
fn claim(object: &Object) -> (r: FieldValue)
    ensures
        r@ == text_value(claim_text(object.native@)),
{
    let reference: &Json = match object.native.field("/spec/claimRef") {
        Some(reference) => reference,
        None => {
            return FieldValue::Null;
        },
    };
    let name: Option<&str> = match reference.get("name") {
        Some(json) => json.as_str(),
        None => None,
    };
    let namespace: Option<&str> = match reference.get("namespace") {
        Some(json) => json.as_str(),
        None => None,
    };
    match name {
        Some(name) => match namespace {
            Some(namespace) => FieldValue::Text(join3(namespace, "/", name)),
            None => string(name),
        },
        None => FieldValue::Null,
    }
}

pub const DEFAULT_CLASS_ANNOTATION: &'static str = "storageclass.kubernetes.io/is-default-class";

/// Whether the cluster treats a StorageClass as its default: what the annotation says, and null
/// where there is none.
pub open spec fn default_class(object: Object) -> Option<bool> {
    match text_under(object.annotations@, DEFAULT_CLASS_ANNOTATION@) {
        Some(text) => Some(text == "true"@),
        None => None,
    }
}

/// Whether the cluster treats this StorageClass as its default.
fn is_default_storage_class(object: &Object) -> (r: FieldValue)
    ensures
        r@ == bool_value(default_class(*object)),
{
    match text_at_key(&object.annotations, DEFAULT_CLASS_ANNOTATION) {
        Some(text) => FieldValue::Bool(same(text, "true")),
        None => FieldValue::Null,
    }
}

/// One side of a policy's rules, where it states any.
pub open spec fn policy_side(
    native: JsonView,
    key: Seq<char>,
    pointer: Seq<char>,
) -> Seq<(Seq<char>, ValueView)> {
    match at(native, pointer) {
        Some(rules) => seq![(key, plain_value(rules))],
        None => Seq::empty(),
    }
}

/// A NetworkPolicy's rules, in the structure the API states them, never reduced.
pub open spec fn policy_value(native: JsonView) -> ValueView {
    let sides = policy_side(native, "ingress"@, "/spec/ingress"@) + policy_side(
        native,
        "egress"@,
        "/spec/egress"@,
    );
    if sides.len() == 0 {
        ValueView::Null
    } else {
        ValueView::Entries(sides)
    }
}

/// A NetworkPolicy's rules, in the structure the API states them.
fn policy_rules(object: &Object) -> (r: FieldValue)
    ensures
        r@ == policy_value(object.native@),
{
    broadcast use group_values;

    let mut out: Vec<(String, FieldValue)> = Vec::new();
    if let Some(rules) = object.native.field("/spec/ingress") {
        out.push(("ingress".to_owned(), json_value(rules)));
    }
    assert(entry_views(out@) =~= policy_side(object.native@, "ingress"@, "/spec/ingress"@));
    if let Some(rules) = object.native.field("/spec/egress") {
        out.push(("egress".to_owned(), json_value(rules)));
    }
    assert(entry_views(out@) =~= policy_side(object.native@, "ingress"@, "/spec/ingress"@)
        + policy_side(object.native@, "egress"@, "/spec/egress"@));
    assert(entry_views(out@).len() == out@.len());
    if out.len() == 0 {
        FieldValue::Null
    } else {
        FieldValue::Entries(out)
    }
}

/// The sum of every container's restart count, or null where the server sent no statuses: a pod
/// whose status has not been written has not restarted zero times.
fn restarts(object: &Object) -> (r: FieldValue)
    requires
        object.restarts_fit(),
    ensures
        r@ == match items_of(at(object.native@, "/status/containerStatuses"@)) {
            Some(statuses) => ValueView::Int(restart_sum(statuses)),
            None => ValueView::Null,
        },
{
    match field_items(object, "/status/containerStatuses") {
        Some(statuses) => {
            let ghost all = json_views(statuses@);
            let mut total: i64 = 0;
            let mut i: usize = 0;
            proof {
                let stated = items_of(at(object.native@, "/status/containerStatuses"@));
                assert(stated == Some(all));
                assert(object.restarts_fit());
                assert forall|j: int| 0 <= j <= all.len() implies i64::MIN
                    <= #[trigger] restart_sum(all.take(j)) <= i64::MAX by {
                    assert(stated->0.take(j) == all.take(j));
                }
            }
            while i < statuses.len()
                invariant
                    i <= statuses.len(),
                    all == json_views(statuses@),
                    forall|j: int|
                        0 <= j <= all.len() ==> i64::MIN <= #[trigger] restart_sum(all.take(j))
                            <= i64::MAX,
                    total == restart_sum(all.take(i as int)),
                decreases statuses.len() - i,
            {
                broadcast use group_json;

                assert(all.take(i + 1).drop_last() =~= all.take(i as int));
                assert(all.take(i + 1).last() == statuses@[i as int]@);
                assert(i64::MIN <= restart_sum(all.take(i + 1)) <= i64::MAX);
                let counted: Option<i64> = match statuses[i].get("restartCount") {
                    Some(json) => json.as_i64(),
                    None => None,
                };
                if let Some(n) = counted {
                    total = total + n;
                }
                i = i + 1;
            }
            broadcast use group_json;

            assert(all.take(i as int) =~= all);
            integer(total)
        },
        None => FieldValue::Null,
    }
}

// --- one field ------------------------------------------------------------------------------------

/// The rule of a field, and the pointer or the type that goes with it.
pub open spec fn rule_for(
    rows: Seq<(&'static str, Rule, &'static str)>,
    name: Seq<char>,
) -> Option<(Rule, Seq<char>)>
    decreases rows.len(),
{
    if rows.len() == 0 {
        None
    } else if rows[0].0@ == name {
        Some((rows[0].1, rows[0].2@))
    } else {
        rule_for(rows.skip(1), name)
    }
}

/// What a rule fills a field with.
pub open spec fn filled_by(rule: Rule, arg: Seq<char>, guarded: Guarded) -> ValueView {
    let object = guarded.object;
    let native = object.native@;
    match rule {
        Rule::Uid => text_value(text_view(object.uid)),
        Rule::Name => ValueView::Text(object.name@),
        Rule::Namespace => text_value(text_view(object.namespace)),
        Rule::ApiVersion => ValueView::Text(group_version(object.gvk.group@, object.gvk.version@)),
        Rule::Kind => ValueView::Text(object.gvk.kind@),
        Rule::ResourceVersion => text_value(text_view(object.resource_version)),
        Rule::Created => instant_value(text_view(object.creation_timestamp)),
        Rule::Labels => text_map_value(object.labels@),
        Rule::Annotations => text_map_value(object.annotations@),
        Rule::Terminating => ValueView::Bool(object.terminating),
        Rule::Finalizers => some_texts_value(views(object.finalizers@)),
        Rule::OwnerReferences => owners_value(object.owner_references@),
        Rule::FieldManagers => some_texts_value(views(object.field_managers@)),
        Rule::Generation => match object.generation {
            Some(n) => ValueView::Int(n as int),
            None => ValueView::Null,
        },
        Rule::Text => text_value(text_of(at(native, arg))),
        Rule::Flag => bool_value(flag_of(at(native, arg))),
        Rule::Whole => int_value(int_of(at(native, arg))),
        Rule::Instant => instant_value(text_of(at(native, arg))),
        Rule::Texts => match items_of(at(native, arg)) {
            Some(items) => texts_value(texts_in(items)),
            None => ValueView::Null,
        },
        Rule::Names => match items_of(at(native, arg)) {
            Some(items) => texts_value(texts_under(items, "name"@)),
            None => ValueView::Null,
        },
        Rule::Keys => match members_of(at(native, arg)) {
            Some(members) => texts_value(arranged(names_of(members))),
            None => ValueView::Null,
        },
        Rule::Members => match at(native, arg) {
            Some(JsonView::Object(members)) => plain_value(JsonView::Object(members)),
            _ => ValueView::Null,
        },
        Rule::ConditionStatus => text_value(stated(native, "/status/conditions"@, arg, "status"@)),
        Rule::ConditionReason => text_value(stated(native, "/status/conditions"@, arg, "reason"@)),
        Rule::NodeAddress => text_value(stated(native, "/status/addresses"@, arg, "address"@)),
        Rule::Reconciliation => reconciliation_value(object.reconciliation),
        Rule::Controller => match controller_of(object.owner_references@) {
            Some(owner) => ValueView::Text(owner.name@),
            None => ValueView::Null,
        },
        Rule::ControllerKind => match controller_of(object.owner_references@) {
            Some(owner) => ValueView::Text(owner.kind@),
            None => ValueView::Null,
        },
        Rule::ServiceName => text_value(service_of(object)),
        Rule::ClaimTemplates => some_texts_value(views(object.claim_templates@)),
        Rule::EndpointCount => endpoint_count_value(object, object.endpoints@.len()),
        Rule::ReadyEndpoints => endpoint_count_value(object, ready_among(object.endpoints@)),
        Rule::Addresses => if object.endpoints@.len() == 0 {
            ValueView::Null
        } else {
            texts_value(addresses_of(object.endpoints@))
        },
        Rule::Targets => if object.endpoints@.len() == 0 {
            ValueView::Null
        } else {
            texts_value(targets_of(object.endpoints@))
        },
        Rule::IngressClass => {
            let names = routed_names(object.ingress_edges@, Relation::UsesIngressClass);
            if names.len() == 0 {
                ValueView::Null
            } else {
                ValueView::Text(names[0])
            }
        },
        Rule::Services => some_texts_value(routed_names(object.ingress_edges@, Relation::RoutesTo)),
        Rule::TlsSecrets => some_texts_value(
            routed_names(object.ingress_edges@, Relation::UsesTlsSecret),
        ),
        Rule::Restarts => match items_of(at(native, "/status/containerStatuses"@)) {
            Some(statuses) => ValueView::Int(restart_sum(statuses)),
            None => ValueView::Null,
        },
        Rule::LoadBalancer => match items_of(at(native, "/status/loadBalancer/ingress"@)) {
            Some(items) => texts_value(balancer_addresses(items)),
            None => ValueView::Null,
        },
        Rule::Ports => ports_value(native),
        Rule::Hosts => match items_of(at(native, "/spec/rules"@)) {
            Some(rules) => some_texts_value(hosts_in(rules)),
            None => ValueView::Null,
        },
        Rule::ReclaimPolicy => text_value(
            match text_of(at(native, "/spec/persistentVolumeReclaimPolicy"@)) {
                Some(policy) => Some(policy),
                None => text_of(at(native, "/reclaimPolicy"@)),
            },
        ),
        Rule::Claim => text_value(claim_text(native)),
        Rule::IsDefault => bool_value(default_class(object)),
        Rule::PolicyRules => policy_value(native),
        Rule::SecretType => match guarded.secret {
            Some(secret) => text_value(text_view(secret.secret_type)),
            None => ValueView::Null,
        },
        Rule::SecretKeys => match guarded.secret {
            Some(secret) => texts_value(views(secret.keys@)),
            None => match members_of(at(native, arg)) {
                Some(members) => texts_value(arranged(names_of(members))),
                None => ValueView::Null,
            },
        },
    }
}

/// The value of one field of an object; null where nothing fills a field of that name.
pub open spec fn field_value_of(name: Seq<char>, guarded: Guarded) -> ValueView {
    match rule_for(FIELD_RULES@, name) {
        Some((rule, arg)) => filled_by(rule, arg, guarded),
        None => ValueView::Null,
    }
}

/// The rule of a field, and the pointer or the type that goes with it.
fn rule_of(name: &str) -> (r: Option<(Rule, &'static str)>)
    ensures
        match r {
            Some((rule, arg)) => rule_for(FIELD_RULES@, name@) == Some((rule, arg@)),
            None => rule_for(FIELD_RULES@, name@) is None,
        },
{
    let mut i: usize = 0;
    assert(FIELD_RULES@.skip(0) =~= FIELD_RULES@);
    while i < FIELD_RULES.len()
        invariant
            i <= FIELD_RULES@.len(),
            rule_for(FIELD_RULES@.skip(i as int), name@) == rule_for(FIELD_RULES@, name@),
        decreases FIELD_RULES@.len() - i,
    {
        if same(FIELD_RULES[i].0, name) {
            return Some((FIELD_RULES[i].1, FIELD_RULES[i].2));
        }
        assert(FIELD_RULES@.skip(i as int).skip(1) =~= FIELD_RULES@.skip(i + 1));
        i = i + 1;
    }
    None
}

/// Text borrowed from where it is held.
fn shown(text: &Option<String>) -> (r: Option<&str>)
    ensures
        str_view(r) == text_view(*text),
{
    match text {
        Some(text) => Some(text.as_str()),
        None => None,
    }
}

/// What a rule fills a field with.
fn fill_field(rule: Rule, arg: &str, guarded: &Guarded) -> (r: FieldValue)
    requires
        is_document(guarded.object.native@),
        rule == Rule::Restarts ==> guarded.object.restarts_fit(),
    ensures
        r@ == filled_by(rule, arg@, *guarded),
{
    let object: &Object = &guarded.object;
    match rule {
        Rule::Uid => optional(&object.uid),
        Rule::Name => FieldValue::Text(object.name.clone()),
        Rule::Namespace => optional(&object.namespace),
        Rule::ApiVersion => FieldValue::Text(
            group_version_of(object.gvk.group.as_str(), object.gvk.version.as_str()),
        ),
        Rule::Kind => FieldValue::Text(object.gvk.kind.clone()),
        Rule::ResourceVersion => optional(&object.resource_version),
        Rule::Created => timestamp(shown(&object.creation_timestamp)),
        Rule::Labels => string_map(&object.labels),
        Rule::Annotations => string_map(&object.annotations),
        Rule::Terminating => FieldValue::Bool(object.terminating),
        Rule::Finalizers => list(&object.finalizers),
        Rule::OwnerReferences => owner_references(object),
        Rule::FieldManagers => list(&object.field_managers),
        Rule::Generation => match object.generation {
            Some(n) => integer(n),
            None => FieldValue::Null,
        },
        Rule::Text => text(field_str(object, arg)),
        Rule::Flag => field_bool(object, arg),
        Rule::Whole => field_int(object, arg),
        Rule::Instant => timestamp(field_str(object, arg)),
        Rule::Texts => strings(object, arg),
        Rule::Names => names_at(object, arg),
        Rule::Keys => data_keys(object, arg),
        Rule::Members => map_field(object, arg),
        Rule::ConditionStatus => text(stated_text(object, "/status/conditions", arg, "status")),
        Rule::ConditionReason => text(stated_text(object, "/status/conditions", arg, "reason")),
        Rule::NodeAddress => text(stated_text(object, "/status/addresses", arg, "address")),
        Rule::Reconciliation => reconciliation(&object.reconciliation),
        Rule::Controller => match controller(object) {
            Some(owner) => FieldValue::Text(owner.name.clone()),
            None => FieldValue::Null,
        },
        Rule::ControllerKind => match controller(object) {
            Some(owner) => FieldValue::Text(owner.kind.clone()),
            None => FieldValue::Null,
        },
        Rule::ServiceName => service_name(object),
        Rule::ClaimTemplates => list(&object.claim_templates),
        Rule::EndpointCount => endpoint_count(object, false),
        Rule::ReadyEndpoints => endpoint_count(object, true),
        Rule::Addresses => endpoint_addresses(object),
        Rule::Targets => endpoint_targets(object),
        Rule::IngressClass => {
            let names: Vec<String> = routed(object, Relation::UsesIngressClass);
            assert(views(names@).len() == names@.len());
            if names.len() == 0 {
                FieldValue::Null
            } else {
                FieldValue::Text(names[0].clone())
            }
        },
        Rule::Services => list(&routed(object, Relation::RoutesTo)),
        Rule::TlsSecrets => list(&routed(object, Relation::UsesTlsSecret)),
        Rule::Restarts => restarts(object),
        Rule::LoadBalancer => load_balancer(object),
        Rule::Ports => ports(object),
        Rule::Hosts => ingress_hosts(object),
        Rule::ReclaimPolicy => text(
            match field_str(object, "/spec/persistentVolumeReclaimPolicy") {
                Some(policy) => Some(policy),
                None => field_str(object, "/reclaimPolicy"),
            },
        ),
        Rule::Claim => claim(object),
        Rule::IsDefault => is_default_storage_class(object),
        Rule::PolicyRules => policy_rules(object),
        Rule::SecretType => match &guarded.secret {
            Some(secret) => optional(&secret.secret_type),
            None => FieldValue::Null,
        },
        Rule::SecretKeys => match &guarded.secret {
            Some(secret) => texts(&secret.keys),
            None => data_keys(object, arg),
        },
    }
}

/// A rule that sums is reached under the one name that is a sum.
proof fn one_name_is_summed(rows: Seq<(&'static str, Rule, &'static str)>, name: Seq<char>)
    requires
        forall|i: int|
            0 <= i < rows.len() && (#[trigger] rows[i]).1 == Rule::Restarts ==> rows[i].0@
                == "restarts"@,
    ensures
        rule_for(rows, name) matches Some((rule, _)) && rule == Rule::Restarts ==> name
            == "restarts"@,
    decreases rows.len(),
{
    if rows.len() > 0 && rows[0].0@ != name {
        assert forall|i: int|
            0 <= i < rows.skip(1).len() && (#[trigger] rows.skip(1)[i]).1
                == Rule::Restarts implies rows.skip(1)[i].0@ == "restarts"@ by {
            assert(rows.skip(1)[i] == rows[i + 1]);
        }
        one_name_is_summed(rows.skip(1), name);
    }
}

/// One field's value, by the name the schema declares it under.
///
/// A name nothing fills answers null: unknown, which is exactly what a field nothing fills is.
pub fn field_value(name: &str, guarded: &Guarded) -> (r: FieldValue)
    requires
        guarded.object.shows(name@),
    ensures
        r@ == field_value_of(name@, *guarded),
{
    proof {
        one_name_is_summed(FIELD_RULES@, name@);
    }
    match rule_of(name) {
        Some((rule, arg)) => fill_field(rule, arg, guarded),
        None => FieldValue::Null,
    }
}

// --- laws -----------------------------------------------------------------------------------------

/// The keys and the type a Secret shows are those it was guarded with, whatever its document holds:
/// no two payloads are told apart by them.
pub proof fn secret_keys_come_from_the_guard(guarded: Guarded, other: Guarded, arg: Seq<char>)
    requires
        guarded.secret is Some,
        guarded.secret == other.secret,
    ensures
        filled_by(Rule::SecretKeys, arg, guarded) == filled_by(Rule::SecretKeys, arg, other),
        filled_by(Rule::SecretType, arg, guarded) == filled_by(Rule::SecretType, arg, other),
{
}

/// What a document does not hold at a pointer is null in every field that is read from there, never
/// a default.
pub proof fn absent_is_null(rule: Rule, arg: Seq<char>, guarded: Guarded)
    requires
        at(guarded.object.native@, arg) is None,
        rule == Rule::Text || rule == Rule::Flag || rule == Rule::Whole || rule == Rule::Instant
            || rule == Rule::Texts || rule == Rule::Names || rule == Rule::Keys || rule
            == Rule::Members,
    ensures
        filled_by(rule, arg, guarded) == ValueView::Null,
{
}

/// Every field is declared once.
proof fn rule_names_differ()
    ensures
        forall|i: int, j: int|
            0 <= i < j < FIELD_RULES@.len() ==> (#[trigger] FIELD_RULES@[i]).0@ != (
            #[trigger] FIELD_RULES@[j]).0@,
{
    reveal_strlit("uid");
    reveal_strlit("name");
    reveal_strlit("namespace");
    reveal_strlit("api_version");
    reveal_strlit("kind");
    reveal_strlit("resource_version");
    reveal_strlit("created");
    reveal_strlit("labels");
    reveal_strlit("annotations");
    reveal_strlit("terminating");
    reveal_strlit("finalizers");
    reveal_strlit("owner_references");
    reveal_strlit("field_managers");
    reveal_strlit("phase");
    reveal_strlit("ready");
    reveal_strlit("unschedulable");
    reveal_strlit("kubelet_version");
    reveal_strlit("internal_ip");
    reveal_strlit("node");
    reveal_strlit("pod_ip");
    reveal_strlit("containers");
    reveal_strlit("restarts");
    reveal_strlit("desired_replicas");
    reveal_strlit("ready_replicas");
    reveal_strlit("updated_replicas");
    reveal_strlit("available_replicas");
    reveal_strlit("generation");
    reveal_strlit("observed_generation");
    reveal_strlit("reconciliation");
    reveal_strlit("current_replicas");
    reveal_strlit("controller");
    reveal_strlit("controller_kind");
    reveal_strlit("service_name");
    reveal_strlit("current_revision");
    reveal_strlit("update_revision");
    reveal_strlit("claim_templates");
    reveal_strlit("desired_scheduled");
    reveal_strlit("current_scheduled");
    reveal_strlit("ready_scheduled");
    reveal_strlit("updated_scheduled");
    reveal_strlit("available_scheduled");
    reveal_strlit("misscheduled");
    reveal_strlit("service_type");
    reveal_strlit("cluster_ip");
    reveal_strlit("external_ips");
    reveal_strlit("external_name");
    reveal_strlit("selector");
    reveal_strlit("load_balancer");
    reveal_strlit("ports");
    reveal_strlit("address_type");
    reveal_strlit("endpoint_count");
    reveal_strlit("ready_endpoints");
    reveal_strlit("addresses");
    reveal_strlit("targets");
    reveal_strlit("ingress_class");
    reveal_strlit("hosts");
    reveal_strlit("services");
    reveal_strlit("tls_secrets");
    reveal_strlit("completions");
    reveal_strlit("parallelism");
    reveal_strlit("active");
    reveal_strlit("succeeded");
    reveal_strlit("failed");
    reveal_strlit("start_time");
    reveal_strlit("completion_time");
    reveal_strlit("complete");
    reveal_strlit("failure_reason");
    reveal_strlit("schedule");
    reveal_strlit("suspend");
    reveal_strlit("concurrency_policy");
    reveal_strlit("last_schedule_time");
    reveal_strlit("last_successful_time");
    reveal_strlit("active_jobs");
    reveal_strlit("binary_keys");
    reveal_strlit("immutable");
    reveal_strlit("secrets");
    reveal_strlit("image_pull_secrets");
    reveal_strlit("automount_token");
    reveal_strlit("volume_name");
    reveal_strlit("storage_class");
    reveal_strlit("volume_mode");
    reveal_strlit("access_modes");
    reveal_strlit("requested_storage");
    reveal_strlit("bound_capacity");
    reveal_strlit("capacity");
    reveal_strlit("reclaim_policy");
    reveal_strlit("claim");
    reveal_strlit("csi_driver");
    reveal_strlit("provisioner");
    reveal_strlit("volume_binding_mode");
    reveal_strlit("allow_volume_expansion");
    reveal_strlit("is_default");
    reveal_strlit("parameters");
    reveal_strlit("pod_selector");
    reveal_strlit("policy_types");
    reveal_strlit("rules");
    reveal_strlit("secret_type");
    reveal_strlit("keys");
    assert("uid"@.len() == 3);
    assert("name"@.len() == 4 && "name"@[1] == 'a');
    assert("namespace"@.len() == 9 && "namespace"@[0] == 'n');
    assert("api_version"@.len() == 11 && "api_version"@[9] == 'o' && "api_version"@[0] == 'a');
    assert("kind"@.len() == 4 && "kind"@[1] == 'i');
    assert("resource_version"@.len() == 16 && "resource_version"@[0] == 'r' && "resource_version"@[10] == 'e');
    assert("created"@.len() == 7 && "created"@[1] == 'r');
    assert("labels"@.len() == 6 && "labels"@[0] == 'l');
    assert("annotations"@.len() == 11 && "annotations"@[9] == 'n' && "annotations"@[0] == 'a');
    assert("terminating"@.len() == 11 && "terminating"@[9] == 'n' && "terminating"@[0] == 't');
    assert("finalizers"@.len() == 10 && "finalizers"@[1] == 'i' && "finalizers"@[4] == 'l');
    assert("owner_references"@.len() == 16 && "owner_references"@[0] == 'o' && "owner_references"@[10] == 'r');
    assert("field_managers"@.len() == 14 && "field_managers"@[10] == 'g');
    assert("phase"@.len() == 5 && "phase"@[1] == 'h' && "phase"@[0] == 'p');
    assert("ready"@.len() == 5 && "ready"@[1] == 'e' && "ready"@[0] == 'r');
    assert("unschedulable"@.len() == 13 && "unschedulable"@[0] == 'u');
    assert("kubelet_version"@.len() == 15 && "kubelet_version"@[3] == 'e' && "kubelet_version"@[6] == 't');
    assert("internal_ip"@.len() == 11 && "internal_ip"@[9] == 'i' && "internal_ip"@[0] == 'i');
    assert("node"@.len() == 4 && "node"@[1] == 'o');
    assert("pod_ip"@.len() == 6 && "pod_ip"@[0] == 'p');
    assert("containers"@.len() == 10 && "containers"@[1] == 'o' && "containers"@[4] == 'a');
    assert("restarts"@.len() == 8 && "restarts"@[2] == 's');
    assert("desired_replicas"@.len() == 16 && "desired_replicas"@[0] == 'd' && "desired_replicas"@[10] == 'p');
    assert("ready_replicas"@.len() == 14 && "ready_replicas"@[10] == 'i');
    assert("updated_replicas"@.len() == 16 && "updated_replicas"@[0] == 'u' && "updated_replicas"@[10] == 'p');
    assert("available_replicas"@.len() == 18 && "available_replicas"@[0] == 'a');
    assert("generation"@.len() == 10 && "generation"@[1] == 'e' && "generation"@[4] == 'r');
    assert("observed_generation"@.len() == 19 && "observed_generation"@[0] == 'o');
    assert("reconciliation"@.len() == 14 && "reconciliation"@[10] == 't');
    assert("current_replicas"@.len() == 16 && "current_replicas"@[0] == 'c' && "current_replicas"@[10] == 'p');
    assert("controller"@.len() == 10 && "controller"@[1] == 'o' && "controller"@[4] == 'r');
    assert("controller_kind"@.len() == 15 && "controller_kind"@[3] == 't' && "controller_kind"@[6] == 'l');
    assert("service_name"@.len() == 12 && "service_name"@[8] == 'n' && "service_name"@[0] == 's');
    assert("current_revision"@.len() == 16 && "current_revision"@[0] == 'c' && "current_revision"@[10] == 'v');
    assert("update_revision"@.len() == 15 && "update_revision"@[3] == 'a' && "update_revision"@[6] == '_');
    assert("claim_templates"@.len() == 15 && "claim_templates"@[3] == 'i' && "claim_templates"@[6] == 't');
    assert("desired_scheduled"@.len() == 17 && "desired_scheduled"@[0] == 'd');
    assert("current_scheduled"@.len() == 17 && "current_scheduled"@[0] == 'c');
    assert("ready_scheduled"@.len() == 15 && "ready_scheduled"@[3] == 'd' && "ready_scheduled"@[6] == 's');
    assert("updated_scheduled"@.len() == 17 && "updated_scheduled"@[0] == 'u');
    assert("available_scheduled"@.len() == 19 && "available_scheduled"@[0] == 'a');
    assert("misscheduled"@.len() == 12 && "misscheduled"@[8] == 'u' && "misscheduled"@[0] == 'm');
    assert("service_type"@.len() == 12 && "service_type"@[8] == 't' && "service_type"@[0] == 's');
    assert("cluster_ip"@.len() == 10 && "cluster_ip"@[1] == 'l' && "cluster_ip"@[4] == 't');
    assert("external_ips"@.len() == 12 && "external_ips"@[8] == '_' && "external_ips"@[0] == 'e');
    assert("external_name"@.len() == 13 && "external_name"@[0] == 'e');
    assert("selector"@.len() == 8 && "selector"@[2] == 'l');
    assert("load_balancer"@.len() == 13 && "load_balancer"@[0] == 'l');
    assert("ports"@.len() == 5 && "ports"@[1] == 'o' && "ports"@[0] == 'p');
    assert("address_type"@.len() == 12 && "address_type"@[8] == 't' && "address_type"@[0] == 'a');
    assert("endpoint_count"@.len() == 14 && "endpoint_count"@[10] == 'o');
    assert("ready_endpoints"@.len() == 15 && "ready_endpoints"@[3] == 'd' && "ready_endpoints"@[6] == 'e');
    assert("addresses"@.len() == 9 && "addresses"@[0] == 'a');
    assert("targets"@.len() == 7 && "targets"@[1] == 'a');
    assert("ingress_class"@.len() == 13 && "ingress_class"@[0] == 'i');
    assert("hosts"@.len() == 5 && "hosts"@[1] == 'o' && "hosts"@[0] == 'h');
    assert("services"@.len() == 8 && "services"@[2] == 'r');
    assert("tls_secrets"@.len() == 11 && "tls_secrets"@[9] == 't' && "tls_secrets"@[0] == 't');
    assert("completions"@.len() == 11 && "completions"@[9] == 'n' && "completions"@[0] == 'c');
    assert("parallelism"@.len() == 11 && "parallelism"@[9] == 's' && "parallelism"@[0] == 'p');
    assert("active"@.len() == 6 && "active"@[0] == 'a');
    assert("succeeded"@.len() == 9 && "succeeded"@[0] == 's');
    assert("failed"@.len() == 6 && "failed"@[0] == 'f');
    assert("start_time"@.len() == 10 && "start_time"@[1] == 't' && "start_time"@[4] == 't');
    assert("completion_time"@.len() == 15 && "completion_time"@[3] == 'p' && "completion_time"@[6] == 't');
    assert("complete"@.len() == 8 && "complete"@[2] == 'm');
    assert("failure_reason"@.len() == 14 && "failure_reason"@[10] == 'a');
    assert("schedule"@.len() == 8 && "schedule"@[2] == 'h');
    assert("suspend"@.len() == 7 && "suspend"@[1] == 'u');
    assert("concurrency_policy"@.len() == 18 && "concurrency_policy"@[0] == 'c');
    assert("last_schedule_time"@.len() == 18 && "last_schedule_time"@[0] == 'l');
    assert("last_successful_time"@.len() == 20);
    assert("active_jobs"@.len() == 11 && "active_jobs"@[9] == 'b' && "active_jobs"@[0] == 'a');
    assert("binary_keys"@.len() == 11 && "binary_keys"@[9] == 'y' && "binary_keys"@[0] == 'b');
    assert("immutable"@.len() == 9 && "immutable"@[0] == 'i');
    assert("secrets"@.len() == 7 && "secrets"@[1] == 'e');
    assert("image_pull_secrets"@.len() == 18 && "image_pull_secrets"@[0] == 'i');
    assert("automount_token"@.len() == 15 && "automount_token"@[3] == 'o' && "automount_token"@[6] == 'u');
    assert("volume_name"@.len() == 11 && "volume_name"@[9] == 'm' && "volume_name"@[0] == 'v');
    assert("storage_class"@.len() == 13 && "storage_class"@[0] == 's');
    assert("volume_mode"@.len() == 11 && "volume_mode"@[9] == 'd' && "volume_mode"@[0] == 'v');
    assert("access_modes"@.len() == 12 && "access_modes"@[8] == 'o' && "access_modes"@[0] == 'a');
    assert("requested_storage"@.len() == 17 && "requested_storage"@[0] == 'r');
    assert("bound_capacity"@.len() == 14 && "bound_capacity"@[10] == 'c');
    assert("capacity"@.len() == 8 && "capacity"@[2] == 'p');
    assert("reclaim_policy"@.len() == 14 && "reclaim_policy"@[10] == 'l');
    assert("claim"@.len() == 5 && "claim"@[1] == 'l' && "claim"@[0] == 'c');
    assert("csi_driver"@.len() == 10 && "csi_driver"@[1] == 's' && "csi_driver"@[4] == 'd');
    assert("provisioner"@.len() == 11 && "provisioner"@[9] == 'e' && "provisioner"@[0] == 'p');
    assert("volume_binding_mode"@.len() == 19 && "volume_binding_mode"@[0] == 'v');
    assert("allow_volume_expansion"@.len() == 22);
    assert("is_default"@.len() == 10 && "is_default"@[1] == 's' && "is_default"@[4] == 'e');
    assert("parameters"@.len() == 10 && "parameters"@[1] == 'a' && "parameters"@[4] == 'm');
    assert("pod_selector"@.len() == 12 && "pod_selector"@[8] == 'c' && "pod_selector"@[0] == 'p');
    assert("policy_types"@.len() == 12 && "policy_types"@[8] == 'y' && "policy_types"@[0] == 'p');
    assert("rules"@.len() == 5 && "rules"@[1] == 'u' && "rules"@[0] == 'r');
    assert("secret_type"@.len() == 11 && "secret_type"@[9] == 'p' && "secret_type"@[0] == 's');
    assert("keys"@.len() == 4 && "keys"@[1] == 'e');
}

/// The first row of a name is found under it.
proof fn first_row_is_found(rows: Seq<(&'static str, Rule, &'static str)>, k: int)
    requires
        0 <= k < rows.len(),
        forall|j: int| 0 <= j < k ==> (#[trigger] rows[j]).0@ != rows[k].0@,
    ensures
        rule_for(rows, rows[k].0@) == Some((rows[k].1, rows[k].2@)),
    decreases k,
{
    if k > 0 {
        assert(rows[0].0@ != rows[k].0@);
        assert forall|j: int| 0 <= j < k - 1 implies (#[trigger] rows.skip(1)[j]).0@
            != rows.skip(1)[k - 1].0@ by {
            assert(rows.skip(1)[j] == rows[j + 1]);
        }
        first_row_is_found(rows.skip(1), k - 1);
    }
}

/// A field is filled as its row says.
pub(crate) proof fn row_is_answered(k: int, guarded: Guarded)
    requires
        0 <= k < FIELD_RULES@.len(),
    ensures
        field_value_of(FIELD_RULES@[k].0@, guarded) == filled_by(
            FIELD_RULES@[k].1,
            FIELD_RULES@[k].2@,
            guarded,
        ),
{
    rule_names_differ();
    first_row_is_found(FIELD_RULES@, k);
}

/// What tells an object from every other is filled from the object itself.
pub(crate) proof fn identity_is_answered(guarded: Guarded)
    ensures
        field_value_of("uid"@, guarded) == text_value(text_view(guarded.object.uid)),
        field_value_of("name"@, guarded) == ValueView::Text(guarded.object.name@),
        field_value_of("namespace"@, guarded) == text_value(text_view(guarded.object.namespace)),
        field_value_of("api_version"@, guarded) == ValueView::Text(
            group_version(guarded.object.gvk.group@, guarded.object.gvk.version@),
        ),
        field_value_of("kind"@, guarded) == ValueView::Text(guarded.object.gvk.kind@),
{
    row_is_answered(0, guarded);
    row_is_answered(1, guarded);
    row_is_answered(2, guarded);
    row_is_answered(3, guarded);
    row_is_answered(4, guarded);
}

}
