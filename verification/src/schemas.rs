//! The fields of every schema this package contributes.
//!
//! A table per schema, in declaration order: the order a schema declares its fields in is the order
//! a record stores them in.

use vstd::prelude::*;

verus! {

/// One field of a contributed schema.
///
/// A field is required or it is nullable, so there is one flag and not two.
#[derive(Debug, Clone, Copy, PartialEq, Eq)]
pub struct Field {
    /// The field name, as the record carries it.
    pub name: &'static str,
    /// The registry type name, e.g. `string`, `int`, `list<string>`, `map`, `timestamp`.
    pub field_type: &'static str,
    /// Whether the field is always known. Everything else is nullable, and null means unknown.
    pub required: bool,
}

/// A field that is always known.
pub const REQUIRED: bool = true;

/// A field that may be absent, in which case it is null and never a default.
pub const NULLABLE: bool = false;

impl Field {
    /// A field that is always known.
    pub fn required(name: &'static str, field_type: &'static str) -> (r: Field)
        ensures
            r == (Field { name, field_type, required: true }),
    {
        Field { name, field_type, required: true }
    }

    /// A field that may be absent, in which case it is null and never a default.
    pub fn nullable(name: &'static str, field_type: &'static str) -> (r: Field)
        ensures
            r == (Field { name, field_type, required: false }),
    {
        Field { name, field_type, required: false }
    }
}

// --- the tables -----------------------------------------------------------------------------------

/// The metadata of an object that lives in no namespace.
pub const CLUSTER_METADATA: [(&'static str, &'static str, bool); 12] = [
    ("uid", "string", NULLABLE),
    ("name", "string", REQUIRED),
    ("api_version", "string", REQUIRED),
    ("kind", "string", REQUIRED),
    ("resource_version", "string", NULLABLE),
    ("created", "timestamp", NULLABLE),
    ("labels", "map", NULLABLE),
    ("annotations", "map", NULLABLE),
    ("terminating", "bool", REQUIRED),
    ("finalizers", "list<string>", NULLABLE),
    ("owner_references", "list<map>", NULLABLE),
    ("field_managers", "list<string>", NULLABLE),
];

/// The metadata of an object that lives in a namespace.
pub const NAMESPACED_METADATA: [(&'static str, &'static str, bool); 13] = [
    ("uid", "string", NULLABLE),
    ("name", "string", REQUIRED),
    ("namespace", "string", NULLABLE),
    ("api_version", "string", REQUIRED),
    ("kind", "string", REQUIRED),
    ("resource_version", "string", NULLABLE),
    ("created", "timestamp", NULLABLE),
    ("labels", "map", NULLABLE),
    ("annotations", "map", NULLABLE),
    ("terminating", "bool", REQUIRED),
    ("finalizers", "list<string>", NULLABLE),
    ("owner_references", "list<map>", NULLABLE),
    ("field_managers", "list<string>", NULLABLE),
];

/// What a change is aimed at and what guards it, on every record of a plan or an attempt.
pub const CHANGE_TARGET: [(&'static str, &'static str, bool); 9] = [
    ("uid", "string", NULLABLE),
    ("name", "string", REQUIRED),
    ("namespace", "string", NULLABLE),
    ("api_version", "string", REQUIRED),
    ("kind", "string", REQUIRED),
    ("resource_version", "string", NULLABLE),
    ("action", "string", REQUIRED),
    ("changes", "list<string>", REQUIRED),
    ("preconditions", "map", REQUIRED),
];

/// A namespace.
pub const NAMESPACE_FIELDS: [(&'static str, &'static str, bool); 1] = [
    ("phase", "string", NULLABLE),
];

/// A node.
pub const NODE_FIELDS: [(&'static str, &'static str, bool); 4] = [
    ("ready", "string", NULLABLE),
    ("unschedulable", "bool", NULLABLE),
    ("kubelet_version", "string", NULLABLE),
    ("internal_ip", "string", NULLABLE),
];

/// A pod.
pub const POD_FIELDS: [(&'static str, &'static str, bool); 5] = [
    ("phase", "string", NULLABLE),
    ("node", "string", NULLABLE),
    ("pod_ip", "string", NULLABLE),
    ("containers", "list<string>", NULLABLE),
    ("restarts", "int", NULLABLE),
];

/// A deployment: what was asked of it beside what has been observed.
pub const DEPLOYMENT_FIELDS: [(&'static str, &'static str, bool); 7] = [
    ("desired_replicas", "int", NULLABLE),
    ("ready_replicas", "int", NULLABLE),
    ("updated_replicas", "int", NULLABLE),
    ("available_replicas", "int", NULLABLE),
    ("generation", "int", NULLABLE),
    ("observed_generation", "int", NULLABLE),
    ("reconciliation", "map", REQUIRED),
];

/// A ReplicaSet, and the controller above it.
pub const REPLICASET_FIELDS: [(&'static str, &'static str, bool); 9] = [
    ("desired_replicas", "int", NULLABLE),
    ("current_replicas", "int", NULLABLE),
    ("ready_replicas", "int", NULLABLE),
    ("available_replicas", "int", NULLABLE),
    ("generation", "int", NULLABLE),
    ("observed_generation", "int", NULLABLE),
    ("controller", "string", NULLABLE),
    ("controller_kind", "string", NULLABLE),
    ("reconciliation", "map", REQUIRED),
];

/// A StatefulSet, its revisions and its claim templates.
pub const STATEFULSET_FIELDS: [(&'static str, &'static str, bool); 10] = [
    ("desired_replicas", "int", NULLABLE),
    ("current_replicas", "int", NULLABLE),
    ("ready_replicas", "int", NULLABLE),
    ("updated_replicas", "int", NULLABLE),
    ("available_replicas", "int", NULLABLE),
    ("service_name", "string", NULLABLE),
    ("current_revision", "string", NULLABLE),
    ("update_revision", "string", NULLABLE),
    ("claim_templates", "list<string>", NULLABLE),
    ("reconciliation", "map", REQUIRED),
];

/// A DaemonSet, counted per node.
pub const DAEMONSET_FIELDS: [(&'static str, &'static str, bool); 9] = [
    ("desired_scheduled", "int", NULLABLE),
    ("current_scheduled", "int", NULLABLE),
    ("ready_scheduled", "int", NULLABLE),
    ("updated_scheduled", "int", NULLABLE),
    ("available_scheduled", "int", NULLABLE),
    ("misscheduled", "int", NULLABLE),
    ("generation", "int", NULLABLE),
    ("observed_generation", "int", NULLABLE),
    ("reconciliation", "map", REQUIRED),
];

/// A service: how it is addressed and what it selects.
pub const SERVICE_FIELDS: [(&'static str, &'static str, bool); 7] = [
    ("service_type", "string", NULLABLE),
    ("cluster_ip", "string", NULLABLE),
    ("external_ips", "list<string>", NULLABLE),
    ("external_name", "string", NULLABLE),
    ("load_balancer", "list<string>", NULLABLE),
    ("ports", "map", NULLABLE),
    ("selector", "map", NULLABLE),
];

/// An EndpointSlice: which addresses answer, and which of them are ready.
pub const ENDPOINTSLICE_FIELDS: [(&'static str, &'static str, bool); 7] = [
    ("address_type", "string", NULLABLE),
    ("service_name", "string", NULLABLE),
    ("endpoint_count", "int", NULLABLE),
    ("ready_endpoints", "int", NULLABLE),
    ("addresses", "list<string>", NULLABLE),
    ("targets", "list<string>", NULLABLE),
    ("ports", "map", NULLABLE),
];

/// An ingress: its hosts, its services, its certificates.
pub const INGRESS_FIELDS: [(&'static str, &'static str, bool); 5] = [
    ("ingress_class", "string", NULLABLE),
    ("hosts", "list<string>", NULLABLE),
    ("services", "list<string>", NULLABLE),
    ("tls_secrets", "list<string>", NULLABLE),
    ("load_balancer", "list<string>", NULLABLE),
];

/// A job: what it was asked to complete beside what it has.
pub const JOB_FIELDS: [(&'static str, &'static str, bool); 12] = [
    ("completions", "int", NULLABLE),
    ("parallelism", "int", NULLABLE),
    ("active", "int", NULLABLE),
    ("succeeded", "int", NULLABLE),
    ("failed", "int", NULLABLE),
    ("start_time", "timestamp", NULLABLE),
    ("completion_time", "timestamp", NULLABLE),
    ("complete", "string", NULLABLE),
    ("failure_reason", "string", NULLABLE),
    ("controller", "string", NULLABLE),
    ("controller_kind", "string", NULLABLE),
    ("reconciliation", "map", REQUIRED),
];

/// A CronJob: its schedule and what it has running.
pub const CRONJOB_FIELDS: [(&'static str, &'static str, bool); 6] = [
    ("schedule", "string", NULLABLE),
    ("suspend", "bool", NULLABLE),
    ("concurrency_policy", "string", NULLABLE),
    ("last_schedule_time", "timestamp", NULLABLE),
    ("last_successful_time", "timestamp", NULLABLE),
    ("active_jobs", "list<string>", NULLABLE),
];

/// A ConfigMap's keys.
pub const CONFIGMAP_FIELDS: [(&'static str, &'static str, bool); 3] = [
    ("keys", "list<string>", NULLABLE),
    ("binary_keys", "list<string>", NULLABLE),
    ("immutable", "bool", NULLABLE),
];

/// A secret's keys, never what they hold.
pub const SECRET_FIELDS: [(&'static str, &'static str, bool); 2] = [
    ("secret_type", "string", NULLABLE),
    ("keys", "list<string>", NULLABLE),
];

/// A ServiceAccount, and the secrets it carries.
pub const SERVICEACCOUNT_FIELDS: [(&'static str, &'static str, bool); 3] = [
    ("secrets", "list<string>", NULLABLE),
    ("image_pull_secrets", "list<string>", NULLABLE),
    ("automount_token", "bool", NULLABLE),
];

/// A claim: what it asked for, and what it is bound to.
pub const PERSISTENTVOLUMECLAIM_FIELDS: [(&'static str, &'static str, bool); 7] = [
    ("phase", "string", NULLABLE),
    ("volume_name", "string", NULLABLE),
    ("storage_class", "string", NULLABLE),
    ("volume_mode", "string", NULLABLE),
    ("access_modes", "list<string>", NULLABLE),
    ("requested_storage", "string", NULLABLE),
    ("bound_capacity", "string", NULLABLE),
];

/// A volume, and which claim holds it.
pub const PERSISTENTVOLUME_FIELDS: [(&'static str, &'static str, bool); 8] = [
    ("phase", "string", NULLABLE),
    ("capacity", "string", NULLABLE),
    ("storage_class", "string", NULLABLE),
    ("volume_mode", "string", NULLABLE),
    ("access_modes", "list<string>", NULLABLE),
    ("reclaim_policy", "string", NULLABLE),
    ("claim", "string", NULLABLE),
    ("csi_driver", "string", NULLABLE),
];

/// A storage class.
pub const STORAGECLASS_FIELDS: [(&'static str, &'static str, bool); 6] = [
    ("provisioner", "string", NULLABLE),
    ("reclaim_policy", "string", NULLABLE),
    ("volume_binding_mode", "string", NULLABLE),
    ("allow_volume_expansion", "bool", NULLABLE),
    ("is_default", "bool", NULLABLE),
    ("parameters", "map", NULLABLE),
];

/// A network policy's intent, in the structure the API states it.
pub const NETWORKPOLICY_FIELDS: [(&'static str, &'static str, bool); 3] = [
    ("pod_selector", "map", NULLABLE),
    ("policy_types", "list<string>", NULLABLE),
    ("rules", "map", NULLABLE),
];

/// Any resource: what it is, how well it is known, and what it holds, with desired and
/// observed state kept apart.
pub const RESOURCE_FIELDS: [(&'static str, &'static str, bool); 9] = [
    ("api_group", "string", REQUIRED),
    ("resource_name", "string", REQUIRED),
    ("scope", "enum<namespaced|cluster>", REQUIRED),
    ("schema_source", "enum<openapi-v3|crd-structural|absent>", REQUIRED),
    ("precision", "enum<structural|loose|unknown>", REQUIRED),
    ("spec", "map", NULLABLE),
    ("status", "map", NULLABLE),
    ("other", "map", NULLABLE),
    ("untyped", "list<string>", REQUIRED),
];

/// One Event. An aggregated one is one record, and every time on it is a text beside its clock.
pub const EVENT_FIELDS: [(&'static str, &'static str, bool); 21] = [
    ("representation", "enum<events.k8s.io|core>", REQUIRED),
    ("level", "string", REQUIRED),
    ("reason", "string", NULLABLE),
    ("note", "string", NULLABLE),
    ("action", "string", NULLABLE),
    ("regarding", "string", NULLABLE),
    ("regarding_kind", "string", NULLABLE),
    ("regarding_name", "string", NULLABLE),
    ("regarding_namespace", "string", NULLABLE),
    ("regarding_uid", "string", NULLABLE),
    ("related", "string", NULLABLE),
    ("reporting_controller", "string", NULLABLE),
    ("reporting_instance", "string", NULLABLE),
    ("event_time", "string", NULLABLE),
    ("clock", "string", REQUIRED),
    ("aggregate", "bool", REQUIRED),
    ("recorded_count", "int", NULLABLE),
    ("series_count", "int", NULLABLE),
    ("series_last_observed", "string", NULLABLE),
    ("first_seen", "string", NULLABLE),
    ("last_seen", "string", NULLABLE),
];

/// A change described before it is made.
pub const PLAN_FIELDS: [(&'static str, &'static str, bool); 17] = [
    ("precondition_guarded", "bool", REQUIRED),
    ("propagation", "string", NULLABLE),
    ("effects", "list<map>", REQUIRED),
    ("reversibility", "string", REQUIRED),
    ("recovery", "map", REQUIRED),
    ("dependents", "list<map>", REQUIRED),
    ("dependent_coverage", "string", REQUIRED),
    ("preflight", "string", REQUIRED),
    ("verification", "string", REQUIRED),
    ("verification_stage", "string", NULLABLE),
    ("competing_writers", "list<map>", REQUIRED),
    ("competing_writer_coverage", "string", REQUIRED),
    ("contained", "list<map>", NULLABLE),
    ("contained_coverage", "string", NULLABLE),
    ("caveats", "list<string>", REQUIRED),
    ("prediction", "string", REQUIRED),
    ("statement", "string", REQUIRED),
];

/// What one attempt at a change came back with. There is no field for success.
pub const MUTATION_FIELDS: [(&'static str, &'static str, bool); 25] = [
    ("acceptance", "string", REQUIRED),
    ("dry_run", "bool", REQUIRED),
    ("prediction", "string", NULLABLE),
    ("code", "int", REQUIRED),
    ("stage", "string", NULLABLE),
    ("field_manager", "string", REQUIRED),
    ("forced", "bool", REQUIRED),
    ("forced_because", "string", NULLABLE),
    ("conflict_fields", "list<string>", NULLABLE),
    ("conflict_managers", "list<string>", NULLABLE),
    ("resolution", "string", NULLABLE),
    ("admission_differences", "list<string>", NULLABLE),
    ("deletion_state", "string", NULLABLE),
    ("finalizers", "list<string>", NULLABLE),
    ("propagation", "string", NULLABLE),
    ("verification", "string", REQUIRED),
    ("verdict", "string", NULLABLE),
    ("verification_detail", "string", NULLABLE),
    ("reconciliation", "map", NULLABLE),
    ("caveats", "list<string>", REQUIRED),
    ("competing_writers", "list<map>", REQUIRED),
    ("competing_writer_coverage", "string", REQUIRED),
    ("contained", "list<map>", NULLABLE),
    ("contained_coverage", "string", NULLABLE),
    ("statement", "string", REQUIRED),
];

/// One relationship: where it starts, what it is, where it points, and why it exists.
pub const RELATION_FIELDS: [(&'static str, &'static str, bool); 20] = [
    ("uid", "string", NULLABLE),
    ("name", "string", REQUIRED),
    ("namespace", "string", NULLABLE),
    ("api_version", "string", REQUIRED),
    ("kind", "string", REQUIRED),
    ("source", "string", REQUIRED),
    ("relation", "string", REQUIRED),
    ("target", "string", REQUIRED),
    ("target_kind", "string", REQUIRED),
    ("target_name", "string", REQUIRED),
    ("target_namespace", "string", NULLABLE),
    ("target_uid", "string", NULLABLE),
    ("target_resolved", "bool", REQUIRED),
    ("target_roles", "list<string>", REQUIRED),
    (
        "evidence_class",
        "enum<native-field|owner-reference|selector|convention|adapter-derivation|inference>",
        REQUIRED,
    ),
    ("evidence", "string", REQUIRED),
    ("evidence_path", "string", NULLABLE),
    ("asserted", "bool", REQUIRED),
    ("supporting", "list<string>", REQUIRED),
    ("observed_resource_versions", "map", REQUIRED),
];

/// One fact an object states about a system outside, or one that could not be read.
pub const EVIDENCE_FIELDS: [(&'static str, &'static str, bool); 18] = [
    ("uid", "string", NULLABLE),
    ("name", "string", REQUIRED),
    ("api_version", "string", REQUIRED),
    ("kind", "string", REQUIRED),
    ("subject", "string", REQUIRED),
    ("key", "string", REQUIRED),
    ("qualifier", "string", NULLABLE),
    ("value", "string", NULLABLE),
    ("source", "string", NULLABLE),
    ("strength", "enum<distinguishing|correlating|placement>", NULLABLE),
    (
        "evidence_class",
        "enum<native-field|owner-reference|selector|convention|adapter-derivation|inference>",
        NULLABLE,
    ),
    ("evidence", "string", NULLABLE),
    ("asserted", "bool", NULLABLE),
    ("lookup_key", "bool", NULLABLE),
    ("uri_scheme", "string", NULLABLE),
    ("uri_path", "string", NULLABLE),
    ("observed", "bool", REQUIRED),
    ("outcome", "string", NULLABLE),
];

/// One line of a container's log, and everything that is not in it.
pub const LOG_FIELDS: [(&'static str, &'static str, bool); 17] = [
    ("uid", "string", NULLABLE),
    ("name", "string", REQUIRED),
    ("namespace", "string", NULLABLE),
    ("api_version", "string", REQUIRED),
    ("kind", "string", REQUIRED),
    ("container", "string", NULLABLE),
    ("instance", "enum<current|previous>", REQUIRED),
    ("line", "int", REQUIRED),
    ("text", "string", NULLABLE),
    ("bytes", "int", REQUIRED),
    ("not_utf8_after", "int", NULLABLE),
    ("stamp", "string", NULLABLE),
    ("clock", "string", REQUIRED),
    ("terminated", "bool", REQUIRED),
    ("bounds", "list<string>", REQUIRED),
    ("ending", "string", REQUIRED),
    ("may_contain_secrets", "bool", REQUIRED),
];

/// One thing known to have a time attached, the clock that wrote it, and the window.
pub const TIMELINE_FIELDS: [(&'static str, &'static str, bool); 16] = [
    ("uid", "string", NULLABLE),
    ("name", "string", REQUIRED),
    ("namespace", "string", NULLABLE),
    ("api_version", "string", REQUIRED),
    ("kind", "string", REQUIRED),
    ("basis", "enum<observed|reported>", REQUIRED),
    (
        "source",
        "enum<watch-event|resource-snapshot|event-record|object-metadata|condition-transition|managed-field>",
        REQUIRED,
    ),
    ("clock", "string", REQUIRED),
    ("stamp", "string", REQUIRED),
    ("placeable", "bool", REQUIRED),
    ("detail", "string", REQUIRED),
    ("window_opened", "timestamp", REQUIRED),
    ("window_latest", "timestamp", REQUIRED),
    ("continuous", "bool", REQUIRED),
    ("gaps", "list<string>", REQUIRED),
    ("not_observed", "list<string>", REQUIRED),
];

/// One thing that may be said about the state an object is in. There is no field for a cause.
pub const WHY_FIELDS: [(&'static str, &'static str, bool); 17] = [
    ("uid", "string", NULLABLE),
    ("name", "string", REQUIRED),
    ("namespace", "string", NULLABLE),
    ("api_version", "string", REQUIRED),
    ("kind", "string", REQUIRED),
    (
        "claim",
        "enum<CAUSALITY_NOT_PROVEN|CORRELATED_WITH|PRECEDED_BY|DEPENDENCY_PATH_EXISTS|ASSERTED_BY_KUBERNETES>",
        REQUIRED,
    ),
    ("claim_means", "string", REQUIRED),
    ("support_class", "enum<sequence|path|assertion|nothing>", REQUIRED),
    ("support", "string", REQUIRED),
    ("not_proven", "string", NULLABLE),
    ("clock", "string", NULLABLE),
    ("apart_ms", "int", NULLABLE),
    (
        "evidence_class",
        "enum<native-field|owner-reference|selector|convention|adapter-derivation|inference>",
        NULLABLE,
    ),
    ("evidence_path", "string", NULLABLE),
    (
        "strongest_claim",
        "enum<CAUSALITY_NOT_PROVEN|CORRELATED_WITH|PRECEDED_BY|DEPENDENCY_PATH_EXISTS|ASSERTED_BY_KUBERNETES>",
        REQUIRED,
    ),
    ("insufficient_evidence", "bool", REQUIRED),
    ("not_observed", "list<string>", REQUIRED),
];

/// One condition a controller wrote about an object.
pub const CONDITION_FIELDS: [(&'static str, &'static str, bool); 14] = [
    ("uid", "string", NULLABLE),
    ("name", "string", REQUIRED),
    ("namespace", "string", NULLABLE),
    ("api_version", "string", REQUIRED),
    ("kind", "string", REQUIRED),
    ("condition_type", "string", REQUIRED),
    ("status", "string", REQUIRED),
    ("reason", "string", NULLABLE),
    ("message", "string", NULLABLE),
    ("observed_generation", "int", NULLABLE),
    ("generation", "int", NULLABLE),
    ("last_transition_time", "string", NULLABLE),
    ("clock", "string", REQUIRED),
    ("reconciliation", "map", REQUIRED),
];

/// One observed change, or one period with no observations in it, with its continuity.
pub const CHANGE_FIELDS: [(&'static str, &'static str, bool); 20] = [
    ("change", "enum<listed|added|modified|deleted|gap|notice>", REQUIRED),
    ("resource", "string", REQUIRED),
    ("scope", "string", REQUIRED),
    ("segment", "int", REQUIRED),
    ("continuous", "bool", REQUIRED),
    ("sync_state", "string", REQUIRED),
    ("view_state", "enum<syncing|live|reconnecting|gap detected|stale|denied>", REQUIRED),
    ("withheld", "int", REQUIRED),
    ("uid", "string", NULLABLE),
    ("name", "string", NULLABLE),
    ("namespace", "string", NULLABLE),
    ("api_version", "string", NULLABLE),
    ("kind", "string", NULLABLE),
    ("resource_version", "string", NULLABLE),
    ("created", "timestamp", NULLABLE),
    ("labels", "map", NULLABLE),
    ("terminating", "bool", NULLABLE),
    ("finalizers", "list<string>", NULLABLE),
    (
        "gap_reason",
        "enum<watch_expired_410|watch_denied|restarted_without_checkpoint|change_log_trimmed>",
        NULLABLE,
    ),
    ("gap_detail", "string", NULLABLE),
];

/// One provider instance: which cluster, whether it answers, and who the provider is to it.
pub const CLUSTER_FIELDS: [(&'static str, &'static str, bool); 21] = [
    ("uid", "string", REQUIRED),
    ("name", "string", REQUIRED),
    ("server", "string", NULLABLE),
    ("reachable", "bool", REQUIRED),
    ("server_version", "string", NULLABLE),
    ("tls", "string", REQUIRED),
    ("fingerprint", "string", NULLABLE),
    ("fingerprint_signals", "list<string>", REQUIRED),
    ("kube_system_uid", "string", NULLABLE),
    ("server_key_fingerprint", "string", NULLABLE),
    ("credential_identity", "string", NULLABLE),
    ("effective_identity", "string", NULLABLE),
    ("effective_uid", "string", NULLABLE),
    ("effective_groups", "list<string>", NULLABLE),
    ("impersonating", "bool", REQUIRED),
    ("impersonated_user", "string", NULLABLE),
    ("unknowns", "list<string>", REQUIRED),
    ("probes", "map", REQUIRED),
    ("latency_ms", "map", REQUIRED),
    ("capabilities", "map", REQUIRED),
    ("discovery", "map", NULLABLE),
];

// --- from a table to a schema ---------------------------------------------------------------------

/// Which schema's fields.
#[derive(Debug, Clone, Copy, PartialEq, Eq, Structural)]
pub enum FieldSet {
    Namespace,
    Node,
    Pod,
    Deployment,
    ReplicaSet,
    StatefulSet,
    DaemonSet,
    Service,
    EndpointSlice,
    Ingress,
    Job,
    CronJob,
    ConfigMap,
    Secret,
    ServiceAccount,
    PersistentVolumeClaim,
    PersistentVolume,
    StorageClass,
    NetworkPolicy,
    Resource,
    Relation,
    Change,
    Event,
    Evidence,
    Log,
    Timeline,
    Why,
    Condition,
    Cluster,
    Plan,
    Mutation,
}

/// One row of a table as a field.
pub open spec fn field_of(row: (&'static str, &'static str, bool)) -> Field {
    Field { name: row.0, field_type: row.1, required: row.2 }
}

/// The rows of a table as fields.
pub open spec fn fields_of_rows(rows: Seq<(&'static str, &'static str, bool)>) -> Seq<Field> {
    rows.map_values(|row: (&'static str, &'static str, bool)| field_of(row))
}

/// The metadata every Kubernetes object carries, projected the same way for every kind.
pub open spec fn shared_metadata(namespaced: bool) -> Seq<Field> {
    if namespaced {
        fields_of_rows(NAMESPACED_METADATA@)
    } else {
        fields_of_rows(CLUSTER_METADATA@)
    }
}

/// The fields of a schema, in declaration order.
pub open spec fn schema_fields(set: FieldSet) -> Seq<Field> {
    match set {
        FieldSet::Namespace => shared_metadata(false) + fields_of_rows(NAMESPACE_FIELDS@),
        FieldSet::Node => shared_metadata(false) + fields_of_rows(NODE_FIELDS@),
        FieldSet::Pod => shared_metadata(true) + fields_of_rows(POD_FIELDS@),
        FieldSet::Deployment => shared_metadata(true) + fields_of_rows(DEPLOYMENT_FIELDS@),
        FieldSet::ReplicaSet => shared_metadata(true) + fields_of_rows(REPLICASET_FIELDS@),
        FieldSet::StatefulSet => shared_metadata(true) + fields_of_rows(STATEFULSET_FIELDS@),
        FieldSet::DaemonSet => shared_metadata(true) + fields_of_rows(DAEMONSET_FIELDS@),
        FieldSet::Service => shared_metadata(true) + fields_of_rows(SERVICE_FIELDS@),
        FieldSet::EndpointSlice => shared_metadata(true) + fields_of_rows(ENDPOINTSLICE_FIELDS@),
        FieldSet::Ingress => shared_metadata(true) + fields_of_rows(INGRESS_FIELDS@),
        FieldSet::Job => shared_metadata(true) + fields_of_rows(JOB_FIELDS@),
        FieldSet::CronJob => shared_metadata(true) + fields_of_rows(CRONJOB_FIELDS@),
        FieldSet::ConfigMap => shared_metadata(true) + fields_of_rows(CONFIGMAP_FIELDS@),
        FieldSet::Secret => shared_metadata(true) + fields_of_rows(SECRET_FIELDS@),
        FieldSet::ServiceAccount => shared_metadata(true) + fields_of_rows(SERVICEACCOUNT_FIELDS@),
        FieldSet::PersistentVolumeClaim => shared_metadata(true) + fields_of_rows(
            PERSISTENTVOLUMECLAIM_FIELDS@,
        ),
        FieldSet::PersistentVolume => shared_metadata(false) + fields_of_rows(
            PERSISTENTVOLUME_FIELDS@,
        ),
        FieldSet::StorageClass => shared_metadata(false) + fields_of_rows(STORAGECLASS_FIELDS@),
        FieldSet::NetworkPolicy => shared_metadata(true) + fields_of_rows(NETWORKPOLICY_FIELDS@),
        FieldSet::Resource => shared_metadata(true) + fields_of_rows(RESOURCE_FIELDS@),
        FieldSet::Relation => fields_of_rows(RELATION_FIELDS@),
        FieldSet::Change => fields_of_rows(CHANGE_FIELDS@),
        FieldSet::Event => shared_metadata(true) + fields_of_rows(EVENT_FIELDS@),
        FieldSet::Evidence => fields_of_rows(EVIDENCE_FIELDS@),
        FieldSet::Log => fields_of_rows(LOG_FIELDS@),
        FieldSet::Timeline => fields_of_rows(TIMELINE_FIELDS@),
        FieldSet::Why => fields_of_rows(WHY_FIELDS@),
        FieldSet::Condition => fields_of_rows(CONDITION_FIELDS@),
        FieldSet::Cluster => fields_of_rows(CLUSTER_FIELDS@),
        FieldSet::Plan => fields_of_rows(CHANGE_TARGET@) + fields_of_rows(PLAN_FIELDS@),
        FieldSet::Mutation => fields_of_rows(CHANGE_TARGET@) + fields_of_rows(MUTATION_FIELDS@),
    }
}

/// Appends the rows of a table as fields.
fn add_rows<const N: usize>(
    out: &mut Vec<Field>,
    rows: &[(&'static str, &'static str, bool); N],
)
    ensures
        final(out)@ == old(out)@ + fields_of_rows(rows@),
{
    let ghost before = out@;
    let ghost wanted = fields_of_rows(rows@);
    let mut i: usize = 0;
    assert(before + wanted.take(0) =~= before);
    while i < N
        invariant
            i <= N,
            rows@.len() == N,
            wanted == fields_of_rows(rows@),
            out@ == before + wanted.take(i as int),
        decreases N - i,
    {
        let row: (&'static str, &'static str, bool) = rows[i];
        out.push(Field { name: row.0, field_type: row.1, required: row.2 });
        i = i + 1;
        assert(before + wanted.take(i as int) =~= (before + wanted.take(i - 1)).push(
            wanted[i - 1],
        ));
    }
    assert(wanted.take(i as int) =~= wanted);
}

/// The metadata every Kubernetes object carries, projected the same way for every kind.
pub fn common(namespaced: bool) -> (r: Vec<Field>)
    ensures
        r@ == shared_metadata(namespaced),
{
    let mut out: Vec<Field> = Vec::new();
    if namespaced {
        add_rows(&mut out, &NAMESPACED_METADATA);
    } else {
        add_rows(&mut out, &CLUSTER_METADATA);
    }
    assert(out@ =~= shared_metadata(namespaced));
    out
}

/// The shared metadata, and a kind's own fields behind it.
pub fn with_metadata<const N: usize>(
    namespaced: bool,
    own: &[(&'static str, &'static str, bool); N],
) -> (r: Vec<Field>)
    ensures
        r@ == shared_metadata(namespaced) + fields_of_rows(own@),
{
    let mut out: Vec<Field> = common(namespaced);
    add_rows(&mut out, own);
    out
}

/// What a change is aimed at, and a schema's own fields behind it.
pub fn with_target<const N: usize>(own: &[(&'static str, &'static str, bool); N]) -> (r: Vec<Field>)
    ensures
        r@ == fields_of_rows(CHANGE_TARGET@) + fields_of_rows(own@),
{
    let mut out: Vec<Field> = plain(&CHANGE_TARGET);
    add_rows(&mut out, own);
    out
}

/// A schema's own fields and no others.
fn plain<const N: usize>(own: &[(&'static str, &'static str, bool); N]) -> (r: Vec<Field>)
    ensures
        r@ == fields_of_rows(own@),
{
    let mut out: Vec<Field> = Vec::new();
    add_rows(&mut out, own);
    assert(out@ =~= fields_of_rows(own@));
    out
}

/// The fields of a schema, in declaration order.
pub fn fields(set: FieldSet) -> (r: Vec<Field>)
    ensures
        r@ == schema_fields(set),
{
    match set {
        FieldSet::Namespace => with_metadata(false, &NAMESPACE_FIELDS),
        FieldSet::Node => with_metadata(false, &NODE_FIELDS),
        FieldSet::Pod => with_metadata(true, &POD_FIELDS),
        FieldSet::Deployment => with_metadata(true, &DEPLOYMENT_FIELDS),
        FieldSet::ReplicaSet => with_metadata(true, &REPLICASET_FIELDS),
        FieldSet::StatefulSet => with_metadata(true, &STATEFULSET_FIELDS),
        FieldSet::DaemonSet => with_metadata(true, &DAEMONSET_FIELDS),
        FieldSet::Service => with_metadata(true, &SERVICE_FIELDS),
        FieldSet::EndpointSlice => with_metadata(true, &ENDPOINTSLICE_FIELDS),
        FieldSet::Ingress => with_metadata(true, &INGRESS_FIELDS),
        FieldSet::Job => with_metadata(true, &JOB_FIELDS),
        FieldSet::CronJob => with_metadata(true, &CRONJOB_FIELDS),
        FieldSet::ConfigMap => with_metadata(true, &CONFIGMAP_FIELDS),
        FieldSet::Secret => with_metadata(true, &SECRET_FIELDS),
        FieldSet::ServiceAccount => with_metadata(true, &SERVICEACCOUNT_FIELDS),
        FieldSet::PersistentVolumeClaim => with_metadata(true, &PERSISTENTVOLUMECLAIM_FIELDS),
        FieldSet::PersistentVolume => with_metadata(false, &PERSISTENTVOLUME_FIELDS),
        FieldSet::StorageClass => with_metadata(false, &STORAGECLASS_FIELDS),
        FieldSet::NetworkPolicy => with_metadata(true, &NETWORKPOLICY_FIELDS),
        FieldSet::Resource => with_metadata(true, &RESOURCE_FIELDS),
        FieldSet::Relation => plain(&RELATION_FIELDS),
        FieldSet::Change => plain(&CHANGE_FIELDS),
        FieldSet::Event => with_metadata(true, &EVENT_FIELDS),
        FieldSet::Evidence => plain(&EVIDENCE_FIELDS),
        FieldSet::Log => plain(&LOG_FIELDS),
        FieldSet::Timeline => plain(&TIMELINE_FIELDS),
        FieldSet::Why => plain(&WHY_FIELDS),
        FieldSet::Condition => plain(&CONDITION_FIELDS),
        FieldSet::Cluster => plain(&CLUSTER_FIELDS),
        FieldSet::Plan => with_target(&PLAN_FIELDS),
        FieldSet::Mutation => with_target(&MUTATION_FIELDS),
    }
}

// --- laws -----------------------------------------------------------------------------------------

/// Whether a schema declares a field of a name.
pub open spec fn declares(set: FieldSet, name: Seq<char>) -> bool {
    exists|k: int| 0 <= k < schema_fields(set).len() && (#[trigger] schema_fields(set)[k]).name@ == name
}

/// The four workload controllers and the Job carry the reconciliation map, always known: the state
/// never arrives without the rule that produced it.
pub proof fn controllers_carry_their_reconciliation(set: FieldSet)
    requires
        set == FieldSet::Deployment || set == FieldSet::ReplicaSet || set == FieldSet::StatefulSet
            || set == FieldSet::DaemonSet || set == FieldSet::Job,
    ensures
        schema_fields(set).contains(
            (Field { name: "reconciliation", field_type: "map", required: true }),
        ),
{
    let wanted = Field { name: "reconciliation", field_type: "map", required: true };
    let shared = NAMESPACED_METADATA@.len() as int;
    let place = shared + match set {
        FieldSet::Deployment => 6int,
        FieldSet::ReplicaSet => 8,
        FieldSet::StatefulSet => 9,
        FieldSet::DaemonSet => 8,
        _ => 11,
    };
    assert(schema_fields(set)[place] == wanted);
}

/// Whether a name is of another length than `restarts`, or of other letters where the two are told
/// apart.
spec fn told_apart(name: Seq<char>) -> bool {
    name.len() != 8 || name[0] != 'r' || name[3] != 't'
}

/// Whether no field of a table is the sum of restart counts.
spec fn unsummed(rows: Seq<(&'static str, &'static str, bool)>) -> bool {
    forall|i: int| 0 <= i < rows.len() ==> told_apart((#[trigger] rows[i]).0@)
}

proof fn kinds_sum_nothing()
    ensures
        unsummed(CLUSTER_METADATA@),
        unsummed(NAMESPACED_METADATA@),
        unsummed(NAMESPACE_FIELDS@),
        unsummed(NODE_FIELDS@),
        unsummed(DEPLOYMENT_FIELDS@),
        unsummed(REPLICASET_FIELDS@),
        unsummed(STATEFULSET_FIELDS@),
        unsummed(DAEMONSET_FIELDS@),
        unsummed(SERVICE_FIELDS@),
        unsummed(ENDPOINTSLICE_FIELDS@),
        unsummed(INGRESS_FIELDS@),
        unsummed(JOB_FIELDS@),
        unsummed(CRONJOB_FIELDS@),
        unsummed(CONFIGMAP_FIELDS@),
        unsummed(SECRET_FIELDS@),
        unsummed(SERVICEACCOUNT_FIELDS@),
        unsummed(PERSISTENTVOLUMECLAIM_FIELDS@),
        unsummed(PERSISTENTVOLUME_FIELDS@),
        unsummed(STORAGECLASS_FIELDS@),
        unsummed(NETWORKPOLICY_FIELDS@),
{
    reveal_strlit("uid");
    reveal_strlit("name");
    reveal_strlit("namespace");
    reveal_strlit("api_version");
    reveal_strlit("kind");
    reveal_strlit("resource_version");
    reveal_strlit("created");
    reveal_strlit("labels");
    reveal_strlit("annotations");
    reveal_strlit("terminating");
    reveal_strlit("finalizers");
    reveal_strlit("owner_references");
    reveal_strlit("field_managers");
    reveal_strlit("phase");
    reveal_strlit("ready");
    reveal_strlit("unschedulable");
    reveal_strlit("kubelet_version");
    reveal_strlit("internal_ip");
    reveal_strlit("desired_replicas");
    reveal_strlit("ready_replicas");
    reveal_strlit("updated_replicas");
    reveal_strlit("available_replicas");
    reveal_strlit("generation");
    reveal_strlit("observed_generation");
    reveal_strlit("reconciliation");
    reveal_strlit("current_replicas");
    reveal_strlit("controller");
    reveal_strlit("controller_kind");
    reveal_strlit("service_name");
    reveal_strlit("current_revision");
    reveal_strlit("update_revision");
    reveal_strlit("claim_templates");
    reveal_strlit("desired_scheduled");
    reveal_strlit("current_scheduled");
    reveal_strlit("ready_scheduled");
    reveal_strlit("updated_scheduled");
    reveal_strlit("available_scheduled");
    reveal_strlit("misscheduled");
    reveal_strlit("service_type");
    reveal_strlit("cluster_ip");
    reveal_strlit("external_ips");
    reveal_strlit("external_name");
    reveal_strlit("load_balancer");
    reveal_strlit("ports");
    reveal_strlit("selector");
    reveal_strlit("address_type");
    reveal_strlit("endpoint_count");
    reveal_strlit("ready_endpoints");
    reveal_strlit("addresses");
    reveal_strlit("targets");
    reveal_strlit("ingress_class");
    reveal_strlit("hosts");
    reveal_strlit("services");
    reveal_strlit("tls_secrets");
    reveal_strlit("completions");
    reveal_strlit("parallelism");
    reveal_strlit("active");
    reveal_strlit("succeeded");
    reveal_strlit("failed");
    reveal_strlit("start_time");
    reveal_strlit("completion_time");
    reveal_strlit("complete");
    reveal_strlit("failure_reason");
    reveal_strlit("schedule");
    reveal_strlit("suspend");
    reveal_strlit("concurrency_policy");
    reveal_strlit("last_schedule_time");
    reveal_strlit("last_successful_time");
    reveal_strlit("active_jobs");
    reveal_strlit("keys");
    reveal_strlit("binary_keys");
    reveal_strlit("immutable");
    reveal_strlit("secret_type");
    reveal_strlit("secrets");
    reveal_strlit("image_pull_secrets");
    reveal_strlit("automount_token");
    reveal_strlit("volume_name");
    reveal_strlit("storage_class");
    reveal_strlit("volume_mode");
    reveal_strlit("access_modes");
    reveal_strlit("requested_storage");
    reveal_strlit("bound_capacity");
    reveal_strlit("capacity");
    reveal_strlit("reclaim_policy");
    reveal_strlit("claim");
    reveal_strlit("csi_driver");
    reveal_strlit("provisioner");
    reveal_strlit("volume_binding_mode");
    reveal_strlit("allow_volume_expansion");
    reveal_strlit("is_default");
    reveal_strlit("parameters");
    reveal_strlit("pod_selector");
    reveal_strlit("policy_types");
    reveal_strlit("rules");
}

proof fn reports_sum_nothing()
    ensures
        unsummed(CHANGE_TARGET@),
        unsummed(RESOURCE_FIELDS@),
        unsummed(EVENT_FIELDS@),
        unsummed(RELATION_FIELDS@),
        unsummed(EVIDENCE_FIELDS@),
        unsummed(LOG_FIELDS@),
        unsummed(TIMELINE_FIELDS@),
        unsummed(WHY_FIELDS@),
        unsummed(CONDITION_FIELDS@),
        unsummed(CHANGE_FIELDS@),
        unsummed(CLUSTER_FIELDS@),
        unsummed(PLAN_FIELDS@),
        unsummed(MUTATION_FIELDS@),
{
    reveal_strlit("uid");
    reveal_strlit("name");
    reveal_strlit("namespace");
    reveal_strlit("api_version");
    reveal_strlit("kind");
    reveal_strlit("resource_version");
    reveal_strlit("created");
    reveal_strlit("labels");
    reveal_strlit("annotations");
    reveal_strlit("terminating");
    reveal_strlit("finalizers");
    reveal_strlit("owner_references");
    reveal_strlit("field_managers");
    reveal_strlit("action");
    reveal_strlit("changes");
    reveal_strlit("preconditions");
    reveal_strlit("api_group");
    reveal_strlit("resource_name");
    reveal_strlit("scope");
    reveal_strlit("schema_source");
    reveal_strlit("precision");
    reveal_strlit("spec");
    reveal_strlit("status");
    reveal_strlit("other");
    reveal_strlit("untyped");
    reveal_strlit("representation");
    reveal_strlit("level");
    reveal_strlit("reason");
    reveal_strlit("note");
    reveal_strlit("regarding");
    reveal_strlit("regarding_kind");
    reveal_strlit("regarding_name");
    reveal_strlit("regarding_namespace");
    reveal_strlit("regarding_uid");
    reveal_strlit("related");
    reveal_strlit("reporting_controller");
    reveal_strlit("reporting_instance");
    reveal_strlit("event_time");
    reveal_strlit("clock");
    reveal_strlit("aggregate");
    reveal_strlit("recorded_count");
    reveal_strlit("series_count");
    reveal_strlit("series_last_observed");
    reveal_strlit("first_seen");
    reveal_strlit("last_seen");
    reveal_strlit("source");
    reveal_strlit("relation");
    reveal_strlit("target");
    reveal_strlit("target_kind");
    reveal_strlit("target_name");
    reveal_strlit("target_namespace");
    reveal_strlit("target_uid");
    reveal_strlit("target_resolved");
    reveal_strlit("target_roles");
    reveal_strlit("evidence_class");
    reveal_strlit("evidence");
    reveal_strlit("evidence_path");
    reveal_strlit("asserted");
    reveal_strlit("supporting");
    reveal_strlit("observed_resource_versions");
    reveal_strlit("subject");
    reveal_strlit("key");
    reveal_strlit("qualifier");
    reveal_strlit("value");
    reveal_strlit("strength");
    reveal_strlit("lookup_key");
    reveal_strlit("uri_scheme");
    reveal_strlit("uri_path");
    reveal_strlit("observed");
    reveal_strlit("outcome");
    reveal_strlit("container");
    reveal_strlit("instance");
    reveal_strlit("line");
    reveal_strlit("text");
    reveal_strlit("bytes");
    reveal_strlit("not_utf8_after");
    reveal_strlit("stamp");
    reveal_strlit("terminated");
    reveal_strlit("bounds");
    reveal_strlit("ending");
    reveal_strlit("may_contain_secrets");
    reveal_strlit("basis");
    reveal_strlit("placeable");
    reveal_strlit("detail");
    reveal_strlit("window_opened");
    reveal_strlit("window_latest");
    reveal_strlit("continuous");
    reveal_strlit("gaps");
    reveal_strlit("not_observed");
    reveal_strlit("claim");
    reveal_strlit("claim_means");
    reveal_strlit("support_class");
    reveal_strlit("support");
    reveal_strlit("not_proven");
    reveal_strlit("apart_ms");
    reveal_strlit("strongest_claim");
    reveal_strlit("insufficient_evidence");
    reveal_strlit("condition_type");
    reveal_strlit("message");
    reveal_strlit("observed_generation");
    reveal_strlit("generation");
    reveal_strlit("last_transition_time");
    reveal_strlit("reconciliation");
    reveal_strlit("change");
    reveal_strlit("resource");
    reveal_strlit("segment");
    reveal_strlit("sync_state");
    reveal_strlit("view_state");
    reveal_strlit("withheld");
    reveal_strlit("gap_reason");
    reveal_strlit("gap_detail");
    reveal_strlit("server");
    reveal_strlit("reachable");
    reveal_strlit("server_version");
    reveal_strlit("tls");
    reveal_strlit("fingerprint");
    reveal_strlit("fingerprint_signals");
    reveal_strlit("kube_system_uid");
    reveal_strlit("server_key_fingerprint");
    reveal_strlit("credential_identity");
    reveal_strlit("effective_identity");
    reveal_strlit("effective_uid");
    reveal_strlit("effective_groups");
    reveal_strlit("impersonating");
    reveal_strlit("impersonated_user");
    reveal_strlit("unknowns");
    reveal_strlit("probes");
    reveal_strlit("latency_ms");
    reveal_strlit("capabilities");
    reveal_strlit("discovery");
    reveal_strlit("precondition_guarded");
    reveal_strlit("propagation");
    reveal_strlit("effects");
    reveal_strlit("reversibility");
    reveal_strlit("recovery");
    reveal_strlit("dependents");
    reveal_strlit("dependent_coverage");
    reveal_strlit("preflight");
    reveal_strlit("verification");
    reveal_strlit("verification_stage");
    reveal_strlit("competing_writers");
    reveal_strlit("competing_writer_coverage");
    reveal_strlit("contained");
    reveal_strlit("contained_coverage");
    reveal_strlit("caveats");
    reveal_strlit("prediction");
    reveal_strlit("statement");
    reveal_strlit("acceptance");
    reveal_strlit("dry_run");
    reveal_strlit("code");
    reveal_strlit("stage");
    reveal_strlit("field_manager");
    reveal_strlit("forced");
    reveal_strlit("forced_because");
    reveal_strlit("conflict_fields");
    reveal_strlit("conflict_managers");
    reveal_strlit("resolution");
    reveal_strlit("admission_differences");
    reveal_strlit("deletion_state");
    reveal_strlit("verdict");
    reveal_strlit("verification_detail");
}

/// Restart counts are summed for a Pod and for nothing else: no other schema declares them.
pub proof fn only_a_pod_sums_restarts(set: FieldSet)
    ensures
        declares(set, "restarts"@) <==> set == FieldSet::Pod,
{
    reveal_strlit("restarts");
    kinds_sum_nothing();
    reports_sum_nothing();
    if set == FieldSet::Pod {
        assert(schema_fields(set)[(NAMESPACED_METADATA@.len() + 4) as int].name == "restarts");
    }
}

}
