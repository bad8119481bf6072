use ono_kubernetes_plugin::contributions::target;
use ono_kubernetes_plugin::discovery::{Resource, Scope, Verb};
use ono_kubernetes_plugin::document::read_document;
use ono_kubernetes_plugin::dynamic::{content, Typing};
use ono_kubernetes_plugin::fields::field_value;
use ono_kubernetes_plugin::objects::{
    Guarded, Gvk, Object, OwnerReference, Reconciliation, Relation, RoutingEdge, SecretKeys,
    SliceEndpoint,
};
use ono_kubernetes_plugin::projection::Projection;
use ono_kubernetes_plugin::records::{
    condition_record, dynamic_record, edge_record, event_record, evidence_record, finding_record,
    log_record, observation_record, record, recordable, Condition, Discovered, Edge, EndpointCategory, Evidence,
    Exported, Finding, Freshness, Line, LineText, Observation, Origin, Record, Regarding, Reported,
    Support, UriShape, Unobserved,
};
use ono_kubernetes_plugin::value::{Clock, FieldValue};

fn guarded(group: &str, kind: &str, native: &str) -> Guarded {
    Guarded {
        object: Object {
            uid: Some("u-1".to_owned()),
            name: "api".to_owned(),
            namespace: Some("prod".to_owned()),
            gvk: Gvk {
                group: group.to_owned(),
                version: "v1".to_owned(),
                kind: kind.to_owned(),
                shown: kind.to_owned(),
            },
            resource_version: Some("41".to_owned()),
            creation_timestamp: Some("2026-01-01T00:00:00Z".to_owned()),
            generation: Some(3),
            labels: vec![("tier".to_owned(), "edge".to_owned())],
            annotations: Vec::new(),
            terminating: false,
            finalizers: Vec::new(),
            owner_references: vec![OwnerReference {
                api_version: "apps/v1".to_owned(),
                kind: "ReplicaSet".to_owned(),
                name: "api-7d9f".to_owned(),
                uid: "u-0".to_owned(),
                controller: true,
                blocks_owner_deletion: false,
            }],
            field_managers: vec!["kubectl".to_owned()],
            native: read_document(native).expect("a document"),
            reconciliation: Reconciliation {
                state: "converged".to_owned(),
                rule: "deployment".to_owned(),
                verified_convergence: true,
                stage: Some("ready".to_owned()),
                citations: vec!["/status".to_owned()],
            },
            governing_service: None,
            claim_templates: Vec::new(),
            ingress_edges: vec![RoutingEdge {
                relation: Relation::UsesIngressClass,
                target: "nginx".to_owned(),
            }],
            endpoints: vec![
                SliceEndpoint {
                    ready: Some(true),
                    addresses: vec!["10.0.0.1".to_owned()],
                    target: Some("api-1".to_owned()),
                },
                SliceEndpoint { ready: None, addresses: Vec::new(), target: None },
            ],
        },
        secret: None,
    }
}

fn pod() -> Guarded {
    guarded(
        "",
        "Pod",
        r#"{"spec": {"nodeName": "n1", "containers": [{"name": "web"}, {"name": "side"}]},
            "status": {"phase": "Running", "podIP": "10.0.0.9",
                "conditions": [{"type": "Ready", "status": "True"}],
                "containerStatuses": [{"restartCount": 2}, {"restartCount": 3}]}}"#,
    )
}

fn freshness() -> Freshness {
    Freshness {
        provider_instance: "kubernetes:prod".to_owned(),
        origin: Origin::DirectRead,
        scope: "prod".to_owned(),
        endpoint: EndpointCategory::Core,
        resource_version: None,
        observed_at: 86_400_000,
    }
}

fn text(value: &str) -> FieldValue {
    FieldValue::Text(value.to_owned())
}

fn field(record: &Record, name: &str) -> FieldValue {
    let found = record.fields.iter().find(|(field, _)| field == name);
    found.map(|(_, value)| value.clone()).expect("a declared field")
}

#[test]
fn a_field_is_read_by_its_name() {
    let pod = pod();
    assert_eq!(field_value("name", &pod), text("api"));
    assert_eq!(field_value("api_version", &pod), text("v1"));
    assert_eq!(field_value("phase", &pod), text("Running"));
    assert_eq!(field_value("ready", &pod), text("True"));
    assert_eq!(field_value("restarts", &pod), FieldValue::Int(5));
    assert_eq!(
        field_value("containers", &pod),
        FieldValue::List(vec![text("web"), text("side")])
    );
    assert_eq!(field_value("controller", &pod), text("api-7d9f"));
    assert_eq!(
        field_value("created", &pod),
        FieldValue::Instant("2026-01-01T00:00:00Z".to_owned())
    );
    assert_eq!(field_value("ingress_class", &pod), text("nginx"));
    assert_eq!(field_value("nothing", &pod), FieldValue::Null);
}

#[test]
fn restart_counts_add_up_or_they_do_not() {
    assert!(pod().object.adds_up());
    let counts = |first: &str, second: &str| {
        let native = format!(
            r#"{{"status": {{"containerStatuses": [{{"restartCount": {first}}},
                {{"restartCount": {second}}}]}}}}"#
        );
        guarded("", "Pod", &native).object.adds_up()
    };
    assert!(counts("9223372036854775806", "1"));
    assert!(!counts("9223372036854775807", "1"));
    assert!(counts("1", "\"many\""));
}

#[test]
fn only_a_pod_asks_for_counts_that_add_up() {
    let native = r#"{"status": {"containerStatuses": [{"restartCount": 9223372036854775807},
        {"restartCount": 1}]}}"#;
    let overflowing = guarded("", "Pod", native);
    let pods = target("k8s-pod").expect("a target");
    let services = target("k8s-service").expect("a target");
    assert!(recordable(&pods, &pod()));
    assert!(!recordable(&pods, &overflowing));
    assert!(recordable(&services, &overflowing));
    assert_eq!(field_value("name", &overflowing), text("api"));
    for name in ["k8s-relation", "k8s-log", "k8s-condition", "k8s-event"] {
        assert!(recordable(&target(name).expect("a target"), &overflowing));
    }
}

#[test]
fn a_load_balancer_answers_on_what_it_states() {
    let service = guarded(
        "",
        "Service",
        r#"{"status": {"loadBalancer": {"ingress": [{"ip": "10.0.0.1", "hostname": "a"},
            {"ip": null, "hostname": "b"}, {"hostname": "c"}, {"ports": []}]}}}"#,
    );
    assert_eq!(
        field_value("load_balancer", &service),
        FieldValue::List(vec![text("10.0.0.1"), text("b"), text("c")])
    );
}

#[test]
fn what_is_not_there_is_null() {
    let pod = pod();
    for name in ["unschedulable", "desired_replicas", "external_ips", "start_time", "binary_keys"] {
        assert_eq!(field_value(name, &pod), FieldValue::Null, "{name}");
    }
}

#[test]
fn a_secret_shows_the_keys_it_was_guarded_with() {
    let mut secret = guarded("", "Secret", r#"{"data": {"other": "x"}}"#);
    secret.secret = Some(SecretKeys {
        secret_type: Some("Opaque".to_owned()),
        keys: vec!["password".to_owned()],
    });
    assert_eq!(field_value("keys", &secret), FieldValue::List(vec![text("password")]));
    assert_eq!(field_value("secret_type", &secret), text("Opaque"));
    let config = guarded("", "ConfigMap", r#"{"data": {"b": "1", "a": "2"}}"#);
    assert_eq!(field_value("keys", &config), FieldValue::List(vec![text("a"), text("b")]));
}

#[test]
fn a_record_holds_its_schema() {
    let pods = target("k8s-pod").expect("a target");
    let made = record(&pods, &pod(), &freshness());
    let names: Vec<&str> = made.fields.iter().map(|(name, _)| name.as_str()).collect();
    let declared: Vec<&str> = pods.fields.iter().map(|field| field.name).collect();
    assert_eq!(names, declared);
    assert_eq!(made.provenance.schema, pods.schema);
    assert_eq!(made.provenance.package, "io.github.godspeed-you.kubernetes");
    assert_eq!(made.provenance.observed.as_deref(), Some("1970-01-02T00:00:00.000Z"));
    assert!(made.provenance.source.expect("a source").contains("kubernetes:prod"));
}

#[test]
fn an_edge_is_a_record() {
    let declared = target("k8s-relation").expect("a target");
    let edge = Edge {
        source: pod(),
        relation: "runs_on".to_owned(),
        here: "a".to_owned(),
        there: "b".to_owned(),
        target_kind: "Node".to_owned(),
        target_name: "n1".to_owned(),
        target_namespace: None,
        target_uid: None,
        target_resolved: false,
        target_roles: Vec::new(),
        evidence_class: "stated".to_owned(),
        evidence: "/spec/nodeName".to_owned(),
        evidence_path: Some("/spec/nodeName".to_owned()),
        asserted: false,
        supporting: vec![("pod".to_owned(), "scheduled".to_owned())],
    };
    let made = edge_record(&declared, &edge, &freshness());
    assert_eq!(made.fields.len(), declared.fields.len());
    assert_eq!(field(&made, "relation"), text("runs_on"));
    assert_eq!(field(&made, "target_namespace"), FieldValue::Null);
}

#[test]
fn a_resource_nobody_compiled_in_is_a_record() {
    let declared = target("k8s-resource").expect("a target");
    let held = guarded("left.example", "Widget", r#"{"payload": {"k": 1}}"#);
    let shown = content(&Projection { fields: Vec::new() }, &held.object.native);
    assert!(Typing::absent().component.is_none());
    let found = Discovered {
        guarded: held,
        resource: Resource {
            group: "left.example".to_owned(),
            version: "v1".to_owned(),
            kind: "Widget".to_owned(),
            plural: "widgets".to_owned(),
            gvr: "left.example/v1/widgets".to_owned(),
            scope: Scope::Namespaced,
            verbs: vec![Verb::List],
            short_names: Vec::new(),
            subresources: Vec::new(),
        },
        schema_source: "absent".to_owned(),
        content: shown,
    };
    let made = dynamic_record(&declared, &found, &freshness());
    assert_eq!(made.fields.len(), declared.fields.len());
    assert_eq!(field(&made, "api_version"), text("left.example/v1"));
    assert_eq!(field(&made, "kind"), text("Widget"));
}

#[test]
fn an_event_is_a_record_and_a_count_a_count() {
    let declared = target("k8s-event").expect("a target");
    let event = Reported {
        guarded: guarded("", "Event", "{}"),
        representation: "core".to_owned(),
        level: "Warning".to_owned(),
        reason: Some("BackOff".to_owned()),
        note: None,
        action: None,
        regarding: Some(Regarding {
            kind: "Pod".to_owned(),
            name: "api".to_owned(),
            namespace: Some("prod".to_owned()),
            uid: None,
        }),
        place: None,
        related: None,
        controller: Some("kubelet".to_owned()),
        instance: None,
        event_time: None,
        aggregate: true,
        recorded_count: Some(47),
        series_count: None,
        series_last_observed: None,
        first_seen: None,
        last_seen: None,
    };
    let made = event_record(&declared, &event, &freshness());
    assert_eq!(field(&made, "recorded_count"), FieldValue::Int(47));
    assert_eq!(field(&made, "aggregate"), FieldValue::Bool(true));
    assert_eq!(field(&made, "reason"), text("BackOff"));
}

#[test]
fn a_gap_in_the_evidence_is_a_record() {
    let declared = target("k8s-evidence").expect("a target");
    let evidence = Evidence {
        guarded: guarded("", "Node", "{}"),
        subject: "node".to_owned(),
        exported: Exported::Unobserved(Unobserved {
            key: "providerID".to_owned(),
            outcome: "not queried".to_owned(),
        }),
        provider_shape: Some(UriShape { scheme: "x".to_owned(), path: "/1".to_owned() }),
    };
    let made = evidence_record(&declared, &evidence, &freshness());
    assert_eq!(field(&made, "observed"), FieldValue::Bool(false));
    assert_eq!(field(&made, "value"), FieldValue::Null);
    assert_eq!(field(&made, "outcome"), text("not queried"));
}

#[test]
fn a_line_that_is_no_text_says_so() {
    let declared = target("k8s-log").expect("a target");
    let line = Line {
        pod: pod(),
        container: Some("web".to_owned()),
        instance: "current".to_owned(),
        ordinal: 1,
        text: LineText::NotUtf8 { valid_up_to: 4 },
        bytes: 9,
        stamp: None,
        clock: Clock::Node("n1".to_owned()),
        terminated: true,
        bounds: vec!["rotated".to_owned()],
        ending: "body ended".to_owned(),
        may_contain_secrets: true,
    };
    let made = log_record(&declared, &line, &freshness());
    assert_eq!(field(&made, "text"), FieldValue::Null);
    assert_eq!(field(&made, "not_utf8_after"), FieldValue::Int(4));
    assert_eq!(field(&made, "line"), FieldValue::Int(1));
    assert_eq!(field(&made, "bounds"), FieldValue::List(vec![text("rotated")]));
}

#[test]
fn an_observation_keeps_its_stamp_a_string() {
    let declared = target("k8s-timeline").expect("a target");
    let seen = Observation {
        subject: pod(),
        basis: "stated".to_owned(),
        source: "status".to_owned(),
        clock: "kubelet".to_owned(),
        stamp: "2026-01-01T00:00:00Z".to_owned(),
        placeable: false,
        detail: "started".to_owned(),
        window_opened: 0,
        window_latest: 86_400_000,
        continuous: true,
        gaps: Vec::new(),
        not_observed: Vec::new(),
    };
    let made = observation_record(&declared, &seen, &freshness());
    assert_eq!(field(&made, "stamp"), text("2026-01-01T00:00:00Z"));
    assert_eq!(made.fields.len(), declared.fields.len());
}

#[test]
fn a_finding_says_where_it_stops() {
    let declared = target("k8s-why").expect("a target");
    let finding = Finding {
        subject: pod(),
        claim: "it restarts".to_owned(),
        means: "no cause".to_owned(),
        support: Support::Nothing { unproven: "no logs".to_owned() },
        description: "d".to_owned(),
        strongest_claim: "consistent".to_owned(),
        insufficient: true,
        not_observed: vec!["logs".to_owned()],
    };
    let made = finding_record(&declared, &finding, &freshness());
    assert_eq!(field(&made, "claim"), text("it restarts"));
    assert_eq!(field(&made, "claim_means"), text("no cause"));
    assert_eq!(field(&made, "not_proven"), text("no logs"));
    assert_eq!(field(&made, "insufficient_evidence"), FieldValue::Bool(true));
}

#[test]
fn a_condition_is_a_record() {
    let declared = target("k8s-condition").expect("a target");
    let condition = Condition {
        subject: pod(),
        condition_type: "Ready".to_owned(),
        status: "True".to_owned(),
        reason: None,
        message: None,
        observed_generation: Some(3),
        last_transition_time: None,
    };
    let made = condition_record(&declared, &condition, &freshness());
    assert_eq!(field(&made, "condition_type"), text("Ready"));
    assert_eq!(field(&made, "observed_generation"), FieldValue::Int(3));
}
