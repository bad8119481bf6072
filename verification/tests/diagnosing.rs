use ono_kubernetes_plugin::cluster::{
    access_review, access_version, capabilities, cluster_record, diagnostic_refused,
    effective_identity, fingerprint, identity, identity_resource, identity_version,
    kube_system_uid, local_grant, namespace_resource, posture, review_body, scheme, server_version,
    text, Answer, Availability, Capability, Check, Diagnostic, Grant, Health, Known, Observed,
    Offered, Posture, ProbeRow, ProbeStatus, Reply, Snapshot, Subject,
};
use ono_kubernetes_plugin::contributions::target;
use ono_kubernetes_plugin::coverage::Outcome;
use ono_kubernetes_plugin::discovery::{Discovery, Group, Resource, Scope, Verb};
use ono_kubernetes_plugin::failure::WireError;
use ono_kubernetes_plugin::interrogation::{Interrogation, Offers, Question, Reading, Stage};
use ono_kubernetes_plugin::value::FieldValue;

fn resource(group: &str, kind: &str, verbs: Vec<Verb>) -> Resource {
    Resource {
        group: group.to_owned(),
        version: "v1".to_owned(),
        kind: kind.to_owned(),
        plural: "things".to_owned(),
        gvr: "v1/things".to_owned(),
        scope: Scope::Cluster,
        verbs,
        short_names: Vec::new(),
        subresources: Vec::new(),
    }
}

fn group(name: &str) -> Group {
    Group {
        name: name.to_owned(),
        preferred: Some("v1".to_owned()),
        versions: vec!["v1".to_owned()],
    }
}

fn versions() -> Discovery {
    Discovery {
        groups: vec![group(""), group("authentication.k8s.io"), group("authorization.k8s.io")],
        resources: Vec::new(),
    }
}

fn list(group: &str, kind: &str, verbs: Vec<Verb>) -> Discovery {
    Discovery { groups: Vec::new(), resources: vec![resource(group, kind, verbs)] }
}

fn subject() -> Subject {
    Subject {
        username: "alice".to_owned(),
        uid: None,
        groups: vec!["dev".to_owned()],
    }
}

fn body(text: &str) -> Answer {
    Answer::Body(text.as_bytes().to_vec())
}

#[test]
fn a_host_that_cannot_say_has_not_denied() {
    assert_eq!(local_grant(Some(Check::Granted)), Grant::Held);
    assert_eq!(local_grant(Some(Check::Denied)), Grant::Withheld);
    assert_eq!(local_grant(Some(Check::Ask)), Grant::Withheld);
    assert_eq!(local_grant(Some(Check::Unknown)), Grant::Undetermined);
    assert_eq!(local_grant(None), Grant::Undetermined);
    assert_eq!(posture(None), Posture::Plain);
    assert_eq!(posture(Some(false)), Posture::InsecureSkipVerify);
    assert_eq!(posture(Some(true)), Posture::Verified);
    assert_eq!(scheme(true), "https");
    assert_eq!(scheme(false), "http");
}

#[test]
fn every_request_is_a_probe() {
    let mut health = Health::new();
    let reply = Reply::Response { status: 204, body: b"x".to_vec() };
    assert_eq!(health.asked("GET", "/version", reply, 3), body("x"));
    let refused = Reply::Response { status: 300, body: Vec::new() };
    assert_eq!(health.asked("GET", "/api", refused, 4), Answer::Refused(300));
    assert_eq!(health.asked("POST", "/r", Reply::Nothing, 5), Answer::Unreachable);
    assert_eq!(health.probes.len(), 3);
    assert_eq!(health.probes[0].source, "GET /version");
    assert_eq!(health.probes[1].status, ProbeStatus::Answered(300));
    assert_eq!(health.probes[2].status, ProbeStatus::DidNotAnswer(Outcome::Disconnected));
    assert_eq!(health.probes[2].latency, Some(5));
}

#[test]
fn a_body_is_text_or_nothing() {
    assert_eq!(text(body("é")), Some("é".to_owned()));
    assert_eq!(text(Answer::Body(vec![0xff])), None);
    assert_eq!(text(Answer::Refused(403)), None);
    assert_eq!(text(Answer::Unreachable), None);
}

#[test]
fn what_is_not_learnt_says_why() {
    let version = |answer: Answer, read: Option<&str>| {
        server_version(&answer, read.map(str::to_owned))
    };
    assert_eq!(version(body("{}"), Some("v1.30")), Known::Obtained("v1.30".to_owned()));
    assert_eq!(version(body("{}"), None), Known::Unavailable(Outcome::RequestFailed));
    assert_eq!(version(Answer::Refused(401), None), Known::Unavailable(Outcome::ReadDenied));
    assert_eq!(version(Answer::Refused(404), None), Known::Unavailable(Outcome::TypeNotServed));
    assert_eq!(version(Answer::Refused(500), None), Known::Unavailable(Outcome::RequestFailed));
    assert_eq!(version(Answer::Unreachable, None), Known::Unavailable(Outcome::Disconnected));
}

#[test]
fn a_cluster_is_known_by_a_namespace() {
    assert!(namespace_resource(&list("", "Namespace", vec![Verb::Get]), "v1").is_ok());
    assert_eq!(
        namespace_resource(&list("", "Namespace", Vec::new()), "v1"),
        Err(Outcome::TypeNotServed)
    );
    assert_eq!(
        namespace_resource(&list("", "Pod", vec![Verb::Get]), "v1"),
        Err(Outcome::TypeNotServed)
    );
    assert_eq!(
        kube_system_uid(&body(r#"{"metadata": {"uid": "u-9"}}"#)),
        Known::Obtained("u-9".to_owned())
    );
    assert_eq!(kube_system_uid(&body("{}")), Known::Unavailable(Outcome::RequestFailed));
    assert_eq!(kube_system_uid(&body("{")), Known::Unavailable(Outcome::RequestFailed));
    assert_eq!(
        kube_system_uid(&Answer::Refused(404)),
        Known::Unavailable(Outcome::NamespaceAbsent)
    );
    assert_eq!(kube_system_uid(&Answer::Refused(403)), Known::Unavailable(Outcome::ReadDenied));
}

#[test]
fn an_identity_is_asked_where_it_is_served() {
    assert_eq!(identity_version(&versions()), Some("authentication.k8s.io/v1".to_owned()));
    assert_eq!(identity_version(&list("", "Pod", Vec::new())), None);
    let catalogue =
        |verbs: Vec<Verb>| Some(list("authentication.k8s.io", "SelfSubjectReview", verbs));
    let version = "authentication.k8s.io/v1";
    assert!(identity_resource(&catalogue(vec![Verb::Create]), version).is_ok());
    assert_eq!(identity_resource(&catalogue(Vec::new()), version), Err(Outcome::TypeNotServed));
    assert_eq!(identity_resource(&None, version), Err(Outcome::RequestFailed));
    assert_eq!(
        review_body(version),
        r#"{"apiVersion":"authentication.k8s.io/v1","kind":"SelfSubjectReview"}"#
    );
    assert_eq!(
        effective_identity(&Answer::Refused(403), None),
        Known::Unavailable(Outcome::ReadDenied)
    );
    let who = identity(effective_identity(&body("{}"), Some(subject())));
    assert_eq!(who.credential, Known::Obtained(subject()));
    assert_eq!(who.effective, Known::Obtained(subject()));
}

#[test]
fn a_denial_and_an_unserved_group_are_told_apart() {
    assert_eq!(access_version(&versions()), Some("authorization.k8s.io/v1".to_owned()));
    let offered = || Some("available".to_owned());
    assert_eq!(access_review(None, None), Availability::NotServedByCluster);
    assert_eq!(
        access_review(Some(body("{}")), offered()),
        Availability::Offered("available".to_owned())
    );
    assert_eq!(
        access_review(Some(body("{}")), None),
        Availability::NotDetermined(Outcome::RequestFailed)
    );
    assert_eq!(access_review(Some(Answer::Refused(403)), None), Availability::DeniedForCurrentUser);
    assert_eq!(access_review(Some(Answer::Refused(404)), None), Availability::NotServedByCluster);
    assert_eq!(
        access_review(Some(Answer::Unreachable), None),
        Availability::NotDetermined(Outcome::Disconnected)
    );
}

#[test]
fn what_did_not_read_is_undetermined() {
    let unread = capabilities(None, Grant::Held);
    assert_eq!(unread.stated.len(), 5);
    assert_eq!(unread.stated[0], (Capability::Relationships, Availability::Granted(Grant::Held)));
    assert!(unread.stated[1..]
        .iter()
        .all(|(_, found)| found == &Availability::NotDetermined(Outcome::RequestFailed)));
    let read = capabilities(
        Some(Offered {
            watch: "w".to_owned(),
            mutations: "m".to_owned(),
            remote_logs: "l".to_owned(),
            access_review: Availability::DeniedForCurrentUser,
        }),
        Grant::Withheld,
    );
    assert_eq!(read.stated[3], (Capability::RemoteLogs, Availability::Offered("l".to_owned())));
    assert_eq!(
        read.stated[4],
        (Capability::SubjectAccessReview, Availability::DeniedForCurrentUser)
    );
}

#[test]
fn a_cluster_that_does_not_answer_is_an_answer() {
    let error = |name: &str| WireError {
        code: None,
        name: name.to_owned(),
        message: "refused".to_owned(),
        help: None,
    };
    let origin = "https://api:6443";
    let Ok(gone) = Observed::not_connected(error("io"), "api", 6443, origin, Grant::Held) else {
        panic!("an unreachable cluster is an answer");
    };
    assert_eq!(gone.health.probes[0].source, "connect api:6443: refused");
    assert_eq!(gone.version, Known::Unavailable(Outcome::Disconnected));
    assert_eq!(gone.fingerprint.origin, Known::Obtained(origin.to_owned()));
    assert_eq!(gone.fingerprint.server_public_key, Known::Unavailable(Outcome::NotQueried));
    assert_eq!(gone.capabilities.otherwise, Some(Outcome::Disconnected));
    let denied =
        Observed::not_connected(error("capability.denied"), "api", 6443, origin, Grant::Held);
    assert!(matches!(denied, Err(same) if same.message == "refused"));
}

#[test]
fn unknown_is_null_and_never_a_default() {
    let diagnostic = Diagnostic {
        instance: "kubernetes:prod".to_owned(),
        fingerprint: fingerprint("https://api:6443", Known::Unavailable(Outcome::ReadDenied)),
        digest: None,
        signals: vec!["origin".to_owned()],
        reachable: true,
        version: Known::Obtained("v1.30".to_owned()),
        tls: "verified".to_owned(),
        probes: vec![
            ProbeRow {
                source: "GET /version".to_owned(),
                status: "200".to_owned(),
                latency: Some(u128::MAX),
            },
            ProbeRow { source: "connect".to_owned(), status: "gone".to_owned(), latency: None },
        ],
        identity: identity(Known::Unavailable(Outcome::ReadDenied)),
        capabilities: vec![("watch".to_owned(), "available".to_owned())],
        discovery: Some(Snapshot {
            provider_instance: "kubernetes:prod".to_owned(),
            observed_at: 0,
            api_server: "api:6443".to_owned(),
            complete: true,
            coverage: "everything".to_owned(),
            mechanism: "legacy".to_owned(),
            endpoints: vec!["/api".to_owned()],
        }),
        unknowns: vec!["kube-system uid: read denied".to_owned()],
    };
    let declared = target("k8s-cluster").expect("a target");
    let record = cluster_record(&declared.fields, declared.schema, &diagnostic);
    let field = |name: &str| {
        let found = record.fields.iter().find(|(field, _)| field == name);
        found.map(|(_, value)| value.clone()).expect("a declared field")
    };
    let text = |value: &str| FieldValue::Text(value.to_owned());
    assert_eq!(field("uid"), text("kubernetes:prod"));
    assert_eq!(field("name"), text("prod"));
    assert_eq!(field("server"), text("https://api:6443"));
    assert_eq!(field("kube_system_uid"), FieldValue::Null);
    assert_eq!(field("effective_groups"), FieldValue::Null);
    assert_eq!(field("impersonating"), FieldValue::Bool(false));
    assert_eq!(
        field("latency_ms"),
        FieldValue::Entries(vec![("GET /version".to_owned(), FieldValue::Int(i128::MAX))])
    );
    let FieldValue::Entries(snapshot) = field("discovery") else {
        panic!("a snapshot is a map");
    };
    assert_eq!(snapshot[3], ("coverage".to_owned(), text("complete")));
    assert_eq!(
        snapshot[1],
        (
            "observed_at".to_owned(),
            FieldValue::Instant("1970-01-01T00:00:00.000Z".to_owned())
        )
    );
    assert_eq!(
        diagnostic_refused("full").message,
        "the host refused the diagnostic: full"
    );
}

fn ok(text: &str) -> Reply {
    Reply::Response { status: 200, body: text.as_bytes().to_vec() }
}

fn offers() -> Offers {
    Offers { watch: "w".to_owned(), mutations: "m".to_owned(), remote_logs: "l".to_owned() }
}

#[test]
fn a_diagnostic_asks_everything_once() {
    let mut asked = Interrogation::new();
    let get = |path: &str| Question::Get { path: path.to_owned() };
    assert_eq!(asked.question(), get("/version"));
    asked.answered("GET", "/version", ok("{}"), 1, Reading::Version("v1.30".to_owned()));
    assert_eq!(asked.question(), get("/api"));
    asked.answered("GET", "/api", ok("{}"), 1, Reading::Nothing);
    assert_eq!(asked.question(), get("/apis"));
    asked.answered("GET", "/apis", ok("{}"), 1, Reading::Documents(versions()));
    assert_eq!(asked.question(), get("/api/v1"));
    let core = list("", "Namespace", vec![Verb::Get]);
    asked.answered("GET", "/api/v1", ok("{}"), 1, Reading::Documents(core));
    assert_eq!(asked.question(), Question::KubeSystem { gvr: "v1/things".to_owned() });
    let uid = ok(r#"{"metadata": {"uid": "u-9"}}"#);
    asked.answered("GET", "/ns", uid, 1, Reading::Nothing);
    assert_eq!(asked.question(), get("/apis/authentication.k8s.io/v1"));
    let reviews = list("authentication.k8s.io", "SelfSubjectReview", vec![Verb::Create]);
    asked.answered("GET", "/a", ok("{}"), 1, Reading::Documents(reviews));
    assert_eq!(
        asked.question(),
        Question::Create {
            gvr: "v1/things".to_owned(),
            body: review_body("authentication.k8s.io/v1"),
        }
    );
    asked.answered("POST", "/r", ok("{}"), 1, Reading::Subject(subject()));
    assert_eq!(asked.question(), get("/apis/authorization.k8s.io/v1"));
    asked.answered("GET", "/z", ok("{}"), 1, Reading::Offered("yes".to_owned()));
    assert_eq!(asked.question(), Question::Nothing);
    assert_eq!(asked.health.probes.len(), 8);
    let found = asked.observed("https://api:6443", offers(), Grant::Held);
    assert_eq!(found.version, Known::Obtained("v1.30".to_owned()));
    assert_eq!(found.fingerprint.kube_system_uid, Known::Obtained("u-9".to_owned()));
    assert_eq!(found.identity.effective, Known::Obtained(subject()));
    assert_eq!(found.capabilities.stated[1].1, Availability::Offered("w".to_owned()));
    assert_eq!(found.capabilities.stated[4].1, Availability::Offered("yes".to_owned()));
}

#[test]
fn a_refusal_blocks_nothing() {
    let denied = || Reply::Response { status: 403, body: Vec::new() };
    let mut asked = Interrogation::new();
    asked.answered("GET", "/version", denied(), 1, Reading::Nothing);
    assert_eq!(asked.stage, Stage::CoreVersions);
    asked.answered("GET", "/api", ok("{}"), 1, Reading::Nothing);
    asked.answered("GET", "/apis", ok("{}"), 1, Reading::Documents(versions()));
    let core = list("", "Namespace", Vec::new());
    asked.answered("GET", "/api/v1", ok("{}"), 1, Reading::Documents(core));
    assert_eq!(asked.kube_system_uid, Known::Unavailable(Outcome::TypeNotServed));
    assert!(matches!(asked.stage, Stage::IdentityList { .. }));
    asked.answered("GET", "/a", denied(), 1, Reading::Nothing);
    assert_eq!(asked.effective, Known::Unavailable(Outcome::RequestFailed));
    assert!(matches!(asked.stage, Stage::AccessList { .. }));
    asked.answered("GET", "/z", denied(), 1, Reading::Nothing);
    assert_eq!(asked.access, Availability::DeniedForCurrentUser);
    assert_eq!(asked.stage, Stage::Done);
}

#[test]
fn no_path_is_guessed() {
    let mut asked = Interrogation::new();
    asked.answered("GET", "/version", Reply::Nothing, 1, Reading::Nothing);
    asked.answered("GET", "/api", Reply::Nothing, 1, Reading::Nothing);
    assert_eq!(asked.question(), Question::Nothing);
    assert_eq!(asked.kube_system_uid, Known::Unavailable(Outcome::Disconnected));
    let found = asked.observed("https://api:6443", offers(), Grant::Withheld);
    assert_eq!(
        found.capabilities.stated[1].1,
        Availability::NotDetermined(Outcome::RequestFailed)
    );
}
