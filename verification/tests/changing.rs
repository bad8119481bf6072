use ono_kubernetes_plugin::actions::{Action, FieldChange};
use ono_kubernetes_plugin::contributions::Writes;
use ono_kubernetes_plugin::discovery::Verb;
use ono_kubernetes_plugin::document::read_document;
use ono_kubernetes_plugin::intent::{
    check_pointer, fields_wanted, flag, pairs, propagation, unset, Curated, Intent, Propagation,
    Wanted,
};
use ono_kubernetes_plugin::json::Json;
use ono_kubernetes_plugin::objects::{Gvk, Object, Reconciliation};
use ono_kubernetes_plugin::options::Options;
use ono_kubernetes_plugin::planning::{remaining, Remaining};

fn json(text: &str) -> Json {
    read_document(text).expect("a document")
}

fn options(text: &str) -> Options {
    match json(text) {
        Json::Object(entries) => Options { entries },
        _ => panic!("options are an object"),
    }
}

fn object(native: &str) -> Object {
    Object {
        uid: Some("u-1".to_owned()),
        name: "api".to_owned(),
        namespace: Some("prod".to_owned()),
        gvk: Gvk {
            group: "apps".to_owned(),
            version: "v1".to_owned(),
            kind: "Deployment".to_owned(),
            shown: "apps/v1 Deployment".to_owned(),
        },
        resource_version: Some("41".to_owned()),
        creation_timestamp: None,
        generation: None,
        labels: Vec::new(),
        annotations: Vec::new(),
        terminating: false,
        finalizers: Vec::new(),
        owner_references: Vec::new(),
        field_managers: Vec::new(),
        native: json(native),
        reconciliation: Reconciliation {
            state: "unknown".to_owned(),
            rule: "none".to_owned(),
            verified_convergence: false,
            stage: None,
            citations: Vec::new(),
        },
        governing_service: None,
        claim_templates: Vec::new(),
        ingress_edges: Vec::new(),
        endpoints: Vec::new(),
    }
}

fn intent(text: &str) -> Intent {
    match Intent::of(&options(text), Writes::Fields) {
        Ok(intent) => intent,
        Err(error) => panic!("an intent: {}", error.message),
    }
}

fn changes(action: &Action) -> &Vec<FieldChange> {
    match action {
        Action::Apply { changes } | Action::Curated { changes, .. } => changes,
        Action::Delete { .. } => panic!("a deletion changes no field"),
    }
}

const WORKLOAD: &str = r#"{"metadata": {"labels": {"tier": "edge"}},
    "spec": {"replicas": 2, "template": {"spec": {"containers": [
        {"name": "web", "image": "web:1"}, {"name": "side", "image": "side:1"}]}}}}"#;

#[test]
fn a_path_is_a_pointer_outside_status() {
    assert!(check_pointer("/spec/replicas").is_ok());
    assert!(check_pointer("/statuses").is_ok());
    let fault = check_pointer("spec/replicas").unwrap_err();
    assert_eq!(fault.message, "`spec/replicas` is not a field path");
    assert_eq!(fault.code.as_deref(), Some("Ono-Sendai-E0402"));
    for observed in ["/status", "/status/replicas"] {
        let fault = check_pointer(observed).unwrap_err();
        assert!(fault.message.ends_with("writes observed state, which this provider does not write"));
    }
}

#[test]
fn a_removal_is_a_path_or_a_list_of_them() {
    assert_eq!(unset(&options(r#"{"unset": "/a"}"#)), Ok(vec!["/a".to_owned()]));
    assert_eq!(
        unset(&options(r#"{"unset": ["/a", "/b"]}"#)),
        Ok(vec!["/a".to_owned(), "/b".to_owned()])
    );
    assert_eq!(unset(&options("{}")), Ok(Vec::new()));
    let fault = unset(&options(r#"{"unset": 3}"#)).unwrap_err();
    assert_eq!(fault.message, "`unset` is a field path, or a list of them");
}

#[test]
fn a_pair_without_a_value_is_a_removal() {
    assert_eq!(
        pairs(&options(r#"{"label": ["tier=edge", "old=", "k=a=b"]}"#), "label"),
        Ok(vec![
            ("tier".to_owned(), Some("edge".to_owned())),
            ("old".to_owned(), None),
            ("k".to_owned(), Some("a=b".to_owned())),
        ])
    );
    assert_eq!(
        pairs(&options(r#"{"label": "tier"}"#), "label").unwrap_err().message,
        "`tier` is not a `<key>=<value>` pair"
    );
    assert_eq!(
        pairs(&options(r#"{"label": "=edge"}"#), "label").unwrap_err().message,
        "`=edge` names no key"
    );
    assert_eq!(
        pairs(&options(r#"{"label": 3}"#), "label").unwrap_err().message,
        "`label` is written as `<key>=<value>`"
    );
}

#[test]
fn a_flag_may_be_spelled() {
    assert!(flag(&options(r#"{"restart_rollout": true}"#), "restart_rollout"));
    assert!(flag(&options(r#"{"restart_rollout": "true"}"#), "restart_rollout"));
    assert!(!flag(&options(r#"{"restart_rollout": "yes"}"#), "restart_rollout"));
    assert!(!flag(&options("{}"), "restart_rollout"));
}

#[test]
fn a_policy_is_read_in_any_case() {
    assert_eq!(propagation(&options(r#"{"propagation": "FOREground"}"#)), Ok(Propagation::Foreground));
    assert_eq!(propagation(&options(r#"{"propagation": "orphan"}"#)), Ok(Propagation::Orphan));
    assert_eq!(propagation(&options("{}")), Ok(Propagation::Background));
    assert_eq!(
        propagation(&options(r#"{"propagation": "Sometimes"}"#)).unwrap_err().message,
        "`sometimes` is not a propagation policy"
    );
}

#[test]
fn a_change_is_one_action() {
    assert_eq!(fields_wanted(&options(r#"{"replicas": 3}"#)), Ok(Wanted::Scale { replicas: 3 }));
    assert_eq!(fields_wanted(&options(r#"{"replicas": "3"}"#)), Ok(Wanted::Scale { replicas: 3 }));
    assert_eq!(
        fields_wanted(&options(r#"{"schedulable": false}"#)),
        Ok(Wanted::Schedulable { allowed: false })
    );
    assert_eq!(
        fields_wanted(&options(r#"{"restart_rollout": true}"#)),
        Ok(Wanted::RestartRollout)
    );
    let none = fields_wanted(&options("{}")).unwrap_err();
    assert_eq!(none.message, "the invocation named no change to make");
    let several = fields_wanted(&options(r#"{"replicas": 1, "label": "a=b"}"#)).unwrap_err();
    assert!(several.message.starts_with("one change describes one action, and this one names "));
}

#[test]
fn a_change_of_the_wrong_shape_is_refused_by_name() {
    assert_eq!(
        fields_wanted(&options(r#"{"replicas": "many"}"#)).unwrap_err().message,
        "`replicas` is a whole number of replicas"
    );
    assert_eq!(
        fields_wanted(&options(r#"{"replicas": -1}"#)).unwrap_err().message,
        "`-1` is not a number of replicas"
    );
    assert_eq!(
        fields_wanted(&options(r#"{"schedulable": 1}"#)).unwrap_err().message,
        "`schedulable` is true or false"
    );
    assert_eq!(
        fields_wanted(&options(r#"{"image": "web="}"#)).unwrap_err().message,
        "`web` names a container and no image"
    );
    assert_eq!(
        fields_wanted(&options(r#"{"set": {"/status/x": 1}}"#)).unwrap_err().message,
        "`/status/x` writes observed state, which this provider does not write"
    );
}

#[test]
fn an_intent_needs_a_name_and_a_known_action() {
    assert_eq!(
        Intent::read(&options(r#"{"kind": "Deployment", "replicas": 1}"#)).unwrap_err().message,
        "the invocation named no object to change"
    );
    assert_eq!(
        Intent::read(&options(r#"{"name": "api", "action": "explode"}"#)).unwrap_err().message,
        "`action explode` is not a change this provider plans"
    );
    let deleted = Intent::of(&options(r#"{"name": "api"}"#), Writes::Object);
    assert!(matches!(
        deleted,
        Ok(Intent { wanted: Wanted::Delete { propagation: Propagation::Background }, .. })
    ));
    assert_eq!(intent(r#"{"name": "api", "replicas": 1}"#).verb(), Verb::Patch);
}

#[test]
fn a_scale_states_what_is_held() {
    let action = intent(r#"{"name": "api", "replicas": 5}"#).action(&object(WORKLOAD)).expect("an action");
    assert_eq!(
        changes(&action),
        &vec![FieldChange {
            path: "/spec/replicas".to_owned(),
            before: Some(Json::Integer(2)),
            after: Some(Json::Integer(5)),
        }]
    );
}

#[test]
fn an_image_is_set_on_the_container_of_that_name() {
    let action = intent(r#"{"name": "api", "image": "side=side:2"}"#)
        .action(&object(WORKLOAD))
        .expect("an action");
    assert_eq!(changes(&action).len(), 2);
    assert_eq!(changes(&action)[0].path, "/spec/template/spec/containers/1/name");
    assert_eq!(changes(&action)[0].after, Some(Json::Text("side".to_owned())));
    let changed = &changes(&action)[1];
    assert_eq!(changed.path, "/spec/template/spec/containers/1/image");
    assert_eq!(changed.before, Some(Json::Text("side:1".to_owned())));
    assert_eq!(changed.after, Some(Json::Text("side:2".to_owned())));
}

#[test]
fn an_entry_without_a_name_is_counted() {
    let pod = r#"{"spec": {"containers": [{"image": "a"}, {"name": "web", "image": "b"}]}}"#;
    let action = intent(r#"{"name": "p", "image": "web=c"}"#).action(&object(pod)).expect("an action");
    assert_eq!(changes(&action)[0].path, "/spec/containers/1/name");
    assert_eq!(changes(&action)[0].before, Some(Json::Text("web".to_owned())));
    assert_eq!(changes(&action)[1].path, "/spec/containers/1/image");
    assert_eq!(changes(&action)[1].before, Some(Json::Text("b".to_owned())));
}

#[test]
fn an_image_needs_a_container_that_is_there() {
    let asked = intent(r#"{"name": "api", "image": "db=db:2"}"#);
    let missing = asked.action(&object(WORKLOAD)).unwrap_err();
    assert!(missing.message.contains("has no container named `db`; it has "));
    let none = asked.action(&object(r#"{"spec": {}}"#)).unwrap_err();
    assert!(none.message.ends_with("carries no container list, so there is no image to set on it"));
}

#[test]
fn a_restart_marks_the_template() {
    let asked = intent(r#"{"name": "api", "restart_rollout": true}"#);
    let action = asked.action(&object(WORKLOAD)).expect("an action");
    assert_eq!(changes(&action)[0].after, Some(Json::Text("41".to_owned())));
    assert_eq!(
        changes(&action)[0].path,
        "/spec/template/metadata/annotations/ono-sendai.io~1restarted-from-resource-version"
    );
    let none = asked.action(&object("{}")).unwrap_err();
    assert!(none.message.ends_with("carries no pod template, so there is no rollout to restart"));
}

#[test]
fn a_key_with_a_slash_is_one_segment() {
    let asked = intent(r#"{"name": "api", "annotation": "a.io/b=c"}"#);
    let action = asked.action(&object(WORKLOAD)).expect("an action");
    assert_eq!(changes(&action)[0].path, "/metadata/annotations/a.io~1b");
    assert_eq!(changes(&action)[0].before, None);
}

#[test]
fn a_removal_of_what_is_not_there_is_no_change() {
    let asked = intent(r#"{"name": "api", "label": ["tier=", "other="]}"#);
    let action = asked.action(&object(WORKLOAD)).expect("an action");
    assert_eq!(changes(&action).len(), 1);
    assert_eq!(changes(&action)[0].path, "/metadata/labels/tier");
    assert_eq!(changes(&action)[0].after, None);
    assert!(matches!(action, Action::Curated { curation: Curated::Label, .. }));
}

#[test]
fn what_is_left_to_do_follows_the_change() {
    let scaled = intent(r#"{"name": "api", "replicas": 5}"#).action(&object(WORKLOAD)).expect("an action");
    assert_eq!(
        remaining(&scaled, false, "Deployment"),
        vec![Remaining::Autoscalers, Remaining::Permission]
    );
    let deleted = Action::Delete { propagation: Propagation::Background };
    assert_eq!(
        remaining(&deleted, true, "Namespace"),
        vec![Remaining::Contents, Remaining::Permission]
    );
    assert_eq!(remaining(&deleted, true, "Pod"), vec![Remaining::Permission]);
}
