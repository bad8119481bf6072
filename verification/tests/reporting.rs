use ono_kubernetes_plugin::audit::{
    connected, mutated, ran_credential_plugin, refused, refused_locally,
};
use ono_kubernetes_plugin::conditions::{self, named};
use ono_kubernetes_plugin::contributions::Reads;
use ono_kubernetes_plugin::credentials::{
    expired, granted, no_credential, not_run, request, started, Stdout,
};
use ono_kubernetes_plugin::discovery::{Discovery, Group, Resource, Scope, Verb};
use ono_kubernetes_plugin::document::read_document;
use ono_kubernetes_plugin::emission::Invocation;
use ono_kubernetes_plugin::events::{
    self, next_representation, not_an_event, regarded, serving, unserved, Reported, Search,
};
use ono_kubernetes_plugin::evidence::{self, exported, no_address, no_evidence, reads_evidence};
use ono_kubernetes_plugin::json::Json;
use ono_kubernetes_plugin::logs::{
    self, body, clock, pod_namespace, readable, unaskable, Asked, Retrieved,
};
use ono_kubernetes_plugin::options::Options;
use ono_kubernetes_plugin::records::{Exported, IdentityEvidence, Unobserved};
use ono_kubernetes_plugin::value::Clock;

fn json(text: &str) -> Json {
    read_document(text).expect("a document")
}

fn options(text: &str) -> Options {
    match json(text) {
        Json::Object(entries) => Options { entries },
        _ => panic!("options are an object"),
    }
}

fn words(list: &[&str]) -> Vec<String> {
    list.iter().map(|word| (*word).to_owned()).collect()
}

fn resource(group: &str, kind: &str, verbs: Vec<Verb>, subresources: &[&str]) -> Resource {
    Resource {
        group: group.to_owned(),
        version: "v1".to_owned(),
        kind: kind.to_owned(),
        plural: "things".to_owned(),
        gvr: "v1/things".to_owned(),
        scope: Scope::Namespaced,
        verbs,
        short_names: Vec::new(),
        subresources: words(subresources),
    }
}

fn failed(invocation: &Invocation) -> &str {
    match invocation {
        Invocation::Failed(error) => &error.message,
        _ => panic!("a failure"),
    }
}

#[test]
fn a_log_is_asked_for_by_its_options() {
    let asked = Asked::from_options(&options(
        r#"{"container": "web", "previous": true, "timestamps": false, "tail_lines": 10,
            "since_seconds": 0, "limit_bytes": 4294967296}"#,
    ));
    assert_eq!(
        asked,
        Asked {
            container: Some("web".to_owned()),
            previous: true,
            timestamps: false,
            tail_lines: Some(10),
            since_seconds: None,
            limit_bytes: Some(4_294_967_296),
        }
    );
    let large = Asked::from_options(&options(r#"{"tail_lines": 4294967296, "container": ""}"#));
    assert_eq!((large.tail_lines, large.container), (None, None));
    let request = asked.request("kubernetes:prod", "prod", "api");
    assert_eq!(request.pod, "api");
    assert_eq!(request.container.as_deref(), Some("web"));
    assert!(request.previous);
    assert_eq!(request.tail_lines, Some(10));
}

#[test]
fn a_log_is_read_where_it_is_served() {
    assert!(readable(&resource("", "Pod", vec![Verb::Get], &["log"])).is_ok());
    assert_eq!(
        readable(&resource("", "Pod", vec![Verb::Get], &["exec"])).unwrap_err().message,
        "this cluster serves `v1/things` without the `log` subresource"
    );
    assert_eq!(
        readable(&resource("", "Pod", vec![Verb::List], &["log"])).unwrap_err().message,
        "the cluster serves `v1/things` and does not offer `get` on one of them"
    );
    assert_eq!(pod_namespace(Some("prod".to_owned())), Ok("prod".to_owned()));
    assert!(pod_namespace(None).is_err());
    assert_eq!(unaskable("ended").message, "ended");
    assert_eq!(clock(&json(r#"{"spec": {"nodeName": "n1"}}"#)), Clock::Node("n1".to_owned()));
    assert_eq!(clock(&json("{}")), Clock::Unattributed);
}

#[test]
fn a_log_that_was_not_handed_over_says_what_came_instead() {
    assert_eq!(body("api", 200, "OK", b"line".to_vec()), Ok(b"line".to_vec()));
    assert_eq!(
        body("api", 404, "Not Found", vec![b'n', b'o', 0xff]).unwrap_err().message,
        "the log of `api` did not answer: 404 Not Found — no\u{fffd}"
    );
}

#[test]
fn an_empty_log_is_no_evidence() {
    let read = |lines: usize| {
        Some(Retrieved {
            target: "api/web".to_owned(),
            instance: "current".to_owned(),
            lines,
            bounds: words(&["rotated", "tail"]),
        })
    };
    let none = logs::emission(&None);
    assert_eq!((none.left, none.ending), (0, Invocation::Completed));
    let some = logs::emission(&read(3));
    assert_eq!((some.left, some.ending), (3, Invocation::Completed));
    let empty = logs::emission(&read(0));
    assert_eq!(failed(&empty.ending), "no line was read from api/web [current run]");
    let Invocation::Failed(error) = empty.ending else { panic!("a refusal") };
    assert!(error.help.expect("help").contains("requested: rotated; tail ("));
    assert_eq!(error.name, "contribution.refused");
}

#[test]
fn the_newer_representation_is_asked_first() {
    let group = |name: &str| Group {
        name: name.to_owned(),
        preferred: Some("v1".to_owned()),
        versions: words(&["v1"]),
    };
    let both = Discovery {
        groups: vec![group(""), group("events.k8s.io")],
        resources: Vec::new(),
    };
    assert_eq!(next_representation(&both, 0), Some((0, "events.k8s.io/v1".to_owned())));
    assert_eq!(next_representation(&both, 1), Some((1, "v1".to_owned())));
    assert_eq!(next_representation(&both, 2), None);
    let core = Discovery { groups: vec![group("")], resources: Vec::new() };
    assert_eq!(next_representation(&core, 0), Some((1, "v1".to_owned())));
    let catalogue = |verbs: Vec<Verb>| Discovery {
        groups: Vec::new(),
        resources: vec![resource("", "Event", verbs, &[])],
    };
    assert!(serving(&catalogue(vec![Verb::List]), "v1").is_some());
    assert!(serving(&catalogue(vec![Verb::Get]), "v1").is_none());
    assert!(unserved().message.starts_with("this cluster serves neither"));
    assert!(not_an_event("a Pod").message.ends_with("something else: a Pod"));
}

#[test]
fn nothing_observed_is_not_nothing_happened() {
    let reported = |found: Search, complete: bool| {
        Some(Reported {
            kind: "Pod".to_owned(),
            name: "api".to_owned(),
            read: words(&["e1", "e2", "e3"]),
            found,
            complete,
            coverage: "one page".to_owned(),
        })
    };
    let matched = || Search::Observed(words(&["e3", "e1"]));
    assert_eq!(regarded(&words(&["e1", "e2", "e3"]), &words(&["e3", "e1"])), vec![0, 2]);
    let (places, emission) = events::emission(&reported(matched(), true));
    assert_eq!((places, emission.ending), (vec![0, 2], Invocation::Completed));
    let (_, short) = events::emission(&reported(matched(), false));
    assert_eq!(failed(&short.ending), "the Events could not all be read: one page");
    let nothing = Search::NotObserved("not queried".to_owned());
    let (places, none) = events::emission(&reported(nothing, true));
    assert!(places.is_empty());
    assert_eq!(failed(&none.ending), "no Event regarding `Pod/api` was observed: not queried");
    let (_, absent) = events::emission(&None);
    assert_eq!(absent.ending, Invocation::Completed);
}

#[test]
fn a_key_that_was_not_read_is_a_row() {
    let item = IdentityEvidence {
        key: "providerID".to_owned(),
        qualifier: None,
        value: "x://1".to_owned(),
        source: "/spec/providerID".to_owned(),
        strength: "distinguishing".to_owned(),
        class: "identifier".to_owned(),
        description: "d".to_owned(),
        asserted: true,
        lookup_key: true,
        is_provider_id: true,
    };
    let gap = Unobserved { key: "machineID".to_owned(), outcome: "not queried".to_owned() };
    let rows = exported(vec![item], vec![gap]);
    assert_eq!(rows.len(), 2);
    assert!(matches!(&rows[0], Exported::Observed(item) if item.key == "providerID"));
    assert!(matches!(&rows[1], Exported::Unobserved(gap) if gap.key == "machineID"));
    assert_eq!(evidence::emission(Some(2)).left, 2);
    assert_eq!(evidence::emission(None).left, 0);
    assert!(reads_evidence(Reads::Evidence).is_ok());
    assert_eq!(
        reads_evidence(Reads::Logs).unwrap_err().message,
        "this target does not read Node evidence"
    );
    assert_eq!(no_evidence("not a Node").message, "not a Node");
    assert!(no_address("no name").message.ends_with("has no address: no name"));
}

#[test]
fn an_object_without_conditions_answers_with_none() {
    assert_eq!(named(&options(r#"{"name": "api"}"#)).as_deref(), Some("api"));
    assert_eq!(named(&options(r#"{"name": ""}"#)), None);
    let none = conditions::emission(None);
    assert_eq!((none.left, none.ending), (0, Invocation::Completed));
    assert_eq!(conditions::emission(Some(2)).left, 2);
}

#[test]
fn a_helper_runs_only_under_a_grant() {
    assert!(granted(true, "prod", "aws").is_ok());
    assert_eq!(
        granted(false, "prod", "aws").unwrap_err().message,
        "context `prod` authenticates through the credential plugin `aws`, and this package was \
         not granted `process.exec`"
    );
    assert_eq!(
        not_run("prod", "needs a terminal").message,
        "the credential plugin of context `prod` was not run: needs a terminal"
    );
    assert_eq!(started(&json(r#"{"handle": 4}"#), "aws"), Ok(4));
    assert_eq!(
        started(&json("{}"), "aws").unwrap_err().message,
        "the host started `aws` and named no stream"
    );
    assert!(no_credential("aws", "prod", "empty").message.ends_with("with a credential: empty"));
    assert!(expired("aws", "prod", "old").message.ends_with("expired credential: old"));
}

#[test]
fn a_helper_is_asked_to_run_with_its_variables() {
    let variables = vec![
        ("A".to_owned(), "1".to_owned()),
        ("B".to_owned(), "2".to_owned()),
        ("A".to_owned(), "3".to_owned()),
    ];
    let asked = request("aws", &words(&["token"]), &variables);
    assert_eq!(asked.get("program").and_then(Json::as_str), Some("aws"));
    assert_eq!(asked.get("stdin"), Some(&Json::Null));
    assert_eq!(asked.field("/arguments/0").and_then(Json::as_str), Some("token"));
    assert_eq!(asked.field("/environment/A").and_then(Json::as_str), Some("3"));
    assert_eq!(asked.field("/environment/B").and_then(Json::as_str), Some("2"));
}

#[test]
fn only_stdout_is_a_credential() {
    let mut stdout = Stdout::new();
    assert!(stdout.ask(false, "aws").is_ok());
    assert!(!stdout.take(&json(
        r#"{"values": [{"stream": "stdout", "line": "{"}, {"stream": "stderr", "line": "oops"}]}"#
    )));
    assert!(stdout.ask(false, "aws").is_ok());
    assert!(stdout.take(&json(
        r#"{"values": [{"stream": "stdout", "line": "}"}], "complete": true}"#
    )));
    assert_eq!(stdout.text, "{\n}\n");
    assert_eq!(
        stdout.ask(true, "aws").unwrap_err().message,
        "the credential plugin `aws` was cancelled"
    );
    let mut silent = Stdout::new();
    for _ in 0..64 {
        assert!(silent.ask(false, "aws").is_ok());
    }
    assert_eq!(
        silent.ask(false, "aws").unwrap_err().message,
        "the credential plugin `aws` did not finish"
    );
}

#[test]
fn the_trail_names_acts_and_no_values() {
    let open = connected("kubernetes:prod", "api", 6443);
    assert_eq!(open.get("action").and_then(Json::as_str), Some("connect"));
    assert_eq!(open.get("endpoint").and_then(Json::as_str), Some("api:6443"));
    let ran = ran_credential_plugin("i", "prod", "aws");
    assert_eq!(ran.get("command").and_then(Json::as_str), Some("aws"));
    let blocked = refused_locally("i", "process.exec", "credential plugin");
    assert_eq!(blocked.get("capability").and_then(Json::as_str), Some("process.exec"));
    let denied = refused("i", "pods", "prod", "list");
    assert_eq!(denied.get("verb").and_then(Json::as_str), Some("list"));
    let act = mutated("i", "Deployment", "prod", "api", true, "dry run", &words(&["/spec/replicas"]));
    assert_eq!(act.get("dry_run"), Some(&Json::Bool(true)));
    assert_eq!(act.field("/fields/0").and_then(Json::as_str), Some("/spec/replicas"));
    assert_eq!(act.as_object().map(Vec::len), Some(8));
}
