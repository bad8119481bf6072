use ono_kubernetes_plugin::contributions::Reads;
use ono_kubernetes_plugin::coverage::Outcome;
use ono_kubernetes_plugin::discovery::{group_version_of, Discovery, Group, Resource, Scope, Verb};
use ono_kubernetes_plugin::dynamic::{Selector, Unresolved};
use ono_kubernetes_plugin::emission::{Delivery, Emission, Invocation, Next};
use ono_kubernetes_plugin::failure::WireError;
use ono_kubernetes_plugin::planning::{
    aimed_at, autoscaler_page, autoscaler_resource, autoscaler_version, countable, group_document,
    offered,
    preferred_group_versions, refused, review_answered, review_not_sent, review_resource,
    review_version, Inventory, Preflight, Reading,
};
use ono_kubernetes_plugin::query::{
    curated, curated_version, discovered, document, ending, gettable, listable, needed,
    not_fetched, one_object, optional_document, resolve_in, resource_list_path, route, search_space,
    transport_failure, unnamed,
    typing_of, typing_path, unresolved_failure, Listed, Route,
};

fn resource(group: &str, version: &str, kind: &str, verbs: Vec<Verb>) -> Resource {
    let plural = format!("{}s", kind.to_lowercase());
    Resource {
        group: group.to_owned(),
        version: version.to_owned(),
        kind: kind.to_owned(),
        gvr: format!("{}/{plural}", group_version_of(group, version)),
        plural,
        scope: Scope::Namespaced,
        verbs,
        short_names: Vec::new(),
        subresources: Vec::new(),
    }
}

fn group(name: &str, preferred: &str, versions: &[&str]) -> Group {
    Group {
        name: name.to_owned(),
        preferred: Some(preferred.to_owned()),
        versions: versions.iter().map(|version| (*version).to_owned()).collect(),
    }
}

fn served() -> Discovery {
    Discovery {
        groups: vec![
            group("", "v1", &["v1"]),
            group("apps", "v1", &["v1", "v1beta1"]),
            group("autoscaling", "v2", &["v2", "v1"]),
            group("authorization.k8s.io", "v1", &["v1"]),
        ],
        resources: vec![
            resource("", "v1", "Pod", vec![Verb::Get, Verb::List]),
            resource("apps", "v1", "Deployment", vec![Verb::Get]),
            resource("apps", "v1", "Scale", vec![Verb::List]),
        ],
    }
}

fn selector(kind: Option<&str>, group: Option<&str>, version: Option<&str>) -> Selector {
    Selector {
        kind: kind.map(str::to_owned),
        resource: None,
        group: group.map(str::to_owned),
        version: version.map(str::to_owned),
    }
}

fn message<T>(result: Result<T, WireError>) -> String {
    match result {
        Ok(_) => panic!("a refusal"),
        Err(error) => error.message,
    }
}

#[test]
fn lists_are_looked_for_by_group() {
    assert_eq!(resource_list_path("v1"), "/api/v1");
    assert_eq!(resource_list_path("apps/v1"), "/apis/apps/v1");
    assert_eq!(resource_list_path("a/b/v1"), "/apis/a/b/v1");
    assert_eq!(typing_path(&served().resources[0]), "/openapi/v3/api/v1");
    assert_eq!(typing_path(&served().resources[1]), "/openapi/v3/apis/apps/v1");
}

#[test]
fn a_query_about_one_object_names_it() {
    let error = unnamed("to read a log from", "--name api-7d9f-abc --container api");
    assert_eq!(error.message, "the query named no object to read a log from");
    assert_eq!(error.help.as_deref(), Some("Name one: `--name api-7d9f-abc --container api`."));
}

#[test]
fn a_document_is_text_and_was_answered() {
    assert_eq!(document("/api", 200, "OK", b"{}".to_vec()), Ok("{}".to_owned()));
    assert_eq!(
        message(document("/api", 403, "Forbidden", Vec::new())),
        "the API server answered `/api` with 403 Forbidden"
    );
    assert!(message(document("/api", 200, "OK", vec![0xc0]))
        .starts_with("the API server's answer to `/api` is not text: "));
    assert_eq!(optional_document(404, b"{}".to_vec()), None);
    assert_eq!(optional_document(200, vec![0xc0]), None);
    assert_eq!(optional_document(200, b"x".to_vec()), Some("x".to_owned()));
}

#[test]
fn a_typing_comes_from_the_published_document() {
    let pod = &served().resources[0];
    let body = br#"{"components": {"schemas": {"p": {"x-kubernetes-group-version-kind":
        [{"group": "", "version": "v1", "kind": "Pod"}]}}}}"#;
    assert!(typing_of(pod, 200, body.to_vec()).component.is_some());
    assert!(typing_of(pod, 404, body.to_vec()).component.is_none());
    assert!(typing_of(pod, 200, b"{}".to_vec()).component.is_none());
}

#[test]
fn a_collection_is_routed_by_what_is_read() {
    let curated = Reads::Kind { group: "apps", kind: "Deployment" };
    assert_eq!(route(curated), Ok(Route::Curated { group: "apps", kind: "Deployment" }));
    assert_eq!(route(Reads::Discovered), Ok(Route::Discovered));
    assert!(message(route(Reads::Instance)).starts_with("the provider instance is not"));
    assert!(message(route(Reads::Relations)).starts_with("a relationship is derived"));
}

#[test]
fn a_kind_is_served_or_it_is_not() {
    let served = served();
    assert_eq!(curated_version(&served, "apps", "Deployment"), Ok("apps/v1".to_owned()));
    assert_eq!(
        message(curated_version(&served, "batch", "Job")),
        "this cluster serves no version of the API group `batch`, so it serves no Job"
    );
    assert_eq!(curated(&served, "v1", "Pod").expect("served").plural, "pods");
    assert_eq!(
        message(curated(&served, "v1", "Node")),
        "`v1` serves no kind `Node` on this cluster"
    );
}

#[test]
fn a_search_is_as_wide_as_the_query() {
    let served = served();
    assert_eq!(
        search_space(&served, &selector(Some("X"), Some("apps"), Some("v1beta1"))),
        Ok(vec!["apps/v1beta1".to_owned()])
    );
    assert_eq!(
        search_space(&served, &selector(Some("X"), Some("apps"), None)),
        Ok(vec!["apps/v1".to_owned()])
    );
    assert_eq!(
        message(search_space(&served, &selector(Some("X"), None, Some("v1")))),
        "`version v1` names no group, so there is no version to look for"
    );
    assert_eq!(
        message(search_space(&served, &selector(Some("X"), Some("apps"), Some("v9")))),
        "this cluster serves no `v9` of the API group `apps`"
    );
    assert_eq!(
        message(search_space(&served, &selector(Some("X"), Some("batch"), None))),
        "this cluster serves no version of the API group `batch`"
    );
    assert_eq!(preferred_group_versions(&served).len(), 4);
}

#[test]
fn what_cannot_be_resolved_says_why() {
    let served = served();
    let asked = selector(Some("Gone"), None, None);
    assert_eq!(
        unresolved_failure(&Unresolved::NotServed, &asked, &served).name,
        "provider.unsupported"
    );
    let several = Unresolved::Ambiguous { candidates: vec!["a".to_owned(), "b".to_owned()] };
    let ambiguous = unresolved_failure(&several, &asked, &served);
    assert_eq!(ambiguous.name, "resolve.ambiguous");
    assert!(ambiguous.help.expect("help").ends_with("a\nb"));
    assert!(unresolved_failure(&Unresolved::Unasked, &asked, &served)
        .message
        .starts_with("the query named no `kind` and no `resource`"));
    assert!(discovered(&selector(Some("Pod"), None, None), &served).is_ok());
    assert!(message(discovered(&asked, &served)).starts_with("this cluster serves nothing matching"));
    let deployment = selector(Some("Deployment"), None, None);
    assert!(resolve_in(&deployment, &served, needed(&Some("api".to_owned()))).is_ok());
    assert!(message(resolve_in(&deployment, &served, needed(&None))).ends_with("offer `list` on it"));
    let scale = selector(Some("Scale"), None, None);
    assert!(message(resolve_in(&scale, &served, Verb::Get)).ends_with("`get` on one of them"));
}

#[test]
fn a_verb_is_asked_for_before_it_is_used() {
    let served = served();
    assert!(listable(&served.resources[0]).is_ok());
    assert!(message(listable(&served.resources[1])).contains("does not offer `list`"));
    assert!(gettable(&served.resources[1]).is_ok());
    assert!(message(gettable(&served.resources[2])).contains("does not offer `get`"));
    assert!(offered(&served.resources[0], Verb::Get).is_ok());
    assert!(offered(&served.resources[0], Verb::Patch).is_err());
    assert!(transport_failure("/api", "reset").message.contains("`/api` could not be read: reset"));
}

#[test]
fn only_one_outcome_is_absence() {
    let pod = &served().resources[0];
    assert!(not_fetched(pod, "prod", "api", Outcome::Absent, "absent", "404").is_ok());
    assert_eq!(
        message(not_fetched(pod, "prod", "api", Outcome::ReadDenied, "read denied", "403")),
        "`v1/pods` in prod did not answer for `api`: read denied — 403"
    );
    assert_eq!(one_object(Reading::Fetched), Ok(true));
    assert_eq!(one_object(Reading::Absent), Ok(false));
    assert_eq!(message(one_object(Reading::Listed)), "a direct read answered with a collection");
    assert!(aimed_at(Reading::Fetched, pod, "prod", "api").is_ok());
    assert!(message(aimed_at(Reading::Absent, pod, "prod", "api")).contains("nothing to change"));
    assert!(aimed_at(Reading::Listed, pod, "prod", "api").is_err());
    assert_eq!(refused("why").name, "contribution.refused");
}

#[test]
fn a_short_listing_never_completes() {
    let listed = |covered: bool, intact: bool| {
        Some(Listed { covered, intact, coverage: "2 of 3".to_owned() })
    };
    assert_eq!(ending(&None), Invocation::Completed);
    assert_eq!(ending(&listed(true, true)), Invocation::Completed);
    let Invocation::Failed(short) = ending(&listed(false, true)) else {
        panic!("a short listing fails");
    };
    assert_eq!(short.message, "the query did not see everything it asked about: 2 of 3");
    let Invocation::Failed(broken) = ending(&listed(true, false)) else {
        panic!("a broken listing fails");
    };
    assert!(broken.message.starts_with("the listing lost continuity"));
}

#[test]
fn records_are_handed_over_until_something_ends_it() {
    let mut emission = Emission { left: 2, ending: Invocation::Completed };
    assert_eq!(emission.next(false), Next::Deliver);
    assert_eq!(emission.delivered(&Delivery::Taken, "s"), None);
    assert_eq!(emission.next(true), Next::Stop(Invocation::Cancelled));
    assert_eq!(emission.delivered(&Delivery::Cancelled, "s"), Some(Invocation::Cancelled));
    assert_eq!(emission.next(true), Next::Stop(Invocation::Completed));
    let mut failing = Emission { left: 3, ending: Invocation::Completed };
    let Some(Invocation::Failed(refused)) =
        failing.delivered(&Delivery::Refused("full".to_owned()), "s")
    else {
        panic!("a refused record ends the invocation");
    };
    assert_eq!(refused.message, "the host refused a record: full");
    let Some(Invocation::Failed(unbuilt)) =
        failing.delivered(&Delivery::Unbuilt("no field".to_owned()), "k8s.pod")
    else {
        panic!("a record that cannot be built ends the invocation");
    };
    assert_eq!(unbuilt.message, "a record of `k8s.pod` could not be built: no field");
    let Some(Invocation::Failed(unguarded)) =
        failing.delivered(&Delivery::Unguarded("no".to_owned()), "s")
    else {
        panic!("an object that stays outside ends the invocation");
    };
    assert!(unguarded.message.ends_with("taken across the redaction boundary: no"));
}

#[test]
fn autoscalers_are_looked_for_where_they_are_served() {
    let served = served();
    assert_eq!(autoscaler_version(&served), Ok("autoscaling/v2".to_owned()));
    let none = Discovery { groups: Vec::new(), resources: Vec::new() };
    assert_eq!(autoscaler_version(&none).unwrap_err().outcome, Outcome::TypeNotServed);
    let catalogue = Discovery {
        groups: Vec::new(),
        resources: vec![resource(
            "autoscaling",
            "v2",
            "HorizontalPodAutoscaler",
            vec![Verb::List],
        )],
    };
    assert!(autoscaler_resource(Some(&catalogue), "autoscaling/v2").is_ok());
    assert_eq!(
        autoscaler_resource(None, "autoscaling/v2").unwrap_err().outcome,
        Outcome::RequestFailed
    );
    assert!(autoscaler_resource(Some(&none), "autoscaling/v2").is_err());
    assert!(autoscaler_page(Ok(false), "autoscaling/v2").gaps.is_empty());
    assert_eq!(autoscaler_page(Err(Outcome::ReadDenied), "autoscaling/v2").gaps.len(), 1);
}

#[test]
fn a_list_that_is_not_there_says_why() {
    assert_eq!(group_document(200, b"{}".to_vec()), Ok("{}".to_owned()));
    assert_eq!(group_document(403, b"{}".to_vec()), Err(Outcome::ReadDenied));
    assert_eq!(group_document(404, b"{}".to_vec()), Err(Outcome::TypeNotServed));
    assert_eq!(group_document(500, b"{}".to_vec()), Err(Outcome::RequestFailed));
    assert_eq!(group_document(200, vec![0xff]), Err(Outcome::RequestFailed));
}

#[test]
fn a_namespace_is_counted_collection_by_collection() {
    assert_eq!(countable(&served()), vec![0, 2]);
    let mut inventory = Inventory::new();
    inventory.page(&served().resources[0], 2, false);
    inventory.page(&served().resources[2], 0, false);
    inventory.collection_refused("v1/secrets", Outcome::ReadDenied);
    inventory.group_unread("apps/v1", Outcome::RequestFailed);
    assert_eq!(inventory.counted.len(), 2);
    assert_eq!(inventory.counted[0].gvr, "v1/pods");
    assert!(!inventory.observed);
    inventory.group_done();
    assert!(inventory.observed);
    assert_eq!(inventory.gaps.len(), 2);
}

#[test]
fn permission_is_the_servers_answer() {
    let served = served();
    assert_eq!(review_version(&served), Ok("authorization.k8s.io/v1".to_owned()));
    let none = Discovery { groups: Vec::new(), resources: Vec::new() };
    assert!(matches!(review_version(&none), Err(Preflight::NotAnswered(_))));
    assert!(matches!(review_resource(Some(&none), "v"), Err(Preflight::NotAnswered(_))));
    assert!(matches!(review_resource(None, "v"), Err(Preflight::NotAnswered(_))));
    assert!(matches!(review_not_sent("reset"), Preflight::NotAnswered(_)));
    assert!(matches!(
        review_answered(201, "Created", br#"{"status": {"allowed": true}}"#),
        Preflight::Review(_)
    ));
    assert!(matches!(review_answered(403, "Forbidden", b"{}"), Preflight::NotAnswered(_)));
    assert!(matches!(review_answered(201, "Created", b"{"), Preflight::NotAnswered(_)));
}
