use ono_kubernetes_plugin::discovery::{Discovery, Resource, Scope, Verb};
use ono_kubernetes_plugin::document::read_document;
use ono_kubernetes_plugin::dynamic::{
    catalogue, content, resolve, resolve_for, scope_word, Selector, Typing, Unresolved,
};
use ono_kubernetes_plugin::json::Json;
use ono_kubernetes_plugin::options::Options;
use ono_kubernetes_plugin::projection::{Intent, Precision, ProjectedField, Projection};
use ono_kubernetes_plugin::value::FieldValue;

fn resource(group: &str, kind: &str, plural: &str, scope: Scope, verbs: Vec<Verb>) -> Resource {
    let short_names = if kind == "Widget" { vec!["wd".to_owned()] } else { Vec::new() };
    Resource {
        group: group.to_owned(),
        version: "v1".to_owned(),
        kind: kind.to_owned(),
        plural: plural.to_owned(),
        gvr: format!("{group}/v1/{plural}"),
        scope,
        verbs,
        short_names,
        subresources: Vec::new(),
    }
}

fn ambiguous_cluster() -> Discovery {
    let read = || vec![Verb::Get, Verb::List];
    Discovery {
        groups: Vec::new(),
        resources: vec![
            resource("left.example", "Widget", "widgets", Scope::Namespaced, read()),
            resource("right.example", "Widget", "widgets", Scope::Cluster, read()),
            resource("right.example", "Gadget", "gadgets", Scope::Namespaced, read()),
            resource("right.example", "Sealed", "sealed", Scope::Namespaced, vec![Verb::Get]),
        ],
    }
}

fn selector(pairs: &[(&str, &str)]) -> Selector {
    let entries = pairs
        .iter()
        .map(|(key, value)| ((*key).to_owned(), Json::Text((*value).to_owned())))
        .collect();
    Selector::from_options(&Options { entries })
}

fn json(text: &str) -> Json {
    read_document(text).expect("a document")
}

fn under<'a>(value: &'a FieldValue, key: &str) -> Option<&'a FieldValue> {
    match value {
        FieldValue::Entries(entries) => {
            entries.iter().find(|(name, _)| name == key).map(|(_, value)| value)
        }
        _ => None,
    }
}

fn field(pointer: &str, intent: Intent, precision: Precision, format: Option<&str>) -> ProjectedField {
    ProjectedField {
        pointer: pointer.to_owned(),
        intent,
        precision,
        format: format.map(str::to_owned),
    }
}

#[test]
fn should_resolve_a_kind_only_one_group_offers() {
    let cluster = ambiguous_cluster();
    let resolved = resolve(&selector(&[("kind", "Gadget")]), &cluster).expect("one group offers it");
    assert_eq!(resolved.plural, "gadgets");
    assert_eq!(resolved.group, "right.example");
}

#[test]
fn should_refuse_an_ambiguous_kind_rather_than_prefer_a_group() {
    let cluster = ambiguous_cluster();
    let Err(Unresolved::Ambiguous { candidates }) =
        resolve(&selector(&[("kind", "Widget")]), &cluster)
    else {
        panic!("two groups offer `Widget`, and neither of them wins");
    };
    assert_eq!(candidates.len(), 2);
    assert!(candidates.iter().any(|entry| entry.contains("left.example")));
    assert!(candidates.iter().any(|entry| entry.contains("right.example")));
}

#[test]
fn should_resolve_an_ambiguous_kind_once_the_query_names_the_group() {
    let cluster = ambiguous_cluster();
    let resolved = resolve(&selector(&[("kind", "Widget"), ("group", "left.example")]), &cluster)
        .expect("the group settles it");
    assert_eq!(resolved.group, "left.example");
    assert_eq!(resolved.scope, Scope::Namespaced);
}

#[test]
fn should_refuse_an_ambiguous_short_name_the_same_way() {
    let cluster = ambiguous_cluster();
    assert!(matches!(
        resolve(&selector(&[("resource", "wd")]), &cluster),
        Err(Unresolved::Ambiguous { .. })
    ));
}

#[test]
fn should_report_a_kind_the_cluster_does_not_serve_as_not_served() {
    let cluster = ambiguous_cluster();
    assert_eq!(
        resolve(&selector(&[("kind", "Absent")]), &cluster),
        Err(Unresolved::NotServed)
    );
}

#[test]
fn should_report_a_resource_that_cannot_be_listed_as_such() {
    let cluster = ambiguous_cluster();
    assert!(matches!(
        resolve(&selector(&[("kind", "Sealed")]), &cluster),
        Err(Unresolved::NotListable { .. })
    ));
}

#[test]
fn should_refuse_a_query_that_names_no_resource_at_all() {
    let cluster = ambiguous_cluster();
    assert_eq!(resolve(&selector(&[]), &cluster), Err(Unresolved::Unasked));
}

#[test]
fn should_read_an_explicitly_empty_group_as_the_core_group() {
    assert_eq!(selector(&[("group", "")]).group(), Some(""));
    assert_eq!(selector(&[("kind", "X")]).group(), None);
}

#[test]
fn should_not_match_a_kind_case_insensitively() {
    let cluster = ambiguous_cluster();
    assert_eq!(
        resolve(&selector(&[("kind", "gadget")]), &cluster),
        Err(Unresolved::NotServed)
    );
}

#[test]
fn should_type_a_described_instant_and_leave_an_undescribed_one_as_text() {
    let native = json(
        r#"{"apiVersion": "left.example/v1", "kind": "Widget",
            "metadata": {"name": "one", "uid": "u"},
            "spec": {"renewAt": "2026-01-01T00:00:00Z", "count": 3}}"#,
    );
    let described = Typing::of(
        Some(
            r#"{"components": {"schemas": {"any.name": {
                "type": "object",
                "x-kubernetes-group-version-kind": [
                    {"group": "left.example", "version": "v1", "kind": "Widget"}
                ],
                "properties": {"spec": {"type": "object", "properties": {
                    "renewAt": {"type": "string", "format": "date-time"},
                    "count": {"type": "integer"}
                }}}
            }}}}"#,
        ),
        "left.example",
        "v1",
        "Widget",
    );
    let component = json(&described.component.expect("the kind is described"));
    let format = component
        .field("/properties/spec/properties/renewAt/format")
        .and_then(Json::as_str)
        .map(str::to_owned);
    assert_eq!(format.as_deref(), Some("date-time"));

    let typed = content(
        &Projection {
            fields: vec![
                field("/spec/count", Intent::Desired, Precision::Described, None),
                field("/spec/renewAt", Intent::Desired, Precision::Described, format.as_deref()),
            ],
        },
        &native,
    );
    assert!(
        matches!(under(&typed.desired, "renewAt"), Some(FieldValue::InstantOrText(_))),
        "a `date-time` format makes it an instant, got {:?}",
        under(&typed.desired, "renewAt")
    );
    assert_eq!(under(&typed.desired, "count"), Some(&FieldValue::Int(3)));
    assert_eq!(typed.precision, Precision::Described);
    assert!(typed.untyped.is_empty());

    let raw = content(
        &Projection {
            fields: vec![
                field("/spec/count", Intent::Desired, Precision::Unknown, None),
                field("/spec/renewAt", Intent::Desired, Precision::Unknown, None),
            ],
        },
        &native,
    );
    assert_eq!(
        under(&raw.desired, "renewAt"),
        Some(&FieldValue::Text("2026-01-01T00:00:00Z".to_owned())),
        "no schema means no claim that it is an instant — and the field is still here"
    );
    assert_eq!(under(&raw.desired, "count"), Some(&FieldValue::Int(3)));
    assert_eq!(raw.precision, Precision::Unknown);
    assert!(
        raw.untyped.contains(&"/spec/renewAt".to_owned()),
        "an undescribed field is named as undescribed, got {:?}",
        raw.untyped
    );
}

#[test]
fn should_ignore_a_schema_component_that_declares_another_kind() {
    let typing = Typing::of(
        Some(
            r#"{"components": {"schemas": {"other": {
                "type": "object",
                "x-kubernetes-group-version-kind": [
                    {"group": "left.example", "version": "v1", "kind": "Elsewhere"}
                ]
            }}}}"#,
        ),
        "left.example",
        "v1",
        "Widget",
    );
    assert_eq!(
        typing.component, None,
        "a document that describes another kind describes this one not at all"
    );
}

#[test]
fn should_keep_a_payload_field_that_lives_outside_spec_and_status() {
    let native = json(
        r#"{"apiVersion": "left.example/v1", "kind": "Widget",
            "metadata": {"name": "one"}, "payload": {"key": "value"}}"#,
    );
    let held = content(
        &Projection {
            fields: vec![field("/payload/key", Intent::Unclassified, Precision::Unknown, None)],
        },
        &native,
    );
    assert!(
        under(&held.other, "payload").is_some(),
        "the payload survives, and it is {:?}",
        held.other
    );
    assert_eq!(held.desired, FieldValue::Null, "there is no spec, and null says so");
}

#[test]
fn a_component_is_found_by_a_single_declaration_too() {
    let typing = Typing::of(
        Some(
            r#"{"components": {"schemas": {"b": {
                "x-kubernetes-group-version-kind":
                    {"group": "g", "version": "v1", "kind": "Widget"}, "type": "object"
            }}}}"#,
        ),
        "g",
        "v1",
        "Widget",
    );
    let text = typing.component.expect("the kind is described");
    assert_eq!(json(&text).get("type").and_then(Json::as_str), Some("object"));
    assert_eq!(Typing::of(Some("not a document"), "g", "v1", "Widget").component, None);
    assert_eq!(Typing::of(None, "g", "v1", "Widget").component, None);
    assert_eq!(Typing::absent().component, None);
}

#[test]
fn a_catalogue_lists_each_kind_once_by_group() {
    assert_eq!(
        catalogue(&ambiguous_cluster()),
        vec!["left.example: Widget".to_owned(), "right.example: Gadget, Widget".to_owned()]
    );
    assert_eq!(scope_word(Scope::Cluster), "cluster");
    assert_eq!(scope_word(Scope::Namespaced), "namespaced");
}

#[test]
fn a_selector_spells_what_was_asked() {
    let asked = selector(&[("kind", "Widget"), ("version", "v1")]);
    assert!(asked.names_something());
    assert_eq!(asked.version(), Some("v1"));
    assert!(asked.spelling().contains("Widget"));
    assert!(!selector(&[("group", "g")]).names_something());
}

#[test]
fn a_resource_is_resolved_for_what_it_is_used_for() {
    let mut cluster = ambiguous_cluster();
    let sealed = selector(&[("kind", "Sealed")]);
    let found = resolve_for(&sealed, &cluster, Verb::Get).expect("it can be read one by one");
    assert_eq!(found.plural, "sealed");
    assert!(resolve_for(&sealed, &cluster, Verb::Watch).is_ok());
    assert_eq!(
        resolve_for(&sealed, &cluster, Verb::List),
        Err(Unresolved::NotListable { gvr: "right.example/v1/sealed".to_owned() })
    );
    cluster.resources[3].verbs = vec![Verb::List];
    assert_eq!(
        resolve_for(&sealed, &cluster, Verb::Get),
        Err(Unresolved::NotGettable { gvr: "right.example/v1/sealed".to_owned() })
    );
}
