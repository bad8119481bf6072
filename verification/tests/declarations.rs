use ono_kubernetes_plugin::contributions::{
    command, command_schemas, commands, handler, target, targets, Answer, Field, Handler, Parameter,
    Reads, Writes,
};
use ono_kubernetes_plugin::json::Json;
use ono_kubernetes_plugin::{CONCURRENT_INVOCATIONS, PACKAGE, VERSION};

#[test]
fn the_package_says_who_it_is() {
    assert_eq!(PACKAGE, "io.github.godspeed-you.kubernetes");
    assert_eq!(VERSION, "0.1.0");
    assert_eq!(CONCURRENT_INVOCATIONS, 3);
}

#[test]
fn every_identity_field_is_declared() {
    for target in targets() {
        for name in target.identity_fields() {
            assert!(
                target.fields.iter().any(|field| field.name == name),
                "`{}` is told apart by `{name}`, which it declares",
                target.name
            );
        }
    }
}

#[test]
fn no_target_and_no_field_is_declared_twice() {
    let all = targets();
    for (at, target) in all.iter().enumerate() {
        assert!(all[at + 1..].iter().all(|other| other.name != target.name), "{}", target.name);
        for (place, field) in target.fields.iter().enumerate() {
            assert!(
                target.fields[place + 1..].iter().all(|other| other.name != field.name),
                "{}.{}",
                target.name,
                field.name
            );
        }
    }
}

#[test]
fn a_target_is_found_by_its_word() {
    let pods = target("k8s-pod").expect("a target");
    assert_eq!(pods.reads.group(), Some(""));
    assert_eq!(pods.reads.kind(), Some("Pod"));
    assert_eq!(handler(pods.reads), Handler::Query);
    assert_eq!(pods.answer(), Answer::Bounded);
    let contributed = pods.schema_contribution();
    assert_eq!(contributed.fields.len(), pods.fields.len());
    assert_eq!(contributed.id, pods.schema);
    assert!(target("pod").is_none());
}

#[test]
fn a_stream_that_may_go_on_has_no_end() {
    for target in targets() {
        let live = matches!(target.reads, Reads::Changes | Reads::Logs);
        assert_eq!(target.answer() == Answer::Unbounded, live, "{}", target.name);
    }
    assert_eq!(handler(Reads::Instance), Handler::Cluster);
    assert_eq!(handler(Reads::Plan), Handler::Planning);
}

#[test]
fn every_target_takes_its_cluster_first() {
    for target in targets() {
        let names: Vec<&str> = target.options().iter().map(|option| option.name).collect();
        assert_eq!(&names[..4], &["context", "kubeconfig", "host", "port"], "{}", target.name);
        let contributed = target.target_contribution();
        assert_eq!(contributed.options.len(), names.len());
    }
}

#[test]
fn a_command_predicts_unless_told_otherwise() {
    assert_eq!(commands().len(), 2);
    for declared in commands() {
        let options = declared.options();
        let dry_run = options.iter().find(|option| option.name == "dry_run").expect("dry_run");
        assert_eq!(dry_run.default, Some("true"));
        assert!(options.iter().all(|option| option.name != "all_namespaces"));
        assert_eq!(declared.id(), format!("{PACKAGE}.command.{}", declared.name));
        assert_eq!(declared.contribution().input, None);
        assert!(command_schemas().iter().any(|schema| schema.id == declared.schema));
    }
}

#[test]
fn a_command_is_found_by_its_name() {
    let found = commands();
    let set = command(found[0].name).expect("a command");
    assert_eq!(set.writes, Writes::Fields);
    let removes = command(found[1].name).expect("a command");
    assert_eq!(removes.writes, Writes::Object);
    assert!(command("explode").is_none());
}

#[test]
fn a_parameter_carries_its_default_as_it_is_written() {
    let plain = Parameter::new("name", "string", "A name.").contribution();
    assert_eq!(plain.default, None);
    assert!(!plain.repeatable && !plain.optional_value);
    assert!(Parameter::repeatable("label", "string", "A label.").contribution().repeatable);
    let flag = Parameter::defaulting("dry_run", "bool", "Predict.", "true").contribution();
    assert_eq!(flag.default, Some(Json::Text("true".to_owned())));
}

#[test]
fn a_field_is_required_or_nullable() {
    assert!(Field::required("uid", "string").required);
    assert!(!Field::nullable("uid", "string").required);
    let schema = command_schemas().remove(0).contribution();
    assert!(schema.fields.iter().any(|field| field.name == "acceptance"));
}

#[test]
fn the_controllers_and_jobs_carry_their_reconciliation() {
    let wanted = Field::required("reconciliation", "map");
    for name in
        ["k8s-deployment", "k8s-replicaset", "k8s-statefulset", "k8s-daemonset", "k8s-job"]
    {
        assert!(target(name).expect("a target").fields.contains(&wanted), "{name}");
    }
}

#[test]
fn an_edge_is_told_apart_by_what_decided_it() {
    let edges = target("k8s-relation").expect("a target");
    assert_eq!(edges.identity_fields(), vec!["uid", "relation", "target", "evidence_path"]);
    assert_eq!(target("k8s-event").expect("a target").identity_fields(), vec!["uid"]);
}
