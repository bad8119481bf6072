use ono_kubernetes_plugin::document::read_document;
use ono_kubernetes_plugin::intent::pointers;
use ono_kubernetes_plugin::json::Json;
use ono_kubernetes_plugin::options::Options;

fn options(set: Json) -> Options {
    Options { entries: vec![("set".to_owned(), set)] }
}

fn json(text: &str) -> Json {
    read_document(text).expect("a document")
}

#[test]
fn should_read_a_quoted_json_document_as_the_mapping_it_spells() {
    let read = pointers(&options(Json::Text(r#"{"/spec/replicas": 2}"#.to_owned())))
        .expect("the documented spelling is the one that has to work");

    assert_eq!(read, vec![("/spec/replicas".to_owned(), Json::Integer(2))]);
}

#[test]
fn should_read_a_record_the_shell_evaluated_as_the_same_mapping() {
    let read = pointers(&options(json(r#"{"/spec/replicas": 2}"#)))
        .expect("a record arrives as a mapping");

    assert_eq!(read, vec![("/spec/replicas".to_owned(), Json::Integer(2))]);
}

#[test]
fn should_refuse_text_that_is_not_a_mapping_rather_than_guessing_at_it() {
    for wrong in [
        Json::Text("/spec/replicas".to_owned()),
        Json::Text("[1, 2]".to_owned()),
        Json::Integer(3),
    ] {
        assert!(
            pointers(&options(wrong.clone())).is_err(),
            "`{wrong:?}` is not a mapping from a pointer to a value"
        );
    }
}

#[test]
fn a_mapping_is_taken_whole_or_not_at_all() {
    let mapping = r#"{"/spec/a": 1, "/spec/b": null}"#;
    let spelled = pointers(&options(Json::Text(mapping.to_owned()))).expect("a mapping");
    let written = pointers(&options(json(mapping))).expect("a mapping");
    assert_eq!(spelled, written);
    assert_eq!(written.len(), 2);
    assert!(pointers(&options(json(r#"{"/spec/a": 1, "b": 2}"#))).is_err());
    assert_eq!(pointers(&Options { entries: Vec::new() }), Ok(Vec::new()));
}
