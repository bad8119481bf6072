use ono_kubernetes_plugin::digits::{natural, number, signed, whole, wide};
use ono_kubernetes_plugin::document::{read_document, read_document_bytes, render};
use ono_kubernetes_plugin::json::Json;
use ono_kubernetes_plugin::options::Options;
use ono_kubernetes_plugin::order::{no_later, sort, sort_once};
use ono_kubernetes_plugin::pointer::{escape, unescape};
use ono_kubernetes_plugin::projection::json_value;
use ono_kubernetes_plugin::text::{
    among, behind, blank, cut, cut_text, fill2, join, lower, replace, same, same_but_case, trim_end,
};
use ono_kubernetes_plugin::value::{count, enter, list, FieldValue};

fn words(list: &[&str]) -> Vec<String> {
    list.iter().map(|word| (*word).to_owned()).collect()
}

#[test]
fn a_template_is_filled_from_the_left() {
    assert_eq!(fill2("{} of {}", "one", "two"), "one of two");
    assert_eq!(fill2("{} {}", "{}", "x"), "{} x");
}

#[test]
fn texts_are_joined_and_cut() {
    assert_eq!(join(&words(&["a", "b", "c"]), ", "), "a, b, c");
    assert_eq!(join(&Vec::new(), ", "), "");
    assert_eq!(cut("k=v=w", '='), Some(("k".to_owned(), "v=w".to_owned())));
    assert_eq!(cut("kv", '='), None);
    assert_eq!(cut_text("https://a/b", "://"), Some(("https".to_owned(), "a/b".to_owned())));
    assert_eq!(behind("kubernetes:prod", "kubernetes:"), Some("prod".to_owned()));
    assert_eq!(behind("prod", "kubernetes:"), None);
    assert!(among(&words(&["a", "b"]), "b"));
    assert!(!among(&words(&["a", "b"]), "B"));
}

#[test]
fn texts_are_the_same_by_their_characters() {
    assert!(same("", ""));
    assert!(same("é", "é"));
    assert!(!same("é", "e\u{301}"));
    assert!(!same("ab", "abc"));
    assert!(!same("abd", "abc"));
}

#[test]
fn case_is_that_of_ascii() {
    assert_eq!(lower("FOREground"), "foreground");
    assert!(same_but_case("Widgets", "wIDGETS"));
    assert!(!same_but_case("Widget", "Widgets"));
}

#[test]
fn blanks_are_white_space() {
    assert!(blank(" \t\u{3000}"));
    assert!(blank(""));
    assert!(!blank(" x "));
    assert_eq!(trim_end("/home/me//", '/'), "/home/me");
    assert_eq!(replace("a/b/c", '/', "~1"), "a~1b~1c");
}

#[test]
fn numbers_are_written_and_read_back() {
    assert_eq!(number(0), "0");
    assert_eq!(number(u128::MAX), "340282366920938463463374607431768211455");
    assert_eq!(signed(i64::MIN), "-9223372036854775808");
    assert_eq!(wide(7, 3), "007");
    assert_eq!(whole("-9223372036854775808"), Some(i64::MIN));
    assert_eq!(whole("9223372036854775808"), None);
    assert_eq!(whole("+5"), Some(5));
    assert_eq!(whole("1.5"), None);
    assert_eq!(natural("65535", 65_535), Some(65_535));
    assert_eq!(natural("65536", 65_535), None);
    assert_eq!(natural("", 65_535), None);
}

#[test]
fn texts_are_sorted_by_their_characters() {
    assert!(no_later("Pod", "pod"));
    assert!(!no_later("b", "a"));
    assert_eq!(sort(&words(&["b", "a", "b"])), words(&["a", "b", "b"]));
    assert_eq!(sort_once(&words(&["b", "a", "b"])), words(&["a", "b"]));
}

#[test]
fn a_document_is_read_whole_or_not_at_all() {
    let read = read_document(r#"{"b": [1, -2, null, true, "x"], "a": {}}"#).expect("a document");
    assert_eq!(
        read,
        Json::Object(vec![
            ("a".to_owned(), Json::Object(Vec::new())),
            (
                "b".to_owned(),
                Json::Array(vec![
                    Json::Integer(1),
                    Json::Integer(-2),
                    Json::Null,
                    Json::Bool(true),
                    Json::Text("x".to_owned()),
                ])
            ),
        ])
    );
    assert_eq!(read_document("{"), None);
    assert_eq!(read_document_bytes(br#"[18446744073709551615]"#), Ok(Json::Array(vec![
        Json::Integer(18_446_744_073_709_551_615)
    ])));
    let fault = read_document_bytes(b"{").unwrap_err();
    assert!(fault.contains("EOF"), "{fault}");
}

#[test]
fn a_document_is_rendered_compactly() {
    let read = read_document(r#"{ "b" : [1, 2.5] , "a" : "q\"uote" }"#).expect("a document");
    assert_eq!(render(&read), r#"{"a":"q\"uote","b":[1,2.5]}"#);
    assert!(matches!(read.field("/b/1"), Some(Json::Fraction(_))));
    let again = read.clone();
    assert_eq!(again, read);
    assert_eq!(render(&again), render(&read));
}

#[test]
fn of_two_members_of_one_name_the_last_holds() {
    let read = read_document(r#"{"a": 1, "a": 2}"#).expect("a document");
    assert_eq!(read.get("a"), Some(&Json::Integer(2)));
}

#[test]
fn a_pointer_walks_members_and_items() {
    let read = read_document(r#"{"a/b": {"m~n": [10, 20]}, "": 1}"#).expect("a document");
    assert_eq!(read.field("/a~1b/m~0n/1"), Some(&Json::Integer(20)));
    assert_eq!(read.field("/a~1b/m~0n/01"), None);
    assert_eq!(read.field("/a~1b/m~0n/2"), None);
    assert_eq!(read.field("/"), Some(&Json::Integer(1)));
    assert_eq!(read.field(""), Some(&read));
    assert_eq!(read.field("a"), None);
    assert_eq!(escape("a/b~c"), "a~1b~0c");
    assert_eq!(unescape("a~1b~0c"), "a/b~c");
    assert_eq!(escape("~1"), "~01");
    assert_eq!(escape("app.kubernetes.io/name"), "app.kubernetes.io~1name");
    assert_eq!(escape("~1/~0").replace("~1", "/").replace("~0", "~"), "~1/~0");
}

#[test]
fn numbers_are_read_at_their_width() {
    assert_eq!(Json::Integer(i64::MAX as i128).as_i64(), Some(i64::MAX));
    assert_eq!(Json::Integer(i64::MAX as i128 + 1).as_i64(), None);
    assert_eq!(Json::Integer(-1).as_u64(), None);
    assert_eq!(Json::Integer(u64::MAX as i128).as_u64(), Some(u64::MAX));
    assert_eq!(Json::Text("1".to_owned()).as_u64(), None);
}

#[test]
fn an_option_of_the_wrong_shape_is_none() {
    let options = Options {
        entries: vec![
            ("name".to_owned(), Json::Text(String::new())),
            ("port".to_owned(), Json::Integer(0)),
            ("flag".to_owned(), Json::Text("true".to_owned())),
        ],
    };
    assert_eq!(options.text("name"), Some(""));
    assert_eq!(options.some_text("name"), None);
    assert_eq!(options.natural("port"), Some(0));
    assert_eq!(options.positive("port"), None);
    assert_eq!(options.flag("flag"), None);
    assert_eq!(options.get("other"), None);
}

#[test]
fn a_map_holds_what_was_put_last() {
    let mut entries = Vec::new();
    enter(&mut entries, "a", FieldValue::Int(1));
    enter(&mut entries, "b", FieldValue::Int(2));
    enter(&mut entries, "a", FieldValue::Int(3));
    assert_eq!(
        entries,
        vec![("a".to_owned(), FieldValue::Int(3)), ("b".to_owned(), FieldValue::Int(2))]
    );
    assert_eq!(count(None), FieldValue::Null);
    assert_eq!(list(&Vec::new()), FieldValue::Null);
}

#[test]
fn a_document_shows_as_values() {
    let read = read_document(r#"{"n": 1, "t": "x", "l": [true, null]}"#).expect("a document");
    assert_eq!(
        json_value(&read),
        FieldValue::Entries(vec![
            ("l".to_owned(), FieldValue::List(vec![FieldValue::Bool(true), FieldValue::Null])),
            ("n".to_owned(), FieldValue::Int(1)),
            ("t".to_owned(), FieldValue::Text("x".to_owned())),
        ])
    );
}
