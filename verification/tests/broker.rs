use ono_kubernetes_plugin::broker::{
    decode_hex, encode_hex, overlapping_borrow, protocol_error, BrokeredStream, ReadPolicy, ReadStep,
    CANCELLED, CLOSED, CONNECTION_FAILED, NOT_HEXADECIMAL, OVERLAP, QUIET, SILENT,
};
use ono_kubernetes_plugin::document::read_document;
use ono_kubernetes_plugin::json::Json;

fn json(text: &str) -> Json {
    read_document(text).expect("a document")
}

fn stream(policy: ReadPolicy) -> BrokeredStream {
    BrokeredStream::connect(&json(r#"{"handle": 7}"#), policy).expect("a handle")
}

#[test]
fn should_round_trip_every_byte_through_the_wire_encoding() {
    let all: Vec<u8> = (0..=255).collect();
    let text = encode_hex(&all);
    assert_eq!(text.len(), all.len() * 2);
    assert_eq!(decode_hex(&text).as_deref(), Some(all.as_slice()));
}

#[test]
fn should_refuse_a_chunk_that_is_not_whole_hexadecimal_bytes() {
    assert_eq!(decode_hex("abc"), None);
    assert_eq!(decode_hex("zz"), None);
    assert_eq!(decode_hex(""), Some(Vec::new()));
}

#[test]
fn should_encode_a_request_line_the_way_the_host_reads_it_back() {
    assert_eq!(encode_hex(b"GET /api"), "474554202f617069");
}

#[test]
fn upper_case_digits_are_read_and_never_written() {
    assert_eq!(decode_hex("0F1a"), Some(vec![15, 26]));
    assert_eq!(encode_hex(&[15, 26]), "0f1a");
}

#[test]
fn a_request_waits_three_windows_and_a_watch_one() {
    let request = ReadPolicy::request();
    assert_eq!(request.deadline_millis, 30_000);
    assert_eq!(request.idle_windows, Some(3));
    assert_eq!(request.quiet_windows, None);
    let watch = ReadPolicy::watch();
    assert_eq!(watch.deadline_millis, 250);
    assert_eq!(watch.idle_windows, None);
    assert_eq!(watch.quiet_windows, Some(1));
    assert_eq!(ReadPolicy::default(), request);
}

#[test]
fn a_connection_without_a_handle_is_a_protocol_error() {
    let error = BrokeredStream::connect(&json("{}"), ReadPolicy::request()).unwrap_err();
    assert_eq!(error, protocol_error("the host answered `network.connect` with no handle"));
    assert_eq!(error.help, None);
}

#[test]
fn bytes_are_taken_in_order_and_handed_out_as_asked() {
    let mut stream = stream(ReadPolicy::request());
    assert_eq!(stream.handle(), 7);
    assert!(stream.is_open());
    let arrived = stream.pull(&json(r#"{"values": [{"bytes": {"$bytes": "474554"}}, {"bytes": {"$bytes": "20"}}]}"#));
    assert_eq!(arrived.expect("bytes"), 4);
    assert_eq!(stream.deliver(3), b"GET".to_vec());
    assert_eq!(stream.deliver(3), b" ".to_vec());
}

#[test]
fn a_body_ends_only_behind_its_last_byte() {
    let mut stream = stream(ReadPolicy::request());
    let arrived = stream.pull(&json(r#"{"values": [{"bytes": {"$bytes": "41"}}], "complete": true}"#));
    assert_eq!(arrived.expect("bytes"), 1);
    assert!(!stream.is_open());
    assert_eq!(stream.read_step(), ReadStep::Deliver);
    assert_eq!(stream.deliver(8), b"A".to_vec());
    assert_eq!(stream.read_step(), ReadStep::End);
}

#[test]
fn a_chunk_that_is_no_encoding_is_refused() {
    let mut stream = stream(ReadPolicy::request());
    let error = stream.pull(&json(r#"{"values": [{"bytes": {"$bytes": "4"}}]}"#)).unwrap_err();
    assert_eq!(error.message, NOT_HEXADECIMAL);
}

#[test]
fn a_failure_the_host_reports_closes_the_stream() {
    let mut stream = stream(ReadPolicy::request());
    let error = stream
        .pull(&json(r#"{"complete": true, "error": {"message": "reset by peer"}}"#))
        .unwrap_err();
    assert_eq!(error.message, "reset by peer");
    assert!(!error.quiet);
    assert!(!stream.is_open());
    let unsaid = stream.pull(&json(r#"{"complete": true, "error": {"message": 3}}"#)).unwrap_err();
    assert_eq!(unsaid.message, CONNECTION_FAILED);
}

#[test]
fn silence_ends_a_request_and_quiets_a_watch() {
    let request = stream(ReadPolicy::request());
    assert_eq!(request.window(0, false, 0), Ok(1));
    assert_eq!(request.window(5, false, 2), Ok(2));
    let silent = request.window(0, false, 2).unwrap_err();
    assert_eq!(silent.message, SILENT.replacen("{}", "30", 1).replacen("{}", "3", 1));
    assert!(!silent.quiet);
    let watch = stream(ReadPolicy::watch());
    let quiet = watch.window(0, false, 0).unwrap_err();
    assert_eq!(quiet.message, QUIET);
    assert!(quiet.quiet);
    assert_eq!(watch.window(0, true, 0).unwrap_err().message, CANCELLED);
}

#[test]
fn nothing_is_written_to_a_closed_stream() {
    let mut stream = stream(ReadPolicy::request());
    assert_eq!(stream.write_all(b"hi").expect("open"), "6869");
    stream.pull(&json(r#"{"complete": true}"#)).expect("nothing");
    assert_eq!(stream.write_all(b"hi").unwrap_err().message, CLOSED);
}

#[test]
fn a_context_lent_twice_is_a_trap() {
    let error = overlapping_borrow();
    assert_eq!(error.name, "runtime.trap");
    assert_eq!(error.message, OVERLAP);
}
