use ono_kubernetes_plugin::calendar::{civil_from_days, rfc3339};
use ono_kubernetes_plugin::records::instant;
use ono_kubernetes_plugin::value::FieldValue;

#[test]
fn should_render_an_instant_the_value_model_can_read_back() {
    assert_eq!(rfc3339(0), "1970-01-01T00:00:00.000Z");
    assert_eq!(rfc3339(1), "1970-01-01T00:00:00.001Z");
    assert_eq!(rfc3339(86_399_999), "1970-01-01T23:59:59.999Z");
    assert_eq!(rfc3339(86_400_000), "1970-01-02T00:00:00.000Z");
    assert_eq!(rfc3339(1_709_164_800_000), "2024-02-29T00:00:00.000Z");
    assert_eq!(rfc3339(951_782_400_000), "2000-02-29T00:00:00.000Z");
    assert_eq!(rfc3339(951_868_800_000), "2000-03-01T00:00:00.000Z");
    assert_eq!(rfc3339(1_757_073_845_678), "2025-09-05T12:04:05.678Z");
}

#[test]
fn should_parse_back_into_the_value_model_s_own_timestamp() {
    let FieldValue::Instant(text) = instant(1_757_073_845_678) else {
        panic!("an instant this package renders must be one the value model reads");
    };
    assert_eq!(text, "2025-09-05T12:04:05.678Z");
}

#[test]
fn a_day_has_its_date() {
    assert_eq!(civil_from_days(0), (1970, 1, 1));
    assert_eq!(civil_from_days(-1), (1969, 12, 31));
    assert_eq!(civil_from_days(11_016), (2000, 2, 29));
    assert_eq!(civil_from_days(2_932_897), (10_000, 1, 1));
    assert_eq!(civil_from_days(i64::MAX), (25_252_734_927_768_524, 7, 27));
    assert_eq!(civil_from_days(i64::MIN), (-25_252_734_927_764_585, 6, 7));
}

#[test]
fn text_order_is_time_order() {
    let instants = [0, 999, 86_399_999, 951_782_400_000, 1_757_073_845_678, 253_402_300_799_999];
    for pair in instants.windows(2) {
        let (sooner, later) = (rfc3339(pair[0]), rfc3339(pair[1]));
        assert_eq!((sooner.len(), later.len()), (24, 24));
        assert!(sooner < later, "{sooner} {later}");
    }
    assert_eq!(rfc3339(253_402_300_799_999), "9999-12-31T23:59:59.999Z");
}
