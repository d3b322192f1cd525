use servicebus_client::duration::{parse_duration_to_seconds, seconds_to_duration};

#[test]
fn zero_renders_as_pt0s() {
    // never the bare "PT"
    assert_eq!(seconds_to_duration(0), "PT0S");
}

#[test]
fn formatting_exact_values() {
    assert_eq!(seconds_to_duration(30), "PT30S");
    assert_eq!(seconds_to_duration(60), "PT1M");
    assert_eq!(seconds_to_duration(90), "PT1M30S");
    assert_eq!(seconds_to_duration(3600), "PT1H");
    assert_eq!(seconds_to_duration(3661), "PT1H1M1S");
    assert_eq!(seconds_to_duration(604800), "PT168H");
}

#[test]
fn parsing_exact_values() {
    assert_eq!(parse_duration_to_seconds("PT30S"), Some(30));
    assert_eq!(parse_duration_to_seconds("PT1H"), Some(3600));
    assert_eq!(parse_duration_to_seconds("PT1H2M3S"), Some(3723));
    assert_eq!(parse_duration_to_seconds("PT"), Some(0));
}

#[test]
fn parsing_rejects_malformed_durations() {
    assert_eq!(parse_duration_to_seconds(""), None);
    assert_eq!(parse_duration_to_seconds("abc"), None);
    assert_eq!(parse_duration_to_seconds("PT5X"), None);
    assert_eq!(parse_duration_to_seconds("PT1S2M"), None);
    assert_eq!(parse_duration_to_seconds("PTH"), None);
    assert_eq!(parse_duration_to_seconds("30S"), None);
}

#[test]
fn format_then_parse_round_trips() {
    let samples: [u64; 12] = [0, 1, 59, 60, 61, 3599, 3600, 3661, 86400, 123456, 604800, 999999999];
    for s in samples {
        let text = seconds_to_duration(s);
        assert_eq!(parse_duration_to_seconds(&text), Some(s), "round trip of {}", s);
    }
}
