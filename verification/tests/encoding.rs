use bosun_emitter::json::{frame_datum, frame_metadata, frame_metadata_record, frame_object};
use bosun_emitter::{now_in_ms, Datum, EmitterError, Metadata, Tags};
use bosun_emitter::clock::Moment;
use rustc_serialize::json::Json;

#[test]
fn metadata_document_is_three_records() {
    let metadata = Metadata::new("lukas.tests.count", "counter", "Tests", "Amount of Lukas Tests");
    let json = metadata.to_json().unwrap();
    assert_eq!(
        json,
        "[{\"metric\":\"lukas.tests.count\",\"name\":\"unit\",\"value\":\"Tests\"},\
         {\"metric\":\"lukas.tests.count\",\"name\":\"rate\",\"value\":\"counter\"},\
         {\"metric\":\"lukas.tests.count\",\"name\":\"desc\",\"value\":\"Amount of Lukas Tests\"}]"
    );
    let parsed = Json::from_str(&json).unwrap();
    let expected = "[{\"value\":\"Tests\",\"name\":\"unit\",\"metric\":\"lukas.tests.count\"},{\"metric\":\"lukas.tests.count\",\"value\":\"counter\",\"name\":\"rate\"},{\"name\":\"desc\",\"metric\":\"lukas.tests.count\",\"value\":\"Amount of Lukas Tests\"}]";
    assert_eq!(Json::from_str(expected).unwrap(), parsed);
}

#[test]
fn metadata_round_trip() {
    let metric = "app.requests";
    let rate = "counter";
    let unit = "count \"per\" second\\minute";
    let description = "Total requests\n\tof Köln, tab and newline";
    let json = Metadata::new(metric, rate, unit, description).to_json().unwrap();
    let parsed = Json::from_str(&json).unwrap();
    let array = parsed.as_array().unwrap();
    assert_eq!(array.len(), 3);
    let mut pairs: Vec<(String, String)> = Vec::new();
    for record in array {
        let object = record.as_object().unwrap();
        assert_eq!(object.len(), 3);
        assert_eq!(record.find("metric").unwrap().as_string().unwrap(), metric);
        pairs.push((
            record.find("name").unwrap().as_string().unwrap().to_string(),
            record.find("value").unwrap().as_string().unwrap().to_string(),
        ));
    }
    pairs.sort();
    assert_eq!(
        pairs,
        vec![
            ("desc".to_string(), description.to_string()),
            ("rate".to_string(), rate.to_string()),
            ("unit".to_string(), unit.to_string()),
        ]
    );
}

#[test]
fn metadata_keeps_its_fields() {
    let metadata = Metadata::new("m", "gauge", "sec", "d");
    assert_eq!(metadata.metric, "m");
    assert_eq!(metadata.rate, "gauge");
    assert_eq!(metadata.unit, "sec");
    assert_eq!(metadata.description, "d");
}

#[test]
fn datum_document_is_one_object() {
    let mut tags = Tags::new();
    tags.insert("host".to_string(), "test-vm".to_string());
    let datum = Datum::new("lukas.tests.count", 1458066838, "1", &tags);
    let json = datum.to_json().unwrap();
    let expected = "{\"metric\":\"lukas.tests.count\",\"timestamp\":1458066838,\"value\":\"1\",\"tags\":{\"host\":\"test-vm\"}}";
    assert_eq!(expected, json);
}

#[test]
fn datum_without_tags_has_an_empty_tags_object() {
    let tags = Tags::new();
    let json = Datum::new("m", 0, "v", &tags).to_json().unwrap();
    assert_eq!(json, "{\"metric\":\"m\",\"timestamp\":0,\"value\":\"v\",\"tags\":{}}");
    let parsed = Json::from_str(&json).unwrap();
    assert!(parsed.find("tags").unwrap().is_object());
    assert!(parsed.find("tags").unwrap().as_object().unwrap().is_empty());
}

#[test]
fn datum_round_trip() {
    let mut tags = Tags::new();
    tags.insert("host".to_string(), "web\"01\"".to_string());
    tags.insert("dc".to_string(), "Köln\\1".to_string());
    tags.insert("line".to_string(), "a\nb".to_string());
    let datum = Datum::new("app.requests", 1458066838123, "42.5", &tags);
    let json = datum.to_json().unwrap();
    let parsed = Json::from_str(&json).unwrap();
    let object = parsed.as_object().unwrap();
    assert_eq!(object.len(), 4);
    assert_eq!(parsed.find("metric").unwrap().as_string().unwrap(), "app.requests");
    assert_eq!(parsed.find("timestamp").unwrap().as_i64().unwrap(), 1458066838123);
    assert!(parsed.find("value").unwrap().is_string());
    assert_eq!(parsed.find("value").unwrap().as_string().unwrap(), "42.5");
    let parsed_tags = parsed.find("tags").unwrap().as_object().unwrap();
    assert_eq!(parsed_tags.len(), 3);
    assert_eq!(parsed_tags.get("host").unwrap().as_string().unwrap(), "web\"01\"");
    assert_eq!(parsed_tags.get("dc").unwrap().as_string().unwrap(), "Köln\\1");
    assert_eq!(parsed_tags.get("line").unwrap().as_string().unwrap(), "a\nb");
}

#[test]
fn datum_timestamp_is_written_in_decimal() {
    let tags = Tags::new();
    for (timestamp, text) in [
        (0i64, "0"),
        (7, "7"),
        (10, "10"),
        (-1, "-1"),
        (-1458066838, "-1458066838"),
        (i64::MAX, "9223372036854775807"),
        (i64::MIN, "-9223372036854775808"),
    ] {
        let json = Datum::new("m", timestamp, "v", &tags).to_json().unwrap();
        assert_eq!(
            json,
            format!("{{\"metric\":\"m\",\"timestamp\":{},\"value\":\"v\",\"tags\":{{}}}}", text)
        );
        let parsed = Json::from_str(&json).unwrap();
        let number = parsed.find("timestamp").unwrap();
        if timestamp < 0 {
            assert_eq!(number.as_i64(), Some(timestamp));
        } else {
            assert_eq!(number.as_u64(), Some(timestamp as u64));
        }
    }
}

#[test]
fn strings_are_escaped_by_the_encoder() {
    let tags = Tags::new();
    let json = Datum::new("a\"b", 1, "c\\d", &tags).to_json().unwrap();
    assert_eq!(json, "{\"metric\":\"a\\\"b\",\"timestamp\":1,\"value\":\"c\\\\d\",\"tags\":{}}");
    let json = Metadata::new("m", "r", "u", "tab\there").to_json().unwrap();
    assert!(json.ends_with("{\"metric\":\"m\",\"name\":\"desc\",\"value\":\"tab\\there\"}]"));
}

#[test]
fn tags_are_written_in_their_order() {
    let mut tags = Tags::new();
    tags.insert("b".to_string(), "2".to_string());
    tags.insert("a".to_string(), "1".to_string());
    tags.insert("b".to_string(), "3".to_string());
    let json = Datum::new("m", 5, "v", &tags).to_json().unwrap();
    assert_eq!(
        json,
        "{\"metric\":\"m\",\"timestamp\":5,\"value\":\"v\",\"tags\":{\"b\":\"3\",\"a\":\"1\"}}"
    );
}

#[test]
fn datum_keeps_its_fields() {
    let tags = Tags::new();
    let datum = Datum::new("m", 12, "v", &tags);
    assert_eq!(datum.metric, "m");
    assert_eq!(datum.timestamp, 12);
    assert_eq!(datum.value, "v");
    assert!(datum.tags.is_empty());
}

#[test]
fn frames_are_built_from_literals() {
    assert_eq!(
        frame_metadata_record("\"m\"", "\"unit\"", "\"u\""),
        "{\"metric\":\"m\",\"name\":\"unit\",\"value\":\"u\"}"
    );
    assert_eq!(
        frame_metadata("M", "U", "R", "D"),
        "[{\"metric\":M,\"name\":\"unit\",\"value\":U},{\"metric\":M,\"name\":\"rate\",\"value\":R},{\"metric\":M,\"name\":\"desc\",\"value\":D}]"
    );
    assert_eq!(frame_object(&vec![]), "{}");
    assert_eq!(frame_object(&vec![("K".to_string(), "V".to_string())]), "{K:V}");
    assert_eq!(
        frame_object(&vec![
            ("K".to_string(), "V".to_string()),
            ("L".to_string(), "W".to_string()),
            ("M".to_string(), "X".to_string())
        ]),
        "{K:V,L:W,M:X}"
    );
    assert_eq!(
        frame_datum("M", "1", "V", "{}"),
        "{\"metric\":M,\"timestamp\":1,\"value\":V,\"tags\":{}}"
    );
}

#[test]
fn millis_are_seconds_times_thousand_plus_milliseconds() {
    assert_eq!(Moment { seconds: 1458066838, nanoseconds: 123_456_789 }.millis(), 1458066838123);
    assert_eq!(Moment { seconds: 0, nanoseconds: 999_999 }.millis(), 0);
    assert_eq!(Moment { seconds: 0, nanoseconds: 1_000_000 }.millis(), 1);
    assert_eq!(Moment { seconds: 1, nanoseconds: 0 }.millis(), 1000);
    assert_eq!(Moment { seconds: -1, nanoseconds: 500_000_000 }.millis(), -500);
    // a leap second shows as a second billion of nanoseconds
    assert_eq!(Moment { seconds: 59, nanoseconds: 1_999_999_999 }.millis(), 60_999);
    assert_eq!(Moment { seconds: 9_223_372_036_854_775, nanoseconds: 807_000_000 }.millis(), i64::MAX);
    assert_eq!(Moment { seconds: -9_223_372_036_854_776, nanoseconds: 192_000_000 }.millis(), i64::MIN);
}

#[test]
fn datum_at_a_reading_has_the_reading_in_milliseconds() {
    let tags = Tags::new();
    let reading = Moment { seconds: 1458066838, nanoseconds: 123_456_789 };
    let datum = Datum::at("m", reading, "v", &tags);
    assert_eq!(datum.timestamp, 1458066838123);
    assert_eq!(datum.metric, "m");
    assert_eq!(datum.value, "v");
    assert!(datum.tags.is_empty());
    // milliseconds, not a number scaled to microseconds
    assert_ne!(datum.timestamp, 1458066838000 + 123_456);
    let datum = Datum::at("m", Moment { seconds: 0, nanoseconds: 999_999_999 }, "v", &tags);
    assert_eq!(datum.timestamp, 999);
}

#[test]
fn now_is_within_two_seconds_of_the_wall_clock() {
    let before = std::time::SystemTime::now()
        .duration_since(std::time::UNIX_EPOCH)
        .unwrap()
        .as_millis() as i64;
    let now = now_in_ms();
    let tags = Tags::new();
    let datum = Datum::now("m", "v", &tags);
    assert!((now - before).abs() <= 2000, "now_in_ms gave {} at {}", now, before);
    assert!((datum.timestamp - before).abs() <= 2000);
    assert_eq!(datum.metric, "m");
    assert_eq!(datum.value, "v");
}

#[test]
fn encoding_failures_exit_with_one() {
    let failure = EmitterError::JsonParseError(rustc_serialize::json::EncoderError::BadHashmapKey);
    assert_eq!(failure.exit_code(), 1);
    assert_eq!(EmitterError::EmitError("refused".to_string()).exit_code(), 2);
    assert_eq!(EmitterError::ReceiveError("500".to_string()).exit_code(), 3);
}
