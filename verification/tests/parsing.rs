use site24x7_exporter::json::{parse_json, JsonError, JsonValue};
use site24x7_exporter::parsing::{current_status_from_json, parse_current_status};
use site24x7_exporter::site24x7_types::{
    CurrentStatusError, Location, Monitor, MonitorGroup, MonitorMaybe, Status, Tag, Timestamp,
};

const EMPTY_RESPONSE: &str = r#"{"code": 0, "message": "success", "data": {}}"#;

const EMPTY_LISTS: &str =
    r#"{"code": 0, "message": "success", "data": {"monitors": [], "monitor_groups": []}}"#;

const PARTIAL_LOCATION_DATA: &str = r#"{
  "code": 0,
  "message": "success",
  "data": {
    "monitors": [
      {
        "name": "test",
        "monitor_type": "URL",
        "status": 1,
        "locations": [
          { "location_name": "London - UK" },
          {
            "status": 1,
            "attribute_value": 757,
            "location_name": "Bucharest - RO",
            "last_polled_time": "2021-01-06T18:53:06+0000"
          }
        ],
        "attributeName": "RESPONSETIME",
        "monitor_id": "01",
        "last_polled_time": "2021-01-06T18:53:07+0000"
      }
    ]
  }
}"#;

const NO_ATTRIBUTE_VALUE: &str = r#"{
  "code": 0,
  "message": "success",
  "data": {
    "monitors": [
      {
        "name": "test",
        "monitor_type": "URL",
        "status": 1,
        "locations": [
          {
            "status": 1,
            "location_name": "London - UK",
            "last_polled_time": "2021-01-06T18:53:06+0000"
          },
          {
            "status": 1,
            "attribute_value": 757,
            "location_name": "Bucharest - RO",
            "last_polled_time": "2021-01-06T18:53:06+0000"
          }
        ],
        "attributeName": "RESPONSETIME",
        "monitor_id": "01",
        "last_polled_time": "2021-01-06T18:53:07+0000"
      }
    ]
  }
}"#;

const FULL: &str = r#"{
  "code": 0,
  "message": "success",
  "data": {
    "monitor_groups": [
      {
        "group_id": "01",
        "group_name": "production",
        "status": 0,
        "monitors": [
          {
            "name": "production (realbrowser)",
            "monitor_type": "REALBROWSER",
            "unit": "ms",
            "attribute_key": "transaction_time",
            "status": 0,
            "locations": [
              {
                "status": 1,
                "attribute_value": 27458,
                "location_name": "Falkenstein - DE",
                "last_polled_time": "2021-01-06T18:27:41+0000"
              },
              {
                "status": 0,
                "attribute_value": "-",
                "location_name": "Shenzhen - CHN",
                "last_polled_time": "2021-01-06T18:27:41+0000"
              }
            ],
            "attributeName": "TRANSACTIONTIME",
            "attribute_label": "Transaction Time",
            "attribute_value": 27458,
            "monitor_id": "0101",
            "last_polled_time": "2021-01-06T18:27:41+0000"
          },
          {
            "name": "production (homepage)",
            "monitor_type": "HOMEPAGE",
            "unit": "ms",
            "attribute_key": "response_time",
            "status": 1,
            "locations": [
              {
                "status": 1,
                "attribute_value": 718,
                "location_name": "Falkenstein - DE",
                "last_polled_time": "2021-01-06T17:44:10+0000"
              },
              {
                "status": 1,
                "attribute_value": 3830,
                "location_name": "Shenzhen - CHN",
                "last_polled_time": "2021-01-06T17:44:10+0000"
              }
            ],
            "attributeName": "RESPONSETIME",
            "attribute_value": 718,
            "monitor_id": "0102",
            "last_polled_time": "2021-01-06T17:44:10+0000"
          },
          {
            "name": "production (url)",
            "monitor_type": "URL",
            "unit": "ms",
            "attribute_key": "response_time",
            "status": 1,
            "locations": [
              {
                "status": 1,
                "attribute_value": 173,
                "location_name": "Falkenstein - DE",
                "last_polled_time": "2021-01-06T18:43:27+0000"
              },
              {
                "status": 1,
                "attribute_value": 2322,
                "location_name": "Shenzhen - CHN",
                "last_polled_time": "2021-01-06T18:42:16+0000"
              }
            ],
            "attributeName": "RESPONSETIME",
            "attribute_value": 173,
            "monitor_id": "0103",
            "last_polled_time": "2021-01-06T18:43:27+0000"
          }
        ]
      },
      {
        "group_id": "02",
        "group_name": "integration",
        "monitors": [
          {
            "name": "integration (homepage)",
            "monitor_type": "HOMEPAGE",
            "unit": "ms",
            "attribute_key": "response_time",
            "status": 1,
            "locations": [
              {
                "status": 1,
                "attribute_value": 1081,
                "location_name": "Falkenstein - DE",
                "last_polled_time": "2021-01-06T18:33:34+0000"
              },
              {
                "status": 1,
                "attribute_value": 13706,
                "location_name": "Shenzhen - CHN",
                "last_polled_time": "2021-01-06T18:18:31+0000"
              }
            ],
            "attributeName": "RESPONSETIME",
            "attribute_value": 1081,
            "monitor_id": "0201",
            "tags": ["test1", "test2k:test2v", "test3k:test3v:a:b"],
            "last_polled_time": "2021-01-06T18:33:34+0000"
          }
        ]
      }
    ],
    "monitors": [
      {
        "name": "separate monitor",
        "monitor_type": "URL",
        "unit": "ms",
        "attribute_key": "response_time",
        "status": 1,
        "locations": [
          {
            "status": 1,
            "attribute_value": 1534,
            "location_name": "Singapore - SG",
            "last_polled_time": "2021-01-06T18:26:31+0000"
          },
          {
            "status": 1,
            "attribute_value": 165,
            "location_name": "London - UK",
            "last_polled_time": "2021-01-06T18:26:31+0000"
          }
        ],
        "attributeName": "RESPONSETIME",
        "attribute_value": 139,
        "monitor_id": "00",
        "last_polled_time": "2021-01-06T18:41:53+0000"
      }
    ]
  }
}"#;

fn time(text: &str) -> Option<Timestamp> {
    Some(Timestamp::parse(text).expect("a timestamp in the service's format"))
}

fn location(status: Status, attribute_value: Option<u64>, name: &str, polled: &str) -> Location {
    Location {
        status,
        attribute_value,
        location_name: name.to_string(),
        last_polled_time: time(polled),
    }
}

fn monitor_json(member: &str) -> String {
    format!(
        r#"{{"data": {{"monitors": [{{"name": "n", "monitor_type": "URL", "status": 1,
            "locations": [{{"location_name": "l"}}], "attributeName": "a", "monitor_id": "i"{}}}]}}}}"#,
        member
    )
}

fn parse_error(json: &str) -> (String, String) {
    match parse_current_status(json) {
        Err(CurrentStatusError::ParseError { path, message }) => (path, message),
        other => panic!("expected a parse error, got {:?}", other),
    }
}

/// If we get an entirely empty body, we'll treat it as if there are no monitors at all.
#[test]
fn empty_response() {
    let data = parse_current_status(EMPTY_RESPONSE).unwrap();
    assert!(data.monitor_groups.is_empty());
    assert!(data.monitors.is_empty());
}

/// Properly handle empty lists for monitors.
#[test]
fn empty_lists() {
    let data = parse_current_status(EMPTY_LISTS).unwrap();
    assert!(data.monitor_groups.is_empty());
    assert!(data.monitors.is_empty());
}

/// Sometimes very recent monitors that have yet to make their first poll will have empty data
/// in some fields.
#[test]
fn partial_location_data() {
    let data = parse_current_status(PARTIAL_LOCATION_DATA).unwrap();
    let expected_monitor = MonitorMaybe::Url(Monitor {
        name: "test".to_string(),
        unit: None,
        attribute_key: None,
        status: Status::Up,
        locations: vec![
            Location {
                status: Status::ConfigurationError,
                attribute_value: None,
                location_name: "London - UK".to_string(),
                last_polled_time: None,
            },
            location(Status::Up, Some(757), "Bucharest - RO", "2021-01-06T18:53:06+0000"),
        ],
        attribute_name: "RESPONSETIME".to_string(),
        attribute_value: None,
        monitor_id: "01".to_string(),
        tags: vec![],
        last_polled_time: time("2021-01-06T18:53:07+0000"),
    });

    assert_eq!(data.monitors, vec![expected_monitor]);
    assert!(data.monitor_groups.is_empty());
}

/// Sometimes monitors with an old `last_polled_time` will not return their last
/// `attribute_value` despite them being up.
#[test]
fn no_attribute_value_but_monitor_up() {
    let data = parse_current_status(NO_ATTRIBUTE_VALUE).unwrap();
    let expected_monitor = MonitorMaybe::Url(Monitor {
        name: "test".to_string(),
        unit: None,
        attribute_key: None,
        status: Status::Up,
        locations: vec![
            location(Status::Up, None, "London - UK", "2021-01-06T18:53:06+0000"),
            location(Status::Up, Some(757), "Bucharest - RO", "2021-01-06T18:53:06+0000"),
        ],
        attribute_name: "RESPONSETIME".to_string(),
        attribute_value: None,
        monitor_id: "01".to_string(),
        tags: vec![],
        last_polled_time: time("2021-01-06T18:53:07+0000"),
    });

    assert_eq!(data.monitors, vec![expected_monitor]);
    assert!(data.monitor_groups.is_empty());
}

/// Full test that tests a real-world case with lots of fields.
#[test]
fn full_data() {
    let data = parse_current_status(FULL).unwrap();
    let expected_monitor_group_prod = MonitorGroup {
        group_id: "01".to_string(),
        group_name: "production".to_string(),
        monitors: vec![
            MonitorMaybe::RealBrowser(Monitor {
                name: "production (realbrowser)".to_string(),
                unit: Some("ms".to_string()),
                attribute_key: Some("transaction_time".to_string()),
                status: Status::Down,
                locations: vec![
                    location(Status::Up, Some(27458), "Falkenstein - DE", "2021-01-06T18:27:41+0000"),
                    location(Status::Down, None, "Shenzhen - CHN", "2021-01-06T18:27:41+0000"),
                ],
                attribute_name: "TRANSACTIONTIME".to_string(),
                attribute_value: Some(27458),
                monitor_id: "0101".to_string(),
                tags: vec![],
                last_polled_time: time("2021-01-06T18:27:41+0000"),
            }),
            MonitorMaybe::Homepage(Monitor {
                name: "production (homepage)".to_string(),
                unit: Some("ms".to_string()),
                attribute_key: Some("response_time".to_string()),
                status: Status::Up,
                locations: vec![
                    location(Status::Up, Some(718), "Falkenstein - DE", "2021-01-06T17:44:10+0000"),
                    location(Status::Up, Some(3830), "Shenzhen - CHN", "2021-01-06T17:44:10+0000"),
                ],
                attribute_name: "RESPONSETIME".to_string(),
                attribute_value: Some(718),
                monitor_id: "0102".to_string(),
                tags: vec![],
                last_polled_time: time("2021-01-06T17:44:10+0000"),
            }),
            MonitorMaybe::Url(Monitor {
                name: "production (url)".to_string(),
                unit: Some("ms".to_string()),
                attribute_key: Some("response_time".to_string()),
                status: Status::Up,
                locations: vec![
                    location(Status::Up, Some(173), "Falkenstein - DE", "2021-01-06T18:43:27+0000"),
                    location(Status::Up, Some(2322), "Shenzhen - CHN", "2021-01-06T18:42:16+0000"),
                ],
                attribute_name: "RESPONSETIME".to_string(),
                attribute_value: Some(173),
                monitor_id: "0103".to_string(),
                tags: vec![],
                last_polled_time: time("2021-01-06T18:43:27+0000"),
            }),
        ],
    };
    let expected_monitor_group_int = MonitorGroup {
        group_id: "02".to_string(),
        group_name: "integration".to_string(),
        monitors: vec![MonitorMaybe::Homepage(Monitor {
            name: "integration (homepage)".to_string(),
            unit: Some("ms".to_string()),
            attribute_key: Some("response_time".to_string()),
            status: Status::Up,
            locations: vec![
                location(Status::Up, Some(1081), "Falkenstein - DE", "2021-01-06T18:33:34+0000"),
                location(Status::Up, Some(13706), "Shenzhen - CHN", "2021-01-06T18:18:31+0000"),
            ],
            attribute_name: "RESPONSETIME".to_string(),
            attribute_value: Some(1081),
            monitor_id: "0201".to_string(),
            tags: vec![
                Tag { key: "test1".to_string(), value: "".to_string() },
                Tag { key: "test2k".to_string(), value: "test2v".to_string() },
                Tag { key: "test3k".to_string(), value: "test3v:a:b".to_string() },
            ],
            last_polled_time: time("2021-01-06T18:33:34+0000"),
        })],
    };
    let expected_monitor = MonitorMaybe::Url(Monitor {
        name: "separate monitor".to_string(),
        unit: Some("ms".to_string()),
        attribute_key: Some("response_time".to_string()),
        status: Status::Up,
        locations: vec![
            location(Status::Up, Some(1534), "Singapore - SG", "2021-01-06T18:26:31+0000"),
            location(Status::Up, Some(165), "London - UK", "2021-01-06T18:26:31+0000"),
        ],
        attribute_name: "RESPONSETIME".to_string(),
        attribute_value: Some(139),
        monitor_id: "00".to_string(),
        tags: vec![],
        last_polled_time: time("2021-01-06T18:41:53+0000"),
    });

    assert_eq!(
        data.monitor_groups,
        vec![expected_monitor_group_prod, expected_monitor_group_int]
    );
    assert_eq!(data.monitors, vec![expected_monitor]);
}

#[test]
fn minimal_payload_is_an_empty_report() {
    let data = parse_current_status(r#"{"data":{}}"#).unwrap();
    assert!(data.monitors.is_empty());
    assert!(data.monitor_groups.is_empty());
}

#[test]
fn timestamp_is_read_by_its_parts() {
    assert_eq!(
        Timestamp::parse("2021-01-06T18:53:06+0000"),
        Some(Timestamp { seconds: 1609959186, nanos: 0, offset_seconds: 0 })
    );
    assert_eq!(
        Timestamp::parse("2021-01-06T18:53:06.250000+0130"),
        Some(Timestamp { seconds: 1609959186 - 5400, nanos: 250_000_000, offset_seconds: 5400 })
    );
    assert_eq!(Timestamp::parse("2021-01-06 18:53:06"), None);
    assert_eq!(Timestamp::parse("yesterday"), None);
}

#[test]
fn json_text_becomes_a_document() {
    let doc = parse_json(r#"{"b": [1, -2, 1.5, "x", null, true], "a": {"k": 18446744073709551615}}"#)
        .unwrap();
    assert_eq!(
        doc,
        JsonValue::Object(vec![
            (
                "a".to_string(),
                JsonValue::Object(vec![("k".to_string(), JsonValue::Number(Some(u64::MAX)))])
            ),
            (
                "b".to_string(),
                JsonValue::Array(vec![
                    JsonValue::Number(Some(1)),
                    JsonValue::Number(None),
                    JsonValue::Number(None),
                    JsonValue::Text("x".to_string()),
                    JsonValue::Null,
                    JsonValue::Bool(true),
                ])
            ),
        ])
    );
    assert_eq!(
        parse_json("{"),
        Err(JsonError {
            path: "?".to_string(),
            message: "EOF while parsing an object at line 1 column 1".to_string()
        })
    );
    assert!(parse_json("").is_err());
}

#[test]
fn document_can_be_written_by_hand() {
    let doc = JsonValue::Object(vec![(
        "data".to_string(),
        JsonValue::Object(vec![(
            "monitors".to_string(),
            JsonValue::Array(vec![JsonValue::Object(vec![(
                "monitor_type".to_string(),
                JsonValue::Text("SSL_CERT".to_string()),
            )])]),
        )]),
    )]);
    let data = current_status_from_json(Ok(doc)).unwrap();
    assert_eq!(data.monitors, vec![MonitorMaybe::Unknown]);
    let no_json = JsonError { path: "data".to_string(), message: "no JSON".to_string() };
    assert_eq!(
        current_status_from_json(Err(no_json)),
        Err(CurrentStatusError::ParseError {
            path: "data".to_string(),
            message: "no JSON".to_string()
        })
    );
}

#[test]
fn expired_credential_is_told_from_other_refusals() {
    let expired =
        r#"{"error_code": 1124, "message": "OAuth Access Token is invalid or has expired."}"#;
    assert_eq!(
        parse_current_status(expired),
        Err(CurrentStatusError::ApiAuthError(
            "OAuth Access Token is invalid or has expired.".to_string()
        ))
    );
    let other = r#"{"error_code": 500, "message": "Internal error"}"#;
    assert_eq!(
        parse_current_status(other),
        Err(CurrentStatusError::ApiUnknownError("Internal error".to_string()))
    );
    let nearly = r#"{"error_code": 1124, "message": "OAuth Access Token is invalid or has expired"}"#;
    assert_eq!(
        parse_current_status(nearly),
        Err(CurrentStatusError::ApiUnknownError(
            "OAuth Access Token is invalid or has expired".to_string()
        ))
    );
}

#[test]
fn refusal_counts_only_where_no_report_can_be_read() {
    let both = r#"{"error_code": 1, "message": "m", "data": {}}"#;
    assert!(parse_current_status(both).unwrap().monitors.is_empty());
    let broken_report = r#"{"error_code": 1, "message": "m", "data": {"monitors": 3}}"#;
    assert_eq!(
        parse_current_status(broken_report),
        Err(CurrentStatusError::ApiUnknownError("m".to_string()))
    );
    let code_too_large = r#"{"error_code": 65536, "message": "m"}"#;
    assert_eq!(
        parse_error(code_too_large),
        ("data".to_string(), "missing field".to_string())
    );
}

#[test]
fn malformed_json_is_a_parse_error_with_the_path_to_the_fault() {
    assert_eq!(
        parse_error(""),
        (".".to_string(), "EOF while parsing a value at line 1 column 0".to_string())
    );
    assert_eq!(
        parse_error("{\"data\": "),
        ("data".to_string(), "EOF while parsing a value at line 1 column 9".to_string())
    );
    assert_eq!(
        parse_error("{\"data\": {\"monitors\": [{\"name\": \"a\"}, {\"name\": tru}]}}"),
        (
            "data.monitors[1].name".to_string(),
            "expected ident at line 1 column 51".to_string()
        )
    );
    assert_eq!(
        parse_error("{\"data\": {}} x"),
        (".".to_string(), "trailing characters at line 1 column 14".to_string())
    );
}

#[test]
fn schema_mismatch_names_the_path() {
    assert_eq!(
        parse_error("[]"),
        (".".to_string(), "invalid type: expected an object".to_string())
    );
    assert_eq!(
        parse_error(r#"{"data": 1}"#),
        ("data".to_string(), "invalid type: expected an object".to_string())
    );
    assert_eq!(
        parse_error(r#"{"data": {"monitors": {}}}"#),
        ("data.monitors".to_string(), "invalid type: expected an array".to_string())
    );
    assert_eq!(
        parse_error(r#"{"data": {"monitors": [{}]}}"#),
        ("data.monitors[0].monitor_type".to_string(), "missing field".to_string())
    );
    assert_eq!(
        parse_error(r#"{"data": {"monitors": [{"monitor_type": 1}]}}"#),
        ("data.monitors[0].monitor_type".to_string(), "invalid type: expected a string".to_string())
    );
    assert_eq!(
        parse_error(r#"{"data": {"monitors": [{"monitor_type": "X"}, {"monitor_type": "URL"}]}}"#),
        ("data.monitors[1].name".to_string(), "missing field".to_string())
    );
    assert_eq!(
        parse_error(
            r#"{"data": {"monitor_groups": [{"group_id": "1", "group_name": "g"},
                {"group_id": "2"}]}}"#
        ),
        ("data.monitor_groups[1].group_name".to_string(), "missing field".to_string())
    );
    assert_eq!(
        parse_error(
            r#"{"data": {"monitor_groups": [{"group_id": "1", "group_name": "g",
                "monitors": [1]}]}}"#
        ),
        (
            "data.monitor_groups[0].monitors[0]".to_string(),
            "invalid type: expected an object".to_string()
        )
    );
}

#[test]
fn eleventh_item_is_named_in_decimal() {
    let mut items = Vec::new();
    for _ in 0..11 {
        items.push(r#"{"monitor_type": "other"}"#.to_string());
    }
    items.push("{}".to_string());
    let json = format!(r#"{{"data": {{"monitors": [{}]}}}}"#, items.join(","));
    assert_eq!(
        parse_error(&json),
        ("data.monitors[11].monitor_type".to_string(), "missing field".to_string())
    );
}

#[test]
fn monitor_needs_its_required_fields() {
    assert!(parse_current_status(&monitor_json("")).is_ok());
    let no_locations = r#"{"data": {"monitors": [{"name": "n", "monitor_type": "URL",
        "attributeName": "a", "monitor_id": "i"}]}}"#;
    assert_eq!(
        parse_error(no_locations),
        ("data.monitors[0].locations".to_string(), "missing field".to_string())
    );
    let empty_locations = r#"{"data": {"monitors": [{"name": "n", "monitor_type": "URL",
        "locations": [], "attributeName": "a", "monitor_id": "i"}]}}"#;
    assert_eq!(
        parse_error(empty_locations),
        (
            "data.monitors[0].locations".to_string(),
            "invalid length: expected at least one location".to_string()
        )
    );
    let nameless_location = r#"{"data": {"monitors": [{"name": "n", "monitor_type": "URL",
        "locations": [{"location_name": "l"}, {"status": 1}], "attributeName": "a",
        "monitor_id": "i"}]}}"#;
    assert_eq!(
        parse_error(nameless_location),
        ("data.monitors[0].locations[1].location_name".to_string(), "missing field".to_string())
    );
    let no_id = r#"{"data": {"monitors": [{"name": "n", "monitor_type": "URL",
        "locations": [{"location_name": "l"}], "attributeName": "a"}]}}"#;
    assert_eq!(
        parse_error(no_id),
        ("data.monitors[0].monitor_id".to_string(), "missing field".to_string())
    );
}

#[test]
fn optional_fields_resolve_to_absent() {
    let json = monitor_json(
        r#", "unit": 5, "attribute_key": null, "attribute_value": "-", "last_polled_time": null"#,
    );
    let data = parse_current_status(&json).unwrap();
    match &data.monitors[0] {
        MonitorMaybe::Url(m) => {
            assert_eq!(m.unit, None);
            assert_eq!(m.attribute_key, None);
            assert_eq!(m.attribute_value, None);
            assert_eq!(m.last_polled_time, None);
            assert_eq!(m.tags, vec![]);
            assert_eq!(m.locations[0].status, Status::ConfigurationError);
            assert_eq!(m.locations[0].attribute_value, None);
        }
        other => panic!("expected a URL monitor, got {:?}", other),
    }
    for quirk in ["-1", "1.5", "\"12\"", "null", "[]", "18446744073709551616"] {
        let json = monitor_json(&format!(r#", "attribute_value": {}"#, quirk));
        match &parse_current_status(&json).unwrap().monitors[0] {
            MonitorMaybe::Url(m) => assert_eq!(m.attribute_value, None, "{}", quirk),
            other => panic!("expected a URL monitor, got {:?}", other),
        }
    }
}

#[test]
fn unknown_status_code_is_a_configuration_error() {
    for (code, status) in [
        (0, Status::Down),
        (1, Status::Up),
        (2, Status::Trouble),
        (3, Status::Critical),
        (4, Status::ConfigurationError),
        (5, Status::Suspended),
        (6, Status::ConfigurationError),
        (7, Status::Maintenance),
        (8, Status::ConfigurationError),
        (9, Status::Discovery),
        (10, Status::ConfigurationError),
        (11, Status::ConfigurationError),
        (300, Status::ConfigurationError),
    ] {
        let json = format!(
            r#"{{"data": {{"monitors": [{{"name": "n", "monitor_type": "URL", "status": {},
            "locations": [{{"location_name": "l", "status": {}}}], "attributeName": "a",
            "monitor_id": "i"}}]}}}}"#,
            code, code
        );
        match &parse_current_status(&json).unwrap().monitors[0] {
            MonitorMaybe::Url(m) => {
                assert_eq!(m.status, status);
                assert_eq!(m.locations[0].status, status);
            }
            other => panic!("expected a URL monitor, got {:?}", other),
        }
    }
    assert_eq!(
        parse_error(&monitor_json("").replace("\"status\": 1", "\"status\": \"up\"")),
        (
            "data.monitors[0].status".to_string(),
            "invalid type: expected an unsigned integer".to_string()
        )
    );
}

#[test]
fn timestamp_in_another_format_fails_the_parse() {
    assert_eq!(
        parse_error(&monitor_json(r#", "last_polled_time": "2021-01-06 18:53:07""#)),
        (
            "data.monitors[0].last_polled_time".to_string(),
            "invalid timestamp: expected YYYY-MM-DDThh:mm:ss[.ffffff]+hhmm".to_string()
        )
    );
    assert_eq!(
        parse_error(&monitor_json(r#", "last_polled_time": 1609959186"#)),
        ("data.monitors[0].last_polled_time".to_string(), "invalid type: expected a string".to_string())
    );
    let fractional = monitor_json(r#", "last_polled_time": "2021-01-06T18:53:07.123456+0100""#);
    match &parse_current_status(&fractional).unwrap().monitors[0] {
        MonitorMaybe::Url(m) => assert_eq!(
            m.last_polled_time,
            Some(Timestamp { seconds: 1609959187 - 3600, nanos: 123_456_000, offset_seconds: 3600 })
        ),
        other => panic!("expected a URL monitor, got {:?}", other),
    }
}

#[test]
fn unknown_monitor_kind_is_kept_as_unknown() {
    let json = r#"{"data": {"monitors": [{"monitor_type": "SSL_CERT", "name": 7},
        {"monitor_type": "url"}]}}"#;
    let data = parse_current_status(json).unwrap();
    assert_eq!(data.monitors, vec![MonitorMaybe::Unknown, MonitorMaybe::Unknown]);
    assert_eq!(data.monitors[0].to_string(), "Unknown");
}

#[test]
fn tags_must_be_texts() {
    assert_eq!(
        parse_error(&monitor_json(r#", "tags": ["a:b", 3]"#)),
        ("data.monitors[0].tags[1]".to_string(), "invalid type: expected a string".to_string())
    );
    assert_eq!(
        parse_error(&monitor_json(r#", "tags": "a:b""#)),
        ("data.monitors[0].tags".to_string(), "invalid type: expected an array".to_string())
    );
}

#[test]
fn error_is_written_in_words() {
    assert_eq!(
        CurrentStatusError::ApiAuthError("expired".to_string()).to_string(),
        "API auth error: expired"
    );
    assert_eq!(
        CurrentStatusError::ApiUnknownError("broken".to_string()).to_string(),
        "Unknown API error: broken"
    );
    assert_eq!(
        CurrentStatusError::ParseError {
            path: "data.monitors".to_string(),
            message: "invalid type: expected an array".to_string()
        }
        .to_string(),
        "Parse error: data.monitors: invalid type: expected an array"
    );
    assert_eq!(
        CurrentStatusError::ParseError { path: ".".to_string(), message: "EOF".to_string() }
            .to_string(),
        "Parse error: .: EOF"
    );
    assert_eq!(CurrentStatusError::Other("timed out".to_string()).to_string(), "timed out");
}
