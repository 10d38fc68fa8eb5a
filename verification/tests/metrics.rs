use prometheus::{Encoder, GaugeVec, IntGaugeVec, Opts, Registry, TextEncoder};
use site24x7_exporter::metrics::{
    cleanup_metrics_for_monitors, has_monitor_with_label_values, set_metrics_for_monitors,
    update_metrics_from_current_status,
};
use site24x7_exporter::series::{ExportedSeries, Latency, Series, SeriesKey};
use site24x7_exporter::parsing::parse_current_status;
use site24x7_exporter::site24x7_types::{
    CurrentStatusData, Location, Monitor, MonitorGroup, MonitorMaybe, Status,
};

const EMPTY_RESPONSE: &str = r#"{"code": 0, "message": "success", "data": {}}"#;

const SIMPLE_TWO_LOCATIONS: &str = r#"{
  "code": 0,
  "message": "success",
  "data": {
    "monitors": [
      {
        "name": "test",
        "monitor_type": "URL",
        "status": 1,
        "locations": [
          {
            "status": 1,
            "attribute_value": 421,
            "location_name": "London - UK",
            "last_polled_time": "2021-01-06T18:53:06+0000"
          },
          {
            "status": 1,
            "attribute_value": 757,
            "location_name": "Bucharest - RO",
            "last_polled_time": "2021-01-06T18:53:06+0000"
          }
        ],
        "attributeName": "RESPONSETIME",
        "attribute_value": 421,
        "monitor_id": "01",
        "last_polled_time": "2021-01-06T18:53:07+0000"
      }
    ]
  }
}"#;

const SIMPLE_ONE_LOCATION: &str = r#"{
  "code": 0,
  "message": "success",
  "data": {
    "monitors": [
      {
        "name": "test",
        "monitor_type": "URL",
        "status": 1,
        "locations": [
          {
            "status": 1,
            "attribute_value": 757,
            "location_name": "Bucharest - RO",
            "last_polled_time": "2021-01-06T18:53:06+0000"
          }
        ],
        "attributeName": "RESPONSETIME",
        "attribute_value": 757,
        "monitor_id": "01",
        "last_polled_time": "2021-01-06T18:53:07+0000"
      }
    ]
  }
}"#;

const SIMPLE_TWO_MONITORS: &str = r#"{
  "code": 0,
  "message": "success",
  "data": {
    "monitors": [
      {
        "name": "test1",
        "monitor_type": "URL",
        "status": 1,
        "locations": [
          { "status": 1, "attribute_value": 421, "location_name": "London - UK" }
        ],
        "attributeName": "RESPONSETIME",
        "monitor_id": "01"
      },
      {
        "name": "test2",
        "monitor_type": "URL",
        "status": 1,
        "locations": [
          { "status": 1, "attribute_value": 757, "location_name": "London - UK" }
        ],
        "attributeName": "RESPONSETIME",
        "monitor_id": "02"
      }
    ]
  }
}"#;

const SIMPLE_ONE_MONITOR: &str = r#"{
  "code": 0,
  "message": "success",
  "data": {
    "monitors": [
      {
        "name": "test1",
        "monitor_type": "URL",
        "status": 1,
        "locations": [
          { "status": 1, "attribute_value": 421, "location_name": "London - UK" }
        ],
        "attributeName": "RESPONSETIME",
        "monitor_id": "01"
      }
    ]
  }
}"#;

const NO_ATTRIBUTE_VALUE: &str = r#"{
  "code": 0,
  "message": "success",
  "data": {
    "monitors": [
      {
        "name": "test",
        "monitor_type": "URL",
        "status": 1,
        "locations": [
          {
            "status": 1,
            "location_name": "London - UK",
            "last_polled_time": "2021-01-06T18:53:06+0000"
          },
          {
            "status": 1,
            "attribute_value": 757,
            "location_name": "Bucharest - RO",
            "last_polled_time": "2021-01-06T18:53:06+0000"
          }
        ],
        "attributeName": "RESPONSETIME",
        "monitor_id": "01",
        "last_polled_time": "2021-01-06T18:53:07+0000"
      }
    ]
  }
}"#;

const DOWN_MONITOR: &str = r#"{
  "code": 0,
  "message": "success",
  "data": {
    "monitors": [
      {
        "name": "test",
        "monitor_type": "URL",
        "status": 0,
        "locations": [
          {
            "status": 0,
            "attribute_value": 27458,
            "location_name": "London - UK",
            "last_polled_time": "2021-01-06T18:53:06+0000"
          },
          {
            "status": 0,
            "attribute_value": "-",
            "location_name": "Bucharest - RO",
            "last_polled_time": "2021-01-06T18:53:06+0000"
          }
        ],
        "attributeName": "RESPONSETIME",
        "attribute_value": "-",
        "monitor_id": "01",
        "last_polled_time": "2021-01-06T18:53:07+0000"
      }
    ]
  }
}"#;

const FULL: &str = r#"{
  "code": 0,
  "message": "success",
  "data": {
    "monitor_groups": [
      {
        "group_id": "01",
        "group_name": "production",
        "monitors": [
          {
            "name": "production (realbrowser)",
            "monitor_type": "REALBROWSER",
            "unit": "ms",
            "attribute_key": "transaction_time",
            "status": 0,
            "locations": [
              {
                "status": 1,
                "attribute_value": 27458,
                "location_name": "Falkenstein - DE",
                "last_polled_time": "2021-01-06T18:27:41+0000"
              },
              {
                "status": 0,
                "attribute_value": "-",
                "location_name": "Shenzhen - CHN",
                "last_polled_time": "2021-01-06T18:27:41+0000"
              }
            ],
            "attributeName": "TRANSACTIONTIME",
            "attribute_value": 27458,
            "monitor_id": "0101",
            "last_polled_time": "2021-01-06T18:27:41+0000"
          },
          {
            "name": "production (homepage)",
            "monitor_type": "HOMEPAGE",
            "unit": "ms",
            "attribute_key": "response_time",
            "status": 1,
            "locations": [
              {
                "status": 1,
                "attribute_value": 718,
                "location_name": "Falkenstein - DE",
                "last_polled_time": "2021-01-06T17:44:10+0000"
              },
              {
                "status": 1,
                "attribute_value": 3830,
                "location_name": "Shenzhen - CHN",
                "last_polled_time": "2021-01-06T17:44:10+0000"
              }
            ],
            "attributeName": "RESPONSETIME",
            "attribute_value": 718,
            "monitor_id": "0102",
            "last_polled_time": "2021-01-06T17:44:10+0000"
          },
          {
            "name": "production (url)",
            "monitor_type": "URL",
            "unit": "ms",
            "attribute_key": "response_time",
            "status": 1,
            "locations": [
              {
                "status": 1,
                "attribute_value": 173,
                "location_name": "Falkenstein - DE",
                "last_polled_time": "2021-01-06T18:43:27+0000"
              },
              {
                "status": 1,
                "attribute_value": 2322,
                "location_name": "Shenzhen - CHN",
                "last_polled_time": "2021-01-06T18:42:16+0000"
              }
            ],
            "attributeName": "RESPONSETIME",
            "attribute_value": 173,
            "monitor_id": "0103",
            "last_polled_time": "2021-01-06T18:43:27+0000"
          }
        ]
      },
      {
        "group_id": "02",
        "group_name": "integration",
        "monitors": [
          {
            "name": "integration (homepage)",
            "monitor_type": "HOMEPAGE",
            "unit": "ms",
            "attribute_key": "response_time",
            "status": 1,
            "locations": [
              {
                "status": 1,
                "attribute_value": 1081,
                "location_name": "Falkenstein - DE",
                "last_polled_time": "2021-01-06T18:33:34+0000"
              },
              {
                "status": 1,
                "attribute_value": 13706,
                "location_name": "Shenzhen - CHN",
                "last_polled_time": "2021-01-06T18:18:31+0000"
              }
            ],
            "attributeName": "RESPONSETIME",
            "attribute_value": 1081,
            "monitor_id": "0201",
            "tags": ["test1", "test2k:test2v", "test3k:test3v:a:b"],
            "last_polled_time": "2021-01-06T18:33:34+0000"
          }
        ]
      }
    ],
    "monitors": [
      {
        "name": "separate monitor",
        "monitor_type": "URL",
        "unit": "ms",
        "attribute_key": "response_time",
        "status": 1,
        "locations": [
          {
            "status": 1,
            "attribute_value": 1534,
            "location_name": "Singapore - SG",
            "last_polled_time": "2021-01-06T18:26:31+0000"
          },
          {
            "status": 1,
            "attribute_value": 165,
            "location_name": "London - UK",
            "last_polled_time": "2021-01-06T18:26:31+0000"
          }
        ],
        "attributeName": "RESPONSETIME",
        "attribute_value": 139,
        "monitor_id": "00",
        "last_polled_time": "2021-01-06T18:41:53+0000"
      }
    ]
  }
}"#;

const LABELS: [&str; 4] = ["monitor_type", "monitor_name", "monitor_group", "location"];

/// The value that a latency gauge exports, in seconds.
fn seconds(latency: Option<Latency>) -> f64 {
    match latency {
        Some(Latency::Millis(millis)) => millis as f64 / 1000.0,
        Some(Latency::NotANumber) => f64::NAN,
        None => panic!("the latency gauge has no value"),
    }
}

/// The families that the series make up in a registry of their own.
fn gather(series: &ExportedSeries) -> Vec<prometheus::proto::MetricFamily> {
    let registry = Registry::new();
    let up = IntGaugeVec::new(
        Opts::new(
            "site24x7_monitor_up",
            "Current health status of the monitor (1 = UP, 0 = DOWN).",
        ),
        &LABELS,
    )
    .unwrap();
    let latency = GaugeVec::new(
        Opts::new("site24x7_monitor_latency_seconds", "Last measured latency in seconds."),
        &LABELS,
    )
    .unwrap();
    registry.register(Box::new(up.clone())).unwrap();
    registry.register(Box::new(latency.clone())).unwrap();
    for entry in series.series() {
        let labels = [
            entry.key.monitor_type.as_str(),
            entry.key.monitor_name.as_str(),
            entry.key.monitor_group.as_str(),
            entry.key.location.as_str(),
        ];
        up.with_label_values(&labels).set(entry.up);
        if entry.latency.is_some() {
            latency.with_label_values(&labels).set(seconds(entry.latency));
        }
    }
    registry.gather()
}

fn render(series: &ExportedSeries) -> Vec<u8> {
    let mut buffer = vec![];
    TextEncoder::new().encode(&gather(series), &mut buffer).unwrap();
    buffer
}

/// Return whether `metric_name` has a label `label_name` having `label_value` in a list `metric_families`.
fn has_label_with_value(
    metric_families: &Vec<prometheus::proto::MetricFamily>,
    metric_name: &str,
    label_name: &str,
    label_value: &str,
) -> bool {
    if let Some(metric_families) = metric_families.iter().find(|mf| mf.get_name() == metric_name) {
        metric_families
            .get_metric()
            .iter()
            .find(|m| {
                m.get_label()
                    .iter()
                    .any(|l| l.get_name() == label_name && l.get_value() == label_value)
            })
            .is_some()
    } else {
        false
    }
}

fn location(name: &str, status: Status, attribute_value: Option<u64>) -> Location {
    Location { status, attribute_value, location_name: name.to_string(), last_polled_time: None }
}

fn monitor(name: &str, locations: Vec<Location>) -> Monitor {
    Monitor {
        name: name.to_string(),
        unit: None,
        attribute_key: None,
        status: Status::Up,
        locations,
        attribute_name: "RESPONSETIME".to_string(),
        attribute_value: None,
        monitor_id: "1".to_string(),
        tags: vec![],
        last_polled_time: None,
    }
}

fn report(monitors: Vec<MonitorMaybe>, monitor_groups: Vec<MonitorGroup>) -> CurrentStatusData {
    CurrentStatusData { monitors, monitor_groups }
}

fn group(name: &str, monitors: Vec<MonitorMaybe>) -> MonitorGroup {
    MonitorGroup { monitors, group_id: name.to_string(), group_name: name.to_string() }
}

/// If we get an entirely empty body, we don't want to see any metrics getting created.
#[test]
fn no_metrics_are_created_if_empty_body() {
    let mut series = ExportedSeries::new();
    let data = parse_current_status(EMPTY_RESPONSE).unwrap();
    update_metrics_from_current_status(&mut series, &data);
    assert!(gather(&series).is_empty());
    assert_eq!(series.len(), 0);
}

/// A simple case where we expect to find two locations in the output.
#[test]
fn simple_two_locations() {
    let mut series = ExportedSeries::new();
    let data = parse_current_status(SIMPLE_TWO_LOCATIONS).unwrap();
    update_metrics_from_current_status(&mut series, &data);
    assert_eq!(series.up("URL", "test", "", "London - UK"), Some(1));
    assert_eq!(series.up("URL", "test", "", "Bucharest - RO"), Some(1));
    assert_eq!(seconds(series.latency("URL", "test", "", "London - UK")), 0.421);
    assert_eq!(seconds(series.latency("URL", "test", "", "Bucharest - RO")), 0.757);
}

/// A removed location should disappear.
#[test]
fn removed_location_should_disappear() {
    let mut series = ExportedSeries::new();
    let data_before = parse_current_status(SIMPLE_TWO_LOCATIONS).unwrap();
    let data_after = parse_current_status(SIMPLE_ONE_LOCATION).unwrap();

    // We'll update metrics twice here. `data_before` has two locations while
    // `data_after` only has one location. We therefore expect the output to only contain a
    // single location.
    update_metrics_from_current_status(&mut series, &data_before);
    update_metrics_from_current_status(&mut series, &data_after);
    let metric_families = gather(&series);

    assert!(has_label_with_value(
        &metric_families,
        "site24x7_monitor_latency_seconds",
        "location",
        "Bucharest - RO"
    ));
    // Expect the London location to be gone.
    assert!(!has_label_with_value(
        &metric_families,
        "site24x7_monitor_latency_seconds",
        "location",
        "London - UK"
    ));
    assert!(!has_label_with_value(&metric_families, "site24x7_monitor_up", "location", "London - UK"));
    assert_eq!(series.up("URL", "test", "", "London - UK"), None);
    assert_eq!(series.latency("URL", "test", "", "London - UK"), None);
}

/// A removed monitor should disappear.
#[test]
fn removed_monitors_should_disappear() {
    let mut series = ExportedSeries::new();
    let data_before = parse_current_status(SIMPLE_TWO_MONITORS).unwrap();
    let data_after = parse_current_status(SIMPLE_ONE_MONITOR).unwrap();

    update_metrics_from_current_status(&mut series, &data_before);
    update_metrics_from_current_status(&mut series, &data_after);
    let metric_families = gather(&series);

    assert!(has_label_with_value(
        &metric_families,
        "site24x7_monitor_latency_seconds",
        "monitor_name",
        "test1"
    ));
    // Expect the test2 monitor to be gone.
    assert!(!has_label_with_value(
        &metric_families,
        "site24x7_monitor_latency_seconds",
        "monitor_name",
        "test2"
    ));
}

/// An update that contains a monitor with a location that doesn't have `attribute_value`
/// set should not overwrite an existing metric with the same labels.
#[test]
fn keep_old_value_if_update_is_invalid() {
    let mut series = ExportedSeries::new();
    let data_before = parse_current_status(SIMPLE_TWO_LOCATIONS).unwrap();
    let data_after = parse_current_status(NO_ATTRIBUTE_VALUE).unwrap();

    update_metrics_from_current_status(&mut series, &data_before);
    assert_eq!(seconds(series.latency("URL", "test", "", "London - UK")), 0.421);

    update_metrics_from_current_status(&mut series, &data_after);
    assert_eq!(seconds(series.latency("URL", "test", "", "London - UK")), 0.421);
}

/// Monitors that are down should report NaN as their latency value.
#[test]
fn report_nan_for_down_monitor() {
    let mut series = ExportedSeries::new();
    let data = parse_current_status(DOWN_MONITOR).unwrap();
    update_metrics_from_current_status(&mut series, &data);
    assert_eq!(seconds(series.latency("URL", "test", "", "London - UK")), 27.458);
    assert!(seconds(series.latency("URL", "test", "", "Bucharest - RO")).is_nan());
    assert_eq!(series.latency("URL", "test", "", "Bucharest - RO"), Some(Latency::NotANumber));
    assert_eq!(series.up("URL", "test", "", "London - UK"), Some(0));
    assert_eq!(series.up("URL", "test", "", "Bucharest - RO"), Some(0));
}

/// Check that there are no changes between two identical status updates.
#[test]
fn identical_update_no_changes() {
    let mut series = ExportedSeries::new();
    let data = parse_current_status(FULL).unwrap();
    update_metrics_from_current_status(&mut series, &data);
    let before = render(&series);
    let entries_before = series.series().clone();
    update_metrics_from_current_status(&mut series, &data);
    let after = render(&series);
    assert_eq!(before, after);
    assert_eq!(&entries_before, series.series());
    assert_eq!(series.len(), 10);
    let text = String::from_utf8(after).unwrap();
    assert!(text.contains(
        "site24x7_monitor_latency_seconds{location=\"Shenzhen - CHN\",monitor_group=\"production\",monitor_name=\"production (realbrowser)\",monitor_type=\"REALBROWSER\"} NaN\n"
    ));
    assert!(text.contains(
        "site24x7_monitor_up{location=\"London - UK\",monitor_group=\"\",monitor_name=\"separate monitor\",monitor_type=\"URL\"} 1\n"
    ));
}

#[test]
fn empty_report_clears_every_series() {
    let mut series = ExportedSeries::new();
    update_metrics_from_current_status(&mut series, &parse_current_status(FULL).unwrap());
    assert_eq!(series.len(), 10);
    update_metrics_from_current_status(&mut series, &report(vec![], vec![]));
    assert_eq!(series.len(), 0);
    assert!(series.series().is_empty());
}

#[test]
fn up_is_one_only_for_up() {
    let statuses = [
        Status::Down,
        Status::Up,
        Status::Trouble,
        Status::Critical,
        Status::Suspended,
        Status::Maintenance,
        Status::Discovery,
        Status::ConfigurationError,
    ];
    for status in statuses {
        let mut series = ExportedSeries::new();
        let data = report(
            vec![MonitorMaybe::Homepage(monitor("m", vec![location("l", status, Some(1500))]))],
            vec![],
        );
        update_metrics_from_current_status(&mut series, &data);
        let expected = if status == Status::Up { 1 } else { 0 };
        assert_eq!(series.up("HOMEPAGE", "m", "", "l"), Some(expected));
        assert_eq!(series.latency("HOMEPAGE", "m", "", "l"), Some(Latency::Millis(1500)));
        assert_eq!(seconds(series.latency("HOMEPAGE", "m", "", "l")), 1.5);
    }
}

#[test]
fn up_without_measurement_leaves_latency_without_value() {
    let mut series = ExportedSeries::new();
    let data = report(
        vec![MonitorMaybe::Url(monitor("m", vec![location("l", Status::Up, None)]))],
        vec![],
    );
    update_metrics_from_current_status(&mut series, &data);
    assert_eq!(series.up("URL", "m", "", "l"), Some(1));
    assert_eq!(series.latency("URL", "m", "", "l"), None);
    let families = gather(&series);
    assert!(has_label_with_value(&families, "site24x7_monitor_up", "location", "l"));
    assert!(!has_label_with_value(&families, "site24x7_monitor_latency_seconds", "location", "l"));
}

#[test]
fn not_a_number_is_kept_while_up_without_measurement() {
    let mut series = ExportedSeries::new();
    let down = report(
        vec![MonitorMaybe::Url(monitor("m", vec![location("l", Status::Trouble, None)]))],
        vec![],
    );
    let up = report(
        vec![MonitorMaybe::Url(monitor("m", vec![location("l", Status::Up, None)]))],
        vec![],
    );
    update_metrics_from_current_status(&mut series, &down);
    assert_eq!(series.latency("URL", "m", "", "l"), Some(Latency::NotANumber));
    update_metrics_from_current_status(&mut series, &up);
    assert_eq!(series.latency("URL", "m", "", "l"), Some(Latency::NotANumber));
    assert_eq!(series.up("URL", "m", "", "l"), Some(1));
}

#[test]
fn unknown_monitors_have_no_series() {
    let mut series = ExportedSeries::new();
    let data = report(
        vec![MonitorMaybe::Unknown],
        vec![group("g", vec![MonitorMaybe::Unknown, MonitorMaybe::Unknown])],
    );
    update_metrics_from_current_status(&mut series, &data);
    assert_eq!(series.len(), 0);
    assert!(!has_monitor_with_label_values(&data.monitors, "Unknown", "", ""));
}

#[test]
fn series_of_a_group_that_left_are_removed() {
    let mut series = ExportedSeries::new();
    let both = report(
        vec![],
        vec![
            group("a", vec![MonitorMaybe::Url(monitor("m", vec![location("l", Status::Up, Some(1))]))]),
            group("b", vec![MonitorMaybe::Url(monitor("m", vec![location("l", Status::Up, Some(2))]))]),
        ],
    );
    let one = report(
        vec![],
        vec![group("b", vec![MonitorMaybe::Url(monitor("m", vec![location("l", Status::Up, None)]))])],
    );
    update_metrics_from_current_status(&mut series, &both);
    assert_eq!(series.len(), 2);
    update_metrics_from_current_status(&mut series, &one);
    assert_eq!(series.len(), 1);
    assert_eq!(series.up("URL", "m", "a", "l"), None);
    assert_eq!(series.latency("URL", "m", "a", "l"), None);
    assert_eq!(series.latency("URL", "m", "b", "l"), Some(Latency::Millis(2)));
}

#[test]
fn same_name_in_another_group_is_another_series() {
    let mut series = ExportedSeries::new();
    let data = report(
        vec![MonitorMaybe::Url(monitor("m", vec![location("l", Status::Up, Some(1))]))],
        vec![group("g", vec![MonitorMaybe::Url(monitor("m", vec![location("l", Status::Down, Some(2))]))])],
    );
    update_metrics_from_current_status(&mut series, &data);
    assert_eq!(series.len(), 2);
    assert_eq!(series.latency("URL", "m", "", "l"), Some(Latency::Millis(1)));
    assert_eq!(series.latency("URL", "m", "g", "l"), Some(Latency::Millis(2)));
    assert_eq!(series.up("URL", "m", "g", "l"), Some(0));
    assert_eq!(series.up("HOMEPAGE", "m", "g", "l"), None);
}

#[test]
fn last_reading_of_a_key_decides() {
    let mut series = ExportedSeries::new();
    let data = report(
        vec![MonitorMaybe::Url(monitor(
            "m",
            vec![
                location("l", Status::Up, Some(5)),
                location("l", Status::Down, None),
                location("l", Status::Up, None),
            ],
        ))],
        vec![],
    );
    update_metrics_from_current_status(&mut series, &data);
    assert_eq!(series.len(), 1);
    assert_eq!(series.up("URL", "m", "", "l"), Some(1));
    assert_eq!(series.latency("URL", "m", "", "l"), Some(Latency::NotANumber));
}

#[test]
fn has_monitor_looks_at_kind_name_and_location() {
    let monitors = vec![
        MonitorMaybe::Unknown,
        MonitorMaybe::Url(monitor("a", vec![location("x", Status::Up, None)])),
        MonitorMaybe::RealBrowser(monitor(
            "b",
            vec![location("x", Status::Up, None), location("y", Status::Up, None)],
        )),
    ];
    assert!(has_monitor_with_label_values(&monitors, "URL", "a", "x"));
    assert!(has_monitor_with_label_values(&monitors, "REALBROWSER", "b", "y"));
    assert!(!has_monitor_with_label_values(&monitors, "URL", "a", "y"));
    assert!(!has_monitor_with_label_values(&monitors, "URL", "b", "x"));
    assert!(!has_monitor_with_label_values(&monitors, "HOMEPAGE", "a", "x"));
    assert!(!has_monitor_with_label_values(&monitors, "url", "a", "x"));
    assert!(!has_monitor_with_label_values(&[], "URL", "a", "x"));
}

#[test]
fn set_and_cleanup_work_on_their_own() {
    let mut series = ExportedSeries::new();
    let monitors = vec![MonitorMaybe::Url(monitor(
        "a",
        vec![location("x", Status::Up, Some(10)), location("y", Status::Critical, None)],
    ))];
    set_metrics_for_monitors(&mut series, &monitors, "g");
    assert_eq!(
        series.series(),
        &vec![
            Series {
                key: SeriesKey {
                    monitor_type: "URL".to_string(),
                    monitor_name: "a".to_string(),
                    monitor_group: "g".to_string(),
                    location: "x".to_string(),
                },
                up: 1,
                latency: Some(Latency::Millis(10)),
            },
            Series {
                key: SeriesKey {
                    monitor_type: "URL".to_string(),
                    monitor_name: "a".to_string(),
                    monitor_group: "g".to_string(),
                    location: "y".to_string(),
                },
                up: 0,
                latency: Some(Latency::NotANumber),
            },
        ]
    );
    let kept = report(
        vec![],
        vec![group("g", vec![MonitorMaybe::Url(monitor("a", vec![location("y", Status::Up, None)]))])],
    );
    cleanup_metrics_for_monitors(&mut series, &kept);
    assert_eq!(series.len(), 1);
    assert_eq!(series.up("URL", "a", "g", "y"), Some(0));
    assert_eq!(series.latency("URL", "a", "g", "y"), Some(Latency::NotANumber));
    let loose = report(vec![MonitorMaybe::Url(monitor("a", vec![location("y", Status::Up, None)]))], vec![]);
    cleanup_metrics_for_monitors(&mut series, &loose);
    assert_eq!(series.len(), 0);
}

#[test]
fn series_are_set_and_removed_one_by_one() {
    let mut series = ExportedSeries::new();
    assert!(series.is_well_formed());
    series.set("URL", "m", "g", "l", Status::Up, None);
    assert_eq!(series.up("URL", "m", "g", "l"), Some(1));
    assert_eq!(series.latency("URL", "m", "g", "l"), None);
    series.set("URL", "m", "g", "l", Status::Up, Some(250));
    assert_eq!(series.latency("URL", "m", "g", "l"), Some(Latency::Millis(250)));
    series.set("URL", "m", "g", "l", Status::Maintenance, Some(u64::MAX));
    assert_eq!(series.up("URL", "m", "g", "l"), Some(0));
    assert_eq!(series.latency("URL", "m", "g", "l"), Some(Latency::Millis(u64::MAX)));
    series.set("URL", "m", "g", "l", Status::Up, None);
    assert_eq!(series.latency("URL", "m", "g", "l"), Some(Latency::Millis(u64::MAX)));
    series.set("URL", "m", "g", "other", Status::Down, None);
    series.set("URL", "m", "", "l", Status::Down, Some(3));
    assert_eq!(series.len(), 3);
    assert!(series.is_well_formed());

    let kept = report(
        vec![MonitorMaybe::Url(monitor("m", vec![location("l", Status::Up, None)]))],
        vec![group("g", vec![MonitorMaybe::Url(monitor("m", vec![location("l", Status::Up, None)]))])],
    );
    series.retain_reported(&kept);
    assert_eq!(series.len(), 2);
    assert_eq!(series.up("URL", "m", "g", "other"), None);
    assert_eq!(series.latency("URL", "m", "g", "l"), Some(Latency::Millis(u64::MAX)));
    assert_eq!(series.latency("URL", "m", "", "l"), Some(Latency::Millis(3)));
    assert!(series.is_well_formed());
}
