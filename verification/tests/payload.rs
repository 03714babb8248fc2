use plant_telemetry::assess::{
    assess_metrics, build_point, detect_change, evaluate_reading, overall_of, ticker_message,
    MetricSeverity,
};
use plant_telemetry::envelope::{IngestResult, StatusChange, TelemetryEnvelope};
use plant_telemetry::ingest::{start, IngestAction};
use plant_telemetry::payload::{
    message_content_type, metric_severity_payload, status_change_message, status_change_queue,
    ticker_payload, ticker_update_queue, PayloadEntry, PayloadValue,
};
use plant_telemetry::scalar::Scalar;
use plant_telemetry::threshold::{MetricThreshold, Severity};

fn num(v: f64) -> Scalar {
    Scalar::from_bits(v.to_bits())
}

fn flat(entries: &[PayloadEntry]) -> Vec<(String, String)> {
    entries
        .iter()
        .map(|e| {
            let v = match &e.value {
                PayloadValue::Text(t) => format!("s:{t}"),
                PayloadValue::Integer(n) => format!("i:{n}"),
            };
            (e.key.clone(), v)
        })
        .collect()
}

fn pair(k: &str, v: &str) -> (String, String) {
    (k.to_string(), v.to_string())
}

fn threshold(metric: &str, warn_min: f64, warn_max: f64) -> MetricThreshold {
    MetricThreshold {
        metric: metric.to_string(),
        warn_min: Some(num(warn_min)),
        warn_max: Some(num(warn_max)),
        crit_min: None,
        crit_max: None,
    }
}

fn envelope(readings: [Option<f64>; 4]) -> TelemetryEnvelope {
    TelemetryEnvelope {
        ingest_id: "id".to_string(),
        device_uid: "dev".to_string(),
        plant_id: "plant".to_string(),
        timestamp_ns: 5,
        seq: 1,
        soil_moisture: readings[0].map(num),
        ambient_light_lux: readings[1].map(num),
        ambient_humidity_rh: readings[2].map(num),
        ambient_temp_c: readings[3].map(num),
    }
}

#[test]
fn status_change_message_has_the_five_members() {
    let change = StatusChange {
        plant_id: "550e8400-e29b-41d4-a716-446655440000".to_string(),
        prev_severity: Severity::Normal,
        new_severity: Severity::Critical,
        occurred_at_ns: 1_700_000_000_000_000_000,
    };
    assert_eq!(
        flat(&status_change_message(&change)),
        vec![
            pair("type", "s:PlantStatusChanged.v1"),
            pair("plant_id", "s:550e8400-e29b-41d4-a716-446655440000"),
            pair("prev_severity", "s:NORMAL"),
            pair("new_severity", "s:CRITICAL"),
            pair("occurred_at_ns", "i:1700000000000000000"),
        ]
    );
}

#[test]
fn ticker_payload_names_the_fingerprint() {
    assert_eq!(flat(&ticker_payload("abc")), vec![pair("ingest_id", "s:abc")]);
}

#[test]
fn metric_severity_payload_has_one_member_per_metric() {
    let list = vec![
        MetricSeverity { metric: "soil_moisture".to_string(), severity: Severity::Warn },
        MetricSeverity { metric: "ambient_temp_c".to_string(), severity: Severity::Normal },
    ];
    assert_eq!(
        flat(&metric_severity_payload(&list)),
        vec![pair("soil_moisture", "s:WARN"), pair("ambient_temp_c", "s:NORMAL")]
    );
    assert!(metric_severity_payload(&vec![]).is_empty());
}

#[test]
fn bus_names() {
    assert_eq!(status_change_queue(), "plant.status_change");
    assert_eq!(ticker_update_queue(), "plant.ticker_update");
    assert_eq!(message_content_type(), "application/json");
}

fn plant_type_tag(plant_type_id: u128) -> String {
    let p = build_point(&envelope([Some(1.0), None, None, None]), plant_type_id).unwrap();
    p.tags[2].value.clone()
}

#[test]
fn plant_identifier_text_is_hyphenated_lowercase() {
    assert_eq!(
        plant_type_tag(0x550e8400_e29b_41d4_a716_446655440000),
        "550e8400-e29b-41d4-a716-446655440000"
    );
    assert_eq!(plant_type_tag(0), "00000000-0000-0000-0000-000000000000");
    assert_eq!(plant_type_tag(u128::MAX), "ffffffff-ffff-ffff-ffff-ffffffffffff");
    assert_eq!(
        plant_type_tag(0x0123456789abcdef_fedcba9876543210),
        "01234567-89ab-cdef-fedc-ba9876543210"
    );
}

fn parsed_plant(text: &str) -> Option<u128> {
    let mut env = envelope([None, None, None, None]);
    env.plant_id = text.to_string();
    let (state, action) = start(env);
    match action {
        IngestAction::ProbeLedger { .. } => Some(state.parsed_plant),
        IngestAction::Finish { outcome } => {
            assert_eq!(outcome.result, IngestResult::Error);
            None
        }
        other => panic!("unexpected: {other:?}"),
    }
}

#[test]
fn plant_identifier_is_read_from_its_textual_forms() {
    let want = Some(0x550e8400_e29b_41d4_a716_446655440000u128);
    assert_eq!(parsed_plant("550e8400-e29b-41d4-a716-446655440000"), want);
    assert_eq!(parsed_plant("550E8400-E29B-41D4-A716-446655440000"), want);
    assert_eq!(parsed_plant("550e8400e29b41d4a716446655440000"), want);
    assert_eq!(parsed_plant("{550e8400-e29b-41d4-a716-446655440000}"), want);
    assert_eq!(parsed_plant("urn:uuid:550e8400-e29b-41d4-a716-446655440000"), want);
    assert_eq!(parsed_plant(""), None);
    assert_eq!(parsed_plant("pid"), None);
    assert_eq!(parsed_plant("550e8400-e29b-41d4-a716-44665544000"), None);
    assert_eq!(parsed_plant("550e8400-e29b-41d4-a716-44665544000g"), None);
}

#[test]
fn first_threshold_for_a_metric_is_used() {
    let ts = vec![
        threshold("ambient_temp_c", 10.0, 30.0),
        threshold("soil_moisture", 20.0, 80.0),
        threshold("soil_moisture", 0.0, 1.0),
    ];
    assert_eq!(evaluate_reading(&ts, "soil_moisture", num(50.0)), Severity::Normal);
    assert_eq!(evaluate_reading(&ts, "soil_moisture", num(15.0)), Severity::Warn);
    assert_eq!(evaluate_reading(&ts, "ambient_temp_c", num(35.0)), Severity::Warn);
    assert_eq!(evaluate_reading(&ts, "ambient_light_lux", num(1e9)), Severity::Normal);
    assert_eq!(evaluate_reading(&vec![], "soil_moisture", num(15.0)), Severity::Normal);
}

#[test]
fn only_present_readings_are_assessed() {
    let ts = vec![threshold("soil_moisture", 20.0, 80.0), threshold("ambient_temp_c", 10.0, 30.0)];
    let env = envelope([Some(15.0), None, Some(40.0), Some(20.0)]);
    let list = assess_metrics(&env, &ts);
    let got: Vec<(&str, Severity)> = list.iter().map(|e| (e.metric.as_str(), e.severity)).collect();
    assert_eq!(
        got,
        vec![
            ("soil_moisture", Severity::Warn),
            ("ambient_humidity_rh", Severity::Normal),
            ("ambient_temp_c", Severity::Normal),
        ]
    );
    assert_eq!(overall_of(&list), Severity::Warn);
    let none = assess_metrics(&envelope([None, None, None, None]), &ts);
    assert!(none.is_empty());
    assert_eq!(overall_of(&none), Severity::Normal);
}

#[test]
fn point_is_built_unless_there_is_no_reading() {
    assert!(build_point(&envelope([None, None, None, None]), 1).is_none());
    let p = build_point(&envelope([None, Some(300.0), None, None]), 1).unwrap();
    assert_eq!(p.measurement, "plant_telemetry");
    assert_eq!(p.fields.len(), 1);
    assert_eq!(p.fields[0].key, "ambient_light_lux");
    assert_eq!(p.fields[0].value, num(300.0));
    assert_eq!(p.tags.len(), 3);
    assert_eq!(p.tags[2].key, "plant_type_id");
    assert_eq!(p.tags[2].value, "00000000-0000-0000-0000-000000000001");
    assert_eq!(p.timestamp_ns, 5);
}

#[test]
fn change_is_detected_exactly_when_severities_differ() {
    let env = envelope([Some(1.0), None, None, None]);
    let all = [Severity::Normal, Severity::Warn, Severity::Critical];
    for prev in all {
        for next in all {
            let change = detect_change(&env, prev, next);
            assert_eq!(change.is_some(), prev != next);
            if let Some(c) = change {
                assert_eq!(c.prev_severity, prev);
                assert_eq!(c.new_severity, next);
                assert_eq!(c.plant_id, "plant");
                assert_eq!(c.occurred_at_ns, 5);
            }
        }
    }
}

#[test]
fn ticker_message_text() {
    assert_eq!(ticker_message("p-1", Severity::Warn), "Plant p-1 reading: severity=WARN");
    assert_eq!(ticker_message("", Severity::Normal), "Plant  reading: severity=NORMAL");
}
