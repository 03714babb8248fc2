use plant_telemetry::batch::severity_to_proto;
use plant_telemetry::codec::UdpTelemetryMessage;
use plant_telemetry::envelope::{seal, IngestResult, TelemetryEnvelope};
use plant_telemetry::ingest::{
    start, start_parsed, step, IngestAction, IngestEvent, LedgerResult, PlantRow, Stage,
};
use plant_telemetry::scalar::Scalar;
use plant_telemetry::store::{DeviceRow, MemoryStore, PlantRecord, ThresholdRecord};
use plant_telemetry::threshold::{MetricThreshold, Severity};

const PLANT: &str = "550e8400-e29b-41d4-a716-446655440000";
const PLANT_ID: u128 = 0x550e8400_e29b_41d4_a716_446655440000;
const PLANT_TYPE: u128 = 0x11111111_2222_3333_4444_555555555555;
const T0: i64 = 1_700_000_000_000_000_000;

fn num(v: f64) -> Scalar {
    Scalar::from_bits(v.to_bits())
}

fn val(s: Option<Scalar>) -> Option<f64> {
    s.map(|x| f64::from_bits(x.to_bits()))
}

fn envelope(seq: u32, timestamp_ns: i64, soil: Option<f64>, temp: Option<f64>) -> TelemetryEnvelope {
    seal(UdpTelemetryMessage {
        version: 1,
        device_uid: "dev-1".to_string(),
        plant_id: PLANT.to_string(),
        seq,
        timestamp_ns,
        soil_moisture: soil.map(num),
        ambient_light_lux: None,
        ambient_humidity_rh: None,
        ambient_temp_c: temp.map(num),
    })
}

fn store() -> MemoryStore {
    let mut store = MemoryStore::new();
    store.plants.push(PlantRecord { id: PLANT_ID, plant_type_id: PLANT_TYPE, is_active: true });
    store.thresholds.push(ThresholdRecord {
        plant_type_id: PLANT_TYPE,
        threshold: MetricThreshold {
            metric: "soil_moisture".to_string(),
            warn_min: Some(num(20.0)),
            warn_max: Some(num(80.0)),
            crit_min: Some(num(10.0)),
            crit_max: Some(num(90.0)),
        },
    });
    store.thresholds.push(ThresholdRecord {
        plant_type_id: 99,
        threshold: MetricThreshold {
            metric: "soil_moisture".to_string(),
            warn_min: Some(num(60.0)),
            warn_max: None,
            crit_min: None,
            crit_max: None,
        },
    });
    store.devices.push(DeviceRow {
        device_uid: "dev-1".to_string(),
        last_seen_at: None,
        last_ingest_id: None,
    });
    store.devices.push(DeviceRow {
        device_uid: "dev-2".to_string(),
        last_seen_at: None,
        last_ingest_id: None,
    });
    store.now = 1000;
    store
}

#[test]
fn happy_path_without_transition() {
    let mut store = store();
    let env = envelope(1, T0, Some(50.0), None);
    let id = env.ingest_id.clone();
    let outcome = store.process_envelope(env);
    assert_eq!(outcome.result, IngestResult::Applied);
    assert!(outcome.change.is_none());
    assert_eq!(outcome.error, "");
    assert_eq!(store.states.len(), 1);
    assert_eq!(store.states[0].plant_id, PLANT_ID);
    assert_eq!(store.states[0].severity, Severity::Normal);
    assert_eq!(store.states[0].severity.as_str(), "NORMAL");
    assert_eq!(store.states[0].last_ingest_id, id);
    assert_eq!(store.states[0].updated_at, 1000);
    assert_eq!(val(store.states[0].soil_moisture), Some(50.0));
    assert_eq!(store.states[0].metric_severity.len(), 1);
    assert_eq!(store.states[0].metric_severity[0].metric, "soil_moisture");
    assert_eq!(store.states[0].metric_severity[0].severity, Severity::Normal);
    assert_eq!(store.ticker.len(), 1);
    assert_eq!(store.ticker[0].plant_id, PLANT_ID);
    assert_eq!(store.ticker[0].device_uid, "dev-1");
    assert_eq!(store.ticker[0].severity, Severity::Normal);
    assert_eq!(store.ticker[0].ingest_id, id);
    assert_eq!(
        store.ticker[0].message,
        "Plant 550e8400-e29b-41d4-a716-446655440000 reading: severity=NORMAL"
    );
    assert!(store.published.is_empty());
    assert_eq!(store.ledger.len(), 1);
    assert_eq!(store.ledger[0].ingest_id, id);
    assert_eq!(store.ledger[0].device_uid, "dev-1");
    assert_eq!(store.ledger[0].plant_id, Some(PLANT_ID));
    assert_eq!(store.ledger[0].timestamp_ns, T0);
    assert_eq!(store.ledger[0].result, LedgerResult::Applied);
    assert_eq!(store.ledger[0].result.as_str(), "OK");
    assert_eq!(store.devices[0].last_seen_at, Some(1000));
    assert_eq!(store.devices[0].last_ingest_id, Some(id));
    assert_eq!(store.devices[1].last_seen_at, None);
    assert_eq!(store.devices[1].last_ingest_id, None);
}

#[test]
fn point_carries_tags_and_present_readings() {
    let mut store = store();
    store.process_envelope(envelope(1, T0, Some(50.0), Some(22.5)));
    let points = store.sink.snapshot();
    assert_eq!(points.len(), 1);
    let p = &points[0];
    assert_eq!(p.measurement, "plant_telemetry");
    assert_eq!(p.timestamp_ns, T0);
    let tags: Vec<(&str, &str)> = p.tags.iter().map(|t| (t.key.as_str(), t.value.as_str())).collect();
    assert_eq!(
        tags,
        vec![
            ("plant_id", PLANT),
            ("device_uid", "dev-1"),
            ("plant_type_id", "11111111-2222-3333-4444-555555555555"),
        ]
    );
    let fields: Vec<(&str, f64)> =
        p.fields.iter().map(|f| (f.key.as_str(), f64::from_bits(f.value.to_bits()))).collect();
    assert_eq!(fields, vec![("soil_moisture", 50.0), ("ambient_temp_c", 22.5)]);
}

#[test]
fn warn_emits_transition() {
    let mut store = store();
    store.process_envelope(envelope(1, T0, Some(50.0), None));
    let outcome = store.process_envelope(envelope(2, T0 + 1, Some(15.0), None));
    assert_eq!(outcome.result, IngestResult::Applied);
    let change = outcome.change.unwrap();
    assert_eq!(change.plant_id, PLANT);
    assert_eq!(change.prev_severity, Severity::Normal);
    assert_eq!(change.new_severity, Severity::Warn);
    assert_eq!(change.occurred_at_ns, T0 + 1);
    assert_eq!(store.states.len(), 1);
    assert_eq!(store.states[0].severity, Severity::Warn);
    assert_eq!(store.ticker.len(), 2);
    assert_eq!(store.ticker[1].severity, Severity::Warn);
    assert_eq!(store.published.len(), 1);
    assert_eq!(store.published[0].prev_severity, Severity::Normal);
    assert_eq!(store.published[0].new_severity, Severity::Warn);
    assert_eq!(store.published[0].plant_id, PLANT);
    assert_eq!(store.ledger.len(), 2);
}

#[test]
fn duplicate_is_recognised() {
    let mut store = store();
    store.process_envelope(envelope(1, T0, Some(50.0), None));
    store.process_envelope(envelope(2, T0 + 1, Some(15.0), None));
    store.now = 2000;
    let outcome = store.process_envelope(envelope(2, T0 + 1, Some(15.0), None));
    assert_eq!(outcome.result, IngestResult::Duplicate);
    assert!(outcome.change.is_none());
    assert_eq!(outcome.error, "");
    assert_eq!(store.ticker.len(), 2);
    assert_eq!(store.published.len(), 1);
    assert_eq!(store.ledger.len(), 2);
    assert_eq!(store.sink.snapshot().len(), 2);
    assert_eq!(store.states.len(), 1);
    assert_eq!(store.states[0].severity, Severity::Warn);
    assert_eq!(store.states[0].updated_at, 1000);
    assert_eq!(val(store.states[0].soil_moisture), Some(15.0));
    assert_eq!(store.devices[0].last_seen_at, Some(2000));
    assert_eq!(store.devices[1].last_seen_at, None);
}

#[test]
fn null_reading_keeps_the_stored_value() {
    let mut store = store();
    store.process_envelope(envelope(1, T0, Some(50.0), None));
    store.process_envelope(envelope(2, T0 + 1, Some(15.0), None));
    let outcome = store.process_envelope(envelope(3, T0 + 2, None, Some(22.0)));
    assert_eq!(outcome.result, IngestResult::Applied);
    assert_eq!(val(store.states[0].soil_moisture), Some(15.0));
    assert_eq!(val(store.states[0].ambient_temp_c), Some(22.0));
    assert_eq!(store.states[0].ambient_light_lux, None);
    assert_eq!(store.states[0].ambient_humidity_rh, None);
    // no threshold for the temperature: normal, which is a change from warn
    assert_eq!(store.states[0].severity, Severity::Normal);
    let change = outcome.change.unwrap();
    assert_eq!(change.prev_severity, Severity::Warn);
    assert_eq!(change.new_severity, Severity::Normal);
}

#[test]
fn critical_after_warn() {
    let mut store = store();
    store.process_envelope(envelope(1, T0, Some(50.0), None));
    store.process_envelope(envelope(2, T0 + 1, Some(15.0), None));
    let outcome = store.process_envelope(envelope(4, T0 + 3, Some(5.0), None));
    assert_eq!(outcome.result, IngestResult::Applied);
    let change = outcome.change.unwrap();
    assert_eq!(change.prev_severity, Severity::Warn);
    assert_eq!(change.new_severity, Severity::Critical);
    assert_eq!(store.states[0].severity, Severity::Critical);
    assert_eq!(store.states[0].severity.as_str(), "CRITICAL");
    assert_eq!(store.published.len(), 2);
    assert_eq!(store.ticker.len(), 3);
    assert_eq!(store.ticker[2].message, format!("Plant {PLANT} reading: severity=CRITICAL"));
}

#[test]
fn every_transition_emits_one_change() {
    let readings = [15.0, 5.0, 15.0, 50.0, 5.0, 50.0, 50.0, 15.0, 15.0];
    let expected = [
        Some((Severity::Normal, Severity::Warn)),
        Some((Severity::Warn, Severity::Critical)),
        Some((Severity::Critical, Severity::Warn)),
        Some((Severity::Warn, Severity::Normal)),
        Some((Severity::Normal, Severity::Critical)),
        Some((Severity::Critical, Severity::Normal)),
        None,
        Some((Severity::Normal, Severity::Warn)),
        None,
    ];
    let mut store = store();
    let mut published = 0;
    for (i, (v, want)) in readings.iter().zip(expected.iter()).enumerate() {
        let outcome = store.process_envelope(envelope(i as u32, T0 + i as i64, Some(*v), None));
        assert_eq!(outcome.result, IngestResult::Applied);
        let got = outcome.change.map(|c| (c.prev_severity, c.new_severity));
        assert_eq!(got, *want, "step {i}");
        if want.is_some() {
            published += 1;
        }
        assert_eq!(store.published.len(), published);
        assert_eq!(store.ticker.len(), i + 1);
    }
}

#[test]
fn invalid_plant_identifier_writes_nothing() {
    let mut store = store();
    let env = seal(UdpTelemetryMessage {
        version: 1,
        device_uid: "dev-1".to_string(),
        plant_id: "not-a-uuid".to_string(),
        seq: 1,
        timestamp_ns: T0,
        soil_moisture: Some(num(50.0)),
        ambient_light_lux: None,
        ambient_humidity_rh: None,
        ambient_temp_c: None,
    });
    let outcome = store.process_envelope(env);
    assert_eq!(outcome.result, IngestResult::Error);
    assert!(outcome.change.is_none());
    assert_eq!(outcome.error, "");
    assert!(store.ledger.is_empty());
    assert!(store.states.is_empty());
    assert!(store.ticker.is_empty());
    assert!(store.published.is_empty());
    assert!(store.sink.snapshot().is_empty());
    assert_eq!(store.devices[0].last_seen_at, None);
}

#[test]
fn unknown_plant_is_recorded_as_error() {
    let mut store = store();
    store.plants[0].is_active = false;
    let env = envelope(1, T0, Some(50.0), None);
    let id = env.ingest_id.clone();
    let outcome = store.process_envelope(env);
    assert_eq!(outcome.result, IngestResult::Error);
    assert!(outcome.change.is_none());
    assert_eq!(store.ledger.len(), 1);
    assert_eq!(store.ledger[0].ingest_id, id);
    assert_eq!(store.ledger[0].result, LedgerResult::Rejected);
    assert_eq!(store.ledger[0].result.as_str(), "ERROR");
    assert_eq!(store.ledger[0].plant_id, Some(PLANT_ID));
    assert!(store.states.is_empty());
    assert!(store.ticker.is_empty());
    assert!(store.sink.snapshot().is_empty());
    // the next time it is a duplicate
    let again = store.process_envelope(envelope(1, T0, Some(50.0), None));
    assert_eq!(again.result, IngestResult::Duplicate);
    assert_eq!(store.ledger.len(), 1);
}

#[test]
fn envelope_without_readings_skips_the_sink() {
    let mut store = store();
    let outcome = store.process_envelope(envelope(1, T0, None, None));
    assert_eq!(outcome.result, IngestResult::Applied);
    assert!(store.sink.snapshot().is_empty());
    assert_eq!(store.states.len(), 1);
    assert_eq!(store.states[0].severity, Severity::Normal);
    assert!(store.states[0].metric_severity.is_empty());
    assert_eq!(store.ticker.len(), 1);
    assert_eq!(store.ledger.len(), 1);
}

#[test]
fn other_plants_are_left_alone() {
    let mut store = store();
    let other: u128 = 0x00000000_0000_0000_0000_000000000001;
    store.plants.push(PlantRecord { id: other, plant_type_id: 99, is_active: true });
    store.process_envelope(envelope(1, T0, Some(15.0), None));
    let env = seal(UdpTelemetryMessage {
        version: 1,
        device_uid: "dev-2".to_string(),
        plant_id: "00000000-0000-0000-0000-000000000001".to_string(),
        seq: 1,
        timestamp_ns: T0,
        soil_moisture: Some(num(50.0)),
        ambient_light_lux: None,
        ambient_humidity_rh: None,
        ambient_temp_c: None,
    });
    let outcome = store.process_envelope(env);
    assert_eq!(outcome.result, IngestResult::Applied);
    assert_eq!(store.states.len(), 2);
    assert_eq!(store.states[0].plant_id, PLANT_ID);
    assert_eq!(store.states[0].severity, Severity::Warn);
    assert_eq!(val(store.states[0].soil_moisture), Some(15.0));
    assert_eq!(store.states[1].plant_id, other);
    // the other plant's type warns under 60
    assert_eq!(store.states[1].severity, Severity::Warn);
    assert_eq!(store.devices[1].last_seen_at, Some(1000));
}

fn drive_until(env: TelemetryEnvelope, stop_at: Stage) -> (plant_telemetry::ingest::IngestState, IngestAction) {
    let mut store = store();
    let (mut state, mut action) = start(env);
    while state.stage != stop_at {
        let event = store.perform(action);
        let (s, a) = step(state, event);
        state = s;
        action = a;
    }
    (state, action)
}

#[test]
fn machine_begins_with_the_ledger_probe() {
    let env = envelope(1, T0, Some(50.0), None);
    let id = env.ingest_id.clone();
    let (state, action) = start(env);
    assert_eq!(state.stage, Stage::LedgerProbe);
    assert_eq!(state.parsed_plant, PLANT_ID);
    match action {
        IngestAction::ProbeLedger { ingest_id } => assert_eq!(ingest_id, id),
        other => panic!("unexpected: {other:?}"),
    }
}

#[test]
fn machine_orders_its_actions() {
    let mut store = store();
    let (mut state, mut action) = start(envelope(1, T0, Some(15.0), None));
    let mut names = Vec::new();
    loop {
        let name = match &action {
            IngestAction::ProbeLedger { .. } => "probe",
            IngestAction::TouchDevice { .. } => "touch",
            IngestAction::LookupPlant { .. } => "lookup",
            IngestAction::RecordLedger { .. } => "ledger",
            IngestAction::LoadThresholds { .. } => "thresholds",
            IngestAction::ReadPreviousSeverity { .. } => "previous",
            IngestAction::WritePoint { .. } => "point",
            IngestAction::UpsertState { .. } => "upsert",
            IngestAction::Heartbeat { .. } => "heartbeat",
            IngestAction::InsertTicker { .. } => "ticker",
            IngestAction::Publish { .. } => "publish",
            IngestAction::Finish { .. } => "finish",
        };
        names.push(name);
        if name == "finish" {
            break;
        }
        let event = store.perform(action);
        let (s, a) = step(state, event);
        state = s;
        action = a;
    }
    assert_eq!(
        names,
        vec![
            "probe", "lookup", "thresholds", "previous", "point", "upsert", "heartbeat", "ticker",
            "publish", "ledger", "finish"
        ]
    );
    assert_eq!(state.stage, Stage::Done);
}

#[test]
fn storage_failure_aborts_with_its_message() {
    for stage in [
        Stage::LedgerProbe,
        Stage::PlantLookup,
        Stage::Thresholds,
        Stage::PreviousSeverity,
        Stage::Upsert,
        Stage::Heartbeat,
        Stage::Ticker,
        Stage::FinalLedger,
    ] {
        let (state, _) = drive_until(envelope(1, T0, Some(15.0), None), stage);
        let (state, action) = step(state, IngestEvent::Failed { message: "connection lost".to_string() });
        assert_eq!(state.stage, Stage::Done);
        match action {
            IngestAction::Finish { outcome } => {
                assert_eq!(outcome.result, IngestResult::Error, "{stage:?}");
                assert!(outcome.change.is_none());
                assert_eq!(outcome.error, "connection lost");
            }
            other => panic!("unexpected at {stage:?}: {other:?}"),
        }
    }
}

#[test]
fn sink_and_bus_failures_do_not_abort() {
    let (state, _) = drive_until(envelope(1, T0, Some(15.0), None), Stage::SinkWrite);
    let (state, action) = step(state, IngestEvent::Failed { message: "sink down".to_string() });
    assert_eq!(state.stage, Stage::Upsert);
    assert!(matches!(action, IngestAction::UpsertState { .. }));

    let (state, _) = drive_until(envelope(1, T0, Some(15.0), None), Stage::Publish);
    let (state, action) = step(state, IngestEvent::Failed { message: "bus down".to_string() });
    assert_eq!(state.stage, Stage::FinalLedger);
    match action {
        IngestAction::RecordLedger { entry } => assert_eq!(entry.result, LedgerResult::Applied),
        other => panic!("unexpected: {other:?}"),
    }
    let (state, action) = step(state, IngestEvent::Completed);
    assert_eq!(state.stage, Stage::Done);
    match action {
        IngestAction::Finish { outcome } => {
            assert_eq!(outcome.result, IngestResult::Applied);
            let change = outcome.change.unwrap();
            assert_eq!(change.prev_severity, Severity::Normal);
            assert_eq!(change.new_severity, Severity::Warn);
        }
        other => panic!("unexpected: {other:?}"),
    }
}

#[test]
fn device_touch_failure_still_ends_as_duplicate() {
    let (state, action) = start(envelope(1, T0, Some(15.0), None));
    assert!(matches!(action, IngestAction::ProbeLedger { .. }));
    let (state, action) = step(state, IngestEvent::LedgerProbed { known: true });
    assert_eq!(state.stage, Stage::DeviceTouch);
    match action {
        IngestAction::TouchDevice { device_uid } => assert_eq!(device_uid, "dev-1"),
        other => panic!("unexpected: {other:?}"),
    }
    let (_, action) = step(state, IngestEvent::Failed { message: "x".to_string() });
    match action {
        IngestAction::Finish { outcome } => {
            assert_eq!(outcome.result, IngestResult::Duplicate);
            assert!(outcome.change.is_none());
            assert_eq!(outcome.error, "");
        }
        other => panic!("unexpected: {other:?}"),
    }
}

#[test]
fn unexpected_event_ends_the_run() {
    let (state, _) = start(envelope(1, T0, Some(15.0), None));
    let (state, action) = step(state, IngestEvent::Completed);
    assert_eq!(state.stage, Stage::Done);
    match action {
        IngestAction::Finish { outcome } => {
            assert_eq!(outcome.result, IngestResult::Error);
            assert_eq!(outcome.error, "unexpected event");
        }
        other => panic!("unexpected: {other:?}"),
    }
    let (_, action) = step(state, IngestEvent::Completed);
    assert!(matches!(action, IngestAction::Finish { .. }));
}

#[test]
fn stored_severity_text_is_read_leniently() {
    let (state, _) = drive_until(envelope(1, T0, Some(50.0), None), Stage::PreviousSeverity);
    let (state, _) = step(state, IngestEvent::PreviousRead { severity: Some("CRITICAL".to_string()) });
    assert_eq!(state.previous, Severity::Critical);
    let (state, _) = drive_until(envelope(1, T0, Some(50.0), None), Stage::PreviousSeverity);
    let (state, _) = step(state, IngestEvent::PreviousRead { severity: Some("garbage".to_string()) });
    assert_eq!(state.previous, Severity::Normal);
}

#[test]
fn plant_row_from_the_store_is_used_from_then_on() {
    let (state, _) = drive_until(envelope(1, T0, Some(50.0), None), Stage::PlantLookup);
    let row = PlantRow { id: 7, plant_type_id: 8 };
    let (state, action) = step(state, IngestEvent::PlantLooked { row: Some(row) });
    assert_eq!(state.plant, row);
    match action {
        IngestAction::LoadThresholds { plant_type_id } => assert_eq!(plant_type_id, 8),
        other => panic!("unexpected: {other:?}"),
    }
    let (state, action) = step(state, IngestEvent::ThresholdsLoaded { thresholds: vec![] });
    assert_eq!(state.overall, Severity::Normal);
    match action {
        IngestAction::ReadPreviousSeverity { plant_id } => assert_eq!(plant_id, 7),
        other => panic!("unexpected: {other:?}"),
    }
}

#[test]
fn batch_answers_one_result_per_envelope() {
    let mut store = store();
    let bad = seal(UdpTelemetryMessage {
        version: 1,
        device_uid: "dev-1".to_string(),
        plant_id: "nope".to_string(),
        seq: 9,
        timestamp_ns: T0,
        soil_moisture: None,
        ambient_light_lux: None,
        ambient_humidity_rh: None,
        ambient_temp_c: None,
    });
    let batch = vec![
        envelope(1, T0, Some(50.0), None),
        bad,
        envelope(2, T0 + 1, Some(15.0), None),
        envelope(2, T0 + 1, Some(15.0), None),
        envelope(3, T0 + 2, Some(5.0), None),
    ];
    let ids: Vec<String> = batch.iter().map(|e| e.ingest_id.clone()).collect();
    let response = store.ingest_telemetry(batch);
    assert_eq!(response.results.len(), 5);
    let got: Vec<IngestResult> = response.results.iter().map(|r| r.result).collect();
    assert_eq!(
        got,
        vec![
            IngestResult::Applied,
            IngestResult::Error,
            IngestResult::Applied,
            IngestResult::Duplicate,
            IngestResult::Applied
        ]
    );
    for (r, id) in response.results.iter().zip(ids.iter()) {
        assert_eq!(&r.ingest_id, id);
        assert_eq!(r.error, "");
    }
    assert_eq!(response.status_changes.len(), 2);
    assert_eq!(response.status_changes[0].new_severity, Severity::Warn);
    assert_eq!(response.status_changes[1].prev_severity, Severity::Warn);
    assert_eq!(response.status_changes[1].new_severity, Severity::Critical);
    assert_eq!(store.states[0].severity, Severity::Critical);
    let empty = store.ingest_telemetry(vec![]);
    assert!(empty.results.is_empty());
    assert!(empty.status_changes.is_empty());
}

#[test]
fn wire_codes() {
    assert_eq!(IngestResult::Applied.code(), 0);
    assert_eq!(IngestResult::Duplicate.code(), 1);
    assert_eq!(IngestResult::Error.code(), 2);
    assert_eq!(severity_to_proto(Severity::Normal), 0);
    assert_eq!(severity_to_proto(Severity::Warn), 1);
    assert_eq!(severity_to_proto(Severity::Critical), 2);
}

#[test]
fn machine_begins_from_the_parsed_plant() {
    let env = envelope(1, T0, Some(50.0), None);
    let id = env.ingest_id.clone();
    let (state, action) = start_parsed(env, Some(77));
    assert_eq!(state.stage, Stage::LedgerProbe);
    assert_eq!(state.parsed_plant, 77);
    match action {
        IngestAction::ProbeLedger { ingest_id } => assert_eq!(ingest_id, id),
        other => panic!("unexpected: {other:?}"),
    }
    let (state, action) = start_parsed(envelope(1, T0, Some(50.0), None), None);
    assert_eq!(state.stage, Stage::Done);
    match action {
        IngestAction::Finish { outcome } => {
            assert_eq!(outcome.result, IngestResult::Error);
            assert!(outcome.change.is_none());
            assert_eq!(outcome.error, "");
        }
        other => panic!("unexpected: {other:?}"),
    }
}

#[test]
fn processing_goes_by_the_parsed_plant() {
    let mut store = store();
    let outcome = store.process_parsed(envelope(1, T0, Some(15.0), None), Some(PLANT_ID));
    assert_eq!(outcome.result, IngestResult::Applied);
    assert_eq!(store.states[0].severity, Severity::Warn);
    let outcome = store.process_parsed(envelope(2, T0, Some(15.0), None), None);
    assert_eq!(outcome.result, IngestResult::Error);
    assert_eq!(store.ledger.len(), 1);
    let outcome = store.process_parsed(envelope(3, T0, Some(15.0), None), Some(5));
    assert_eq!(outcome.result, IngestResult::Error);
    assert_eq!(store.ledger.len(), 2);
    assert_eq!(store.ledger[1].plant_id, Some(5));
    assert_eq!(store.ledger[1].result, LedgerResult::Rejected);
}
