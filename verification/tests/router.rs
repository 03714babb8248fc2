use plant_telemetry::codec::{DecodeError, UdpTelemetryMessage};
use plant_telemetry::envelope::{seal, TelemetryEnvelope};
use plant_telemetry::ingest_id::compute;
use plant_telemetry::router::{
    accept, BatchAction, BatchEvent, Batcher, BATCH_DEADLINE_MS, DEFAULT_BATCH_SIZE,
    MAX_PACKET_SIZE, QUEUE_CAPACITY,
};
use plant_telemetry::scalar::Scalar;

fn message(seq: u32) -> UdpTelemetryMessage {
    UdpTelemetryMessage {
        version: 1,
        device_uid: "esp32-abc".to_string(),
        plant_id: "550e8400-e29b-41d4-a716-446655440000".to_string(),
        seq,
        timestamp_ns: 1_700_000_000_000_000_000,
        soil_moisture: Some(Scalar::from_bits(55.0f64.to_bits())),
        ambient_light_lux: None,
        ambient_humidity_rh: None,
        ambient_temp_c: None,
    }
}

fn envelope(seq: u32) -> TelemetryEnvelope {
    seal(message(seq))
}

fn seqs(batch: &[TelemetryEnvelope]) -> Vec<u32> {
    batch.iter().map(|e| e.seq).collect()
}

#[test]
fn accepted_message_gets_its_fingerprint() {
    let env = accept(Ok(message(42))).unwrap();
    assert_eq!(
        env.ingest_id,
        "06e1a05f8b3e468e29f6bd383a94085141d8d6f8e3a9bf66dd9e5fcc3837568c"
    );
    assert_eq!(
        env.ingest_id,
        compute("esp32-abc", "550e8400-e29b-41d4-a716-446655440000", 42, 1_700_000_000_000_000_000)
    );
    assert_eq!(env.device_uid, "esp32-abc");
    assert_eq!(env.plant_id, "550e8400-e29b-41d4-a716-446655440000");
    assert_eq!(env.seq, 42);
    assert_eq!(env.timestamp_ns, 1_700_000_000_000_000_000);
    assert_eq!(env.soil_moisture, Some(Scalar::from_bits(55.0f64.to_bits())));
    assert_eq!(env.ambient_temp_c, None);
}

#[test]
fn rejected_datagrams_give_the_reason() {
    assert!(matches!(accept(Err("bad".to_string())), Err(DecodeError::Json(_))));
    let mut m = message(1);
    m.version = 2;
    assert!(matches!(accept(Ok(m)), Err(DecodeError::UnsupportedVersion(2))));
    let mut m = message(1);
    m.device_uid = "  ".to_string();
    assert!(matches!(accept(Ok(m)), Err(DecodeError::EmptyDeviceUid)));
    let mut m = message(1);
    m.plant_id = String::new();
    assert!(matches!(accept(Ok(m)), Err(DecodeError::EmptyPlantId)));
}

#[test]
fn constants_of_the_pipeline() {
    assert_eq!(MAX_PACKET_SIZE, 4096);
    assert_eq!(QUEUE_CAPACITY, 1024);
    assert_eq!(BATCH_DEADLINE_MS, 100);
    assert_eq!(DEFAULT_BATCH_SIZE, 64);
}

#[test]
fn batch_is_forwarded_when_full() {
    let mut batcher = Batcher::new(3);
    assert!(matches!(batcher.on_event(BatchEvent::Received(envelope(1))), BatchAction::Wait));
    assert!(matches!(batcher.on_event(BatchEvent::Received(envelope(2))), BatchAction::Wait));
    match batcher.on_event(BatchEvent::Received(envelope(3))) {
        BatchAction::Forward(batch) => assert_eq!(seqs(&batch), vec![1, 2, 3]),
        other => panic!("unexpected: {other:?}"),
    }
    assert!(batcher.pending.is_empty());
    assert!(matches!(batcher.on_event(BatchEvent::Received(envelope(4))), BatchAction::Wait));
    assert_eq!(seqs(&batcher.pending), vec![4]);
}

#[test]
fn deadline_forwards_what_is_pending() {
    let mut batcher = Batcher::new(64);
    batcher.on_event(BatchEvent::Received(envelope(1)));
    batcher.on_event(BatchEvent::Received(envelope(2)));
    match batcher.on_event(BatchEvent::DeadlineElapsed) {
        BatchAction::Forward(batch) => assert_eq!(seqs(&batch), vec![1, 2]),
        other => panic!("unexpected: {other:?}"),
    }
    assert!(batcher.pending.is_empty());
}

#[test]
fn deadline_with_nothing_pending_sends_nothing() {
    let mut batcher = Batcher::new(64);
    assert!(matches!(batcher.on_event(BatchEvent::DeadlineElapsed), BatchAction::Restart));
    assert!(matches!(batcher.on_event(BatchEvent::DeadlineElapsed), BatchAction::Restart));
    assert!(batcher.pending.is_empty());
}

#[test]
fn closed_queue_stops_the_batcher() {
    let mut batcher = Batcher::new(64);
    batcher.on_event(BatchEvent::Received(envelope(1)));
    assert!(matches!(batcher.on_event(BatchEvent::Closed), BatchAction::Stop));
    let mut batcher = Batcher::new(64);
    assert!(matches!(batcher.on_event(BatchEvent::Closed), BatchAction::Stop));
}

#[test]
fn batch_size_of_zero_or_one_forwards_each_envelope() {
    for size in [0usize, 1] {
        let mut batcher = Batcher::new(size);
        for seq in 1..=3 {
            match batcher.on_event(BatchEvent::Received(envelope(seq))) {
                BatchAction::Forward(batch) => assert_eq!(seqs(&batch), vec![seq]),
                other => panic!("unexpected: {other:?}"),
            }
        }
    }
}

#[test]
fn nothing_is_lost_or_reordered() {
    let mut batcher = Batcher::new(4);
    let mut forwarded: Vec<u32> = Vec::new();
    let mut sizes: Vec<usize> = Vec::new();
    for seq in 1..=30u32 {
        let mut actions = vec![batcher.on_event(BatchEvent::Received(envelope(seq)))];
        if seq % 7 == 0 {
            actions.push(batcher.on_event(BatchEvent::DeadlineElapsed));
        }
        for action in actions {
            if let BatchAction::Forward(batch) = action {
                sizes.push(batch.len());
                forwarded.extend(seqs(&batch));
            }
        }
    }
    forwarded.extend(seqs(&batcher.pending));
    assert_eq!(forwarded, (1..=30).collect::<Vec<u32>>());
    assert!(sizes.iter().all(|n| 1 <= *n && *n <= 4));
}

#[test]
fn a_full_queue_of_envelopes_makes_sixteen_default_batches() {
    let mut batcher = Batcher::new(DEFAULT_BATCH_SIZE);
    let mut batches = 0;
    for seq in 0..QUEUE_CAPACITY as u32 {
        if let BatchAction::Forward(batch) = batcher.on_event(BatchEvent::Received(envelope(seq))) {
            assert_eq!(batch.len(), 64);
            batches += 1;
        }
    }
    assert_eq!(batches, 16);
    assert!(batcher.pending.is_empty());
}

#[test]
fn queue_overflow_drops_the_packet() {
    let (tx, mut rx) = tokio::sync::mpsc::channel::<TelemetryEnvelope>(QUEUE_CAPACITY);
    let mut enqueued = 0;
    let mut dropped = 0;
    for seq in 0..1025u32 {
        let envelope = accept(Ok(message(seq))).unwrap();
        match tx.try_send(envelope) {
            Ok(()) => enqueued += 1,
            Err(_) => dropped += 1,
        }
    }
    assert_eq!(enqueued, 1024);
    assert_eq!(dropped, 1);
    // the pipeline is still live: the batcher drains the queue in order
    let mut batcher = Batcher::new(DEFAULT_BATCH_SIZE);
    let mut forwarded: Vec<u32> = Vec::new();
    while let Ok(envelope) = rx.try_recv() {
        if let BatchAction::Forward(batch) = batcher.on_event(BatchEvent::Received(envelope)) {
            forwarded.extend(seqs(&batch));
        }
    }
    assert_eq!(forwarded, (0..1024).collect::<Vec<u32>>());
    assert!(tx.try_send(accept(Ok(message(2000))).unwrap()).is_ok());
}
