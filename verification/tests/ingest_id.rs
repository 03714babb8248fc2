use plant_telemetry::ingest_id::{compute, preimage_of};

#[test]
fn same_inputs_produce_same_id() {
    let id1 = compute("dev-1", "plant-uuid", 42, 1_700_000_000_000_000_000);
    let id2 = compute("dev-1", "plant-uuid", 42, 1_700_000_000_000_000_000);
    assert_eq!(id1, id2);
}

#[test]
fn different_seq_produces_different_id() {
    let id1 = compute("dev-1", "plant-uuid", 42, 1_000_000);
    let id2 = compute("dev-1", "plant-uuid", 43, 1_000_000);
    assert_ne!(id1, id2);
}

#[test]
fn different_timestamp_produces_different_id() {
    let id1 = compute("dev-1", "plant-uuid", 1, 1_000_000);
    let id2 = compute("dev-1", "plant-uuid", 1, 2_000_000);
    assert_ne!(id1, id2);
}

#[test]
fn different_device_uid_produces_different_id() {
    let id1 = compute("dev-1", "plant-uuid", 1, 1_000_000);
    let id2 = compute("dev-2", "plant-uuid", 1, 1_000_000);
    assert_ne!(id1, id2);
}

#[test]
fn id_is_64_hex_chars() {
    let id = compute("dev-1", "plant-uuid", 1, 1_000_000);
    assert_eq!(id.len(), 64);
    assert!(id.chars().all(|c| c.is_ascii_hexdigit()));
}

#[test]
fn id_is_lowercase() {
    let id = compute("dev-1", "plant-uuid", 1, 1_000_000);
    assert!(id.chars().all(|c| c.is_ascii_digit() || ('a'..='f').contains(&c)));
}

#[test]
fn id_has_the_documented_value() {
    assert_eq!(
        compute("dev-1", "plant-uuid", 42, 1_700_000_000_000_000_000),
        "c3c785181b9ae53364210625f4d58d42eb6a69cf7f955da621008f760025cbd6"
    );
    assert_eq!(
        compute("dev-1", "plant-uuid", 1, -1),
        "d09b82b8082d1d5e764d33da56c8e3ce76855a1513394f2d3a7b0a7cdb42ef98"
    );
    assert_eq!(
        compute("", "", 0, 0),
        "e7ecebbc590bc88b3761fa6cd03d749f87463dabb67021a5c6768c25ec68b3f2"
    );
}

#[test]
fn separator_keeps_adjacent_fields_apart() {
    let id1 = compute("ab", "c", 1, 1);
    let id2 = compute("a", "bc", 1, 1);
    assert_ne!(id1, id2);
}

#[test]
fn hashed_bytes_have_the_fixed_layout() {
    assert_eq!(
        preimage_of("dev-1", "pl", 0x01020304, 0x1122334455667788),
        vec![
            b'd', b'e', b'v', b'-', b'1', 0, b'p', b'l', 0, 0x04, 0x03, 0x02, 0x01, 0x88, 0x77,
            0x66, 0x55, 0x44, 0x33, 0x22, 0x11
        ]
    );
    assert_eq!(preimage_of("", "", 0, 0), vec![0u8; 14]);
    assert_eq!(
        preimage_of("é", "", u32::MAX, -1),
        vec![
            0xc3, 0xa9, 0, 0, 0xff, 0xff, 0xff, 0xff, 0xff, 0xff, 0xff, 0xff, 0xff, 0xff, 0xff,
            0xff
        ]
    );
    assert_eq!(
        preimage_of("a", "b", 1, i64::MIN),
        vec![b'a', 0, b'b', 0, 1, 0, 0, 0, 0, 0, 0, 0, 0, 0, 0, 0x80]
    );
}
