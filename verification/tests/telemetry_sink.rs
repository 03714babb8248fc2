use plant_telemetry::scalar::Scalar;
use plant_telemetry::telemetry_sink::{
    escape_lp, render, to_line_protocol, to_lines, DataPoint, FakeTelemetrySink, Field, Tag,
    TelemetryPoint, TelemetrySink, TextField,
};
use plant_telemetry::text::{decimal_i64, decimal_u64};

fn num(v: f64) -> Scalar {
    Scalar::from_bits(v.to_bits())
}

fn tag(key: &str, value: &str) -> Tag {
    Tag { key: key.to_string(), value: value.to_string() }
}

fn text_field(key: &str, value: f64) -> TextField {
    TextField { key: key.to_string(), value: format!("{}", value) }
}

fn data_point(tags: Vec<Tag>, fields: Vec<TextField>, timestamp_ns: i64) -> DataPoint {
    DataPoint { measurement: "plant_telemetry".to_string(), tags, fields, timestamp_ns }
}

fn point(value: f64) -> TelemetryPoint {
    TelemetryPoint {
        measurement: "plant_telemetry".to_string(),
        tags: vec![tag("plant_id", "p1")],
        fields: vec![Field { key: "soil_moisture".to_string(), value: num(value) }],
        timestamp_ns: 7,
    }
}

#[test]
fn escape_lp_escapes_space_comma_and_equals() {
    assert_eq!(escape_lp("a b"), "a\\ b");
    assert_eq!(escape_lp("a,b"), "a\\,b");
    assert_eq!(escape_lp("a=b"), "a\\=b");
    assert_eq!(escape_lp("a b,c=d"), "a\\ b\\,c\\=d");
    assert_eq!(escape_lp(""), "");
    assert_eq!(escape_lp("plain_text-1"), "plain_text-1");
    assert_eq!(escape_lp("  "), "\\ \\ ");
    assert_eq!(escape_lp("back\\slash"), "back\\slash");
    assert_eq!(escape_lp("météo=1"), "météo\\=1");
}

#[test]
fn escape_lp_agrees_with_successive_replacement() {
    for s in ["a b,c=d", "=,= ", "x", "", "\\ ", "k=v,k2=v2 k3"] {
        let want = s.replace(' ', "\\ ").replace(',', "\\,").replace('=', "\\=");
        assert_eq!(escape_lp(s), want);
    }
}

#[test]
fn line_with_tags_fields_and_timestamp() {
    let pt = data_point(
        vec![tag("plant_id", "p1"), tag("device_uid", "dev 1")],
        vec![text_field("soil_moisture", 50.0), text_field("ambient_temp_c", 22.5)],
        1_700_000_000_000_000_000,
    );
    assert_eq!(
        to_line_protocol(&pt),
        "plant_telemetry,plant_id=p1,device_uid=dev\\ 1 soil_moisture=50,ambient_temp_c=22.5 1700000000000000000"
    );
}

#[test]
fn zero_timestamp_is_omitted() {
    let pt = data_point(vec![tag("k", "v")], vec![text_field("f", 1.5)], 0);
    assert_eq!(to_line_protocol(&pt), "plant_telemetry,k=v f=1.5");
}

#[test]
fn negative_timestamp_is_written() {
    let pt = data_point(vec![], vec![text_field("f", 1.5)], -5);
    assert_eq!(to_line_protocol(&pt), "plant_telemetry f=1.5 -5");
}

#[test]
fn empty_tags_and_single_field_are_accepted() {
    let pt = data_point(vec![], vec![text_field("soil_moisture", 15.0)], 42);
    assert_eq!(to_line_protocol(&pt), "plant_telemetry soil_moisture=15 42");
}

#[test]
fn field_keys_are_escaped_and_values_are_not() {
    let pt = DataPoint {
        measurement: "my measurement".to_string(),
        tags: vec![tag("a=b", "c,d")],
        fields: vec![TextField { key: "soil moisture".to_string(), value: "1e21".to_string() }],
        timestamp_ns: 1,
    };
    assert_eq!(to_line_protocol(&pt), "my\\ measurement,a\\=b=c\\,d soil\\ moisture=1e21 1");
}

#[test]
fn lines_are_joined_by_line_feeds() {
    let a = data_point(vec![], vec![text_field("f", 1.0)], 1);
    let b = data_point(vec![tag("k", "v")], vec![text_field("g", 2.0)], 0);
    let c = data_point(vec![], vec![text_field("h", -3.25)], 3);
    assert_eq!(to_lines(&vec![]), "");
    assert_eq!(to_lines(&vec![data_point(vec![], vec![text_field("f", 1.0)], 1)]), "plant_telemetry f=1 1");
    assert_eq!(
        to_lines(&vec![a, b, c]),
        "plant_telemetry f=1 1\nplant_telemetry,k=v g=2\nplant_telemetry h=-3.25 3"
    );
}

#[test]
fn render_pairs_fields_with_their_texts() {
    let pt = TelemetryPoint {
        measurement: "m".to_string(),
        tags: vec![tag("k", "v")],
        fields: vec![
            Field { key: "a".to_string(), value: num(1.0) },
            Field { key: "b".to_string(), value: num(2.5) },
        ],
        timestamp_ns: 9,
    };
    let texts: Vec<String> =
        pt.fields.iter().map(|f| format!("{}", f64::from_bits(f.value.to_bits()))).collect();
    let data = render(pt, texts).unwrap();
    assert_eq!(to_line_protocol(&data), "m,k=v a=1,b=2.5 9");
}

#[test]
fn render_refuses_a_wrong_number_of_texts() {
    assert!(render(point(1.0), vec![]).is_none());
    assert!(render(point(1.0), vec!["1".to_string(), "2".to_string()]).is_none());
    assert!(render(point(1.0), vec!["1".to_string()]).is_some());
}

#[test]
fn memory_sink_collects_in_order() {
    let mut sink = FakeTelemetrySink::new();
    assert!(sink.snapshot().is_empty());
    assert!(sink.write_points(vec![point(1.0), point(2.0)]).is_ok());
    assert!(sink.write_points(vec![]).is_ok());
    assert!(sink.write_points(vec![point(3.0)]).is_ok());
    let seen = sink.snapshot();
    assert_eq!(seen.len(), 3);
    assert_eq!(seen[0].fields[0].value, num(1.0));
    assert_eq!(seen[1].fields[0].value, num(2.0));
    assert_eq!(seen[2].fields[0].value, num(3.0));
    assert_eq!(seen[2].tags[0].key, "plant_id");
    assert_eq!(seen[2].tags[0].value, "p1");
    assert_eq!(seen[2].measurement, "plant_telemetry");
    assert_eq!(seen[2].timestamp_ns, 7);
    assert_eq!(sink.snapshot().len(), 3);
}

#[test]
fn memory_sink_drain_empties_it() {
    let mut sink = FakeTelemetrySink::new();
    sink.write_points(vec![point(1.0), point(2.0)]).unwrap();
    let taken = sink.drain();
    assert_eq!(taken.len(), 2);
    assert_eq!(taken[1].fields[0].value, num(2.0));
    assert!(sink.snapshot().is_empty());
    assert!(sink.drain().is_empty());
}

#[test]
fn duplicate_copies_every_part() {
    let original = TelemetryPoint {
        measurement: "m".to_string(),
        tags: vec![tag("k", "v"), tag("k2", "v2")],
        fields: vec![Field { key: "a".to_string(), value: num(1.0) }],
        timestamp_ns: -3,
    };
    let copy = original.duplicate();
    assert_eq!(copy.measurement, "m");
    assert_eq!(copy.tags.len(), 2);
    assert_eq!(copy.tags[1].key, "k2");
    assert_eq!(copy.tags[1].value, "v2");
    assert_eq!(copy.fields.len(), 1);
    assert_eq!(copy.fields[0].key, "a");
    assert_eq!(copy.fields[0].value, num(1.0));
    assert_eq!(copy.timestamp_ns, -3);
}

#[test]
fn decimal_text_of_integers() {
    assert_eq!(decimal_u64(0), "0");
    assert_eq!(decimal_u64(9), "9");
    assert_eq!(decimal_u64(10), "10");
    assert_eq!(decimal_u64(1024), "1024");
    assert_eq!(decimal_u64(u64::MAX), "18446744073709551615");
    assert_eq!(decimal_i64(0), "0");
    assert_eq!(decimal_i64(-1), "-1");
    assert_eq!(decimal_i64(1_700_000_000_000_000_000), "1700000000000000000");
    assert_eq!(decimal_i64(i64::MAX), "9223372036854775807");
    assert_eq!(decimal_i64(i64::MIN), "-9223372036854775808");
    for n in [-1000i64, -99, -10, 7, 100, 12345, 1_000_000_007] {
        assert_eq!(decimal_i64(n), format!("{}", n));
    }
}
