//! What is computed from one envelope once its plant is known: the severity
//! of each reading and of the plant, the point for the time-series store, the
//! ticker message and the status change.

use vstd::prelude::*;
use vstd::string::StringExecFns;
use crate::envelope::{
    metric_name, metric_name_of, EnvelopeView, StatusChange, StatusChangeView, TelemetryEnvelope,
    METRIC_COUNT,
};
use crate::plant_id::{format_uuid, uuid_text};
use crate::scalar::Scalar;
use crate::telemetry_sink::{Field, FieldView, PointView, Tag, TagView, TelemetryPoint};
use crate::threshold::{
    aggregate_severity, evaluate_metric, max_severity, thresholds_view, Band, MetricThreshold,
    Severity, ThresholdView,
};

verus! {

/// The severity of one metric of a plant.
#[derive(Debug, Clone)]
pub struct MetricSeverity {
    pub metric: String,
    pub severity: Severity,
}

/// What a metric severity holds, as plain values.
pub struct MetricSeverityView {
    pub metric: Seq<char>,
    pub severity: Severity,
}

impl View for MetricSeverity {
    type V = MetricSeverityView;

    open spec fn view(&self) -> MetricSeverityView {
        MetricSeverityView { metric: self.metric@, severity: self.severity }
    }
}

/// The views of a list of metric severities.
pub open spec fn severities_view(list: Seq<MetricSeverity>) -> Seq<MetricSeverityView> {
    list.map_values(|e: MetricSeverity| e@)
}

/// The levels of a list of metric severities.
pub open spec fn levels(list: Seq<MetricSeverityView>) -> Seq<Severity> {
    list.map_values(|e: MetricSeverityView| e.severity)
}

/// The band of the first threshold for `metric`, if there is one.
pub open spec fn find_band(thresholds: Seq<ThresholdView>, metric: Seq<char>) -> Option<Band>
    decreases thresholds.len(),
{
    if thresholds.len() == 0 {
        None
    } else if thresholds[0].metric == metric {
        Some(thresholds[0].band)
    } else {
        find_band(thresholds.drop_first(), metric)
    }
}

/// The severity of a reading of `metric`: evaluated against the metric's
/// threshold, and normal where the metric has none.
pub open spec fn severity_for(
    thresholds: Seq<ThresholdView>,
    metric: Seq<char>,
    value: Scalar,
) -> Severity {
    match find_band(thresholds, metric) {
        Some(band) => band.severity_of(value),
        None => Severity::Normal,
    }
}

/// The severities of the readings that are present among the first `upto`
/// metrics, in the order of the metrics.
pub open spec fn severity_entries(
    env: EnvelopeView,
    thresholds: Seq<ThresholdView>,
    upto: int,
) -> Seq<MetricSeverityView>
    decreases upto,
{
    if upto <= 0 {
        Seq::empty()
    } else {
        let before = severity_entries(env, thresholds, upto - 1);
        match env.reading(upto - 1) {
            Some(value) => before.push(
                MetricSeverityView {
                    metric: metric_name(upto - 1),
                    severity: severity_for(thresholds, metric_name(upto - 1), value),
                },
            ),
            None => before,
        }
    }
}

/// The severity of each reading that the envelope carries.
pub open spec fn metric_severities(
    env: EnvelopeView,
    thresholds: Seq<ThresholdView>,
) -> Seq<MetricSeverityView> {
    severity_entries(env, thresholds, METRIC_COUNT as int)
}

/// The overall severity of the plant for this envelope.
pub open spec fn overall_severity(env: EnvelopeView, thresholds: Seq<ThresholdView>) -> Severity {
    max_severity(levels(metric_severities(env, thresholds)))
}

/// The readings that are present among the first `upto` metrics, as fields.
pub open spec fn reading_fields(env: EnvelopeView, upto: int) -> Seq<FieldView>
    decreases upto,
{
    if upto <= 0 {
        Seq::empty()
    } else {
        let before = reading_fields(env, upto - 1);
        match env.reading(upto - 1) {
            Some(value) => before.push(FieldView { key: metric_name(upto - 1), value }),
            None => before,
        }
    }
}

/// The point that is written for an envelope: measurement `plant_telemetry`,
/// the three identifying tags, the readings that are present, and the
/// envelope's timestamp.
pub open spec fn point_of(env: EnvelopeView, plant_type_id: u128) -> PointView {
    PointView {
        measurement: "plant_telemetry"@,
        tags: seq![
            TagView { key: "plant_id"@, value: env.plant_id },
            TagView { key: "device_uid"@, value: env.device_uid },
            TagView { key: "plant_type_id"@, value: uuid_text(plant_type_id) },
        ],
        fields: reading_fields(env, METRIC_COUNT as int),
        timestamp_ns: env.timestamp_ns,
    }
}

/// The message of the ticker event of a reading.
pub open spec fn ticker_text(plant_id: Seq<char>, overall: Severity) -> Seq<char> {
    "Plant "@ + plant_id + " reading: severity="@ + overall.name()
}

/// The status change of an envelope: one where the overall severity differs
/// from the previous one, none where they are equal.
pub open spec fn status_change_of(
    env: EnvelopeView,
    previous: Severity,
    overall: Severity,
) -> Option<StatusChangeView> {
    if overall != previous {
        Some(
            StatusChangeView {
                plant_id: env.plant_id,
                prev_severity: previous,
                new_severity: overall,
                occurred_at_ns: env.timestamp_ns,
            },
        )
    } else {
        None
    }
}

/// The names of the metrics are pairwise different.
pub proof fn lemma_metric_names_differ(i: int, j: int)
    requires
        0 <= i < METRIC_COUNT,
        0 <= j < METRIC_COUNT,
        i != j,
    ensures
        metric_name(i) != metric_name(j),
{
    reveal_strlit("soil_moisture");
    reveal_strlit("ambient_light_lux");
    reveal_strlit("ambient_humidity_rh");
    reveal_strlit("ambient_temp_c");
    assert("soil_moisture"@.len() == 13);
    assert("ambient_light_lux"@.len() == 17);
    assert("ambient_humidity_rh"@.len() == 19);
    assert("ambient_temp_c"@.len() == 14);
}

/// The fields of the readings are named after metrics, each at most once.
pub proof fn lemma_reading_fields_distinct(env: EnvelopeView, upto: int)
    requires
        0 <= upto <= METRIC_COUNT,
    ensures
        forall|i: int|
            0 <= i < reading_fields(env, upto).len() ==> exists|k: int|
                0 <= k < upto && (#[trigger] reading_fields(env, upto)[i]).key == metric_name(k),
        reading_fields(env, upto).map_values(|f: FieldView| f.key).no_duplicates(),
    decreases upto,
{
    if upto > 0 {
        lemma_reading_fields_distinct(env, upto - 1);
        let before = reading_fields(env, upto - 1);
        let after = reading_fields(env, upto);
        let keys = after.map_values(|f: FieldView| f.key);
        assert forall|i: int| 0 <= i < after.len() implies exists|k: int|
            0 <= k < upto && (#[trigger] after[i]).key == metric_name(k) by {
            if i < before.len() {
                assert(after[i] == before[i]);
                let k = choose|k: int| 0 <= k < upto - 1 && before[i].key == metric_name(k);
                assert(0 <= k < upto && after[i].key == metric_name(k));
            } else {
                assert(after[i].key == metric_name(upto - 1));
            }
        }
        assert forall|i: int, j: int| 0 <= i < keys.len() && 0 <= j < keys.len() && i != j implies keys[i]
            != keys[j] by {
            let old_keys = before.map_values(|f: FieldView| f.key);
            if i < before.len() && j < before.len() {
                assert(keys[i] == old_keys[i]);
                assert(keys[j] == old_keys[j]);
            } else {
                let low = if i < before.len() {
                    i
                } else {
                    j
                };
                assert(after[low] == before[low]);
                let k = choose|k: int| 0 <= k < upto - 1 && before[low].key == metric_name(k);
                lemma_metric_names_differ(k, upto - 1);
            }
        }
    }
}

/// In the point of an envelope no tag key and no field key occurs twice.
pub proof fn lemma_point_keys_distinct(env: EnvelopeView, plant_type_id: u128)
    ensures
        point_of(env, plant_type_id).keys_distinct(),
{
    let point = point_of(env, plant_type_id);
    reveal_strlit("plant_id");
    reveal_strlit("device_uid");
    reveal_strlit("plant_type_id");
    assert("plant_id"@.len() == 8);
    assert("device_uid"@.len() == 10);
    assert("plant_type_id"@.len() == 13);
    let keys = point.tag_keys();
    assert(keys.len() == 3);
    assert(keys[0] == "plant_id"@);
    assert(keys[1] == "device_uid"@);
    assert(keys[2] == "plant_type_id"@);
    lemma_reading_fields_distinct(env, METRIC_COUNT as int);
}

/// Evaluates a reading of `metric` against the first threshold for it.
pub fn evaluate_reading(thresholds: &Vec<MetricThreshold>, metric: &str, value: Scalar) -> (sev:
    Severity)
    ensures
        sev == severity_for(thresholds_view(thresholds@), metric@, value),
{
    let ghost all = thresholds_view(thresholds@);
    let n = thresholds.len();
    let mut i: usize = 0;
    assert(all.skip(0) =~= all);
    while i < n
        invariant
            i <= n,
            n == thresholds@.len(),
            all == thresholds_view(thresholds@),
            find_band(all, metric@) == find_band(all.skip(i as int), metric@),
        decreases n - i,
    {
        proof {
            assert(all.skip(i as int)[0] == thresholds@[i as int]@);
            assert(all.skip(i as int).drop_first() =~= all.skip(i + 1));
        }
        if crate::text::str_eq(thresholds[i].metric.as_str(), metric) {
            return evaluate_metric(value, &thresholds[i]);
        }
        i += 1;
    }
    proof {
        assert(all.skip(n as int).len() == 0);
    }
    Severity::Normal
}

/// Computes the severity of each reading that the envelope carries.
pub fn assess_metrics(env: &TelemetryEnvelope, thresholds: &Vec<MetricThreshold>) -> (list: Vec<
    MetricSeverity,
>)
    ensures
        severities_view(list@) == metric_severities(env@, thresholds_view(thresholds@)),
{
    let mut list: Vec<MetricSeverity> = Vec::new();
    let mut i: usize = 0;
    assert(severities_view(list@) =~= severity_entries(env@, thresholds_view(thresholds@), 0));
    while i < METRIC_COUNT
        invariant
            i <= METRIC_COUNT,
            severities_view(list@) == severity_entries(
                env@,
                thresholds_view(thresholds@),
                i as int,
            ),
        decreases METRIC_COUNT - i,
    {
        let ghost before = severities_view(list@);
        if let Some(value) = env.reading(i) {
            let name = metric_name_of(i);
            let severity = evaluate_reading(thresholds, name, value);
            let entry = MetricSeverity { metric: name.to_owned(), severity };
            list.push(entry);
            assert(severities_view(list@) =~= before.push(entry@));
        }
        i += 1;
    }
    list
}

/// The overall severity of a list of metric severities: the most severe of
/// them, normal for the empty list.
pub fn overall_of(list: &Vec<MetricSeverity>) -> (overall: Severity)
    ensures
        overall == max_severity(levels(severities_view(list@))),
{
    let mut all: Vec<Severity> = Vec::new();
    let n = list.len();
    let mut i: usize = 0;
    while i < n
        invariant
            i <= n,
            n == list@.len(),
            all@ == levels(severities_view(list@)).take(i as int),
        decreases n - i,
    {
        all.push(list[i].severity);
        i += 1;
        assert(all@ =~= levels(severities_view(list@)).take(i as int));
    }
    assert(all@ =~= levels(severities_view(list@)));
    aggregate_severity(all.as_slice())
}

/// Builds the point for the time-series store, or `None` where the envelope
/// carries no reading.
pub fn build_point(env: &TelemetryEnvelope, plant_type_id: u128) -> (point: Option<TelemetryPoint>)
    ensures
        env@.no_reading() <==> point is None,
        point is Some ==> point->0@ == point_of(env@, plant_type_id),
        point is Some ==> point->0@.keys_distinct(),
{
    proof {
        lemma_point_keys_distinct(env@, plant_type_id);
    }
    let mut fields: Vec<Field> = Vec::new();
    let mut i: usize = 0;
    assert(fields@.map_values(|f: Field| f@) =~= reading_fields(env@, 0));
    while i < METRIC_COUNT
        invariant
            i <= METRIC_COUNT,
            fields@.map_values(|f: Field| f@) == reading_fields(env@, i as int),
            fields@.len() == 0 <==> forall|k: int| 0 <= k < i ==> env@.reading(k) is None,
        decreases METRIC_COUNT - i,
    {
        let ghost before = fields@.map_values(|f: Field| f@);
        if let Some(value) = env.reading(i) {
            let field = Field { key: metric_name_of(i).to_owned(), value };
            fields.push(field);
            assert(fields@.map_values(|f: Field| f@) =~= before.push(field@));
        }
        i += 1;
    }
    proof {
        if env@.no_reading() {
            assert forall|k: int| 0 <= k < 4 implies env@.reading(k) is None by {}
        } else {
            assert(env@.reading(0) is Some || env@.reading(1) is Some || env@.reading(2) is Some
                || env@.reading(3) is Some);
        }
    }
    if fields.len() == 0 {
        return None;
    }
    let mut tags: Vec<Tag> = Vec::new();
    tags.push(Tag { key: "plant_id".to_owned(), value: env.plant_id.clone() });
    tags.push(Tag { key: "device_uid".to_owned(), value: env.device_uid.clone() });
    tags.push(Tag { key: "plant_type_id".to_owned(), value: format_uuid(plant_type_id) });
    let point = TelemetryPoint {
        measurement: "plant_telemetry".to_owned(),
        tags,
        fields,
        timestamp_ns: env.timestamp_ns,
    };
    assert(point@.tags =~= point_of(env@, plant_type_id).tags);
    Some(point)
}

/// Writes the message of the ticker event of a reading.
pub fn ticker_message(plant_id: &str, overall: Severity) -> (message: String)
    ensures
        message@ == ticker_text(plant_id@, overall),
{
    let mut message = "Plant ".to_owned();
    message.append(plant_id);
    message.append(" reading: severity=");
    message.append(overall.as_str());
    message
}

/// Detects a status change: `Some` exactly when the overall severity differs
/// from the previous one.
pub fn detect_change(env: &TelemetryEnvelope, previous: Severity, overall: Severity) -> (change:
    Option<StatusChange>)
    ensures
        crate::envelope::change_view(change) == status_change_of(env@, previous, overall),
        change is Some <==> overall != previous,
{
    if overall != previous {
        Some(
            StatusChange {
                plant_id: env.plant_id.clone(),
                prev_severity: previous,
                new_severity: overall,
                occurred_at_ns: env.timestamp_ns,
            },
        )
    } else {
        None
    }
}

} // verus!
