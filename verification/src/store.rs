//! A model of what the ingest procedure touches: the relational tables, the
//! time-series sink and the message bus, held in memory.
//!
//! [`effect`] says what each action of the ingest machine does to these and
//! what it brings back. [`MemoryStore`] does the same on executable data, so
//! that whole runs can be tried without a database.

use vstd::prelude::*;
use crate::assess::{severities_view, MetricSeverity, MetricSeverityView};
use crate::envelope::{IngestResult, StatusChange, StatusChangeView};
use crate::ingest::{
    copy_severities, next, unexpected_text, ActionView, EventView, IngestAction, IngestEvent,
    LedgerRow, LedgerRowView, OutcomeView, PlantRow, Stage, StateRow, StateRowView, StateView,
    TickerEvent, TickerView,
};
use crate::scalar::Scalar;
use crate::telemetry_sink::{
    points_view, FakeTelemetrySink, PointView, TelemetryPoint, TelemetrySink,
};
use crate::text::str_eq;
use crate::threshold::{MetricThreshold, Severity, ThresholdView};

verus! {

/// A row of the plant table.
#[derive(Debug, Clone, Copy, PartialEq, Eq, Structural)]
pub struct PlantRecord {
    pub id: u128,
    pub plant_type_id: u128,
    pub is_active: bool,
}

/// A threshold of a plant type.
#[derive(Debug)]
pub struct ThresholdRecord {
    pub plant_type_id: u128,
    pub threshold: MetricThreshold,
}

/// What a threshold record holds, as plain values.
pub struct ThresholdRecordView {
    pub plant_type_id: u128,
    pub threshold: ThresholdView,
}

impl View for ThresholdRecord {
    type V = ThresholdRecordView;

    open spec fn view(&self) -> ThresholdRecordView {
        ThresholdRecordView { plant_type_id: self.plant_type_id, threshold: self.threshold@ }
    }
}

/// A row of the device table.
#[derive(Debug)]
pub struct DeviceRow {
    pub device_uid: String,
    pub last_seen_at: Option<i64>,
    pub last_ingest_id: Option<String>,
}

/// What a device row holds, as plain values.
pub struct DeviceView {
    pub device_uid: Seq<char>,
    pub last_seen_at: Option<i64>,
    pub last_ingest_id: Option<Seq<char>>,
}

/// The view of an optional text.
pub open spec fn text_view(text: Option<String>) -> Option<Seq<char>> {
    match text {
        Some(t) => Some(t@),
        None => None,
    }
}

impl View for DeviceRow {
    type V = DeviceView;

    open spec fn view(&self) -> DeviceView {
        DeviceView {
            device_uid: self.device_uid@,
            last_seen_at: self.last_seen_at,
            last_ingest_id: text_view(self.last_ingest_id),
        }
    }
}

/// The current state of a plant.
#[derive(Debug)]
pub struct PlantState {
    pub plant_id: u128,
    pub updated_at: i64,
    pub last_ingest_id: String,
    pub severity: Severity,
    pub soil_moisture: Option<Scalar>,
    pub ambient_light_lux: Option<Scalar>,
    pub ambient_humidity_rh: Option<Scalar>,
    pub ambient_temp_c: Option<Scalar>,
    pub metric_severity: Vec<MetricSeverity>,
}

/// What a plant's state holds, as plain values.
pub struct PlantStateView {
    pub plant_id: u128,
    pub updated_at: i64,
    pub last_ingest_id: Seq<char>,
    pub severity: Severity,
    pub soil_moisture: Option<Scalar>,
    pub ambient_light_lux: Option<Scalar>,
    pub ambient_humidity_rh: Option<Scalar>,
    pub ambient_temp_c: Option<Scalar>,
    pub metric_severity: Seq<MetricSeverityView>,
}

impl View for PlantState {
    type V = PlantStateView;

    open spec fn view(&self) -> PlantStateView {
        PlantStateView {
            plant_id: self.plant_id,
            updated_at: self.updated_at,
            last_ingest_id: self.last_ingest_id@,
            severity: self.severity,
            soil_moisture: self.soil_moisture,
            ambient_light_lux: self.ambient_light_lux,
            ambient_humidity_rh: self.ambient_humidity_rh,
            ambient_temp_c: self.ambient_temp_c,
            metric_severity: severities_view(self.metric_severity@),
        }
    }
}

impl PlantStateView {
    /// The stored reading of the `i`-th metric.
    pub open spec fn reading(self, i: int) -> Option<Scalar> {
        if i == 0 {
            self.soil_moisture
        } else if i == 1 {
            self.ambient_light_lux
        } else if i == 2 {
            self.ambient_humidity_rh
        } else {
            self.ambient_temp_c
        }
    }
}

/// Everything that the ingest procedure reads or writes.
pub struct StoreView {
    pub ledger: Seq<LedgerRowView>,
    pub plants: Seq<PlantRecord>,
    pub thresholds: Seq<ThresholdRecordView>,
    pub states: Seq<PlantStateView>,
    pub devices: Seq<DeviceView>,
    pub ticker: Seq<TickerView>,
    /// What was published on the message bus, in order.
    pub published: Seq<StatusChangeView>,
    /// What was written to the time-series sink, in order.
    pub points: Seq<PointView>,
    /// The time that the store's clock shows.
    pub now: i64,
}

/// True when the ledger holds a row with this fingerprint.
pub open spec fn ledger_has(ledger: Seq<LedgerRowView>, ingest_id: Seq<char>) -> bool {
    exists|i: int| 0 <= i < ledger.len() && (#[trigger] ledger[i]).ingest_id == ingest_id
}

/// The number of ledger rows with this fingerprint.
pub open spec fn ledger_count(ledger: Seq<LedgerRowView>, ingest_id: Seq<char>) -> nat
    decreases ledger.len(),
{
    if ledger.len() == 0 {
        0
    } else {
        ledger_count(ledger.drop_last(), ingest_id) + if ledger.last().ingest_id == ingest_id {
            1nat
        } else {
            0nat
        }
    }
}

/// The ledger after an insert that does nothing on a conflict.
pub open spec fn record(ledger: Seq<LedgerRowView>, row: LedgerRowView) -> Seq<LedgerRowView> {
    if ledger_has(ledger, row.ingest_id) {
        ledger
    } else {
        ledger.push(row)
    }
}

/// The first active plant with this identifier.
pub open spec fn find_plant(plants: Seq<PlantRecord>, id: u128) -> Option<PlantRow>
    decreases plants.len(),
{
    if plants.len() == 0 {
        None
    } else if plants[0].id == id && plants[0].is_active {
        Some(PlantRow { id: plants[0].id, plant_type_id: plants[0].plant_type_id })
    } else {
        find_plant(plants.drop_first(), id)
    }
}

/// The thresholds of a plant type, in table order.
pub open spec fn thresholds_of(records: Seq<ThresholdRecordView>, plant_type_id: u128) -> Seq<
    ThresholdView,
>
    decreases records.len(),
{
    if records.len() == 0 {
        Seq::empty()
    } else if records.last().plant_type_id == plant_type_id {
        thresholds_of(records.drop_last(), plant_type_id).push(records.last().threshold)
    } else {
        thresholds_of(records.drop_last(), plant_type_id)
    }
}

/// The state row of a plant, if there is one.
pub open spec fn find_state(states: Seq<PlantStateView>, plant_id: u128) -> Option<PlantStateView>
    decreases states.len(),
{
    if states.len() == 0 {
        None
    } else if states[0].plant_id == plant_id {
        Some(states[0])
    } else {
        find_state(states.drop_first(), plant_id)
    }
}

/// True when the plant has a state row.
pub open spec fn has_state(states: Seq<PlantStateView>, plant_id: u128) -> bool {
    exists|i: int| 0 <= i < states.len() && (#[trigger] states[i]).plant_id == plant_id
}

/// The new value where there is one, and else the old value.
pub open spec fn coalesce(new: Option<Scalar>, old: Option<Scalar>) -> Option<Scalar> {
    if new is Some {
        new
    } else {
        old
    }
}

/// A state row after an upsert that found it: time, fingerprint, severity
/// and metric severities are overwritten; each reading is overwritten only
/// by a reading that is present.
pub open spec fn merged(old: PlantStateView, row: StateRowView, now: i64) -> PlantStateView {
    PlantStateView {
        plant_id: old.plant_id,
        updated_at: now,
        last_ingest_id: row.last_ingest_id,
        severity: row.severity,
        soil_moisture: coalesce(row.soil_moisture, old.soil_moisture),
        ambient_light_lux: coalesce(row.ambient_light_lux, old.ambient_light_lux),
        ambient_humidity_rh: coalesce(row.ambient_humidity_rh, old.ambient_humidity_rh),
        ambient_temp_c: coalesce(row.ambient_temp_c, old.ambient_temp_c),
        metric_severity: row.metric_severity,
    }
}

/// The state row that an upsert inserts where the plant has none.
pub open spec fn inserted(row: StateRowView, now: i64) -> PlantStateView {
    PlantStateView {
        plant_id: row.plant_id,
        updated_at: now,
        last_ingest_id: row.last_ingest_id,
        severity: row.severity,
        soil_moisture: row.soil_moisture,
        ambient_light_lux: row.ambient_light_lux,
        ambient_humidity_rh: row.ambient_humidity_rh,
        ambient_temp_c: row.ambient_temp_c,
        metric_severity: row.metric_severity,
    }
}

/// The state table after an upsert.
pub open spec fn upsert(states: Seq<PlantStateView>, row: StateRowView, now: i64) -> Seq<
    PlantStateView,
> {
    if has_state(states, row.plant_id) {
        states.map_values(
            |s: PlantStateView|
                if s.plant_id == row.plant_id {
                    merged(s, row, now)
                } else {
                    s
                },
        )
    } else {
        states.push(inserted(row, now))
    }
}

/// The device table after the device was seen: its last-seen time is now.
pub open spec fn touched(devices: Seq<DeviceView>, device_uid: Seq<char>, now: i64) -> Seq<
    DeviceView,
> {
    devices.map_values(
        |d: DeviceView|
            if d.device_uid == device_uid {
                DeviceView { last_seen_at: Some(now), ..d }
            } else {
                d
            },
    )
}

/// The device table after a heartbeat: the device's last-seen time is now
/// and its last fingerprint is the given one.
pub open spec fn heartbeat(
    devices: Seq<DeviceView>,
    device_uid: Seq<char>,
    ingest_id: Seq<char>,
    now: i64,
) -> Seq<DeviceView> {
    devices.map_values(
        |d: DeviceView|
            if d.device_uid == device_uid {
                DeviceView { last_seen_at: Some(now), last_ingest_id: Some(ingest_id), ..d }
            } else {
                d
            },
    )
}

/// The text of the severity stored for a plant, if it has a state row.
pub open spec fn stored_severity(states: Seq<PlantStateView>, plant_id: u128) -> Option<
    Seq<char>,
> {
    match find_state(states, plant_id) {
        Some(state) => Some(state.severity.name()),
        None => None,
    }
}

/// What an action does to the store, and what it brings back.
pub open spec fn effect(store: StoreView, action: ActionView) -> (StoreView, EventView) {
    match action {
        ActionView::ProbeLedger { ingest_id } => (
            store,
            EventView::LedgerProbed { known: ledger_has(store.ledger, ingest_id) },
        ),
        ActionView::TouchDevice { device_uid } => (
            StoreView { devices: touched(store.devices, device_uid, store.now), ..store },
            EventView::Completed,
        ),
        ActionView::LookupPlant { plant_id } => (
            store,
            EventView::PlantLooked { row: find_plant(store.plants, plant_id) },
        ),
        ActionView::RecordLedger { entry } => (
            StoreView { ledger: record(store.ledger, entry), ..store },
            EventView::Completed,
        ),
        ActionView::LoadThresholds { plant_type_id } => (
            store,
            EventView::ThresholdsLoaded {
                thresholds: thresholds_of(store.thresholds, plant_type_id),
            },
        ),
        ActionView::ReadPreviousSeverity { plant_id } => (
            store,
            EventView::PreviousRead { severity: stored_severity(store.states, plant_id) },
        ),
        ActionView::WritePoint { point } => (
            StoreView { points: store.points.push(point), ..store },
            EventView::Completed,
        ),
        ActionView::UpsertState { row } => (
            StoreView { states: upsert(store.states, row, store.now), ..store },
            EventView::Completed,
        ),
        ActionView::Heartbeat { device_uid, ingest_id } => (
            StoreView {
                devices: heartbeat(store.devices, device_uid, ingest_id, store.now),
                ..store
            },
            EventView::Completed,
        ),
        ActionView::InsertTicker { event } => (
            StoreView { ticker: store.ticker.push(event), ..store },
            EventView::Completed,
        ),
        ActionView::Publish { change } => (
            StoreView { published: store.published.push(change), ..store },
            EventView::Completed,
        ),
        ActionView::Finish { outcome } => (store, EventView::Completed),
    }
}

/// The views of the rows of a ledger.
pub open spec fn ledger_view(rows: Seq<LedgerRow>) -> Seq<LedgerRowView> {
    rows.map_values(|r: LedgerRow| r@)
}

/// The views of a list of threshold records.
pub open spec fn records_view(rows: Seq<ThresholdRecord>) -> Seq<ThresholdRecordView> {
    rows.map_values(|r: ThresholdRecord| r@)
}

/// The views of a list of plant states.
pub open spec fn states_view(rows: Seq<PlantState>) -> Seq<PlantStateView> {
    rows.map_values(|r: PlantState| r@)
}

/// The views of a list of device rows.
pub open spec fn devices_view(rows: Seq<DeviceRow>) -> Seq<DeviceView> {
    rows.map_values(|r: DeviceRow| r@)
}

/// The views of a list of ticker events.
pub open spec fn ticker_view(rows: Seq<TickerEvent>) -> Seq<TickerView> {
    rows.map_values(|r: TickerEvent| r@)
}

/// The views of a list of status changes.
pub open spec fn changes_view(rows: Seq<StatusChange>) -> Seq<StatusChangeView> {
    rows.map_values(|r: StatusChange| r@)
}

/// Tells whether the ledger holds a row with this fingerprint.
pub fn ledger_contains(ledger: &Vec<LedgerRow>, ingest_id: &str) -> (known: bool)
    ensures
        known == ledger_has(ledger_view(ledger@), ingest_id@),
{
    let n = ledger.len();
    let mut i: usize = 0;
    while i < n
        invariant
            i <= n,
            n == ledger@.len(),
            forall|k: int| 0 <= k < i ==> (#[trigger] ledger_view(ledger@)[k]).ingest_id != ingest_id@,
        decreases n - i,
    {
        if str_eq(ledger[i].ingest_id.as_str(), ingest_id) {
            assert(ledger_view(ledger@)[i as int].ingest_id == ingest_id@);
            return true;
        }
        i += 1;
    }
    false
}

/// Inserts a row into the ledger unless its fingerprint is there.
pub fn record_ledger(ledger: &mut Vec<LedgerRow>, row: LedgerRow)
    ensures
        ledger_view(final(ledger)@) == record(ledger_view(old(ledger)@), row@),
{
    if !ledger_contains(ledger, row.ingest_id.as_str()) {
        ledger.push(row);
        assert(ledger_view(ledger@) =~= ledger_view(old(ledger)@).push(row@));
    }
}

/// Looks up the first active plant with this identifier.
pub fn lookup_plant(plants: &Vec<PlantRecord>, id: u128) -> (row: Option<PlantRow>)
    ensures
        row == find_plant(plants@, id),
{
    let n = plants.len();
    let mut i: usize = 0;
    assert(plants@.skip(0) =~= plants@);
    while i < n
        invariant
            i <= n,
            n == plants@.len(),
            find_plant(plants@, id) == find_plant(plants@.skip(i as int), id),
        decreases n - i,
    {
        proof {
            assert(plants@.skip(i as int)[0] == plants@[i as int]);
            assert(plants@.skip(i as int).drop_first() =~= plants@.skip(i + 1));
        }
        if plants[i].id == id && plants[i].is_active {
            return Some(PlantRow { id: plants[i].id, plant_type_id: plants[i].plant_type_id });
        }
        i += 1;
    }
    assert(plants@.skip(n as int).len() == 0);
    None
}

/// Copies a threshold.
pub fn copy_threshold(t: &MetricThreshold) -> (copy: MetricThreshold)
    ensures
        copy@ == t@,
{
    MetricThreshold {
        metric: t.metric.clone(),
        warn_min: t.warn_min,
        warn_max: t.warn_max,
        crit_min: t.crit_min,
        crit_max: t.crit_max,
    }
}

/// Loads the thresholds of a plant type, in table order.
pub fn load_thresholds(records: &Vec<ThresholdRecord>, plant_type_id: u128) -> (list: Vec<
    MetricThreshold,
>)
    ensures
        crate::threshold::thresholds_view(list@) == thresholds_of(
            records_view(records@),
            plant_type_id,
        ),
{
    let ghost all = records_view(records@);
    let mut list: Vec<MetricThreshold> = Vec::new();
    let n = records.len();
    let mut i: usize = 0;
    assert(crate::threshold::thresholds_view(list@) =~= thresholds_of(all.take(0), plant_type_id));
    while i < n
        invariant
            i <= n,
            n == records@.len(),
            all == records_view(records@),
            crate::threshold::thresholds_view(list@) == thresholds_of(
                all.take(i as int),
                plant_type_id,
            ),
        decreases n - i,
    {
        let ghost before = crate::threshold::thresholds_view(list@);
        proof {
            assert(all.take(i + 1).drop_last() =~= all.take(i as int));
            assert(all.take(i + 1).last() == records@[i as int]@);
        }
        if records[i].plant_type_id == plant_type_id {
            let t = copy_threshold(&records[i].threshold);
            list.push(t);
            assert(crate::threshold::thresholds_view(list@) =~= before.push(t@));
        }
        i += 1;
    }
    assert(all.take(n as int) =~= all);
    list
}

/// Reads the severity stored for a plant, as text.
pub fn read_severity(states: &Vec<PlantState>, plant_id: u128) -> (text: Option<String>)
    ensures
        text_view(text) == stored_severity(states_view(states@), plant_id),
{
    let ghost all = states_view(states@);
    let n = states.len();
    let mut i: usize = 0;
    assert(all.skip(0) =~= all);
    while i < n
        invariant
            i <= n,
            n == states@.len(),
            all == states_view(states@),
            find_state(all, plant_id) == find_state(all.skip(i as int), plant_id),
        decreases n - i,
    {
        proof {
            assert(all.skip(i as int)[0] == states@[i as int]@);
            assert(all.skip(i as int).drop_first() =~= all.skip(i + 1));
        }
        if states[i].plant_id == plant_id {
            return Some(states[i].severity.to_text());
        }
        i += 1;
    }
    assert(all.skip(n as int).len() == 0);
    None
}

/// Copies an optional text.
pub fn copy_text(text: &Option<String>) -> (copy: Option<String>)
    ensures
        text_view(copy) == text_view(*text),
{
    match text {
        Some(t) => Some(t.clone()),
        None => None,
    }
}

/// Marks a device as seen now.
pub fn touch_device(devices: &mut Vec<DeviceRow>, device_uid: &str, now: i64)
    ensures
        devices_view(final(devices)@) == touched(devices_view(old(devices)@), device_uid@, now),
{
    let ghost before = devices_view(devices@);
    let n = devices.len();
    let mut i: usize = 0;
    while i < n
        invariant
            i <= n,
            n == devices@.len(),
            n == before.len(),
            forall|k: int| 0 <= k < i ==> (#[trigger] devices@[k])@ == touched(before, device_uid@, now)[k],
            forall|k: int| i <= k < n ==> (#[trigger] devices@[k])@ == before[k],
        decreases n - i,
    {
        if str_eq(devices[i].device_uid.as_str(), device_uid) {
            let row = DeviceRow {
                device_uid: devices[i].device_uid.clone(),
                last_seen_at: Some(now),
                last_ingest_id: copy_text(&devices[i].last_ingest_id),
            };
            devices.set(i, row);
        }
        i += 1;
    }
    assert(devices_view(devices@) =~= touched(before, device_uid@, now));
}

/// Marks a device as seen now, with the fingerprint of what it sent.
pub fn beat_device(devices: &mut Vec<DeviceRow>, device_uid: &str, ingest_id: &str, now: i64)
    ensures
        devices_view(final(devices)@) == heartbeat(
            devices_view(old(devices)@),
            device_uid@,
            ingest_id@,
            now,
        ),
{
    let ghost before = devices_view(devices@);
    let n = devices.len();
    let mut i: usize = 0;
    while i < n
        invariant
            i <= n,
            n == devices@.len(),
            n == before.len(),
            forall|k: int|
                0 <= k < i ==> (#[trigger] devices@[k])@ == heartbeat(
                    before,
                    device_uid@,
                    ingest_id@,
                    now,
                )[k],
            forall|k: int| i <= k < n ==> (#[trigger] devices@[k])@ == before[k],
        decreases n - i,
    {
        if str_eq(devices[i].device_uid.as_str(), device_uid) {
            let row = DeviceRow {
                device_uid: devices[i].device_uid.clone(),
                last_seen_at: Some(now),
                last_ingest_id: Some(ingest_id.to_owned()),
            };
            devices.set(i, row);
        }
        i += 1;
    }
    assert(devices_view(devices@) =~= heartbeat(before, device_uid@, ingest_id@, now));
}

/// Picks the new reading where there is one, and else the old one.
pub fn pick(new: Option<Scalar>, old: Option<Scalar>) -> (r: Option<Scalar>)
    ensures
        r == coalesce(new, old),
{
    match new {
        Some(_) => new,
        None => old,
    }
}

/// Inserts or updates the current state of a plant.
pub fn upsert_state(states: &mut Vec<PlantState>, row: StateRow, now: i64)
    ensures
        states_view(final(states)@) == upsert(states_view(old(states)@), row@, now),
{
    let ghost before = states_view(states@);
    let ghost target = before.map_values(
        |s: PlantStateView|
            if s.plant_id == row@.plant_id {
                merged(s, row@, now)
            } else {
                s
            },
    );
    let n = states.len();
    let mut found = false;
    let mut i: usize = 0;
    while i < n
        invariant
            i <= n,
            n == states@.len(),
            n == before.len(),
            target.len() == n,
            forall|k: int|
                0 <= k < n ==> #[trigger] target[k] == if before[k].plant_id == row@.plant_id {
                    merged(before[k], row@, now)
                } else {
                    before[k]
                },
            found <==> exists|k: int| 0 <= k < i && (#[trigger] before[k]).plant_id == row.plant_id,
            forall|k: int| 0 <= k < i ==> (#[trigger] states@[k])@ == target[k],
            forall|k: int| i <= k < n ==> (#[trigger] states@[k])@ == before[k],
        decreases n - i,
    {
        if states[i].plant_id == row.plant_id {
            let new = PlantState {
                plant_id: states[i].plant_id,
                updated_at: now,
                last_ingest_id: row.last_ingest_id.clone(),
                severity: row.severity,
                soil_moisture: pick(row.soil_moisture, states[i].soil_moisture),
                ambient_light_lux: pick(row.ambient_light_lux, states[i].ambient_light_lux),
                ambient_humidity_rh: pick(row.ambient_humidity_rh, states[i].ambient_humidity_rh),
                ambient_temp_c: pick(row.ambient_temp_c, states[i].ambient_temp_c),
                metric_severity: copy_severities(&row.metric_severity),
            };
            states.set(i, new);
            found = true;
            assert(before[i as int].plant_id == row.plant_id);
        }
        i += 1;
    }
    if found {
        assert(has_state(before, row@.plant_id));
        assert(states_view(states@) =~= target);
    } else {
        assert(!has_state(before, row@.plant_id));
        assert(states_view(states@) =~= before);
        let new = PlantState {
            plant_id: row.plant_id,
            updated_at: now,
            last_ingest_id: row.last_ingest_id,
            severity: row.severity,
            soil_moisture: row.soil_moisture,
            ambient_light_lux: row.ambient_light_lux,
            ambient_humidity_rh: row.ambient_humidity_rh,
            ambient_temp_c: row.ambient_temp_c,
            metric_severity: row.metric_severity,
        };
        states.push(new);
        assert(states_view(states@) =~= before.push(inserted(row@, now)));
    }
}

/// The tables, the sink and the bus of the model, in memory.
#[derive(Debug)]
pub struct MemoryStore {
    pub ledger: Vec<LedgerRow>,
    pub plants: Vec<PlantRecord>,
    pub thresholds: Vec<ThresholdRecord>,
    pub states: Vec<PlantState>,
    pub devices: Vec<DeviceRow>,
    pub ticker: Vec<TickerEvent>,
    /// What was published on the message bus, in order.
    pub published: Vec<StatusChange>,
    /// The time-series sink.
    pub sink: FakeTelemetrySink,
    /// The time that the store's clock shows.
    pub now: i64,
}

impl View for MemoryStore {
    type V = StoreView;

    open spec fn view(&self) -> StoreView {
        StoreView {
            ledger: ledger_view(self.ledger@),
            plants: self.plants@,
            thresholds: records_view(self.thresholds@),
            states: states_view(self.states@),
            devices: devices_view(self.devices@),
            ticker: ticker_view(self.ticker@),
            published: changes_view(self.published@),
            points: points_view(self.sink.points@),
            now: self.now,
        }
    }
}

/// How far a stage is from the end of a run. Every step of the machine
/// lowers it.
pub open spec fn stage_rank(stage: Stage) -> nat {
    match stage {
        Stage::LedgerProbe => 12,
        Stage::DeviceTouch => 11,
        Stage::PlantLookup => 10,
        Stage::RejectionLedger => 9,
        Stage::Thresholds => 8,
        Stage::PreviousSeverity => 7,
        Stage::SinkWrite => 6,
        Stage::Upsert => 5,
        Stage::Heartbeat => 4,
        Stage::Ticker => 3,
        Stage::Publish => 2,
        Stage::FinalLedger => 1,
        Stage::Done => 0,
    }
}

/// The store and the outcome at the end of a run of the machine that goes on
/// from `state` with `action`, every action being performed on the store.
pub open spec fn run(store: StoreView, state: StateView, action: ActionView) -> (
    StoreView,
    OutcomeView,
)
    decreases stage_rank(state.stage),
{
    match action {
        ActionView::Finish { outcome } => (store, outcome),
        _ => if state.stage == Stage::Done {
            (
                store,
                OutcomeView { result: IngestResult::Error, change: None, error: unexpected_text() },
            )
        } else {
            let (after, event) = effect(store, action);
            let (following, then) = next(state, event);
            run(after, following, then)
        },
    }
}

impl MemoryStore {
    /// An empty store whose clock shows 0.
    pub fn new() -> (store: MemoryStore)
        ensures
            store@.ledger.len() == 0,
            store@.plants.len() == 0,
            store@.thresholds.len() == 0,
            store@.states.len() == 0,
            store@.devices.len() == 0,
            store@.ticker.len() == 0,
            store@.published.len() == 0,
            store@.points.len() == 0,
            store@.now == 0,
    {
        MemoryStore {
            ledger: Vec::new(),
            plants: Vec::new(),
            thresholds: Vec::new(),
            states: Vec::new(),
            devices: Vec::new(),
            ticker: Vec::new(),
            published: Vec::new(),
            sink: FakeTelemetrySink::new(),
            now: 0,
        }
    }

    /// Performs one action of the ingest machine and gives what it brings
    /// back. Nothing fails in memory.
    pub fn perform(&mut self, action: IngestAction) -> (event: IngestEvent)
        ensures
            (final(self)@, event@) == effect(old(self)@, action@),
    {
        match action {
            IngestAction::ProbeLedger { ingest_id } => {
                let known = ledger_contains(&self.ledger, ingest_id.as_str());
                IngestEvent::LedgerProbed { known }
            },
            IngestAction::TouchDevice { device_uid } => {
                touch_device(&mut self.devices, device_uid.as_str(), self.now);
                IngestEvent::Completed
            },
            IngestAction::LookupPlant { plant_id } => {
                let row = lookup_plant(&self.plants, plant_id);
                IngestEvent::PlantLooked { row }
            },
            IngestAction::RecordLedger { entry } => {
                record_ledger(&mut self.ledger, entry);
                IngestEvent::Completed
            },
            IngestAction::LoadThresholds { plant_type_id } => {
                let thresholds = load_thresholds(&self.thresholds, plant_type_id);
                IngestEvent::ThresholdsLoaded { thresholds }
            },
            IngestAction::ReadPreviousSeverity { plant_id } => {
                let severity = read_severity(&self.states, plant_id);
                IngestEvent::PreviousRead { severity }
            },
            IngestAction::WritePoint { point } => {
                let mut batch: Vec<TelemetryPoint> = Vec::new();
                batch.push(point);
                let _ = self.sink.write_points(batch);
                assert(points_view(self.sink.points@) =~= points_view(old(self).sink.points@).push(
                    point@,
                ));
                IngestEvent::Completed
            },
            IngestAction::UpsertState { row } => {
                upsert_state(&mut self.states, row, self.now);
                IngestEvent::Completed
            },
            IngestAction::Heartbeat { device_uid, ingest_id } => {
                beat_device(&mut self.devices, device_uid.as_str(), ingest_id.as_str(), self.now);
                IngestEvent::Completed
            },
            IngestAction::InsertTicker { event } => {
                self.ticker.push(event);
                assert(ticker_view(self.ticker@) =~= ticker_view(old(self).ticker@).push(event@));
                IngestEvent::Completed
            },
            IngestAction::Publish { change } => {
                self.published.push(change);
                assert(changes_view(self.published@) =~= changes_view(old(self).published@).push(
                    change@,
                ));
                IngestEvent::Completed
            },
            IngestAction::Finish { outcome } => IngestEvent::Completed,
        }
    }
}

} // verus!
