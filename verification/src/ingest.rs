//! The ingest procedure for one envelope, as a state machine.
//!
//! Applying an envelope takes a dozen statements against the relational
//! store, a write to the time-series sink and a publication on the message
//! bus, with a decision after each. The decisions are here: [`start`] gives
//! the first action for an envelope, and [`step`] takes what the action
//! brought back and gives the next one, until the action is
//! [`IngestAction::Finish`]. Whoever drives the machine performs the actions.

use vstd::prelude::*;
use crate::assess::{
    assess_metrics, build_point, detect_change, metric_severities, overall_of, overall_severity,
    point_of, severities_view, status_change_of, ticker_message, ticker_text, MetricSeverity,
    MetricSeverityView,
};
use crate::envelope::{
    change_view, EnvelopeView, IngestResult, StatusChange, StatusChangeView, TelemetryEnvelope,
};
use crate::plant_id::{parse_uuid, uuid_value};
use crate::scalar::Scalar;
use crate::telemetry_sink::{PointView, TelemetryPoint};
use crate::threshold::{thresholds_view, MetricThreshold, Severity, ThresholdView};

verus! {

/// What a ledger row says of an envelope.
#[derive(Debug, Clone, Copy, PartialEq, Eq, Structural)]
pub enum LedgerResult {
    /// The envelope was applied; stored as `OK`.
    Applied,
    /// The envelope named no active plant; stored as `ERROR`.
    Rejected,
}

impl LedgerResult {
    /// The text that is stored for the result.
    pub open spec fn name(self) -> Seq<char> {
        match self {
            LedgerResult::Applied => "OK"@,
            LedgerResult::Rejected => "ERROR"@,
        }
    }

    /// The text that is stored for the result: `"OK"` or `"ERROR"`.
    pub fn as_str(self) -> (s: &'static str)
        ensures
            s@ == self.name(),
    {
        match self {
            LedgerResult::Applied => "OK",
            LedgerResult::Rejected => "ERROR",
        }
    }
}

/// A row of the deduplication ledger.
#[derive(Debug)]
pub struct LedgerRow {
    pub ingest_id: String,
    pub device_uid: String,
    pub plant_id: Option<u128>,
    pub timestamp_ns: i64,
    pub result: LedgerResult,
}

/// What a ledger row holds, as plain values.
pub struct LedgerRowView {
    pub ingest_id: Seq<char>,
    pub device_uid: Seq<char>,
    pub plant_id: Option<u128>,
    pub timestamp_ns: i64,
    pub result: LedgerResult,
}

impl View for LedgerRow {
    type V = LedgerRowView;

    open spec fn view(&self) -> LedgerRowView {
        LedgerRowView {
            ingest_id: self.ingest_id@,
            device_uid: self.device_uid@,
            plant_id: self.plant_id,
            timestamp_ns: self.timestamp_ns,
            result: self.result,
        }
    }
}

/// The identity of a plant as the store knows it.
#[derive(Debug, Clone, Copy, PartialEq, Eq, Structural)]
pub struct PlantRow {
    pub id: u128,
    pub plant_type_id: u128,
}

/// The values with which the current state of a plant is upserted. A reading
/// that is `None` leaves the stored reading as it is.
#[derive(Debug)]
pub struct StateRow {
    pub plant_id: u128,
    pub last_ingest_id: String,
    pub severity: Severity,
    pub soil_moisture: Option<Scalar>,
    pub ambient_light_lux: Option<Scalar>,
    pub ambient_humidity_rh: Option<Scalar>,
    pub ambient_temp_c: Option<Scalar>,
    pub metric_severity: Vec<MetricSeverity>,
}

/// What a state row holds, as plain values.
pub struct StateRowView {
    pub plant_id: u128,
    pub last_ingest_id: Seq<char>,
    pub severity: Severity,
    pub soil_moisture: Option<Scalar>,
    pub ambient_light_lux: Option<Scalar>,
    pub ambient_humidity_rh: Option<Scalar>,
    pub ambient_temp_c: Option<Scalar>,
    pub metric_severity: Seq<MetricSeverityView>,
}

impl View for StateRow {
    type V = StateRowView;

    open spec fn view(&self) -> StateRowView {
        StateRowView {
            plant_id: self.plant_id,
            last_ingest_id: self.last_ingest_id@,
            severity: self.severity,
            soil_moisture: self.soil_moisture,
            ambient_light_lux: self.ambient_light_lux,
            ambient_humidity_rh: self.ambient_humidity_rh,
            ambient_temp_c: self.ambient_temp_c,
            metric_severity: severities_view(self.metric_severity@),
        }
    }
}

/// An audit row for one applied envelope.
#[derive(Debug)]
pub struct TickerEvent {
    pub plant_id: u128,
    pub device_uid: String,
    pub severity: Severity,
    pub message: String,
    /// The fingerprint of the envelope, which the row's payload carries.
    pub ingest_id: String,
}

/// What a ticker event holds, as plain values.
pub struct TickerView {
    pub plant_id: u128,
    pub device_uid: Seq<char>,
    pub severity: Severity,
    pub message: Seq<char>,
    pub ingest_id: Seq<char>,
}

impl View for TickerEvent {
    type V = TickerView;

    open spec fn view(&self) -> TickerView {
        TickerView {
            plant_id: self.plant_id,
            device_uid: self.device_uid@,
            severity: self.severity,
            message: self.message@,
            ingest_id: self.ingest_id@,
        }
    }
}

/// How the processing of an envelope ended.
#[derive(Debug)]
pub struct IngestOutcome {
    pub result: IngestResult,
    /// The status change, where the envelope was applied and changed the
    /// plant's severity.
    pub change: Option<StatusChange>,
    /// The storage failure that ended the processing; empty otherwise.
    pub error: String,
}

/// What an outcome holds, as plain values.
pub struct OutcomeView {
    pub result: IngestResult,
    pub change: Option<StatusChangeView>,
    pub error: Seq<char>,
}

impl View for IngestOutcome {
    type V = OutcomeView;

    open spec fn view(&self) -> OutcomeView {
        OutcomeView { result: self.result, change: change_view(self.change), error: self.error@ }
    }
}

/// What the driver is to do next.
#[derive(Debug)]
pub enum IngestAction {
    /// Look for a ledger row with this fingerprint.
    ProbeLedger { ingest_id: String },
    /// Set the device's last-seen time to now. Best effort.
    TouchDevice { device_uid: String },
    /// Look up the active plant with this identifier.
    LookupPlant { plant_id: u128 },
    /// Insert the row into the ledger unless its fingerprint is there.
    RecordLedger { entry: LedgerRow },
    /// Load the thresholds of the plant type.
    LoadThresholds { plant_type_id: u128 },
    /// Read the severity stored for the plant.
    ReadPreviousSeverity { plant_id: u128 },
    /// Write the point to the time-series sink. Best effort.
    WritePoint { point: TelemetryPoint },
    /// Insert or update the plant's current state.
    UpsertState { row: StateRow },
    /// Set the device's last-seen time to now and its last fingerprint.
    Heartbeat { device_uid: String, ingest_id: String },
    /// Insert the ticker event.
    InsertTicker { event: TickerEvent },
    /// Publish the status change on the message bus. Best effort.
    Publish { change: StatusChange },
    /// Nothing more: the processing has ended with this outcome.
    Finish { outcome: IngestOutcome },
}

/// What an action holds, as plain values.
pub enum ActionView {
    ProbeLedger { ingest_id: Seq<char> },
    TouchDevice { device_uid: Seq<char> },
    LookupPlant { plant_id: u128 },
    RecordLedger { entry: LedgerRowView },
    LoadThresholds { plant_type_id: u128 },
    ReadPreviousSeverity { plant_id: u128 },
    WritePoint { point: PointView },
    UpsertState { row: StateRowView },
    Heartbeat { device_uid: Seq<char>, ingest_id: Seq<char> },
    InsertTicker { event: TickerView },
    Publish { change: StatusChangeView },
    Finish { outcome: OutcomeView },
}

impl View for IngestAction {
    type V = ActionView;

    open spec fn view(&self) -> ActionView {
        match self {
            IngestAction::ProbeLedger { ingest_id } => ActionView::ProbeLedger {
                ingest_id: ingest_id@,
            },
            IngestAction::TouchDevice { device_uid } => ActionView::TouchDevice {
                device_uid: device_uid@,
            },
            IngestAction::LookupPlant { plant_id } => ActionView::LookupPlant {
                plant_id: *plant_id,
            },
            IngestAction::RecordLedger { entry } => ActionView::RecordLedger { entry: entry@ },
            IngestAction::LoadThresholds { plant_type_id } => ActionView::LoadThresholds {
                plant_type_id: *plant_type_id,
            },
            IngestAction::ReadPreviousSeverity { plant_id } => ActionView::ReadPreviousSeverity {
                plant_id: *plant_id,
            },
            IngestAction::WritePoint { point } => ActionView::WritePoint { point: point@ },
            IngestAction::UpsertState { row } => ActionView::UpsertState { row: row@ },
            IngestAction::Heartbeat { device_uid, ingest_id } => ActionView::Heartbeat {
                device_uid: device_uid@,
                ingest_id: ingest_id@,
            },
            IngestAction::InsertTicker { event } => ActionView::InsertTicker { event: event@ },
            IngestAction::Publish { change } => ActionView::Publish { change: change@ },
            IngestAction::Finish { outcome } => ActionView::Finish { outcome: outcome@ },
        }
    }
}

/// What an action brought back.
#[derive(Debug)]
pub enum IngestEvent {
    /// The ledger was probed: `known` tells whether the fingerprint is there.
    LedgerProbed { known: bool },
    /// The plant was looked up: `row` is the active plant, if there is one.
    PlantLooked { row: Option<PlantRow> },
    /// The thresholds of the plant type.
    ThresholdsLoaded { thresholds: Vec<MetricThreshold> },
    /// The severity stored for the plant, if a state row exists and its
    /// severity could be read.
    PreviousRead { severity: Option<String> },
    /// A write went through; or a best-effort action is over, however it went.
    Completed,
    /// The store failed, with this message.
    Failed { message: String },
}

/// What an event holds, as plain values.
pub enum EventView {
    LedgerProbed { known: bool },
    PlantLooked { row: Option<PlantRow> },
    ThresholdsLoaded { thresholds: Seq<ThresholdView> },
    PreviousRead { severity: Option<Seq<char>> },
    Completed,
    Failed { message: Seq<char> },
}

impl View for IngestEvent {
    type V = EventView;

    open spec fn view(&self) -> EventView {
        match self {
            IngestEvent::LedgerProbed { known } => EventView::LedgerProbed { known: *known },
            IngestEvent::PlantLooked { row } => EventView::PlantLooked { row: *row },
            IngestEvent::ThresholdsLoaded { thresholds } => EventView::ThresholdsLoaded {
                thresholds: thresholds_view(thresholds@),
            },
            IngestEvent::PreviousRead { severity } => EventView::PreviousRead {
                severity: match severity {
                    Some(s) => Some(s@),
                    None => None,
                },
            },
            IngestEvent::Completed => EventView::Completed,
            IngestEvent::Failed { message } => EventView::Failed { message: message@ },
        }
    }
}

/// The action whose result the machine is waiting for.
#[derive(Debug, Clone, Copy, PartialEq, Eq, Structural)]
pub enum Stage {
    /// The probe of the ledger for the envelope's fingerprint.
    LedgerProbe,
    /// The touch of the device of an envelope that was seen before.
    DeviceTouch,
    /// The lookup of the active plant.
    PlantLookup,
    /// The ledger insert for an envelope that names no active plant.
    RejectionLedger,
    /// The loading of the plant type's thresholds.
    Thresholds,
    /// The reading of the severity stored for the plant.
    PreviousSeverity,
    /// The write to the time-series sink.
    SinkWrite,
    /// The upsert of the plant's current state.
    Upsert,
    /// The heartbeat of the device.
    Heartbeat,
    /// The insert of the ticker event.
    Ticker,
    /// The publication of the status change.
    Publish,
    /// The ledger insert for an applied envelope.
    FinalLedger,
    /// Nothing: the run has ended.
    Done,
}

/// The machine between two actions: the envelope, the stage, and what has
/// been learnt so far.
#[derive(Debug)]
pub struct IngestState {
    pub stage: Stage,
    pub env: TelemetryEnvelope,
    /// The plant identifier that the envelope spells.
    pub parsed_plant: u128,
    /// The plant as stored. Known from the stage `Thresholds` on.
    pub plant: PlantRow,
    /// Known from the stage `PreviousSeverity` on.
    pub severities: Vec<MetricSeverity>,
    /// Known from the stage `PreviousSeverity` on.
    pub overall: Severity,
    /// Known from the stage `SinkWrite` on.
    pub previous: Severity,
}

/// What a machine state holds, as plain values.
pub struct StateView {
    pub stage: Stage,
    pub env: EnvelopeView,
    pub parsed_plant: u128,
    pub plant: PlantRow,
    pub severities: Seq<MetricSeverityView>,
    pub overall: Severity,
    pub previous: Severity,
}

impl View for IngestState {
    type V = StateView;

    open spec fn view(&self) -> StateView {
        StateView {
            stage: self.stage,
            env: self.env@,
            parsed_plant: self.parsed_plant,
            plant: self.plant,
            severities: severities_view(self.severities@),
            overall: self.overall,
            previous: self.previous,
        }
    }
}

/// The message of the failure that ends a run when an event does not answer
/// the action that the machine is waiting for.
pub open spec fn unexpected_text() -> Seq<char> {
    "unexpected event"@
}

/// The severity that a stored text stands for; normal where nothing is stored.
pub open spec fn previous_of(stored: Option<Seq<char>>) -> Severity {
    match stored {
        Some(text) => Severity::parse(text),
        None => Severity::Normal,
    }
}

/// The ledger row of an envelope with the given result.
pub open spec fn ledger_row_of(
    env: EnvelopeView,
    plant_id: u128,
    result: LedgerResult,
) -> LedgerRowView {
    LedgerRowView {
        ingest_id: env.ingest_id,
        device_uid: env.device_uid,
        plant_id: Some(plant_id),
        timestamp_ns: env.timestamp_ns,
        result,
    }
}

impl StateView {
    /// The same state at another stage.
    pub open spec fn at(self, stage: Stage) -> StateView {
        StateView { stage, ..self }
    }

    /// The ledger row of the envelope with the given result.
    pub open spec fn ledger_row(self, result: LedgerResult) -> LedgerRowView {
        ledger_row_of(self.env, self.parsed_plant, result)
    }

    /// The values with which the plant's state is upserted.
    pub open spec fn state_row(self) -> StateRowView {
        StateRowView {
            plant_id: self.plant.id,
            last_ingest_id: self.env.ingest_id,
            severity: self.overall,
            soil_moisture: self.env.soil_moisture,
            ambient_light_lux: self.env.ambient_light_lux,
            ambient_humidity_rh: self.env.ambient_humidity_rh,
            ambient_temp_c: self.env.ambient_temp_c,
            metric_severity: self.severities,
        }
    }

    /// The ticker event of the envelope.
    pub open spec fn ticker(self) -> TickerView {
        TickerView {
            plant_id: self.plant.id,
            device_uid: self.env.device_uid,
            severity: self.overall,
            message: ticker_text(self.env.plant_id, self.overall),
            ingest_id: self.env.ingest_id,
        }
    }

    /// The status change of the envelope, if its severity differs from the
    /// previous one.
    pub open spec fn change(self) -> Option<StatusChangeView> {
        status_change_of(self.env, self.previous, self.overall)
    }

    /// The end of the run with the given outcome.
    pub open spec fn finish(
        self,
        result: IngestResult,
        change: Option<StatusChangeView>,
        error: Seq<char>,
    ) -> (StateView, ActionView) {
        (
            self.at(Stage::Done),
            ActionView::Finish { outcome: OutcomeView { result, change, error } },
        )
    }

    /// The end of the run on a storage failure.
    pub open spec fn failed(self, message: Seq<char>) -> (StateView, ActionView) {
        self.finish(IngestResult::Error, None, message)
    }

    /// What follows an event that is not the awaited one: the end of the
    /// run, with the store's message for a failure and with
    /// [`unexpected_text`] for anything else.
    pub open spec fn on_other(self, event: EventView) -> (StateView, ActionView) {
        match event {
            EventView::Failed { message } => self.failed(message),
            _ => self.failed(unexpected_text()),
        }
    }

    /// The upsert of the plant's state, which follows the sink write.
    pub open spec fn to_upsert(self) -> (StateView, ActionView) {
        (self.at(Stage::Upsert), ActionView::UpsertState { row: self.state_row() })
    }

    /// The final ledger insert.
    pub open spec fn to_final_ledger(self) -> (StateView, ActionView) {
        (
            self.at(Stage::FinalLedger),
            ActionView::RecordLedger { entry: self.ledger_row(LedgerResult::Applied) },
        )
    }
}

/// The state and the first action for an envelope, given the plant that its
/// plant identifier spells: a probe of the ledger, or the end with `Error`
/// where it spells none.
pub open spec fn begin_with(env: EnvelopeView, parsed: Option<u128>) -> (StateView, ActionView) {
    let fresh = StateView {
        stage: Stage::LedgerProbe,
        env,
        parsed_plant: 0,
        plant: PlantRow { id: 0, plant_type_id: 0 },
        severities: Seq::empty(),
        overall: Severity::Normal,
        previous: Severity::Normal,
    };
    match parsed {
        None => fresh.finish(IngestResult::Error, None, Seq::empty()),
        Some(id) => (
            StateView { parsed_plant: id, ..fresh },
            ActionView::ProbeLedger { ingest_id: env.ingest_id },
        ),
    }
}

/// The state and the first action for an envelope.
pub open spec fn begin(env: EnvelopeView) -> (StateView, ActionView) {
    begin_with(env, uuid_value(env.plant_id))
}

/// The state and the action that follow an event.
pub open spec fn next(state: StateView, event: EventView) -> (StateView, ActionView) {
    match state.stage {
        Stage::LedgerProbe => match event {
            EventView::LedgerProbed { known } => if known {
                (
                    state.at(Stage::DeviceTouch),
                    ActionView::TouchDevice { device_uid: state.env.device_uid },
                )
            } else {
                (
                    state.at(Stage::PlantLookup),
                    ActionView::LookupPlant { plant_id: state.parsed_plant },
                )
            },
            _ => state.on_other(event),
        },
        Stage::DeviceTouch => state.finish(IngestResult::Duplicate, None, Seq::empty()),
        Stage::PlantLookup => match event {
            EventView::PlantLooked { row: Some(row) } => (
                StateView { stage: Stage::Thresholds, plant: row, ..state },
                ActionView::LoadThresholds { plant_type_id: row.plant_type_id },
            ),
            EventView::PlantLooked { row: None } => (
                state.at(Stage::RejectionLedger),
                ActionView::RecordLedger { entry: state.ledger_row(LedgerResult::Rejected) },
            ),
            _ => state.on_other(event),
        },
        Stage::RejectionLedger => match event {
            EventView::Completed => state.finish(IngestResult::Error, None, Seq::empty()),
            _ => state.on_other(event),
        },
        Stage::Thresholds => match event {
            EventView::ThresholdsLoaded { thresholds } => (
                StateView {
                    stage: Stage::PreviousSeverity,
                    severities: metric_severities(state.env, thresholds),
                    overall: overall_severity(state.env, thresholds),
                    ..state
                },
                ActionView::ReadPreviousSeverity { plant_id: state.plant.id },
            ),
            _ => state.on_other(event),
        },
        Stage::PreviousSeverity => match event {
            EventView::PreviousRead { severity } => {
                let known = StateView { previous: previous_of(severity), ..state };
                if state.env.no_reading() {
                    known.to_upsert()
                } else {
                    (
                        known.at(Stage::SinkWrite),
                        ActionView::WritePoint {
                            point: point_of(state.env, state.plant.plant_type_id),
                        },
                    )
                }
            },
            _ => state.on_other(event),
        },
        Stage::SinkWrite => state.to_upsert(),
        Stage::Upsert => match event {
            EventView::Completed => (
                state.at(Stage::Heartbeat),
                ActionView::Heartbeat {
                    device_uid: state.env.device_uid,
                    ingest_id: state.env.ingest_id,
                },
            ),
            _ => state.on_other(event),
        },
        Stage::Heartbeat => match event {
            EventView::Completed => (
                state.at(Stage::Ticker),
                ActionView::InsertTicker { event: state.ticker() },
            ),
            _ => state.on_other(event),
        },
        Stage::Ticker => match event {
            EventView::Completed => match state.change() {
                Some(change) => (state.at(Stage::Publish), ActionView::Publish { change }),
                None => state.to_final_ledger(),
            },
            _ => state.on_other(event),
        },
        Stage::Publish => state.to_final_ledger(),
        Stage::FinalLedger => match event {
            EventView::Completed => state.finish(
                IngestResult::Applied,
                state.change(),
                Seq::empty(),
            ),
            _ => state.on_other(event),
        },
        Stage::Done => state.failed(unexpected_text()),
    }
}

/// Copies a list of metric severities.
pub fn copy_severities(list: &Vec<MetricSeverity>) -> (copy: Vec<MetricSeverity>)
    ensures
        severities_view(copy@) == severities_view(list@),
{
    let mut copy: Vec<MetricSeverity> = Vec::new();
    let n = list.len();
    let mut i: usize = 0;
    while i < n
        invariant
            i <= n,
            n == list@.len(),
            severities_view(copy@) == severities_view(list@).take(i as int),
        decreases n - i,
    {
        let ghost before = severities_view(copy@);
        let entry = MetricSeverity { metric: list[i].metric.clone(), severity: list[i].severity };
        copy.push(entry);
        i += 1;
        assert(severities_view(copy@) =~= before.push(entry@));
        assert(severities_view(copy@) =~= severities_view(list@).take(i as int));
    }
    assert(severities_view(list@).take(n as int) =~= severities_view(list@));
    copy
}

impl IngestState {
    /// The ledger row of the envelope with the given result.
    fn ledger_row(&self, result: LedgerResult) -> (row: LedgerRow)
        ensures
            row@ == self@.ledger_row(result),
    {
        LedgerRow {
            ingest_id: self.env.ingest_id.clone(),
            device_uid: self.env.device_uid.clone(),
            plant_id: Some(self.parsed_plant),
            timestamp_ns: self.env.timestamp_ns,
            result,
        }
    }

    /// The values with which the plant's state is upserted.
    fn state_row(&self) -> (row: StateRow)
        ensures
            row@ == self@.state_row(),
    {
        StateRow {
            plant_id: self.plant.id,
            last_ingest_id: self.env.ingest_id.clone(),
            severity: self.overall,
            soil_moisture: self.env.soil_moisture,
            ambient_light_lux: self.env.ambient_light_lux,
            ambient_humidity_rh: self.env.ambient_humidity_rh,
            ambient_temp_c: self.env.ambient_temp_c,
            metric_severity: copy_severities(&self.severities),
        }
    }

    /// The ticker event of the envelope.
    fn ticker(&self) -> (event: TickerEvent)
        ensures
            event@ == self@.ticker(),
    {
        TickerEvent {
            plant_id: self.plant.id,
            device_uid: self.env.device_uid.clone(),
            severity: self.overall,
            message: ticker_message(self.env.plant_id.as_str(), self.overall),
            ingest_id: self.env.ingest_id.clone(),
        }
    }

    /// Ends the run with the given outcome.
    fn finish(self, result: IngestResult, change: Option<StatusChange>, error: String) -> (r: (
        IngestState,
        IngestAction,
    ))
        ensures
            (r.0@, r.1@) == self@.finish(result, change_view(change), error@),
    {
        let mut state = self;
        state.stage = Stage::Done;
        (state, IngestAction::Finish { outcome: IngestOutcome { result, change, error } })
    }

    /// Ends the run on an event that is not the awaited one.
    fn on_other(self, event: IngestEvent) -> (r: (IngestState, IngestAction))
        ensures
            (r.0@, r.1@) == self@.on_other(event@),
    {
        match event {
            IngestEvent::Failed { message } => self.finish(IngestResult::Error, None, message),
            _ => self.finish(IngestResult::Error, None, "unexpected event".to_owned()),
        }
    }

    /// Goes on to the upsert of the plant's state.
    fn to_upsert(self) -> (r: (IngestState, IngestAction))
        ensures
            (r.0@, r.1@) == self@.to_upsert(),
    {
        let mut state = self;
        state.stage = Stage::Upsert;
        let row = state.state_row();
        (state, IngestAction::UpsertState { row })
    }

    /// Goes on to the final ledger insert.
    fn to_final_ledger(self) -> (r: (IngestState, IngestAction))
        ensures
            (r.0@, r.1@) == self@.to_final_ledger(),
    {
        let mut state = self;
        state.stage = Stage::FinalLedger;
        let entry = state.ledger_row(LedgerResult::Applied);
        (state, IngestAction::RecordLedger { entry })
    }
}

/// Begins the processing of an envelope: checks that its plant identifier is
/// a UUID and, if so, asks for the ledger to be probed.
pub fn start(env: TelemetryEnvelope) -> (r: (IngestState, IngestAction))
    ensures
        (r.0@, r.1@) == begin(env@),
        uuid_value(env@.plant_id) is None <==> r.1 is Finish,
{
    let parsed = parse_uuid(env.plant_id.as_str());
    start_parsed(env, parsed)
}

/// Begins the processing of an envelope whose plant identifier has been
/// read: `parsed` is the plant that it spells, or `None` where it is no UUID.
pub fn start_parsed(env: TelemetryEnvelope, parsed: Option<u128>) -> (r: (
    IngestState,
    IngestAction,
))
    ensures
        (r.0@, r.1@) == begin_with(env@, parsed),
        parsed is None <==> r.1 is Finish,
{
    let fresh = IngestState {
        stage: Stage::LedgerProbe,
        env,
        parsed_plant: 0,
        plant: PlantRow { id: 0, plant_type_id: 0 },
        severities: Vec::new(),
        overall: Severity::Normal,
        previous: Severity::Normal,
    };
    assert(severities_view(fresh.severities@) =~= Seq::empty());
    match parsed {
        None => fresh.finish(IngestResult::Error, None, String::new()),
        Some(id) => {
            let mut state = fresh;
            state.parsed_plant = id;
            let ingest_id = state.env.ingest_id.clone();
            (state, IngestAction::ProbeLedger { ingest_id })
        },
    }
}

/// Takes what the last action brought back and gives the next action.
///
/// A failure of the store ends the run with `Error` and the store's message;
/// so does an event that does not answer the pending action. The outcome of
/// a best-effort action (device touch, sink write, publication) is not
/// looked at.
pub fn step(state: IngestState, event: IngestEvent) -> (r: (IngestState, IngestAction))
    ensures
        (r.0@, r.1@) == next(state@, event@),
{
    let mut state = state;
    match state.stage {
        Stage::LedgerProbe => match event {
            IngestEvent::LedgerProbed { known } => {
                if known {
                    state.stage = Stage::DeviceTouch;
                    let device_uid = state.env.device_uid.clone();
                    (state, IngestAction::TouchDevice { device_uid })
                } else {
                    state.stage = Stage::PlantLookup;
                    let plant_id = state.parsed_plant;
                    (state, IngestAction::LookupPlant { plant_id })
                }
            },
            other => state.on_other(other),
        },
        Stage::DeviceTouch => state.finish(IngestResult::Duplicate, None, String::new()),
        Stage::PlantLookup => match event {
            IngestEvent::PlantLooked { row: Some(row) } => {
                state.stage = Stage::Thresholds;
                state.plant = row;
                (state, IngestAction::LoadThresholds { plant_type_id: row.plant_type_id })
            },
            IngestEvent::PlantLooked { row: None } => {
                state.stage = Stage::RejectionLedger;
                let entry = state.ledger_row(LedgerResult::Rejected);
                (state, IngestAction::RecordLedger { entry })
            },
            other => state.on_other(other),
        },
        Stage::RejectionLedger => match event {
            IngestEvent::Completed => state.finish(IngestResult::Error, None, String::new()),
            other => state.on_other(other),
        },
        Stage::Thresholds => match event {
            IngestEvent::ThresholdsLoaded { thresholds } => {
                let severities = assess_metrics(&state.env, &thresholds);
                let overall = overall_of(&severities);
                state.stage = Stage::PreviousSeverity;
                state.severities = severities;
                state.overall = overall;
                let plant_id = state.plant.id;
                (state, IngestAction::ReadPreviousSeverity { plant_id })
            },
            other => state.on_other(other),
        },
        Stage::PreviousSeverity => match event {
            IngestEvent::PreviousRead { severity } => {
                let previous = match severity {
                    Some(text) => Severity::from_str(text.as_str()),
                    None => Severity::Normal,
                };
                state.previous = previous;
                match build_point(&state.env, state.plant.plant_type_id) {
                    Some(point) => {
                        state.stage = Stage::SinkWrite;
                        (state, IngestAction::WritePoint { point })
                    },
                    None => state.to_upsert(),
                }
            },
            other => state.on_other(other),
        },
        Stage::SinkWrite => state.to_upsert(),
        Stage::Upsert => match event {
            IngestEvent::Completed => {
                state.stage = Stage::Heartbeat;
                let device_uid = state.env.device_uid.clone();
                let ingest_id = state.env.ingest_id.clone();
                (state, IngestAction::Heartbeat { device_uid, ingest_id })
            },
            other => state.on_other(other),
        },
        Stage::Heartbeat => match event {
            IngestEvent::Completed => {
                state.stage = Stage::Ticker;
                let event = state.ticker();
                (state, IngestAction::InsertTicker { event })
            },
            other => state.on_other(other),
        },
        Stage::Ticker => match event {
            IngestEvent::Completed => {
                match detect_change(&state.env, state.previous, state.overall) {
                    Some(change) => {
                        state.stage = Stage::Publish;
                        (state, IngestAction::Publish { change })
                    },
                    None => state.to_final_ledger(),
                }
            },
            other => state.on_other(other),
        },
        Stage::Publish => state.to_final_ledger(),
        Stage::FinalLedger => match event {
            IngestEvent::Completed => {
                let change = detect_change(&state.env, state.previous, state.overall);
                state.finish(IngestResult::Applied, change, String::new())
            },
            other => state.on_other(other),
        },
        Stage::Done => state.finish(IngestResult::Error, None, "unexpected event".to_owned()),
    }
}

/// True for the stages whose action is best effort: the device touch, the
/// sink write and the publication.
pub open spec fn best_effort(stage: Stage) -> bool {
    stage == Stage::DeviceTouch || stage == Stage::SinkWrite || stage == Stage::Publish
}

/// The outcome of a best-effort action does not matter: whatever it brought
/// back, the machine goes on in the same way.
pub proof fn lemma_best_effort_never_aborts(state: StateView, one: EventView, other: EventView)
    requires
        best_effort(state.stage),
    ensures
        next(state, one) == next(state, other),
        state.stage != Stage::DeviceTouch ==> !(next(state, one).1 is Finish),
{
}

/// A failure of the store at any other stage ends the run with `Error`, the
/// store's message, and no status change.
pub proof fn lemma_storage_failure_aborts(state: StateView, message: Seq<char>)
    requires
        !best_effort(state.stage),
        state.stage != Stage::Done,
    ensures
        next(state, EventView::Failed { message }) == (
            state.at(Stage::Done),
            ActionView::Finish {
                outcome: OutcomeView { result: IngestResult::Error, change: None, error: message },
            },
        ),
{
}

/// The ledger row that says `OK` is the last thing that is written: the
/// action that follows it is the end of the run.
pub proof fn lemma_ledger_is_written_last(state: StateView, event: EventView)
    requires
        state.stage == Stage::FinalLedger,
    ensures
        next(state, event).1 is Finish,
        next(state, event).0.stage == Stage::Done,
{
}

} // verus!
