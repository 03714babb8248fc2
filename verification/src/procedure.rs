//! The ingest procedure as a whole: what processing one envelope does to the
//! store and how it ends, stated directly, and the proof that a run of the
//! ingest machine does exactly that.

use vstd::prelude::*;
use crate::assess::{metric_severities, overall_severity, point_of};
use crate::envelope::{EnvelopeView, IngestResult, TelemetryEnvelope};
use crate::ingest::{
    begin, begin_with, ledger_row_of, next, previous_of, start_parsed, step, ActionView,
    IngestAction, IngestOutcome, LedgerResult, OutcomeView, PlantRow, Stage, StateView,
};
use crate::plant_id::{parse_uuid, uuid_value};
use crate::store::{
    effect, find_plant, heartbeat, ledger_has, record, run, stage_rank, stored_severity,
    thresholds_of, touched, upsert, MemoryStore, StoreView,
};

verus! {

/// The outcome without a status change and without a failure message.
pub open spec fn plain_outcome(result: IngestResult) -> OutcomeView {
    OutcomeView { result, change: None, error: Seq::empty() }
}

/// What is known of an envelope once its plant, the plant's thresholds and
/// the plant's previous severity have been read from `store`.
pub open spec fn assessed(
    store: StoreView,
    env: EnvelopeView,
    parsed: u128,
    plant: PlantRow,
) -> StateView {
    let thresholds = thresholds_of(store.thresholds, plant.plant_type_id);
    StateView {
        stage: Stage::Done,
        env,
        parsed_plant: parsed,
        plant,
        severities: metric_severities(env, thresholds),
        overall: overall_severity(env, thresholds),
        previous: previous_of(stored_severity(store.states, plant.id)),
    }
}

/// The store after an envelope was applied to a known plant.
pub open spec fn applied(store: StoreView, known: StateView) -> StoreView {
    StoreView {
        ledger: record(store.ledger, known.ledger_row(LedgerResult::Applied)),
        states: upsert(store.states, known.state_row(), store.now),
        devices: heartbeat(store.devices, known.env.device_uid, known.env.ingest_id, store.now),
        ticker: store.ticker.push(known.ticker()),
        published: match known.change() {
            Some(change) => store.published.push(change),
            None => store.published,
        },
        points: if known.env.no_reading() {
            store.points
        } else {
            store.points.push(point_of(known.env, known.plant.plant_type_id))
        },
        ..store
    }
}

/// The store after one envelope was processed, and the outcome.
///
/// * A plant identifier that is no UUID: `Error`, nothing written.
/// * A fingerprint that the ledger holds: `Duplicate`; the device is marked
///   as seen and nothing else is written.
/// * No active plant with that identifier: `Error`, and a ledger row that
///   says so.
/// * Otherwise `Applied`: the point is written unless there is no reading,
///   the plant's state is upserted, the device gets its heartbeat, a ticker
///   event is inserted, a status change is published where the severity
///   changed, and the ledger gets its row.
pub open spec fn process(store: StoreView, env: EnvelopeView) -> (StoreView, OutcomeView) {
    process_with(store, env, uuid_value(env.plant_id))
}

/// The same, given the plant that the envelope's plant identifier spells, or
/// `None` where it is no UUID.
pub open spec fn process_with(store: StoreView, env: EnvelopeView, parsed: Option<u128>) -> (
    StoreView,
    OutcomeView,
) {
    match parsed {
        None => (store, plain_outcome(IngestResult::Error)),
        Some(parsed) => if ledger_has(store.ledger, env.ingest_id) {
            (
                StoreView { devices: touched(store.devices, env.device_uid, store.now), ..store },
                plain_outcome(IngestResult::Duplicate),
            )
        } else {
            match find_plant(store.plants, parsed) {
                None => (
                    StoreView {
                        ledger: record(
                            store.ledger,
                            ledger_row_of(env, parsed, LedgerResult::Rejected),
                        ),
                        ..store
                    },
                    plain_outcome(IngestResult::Error),
                ),
                Some(plant) => {
                    let known = assessed(store, env, parsed, plant);
                    (
                        applied(store, known),
                        OutcomeView {
                            result: IngestResult::Applied,
                            change: known.change(),
                            error: Seq::empty(),
                        },
                    )
                },
            }
        },
    }
}

/// From the final ledger insert on.
proof fn lemma_run_final_ledger(store: StoreView, state: StateView)
    requires
        state.stage == Stage::FinalLedger,
    ensures
        run(store, state, state.to_final_ledger().1) == (
            StoreView {
                ledger: record(store.ledger, state.ledger_row(LedgerResult::Applied)),
                ..store
            },
            OutcomeView {
                result: IngestResult::Applied,
                change: state.change(),
                error: Seq::<char>::empty(),
            },
        ),
{
    let action = state.to_final_ledger().1;
    let (after, event) = effect(store, action);
    let (following, then) = next(state, event);
    assert(run(after, following, then) == (after, then->outcome));
}

/// From the ticker insert on.
proof fn lemma_run_ticker(store: StoreView, state: StateView)
    requires
        state.stage == Stage::Ticker,
    ensures
        run(store, state, ActionView::InsertTicker { event: state.ticker() }) == (
            StoreView {
                ledger: record(store.ledger, state.ledger_row(LedgerResult::Applied)),
                ticker: store.ticker.push(state.ticker()),
                published: match state.change() {
                    Some(change) => store.published.push(change),
                    None => store.published,
                },
                ..store
            },
            OutcomeView {
                result: IngestResult::Applied,
                change: state.change(),
                error: Seq::<char>::empty(),
            },
        ),
{
    let action = ActionView::InsertTicker { event: state.ticker() };
    let (after, event) = effect(store, action);
    let (following, then) = next(state, event);
    match state.change() {
        Some(change) => {
            assert(following == state.at(Stage::Publish));
            let (after2, event2) = effect(after, then);
            let (following2, then2) = next(following, event2);
            assert(following2 == state.at(Stage::FinalLedger));
            lemma_run_final_ledger(after2, following2);
            assert(run(after, following, then) == run(after2, following2, then2));
        },
        None => {
            lemma_run_final_ledger(after, following);
        },
    }
}

/// From the upsert on.
proof fn lemma_run_upsert(store: StoreView, state: StateView)
    requires
        state.stage == Stage::Upsert,
    ensures
        run(store, state, ActionView::UpsertState { row: state.state_row() }) == (
            StoreView {
                ledger: record(store.ledger, state.ledger_row(LedgerResult::Applied)),
                states: upsert(store.states, state.state_row(), store.now),
                devices: heartbeat(
                    store.devices,
                    state.env.device_uid,
                    state.env.ingest_id,
                    store.now,
                ),
                ticker: store.ticker.push(state.ticker()),
                published: match state.change() {
                    Some(change) => store.published.push(change),
                    None => store.published,
                },
                ..store
            },
            OutcomeView {
                result: IngestResult::Applied,
                change: state.change(),
                error: Seq::<char>::empty(),
            },
        ),
{
    let action = ActionView::UpsertState { row: state.state_row() };
    let (after, event) = effect(store, action);
    let (following, then) = next(state, event);
    assert(following == state.at(Stage::Heartbeat));
    let (after2, event2) = effect(after, then);
    let (following2, then2) = next(following, event2);
    assert(following2 == state.at(Stage::Ticker));
    lemma_run_ticker(after2, following2);
    assert(run(after, following, then) == run(after2, following2, then2));
}

/// From the loading of the thresholds on.
proof fn lemma_run_thresholds(store: StoreView, state: StateView)
    requires
        state.stage == Stage::Thresholds,
    ensures
        run(
            store,
            state,
            ActionView::LoadThresholds { plant_type_id: state.plant.plant_type_id },
        ) == (
            applied(store, assessed(store, state.env, state.parsed_plant, state.plant)),
            OutcomeView {
                result: IngestResult::Applied,
                change: assessed(store, state.env, state.parsed_plant, state.plant).change(),
                error: Seq::<char>::empty(),
            },
        ),
{
    let known = assessed(store, state.env, state.parsed_plant, state.plant);
    let action = ActionView::LoadThresholds { plant_type_id: state.plant.plant_type_id };
    let (after, event) = effect(store, action);
    let (following, then) = next(state, event);
    assert(after == store);
    assert(following.stage == Stage::PreviousSeverity);
    let (after2, event2) = effect(after, then);
    let (following2, then2) = next(following, event2);
    assert(after2 == store);
    assert(run(store, state, action) == run(after, following, then));
    assert(run(after, following, then) == run(after2, following2, then2));
    if state.env.no_reading() {
        assert(following2 == known.at(Stage::Upsert));
        lemma_run_upsert(after2, following2);
    } else {
        assert(following2 == known.at(Stage::SinkWrite));
        let (after3, event3) = effect(after2, then2);
        let (following3, then3) = next(following2, event3);
        assert(following3 == known.at(Stage::Upsert));
        lemma_run_upsert(after3, following3);
        assert(run(after2, following2, then2) == run(after3, following3, then3));
    }
}

/// A run of the ingest machine from its beginning, every action being
/// performed on the store, ends as [`process`] says.
pub proof fn lemma_run_is_process(store: StoreView, env: EnvelopeView)
    ensures
        run(store, begin(env).0, begin(env).1) == process(store, env),
{
    lemma_run_is_process_with(store, env, uuid_value(env.plant_id));
}

/// The same, given the plant that the envelope's plant identifier spells.
pub proof fn lemma_run_is_process_with(store: StoreView, env: EnvelopeView, parsed: Option<u128>)
    ensures
        run(store, begin_with(env, parsed).0, begin_with(env, parsed).1) == process_with(
            store,
            env,
            parsed,
        ),
{
    let (state, action) = begin_with(env, parsed);
    match parsed {
        None => {},
        Some(parsed) => {
            let (after, event) = effect(store, action);
            let (following, then) = next(state, event);
            assert(after == store);
            assert(run(store, state, action) == run(after, following, then));
            let (after2, event2) = effect(after, then);
            let (following2, then2) = next(following, event2);
            assert(run(after, following, then) == run(after2, following2, then2));
            if ledger_has(store.ledger, env.ingest_id) {
                assert(then2 is Finish);
            } else {
                match find_plant(store.plants, parsed) {
                    None => {
                        let (after3, event3) = effect(after2, then2);
                        let (following3, then3) = next(following2, event3);
                        assert(then3 is Finish);
                        assert(run(after2, following2, then2) == run(after3, following3, then3));
                    },
                    Some(plant) => {
                        assert(following2.stage == Stage::Thresholds);
                        lemma_run_thresholds(after2, following2);
                    },
                }
            }
        },
    }
}

impl MemoryStore {
    /// Processes one envelope against the store, by running the ingest
    /// machine and performing each of its actions.
    pub fn process_envelope(&mut self, env: TelemetryEnvelope) -> (outcome: IngestOutcome)
        ensures
            (final(self)@, outcome@) == process(old(self)@, env@),
    {
        let parsed = parse_uuid(env.plant_id.as_str());
        self.process_parsed(env, parsed)
    }

    /// Processes one envelope whose plant identifier has been read: `parsed`
    /// is the plant that it spells, or `None` where it is no UUID.
    pub fn process_parsed(&mut self, env: TelemetryEnvelope, parsed: Option<u128>) -> (outcome:
        IngestOutcome)
        ensures
            (final(self)@, outcome@) == process_with(old(self)@, env@, parsed),
    {
        let ghost target = process_with(self@, env@, parsed);
        proof {
            lemma_run_is_process_with(self@, env@, parsed);
        }
        let (state, action) = start_parsed(env, parsed);
        let mut state = state;
        let mut action = action;
        loop
            invariant
                target == process_with(old(self)@, env@, parsed),
                run(self@, state@, action@) == target,
                state.stage == Stage::Done ==> action is Finish,
            decreases stage_rank(state.stage) + if action is Finish { 0nat } else { 1nat },
        {
            match action {
                IngestAction::Finish { outcome } => {
                    return outcome;
                },
                other => {
                    let event = self.perform(other);
                    let (following, then) = step(state, event);
                    state = following;
                    action = then;
                },
            }
        }
    }
}

} // verus!
