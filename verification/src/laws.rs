//! What holds of the ingest procedure on every store and every envelope.

use vstd::prelude::*;
use crate::codec::UdpTelemetryMessage;
use crate::envelope::{envelope_of, EnvelopeView, IngestResult};
use crate::ingest_id::fingerprint;
use crate::ingest::{
    begin, next, ActionView, LedgerResult, LedgerRowView, PlantRow, Stage, StateRowView,
    StateView,
};
use crate::plant_id::uuid_value;
use crate::procedure::{applied, assessed, plain_outcome, process};
use crate::scalar::Scalar;
use crate::store::{
    effect, find_plant, find_state, has_state, heartbeat, inserted, ledger_count, ledger_has,
    merged, record, upsert, DeviceView, PlantStateView, StoreView,
};
use crate::threshold::Severity;

verus! {

/// The plant to which the envelope is applied when it is processed on
/// `store`, or `None` where it is not applied.
pub open spec fn applied_plant(store: StoreView, env: EnvelopeView) -> Option<PlantRow> {
    if uuid_value(env.plant_id) is Some && !ledger_has(store.ledger, env.ingest_id) {
        find_plant(store.plants, uuid_value(env.plant_id)->0)
    } else {
        None
    }
}

/// What is known of an envelope that is applied on `store`.
pub open spec fn applied_state(store: StoreView, env: EnvelopeView) -> StateView
    recommends
        applied_plant(store, env) is Some,
{
    assessed(store, env, uuid_value(env.plant_id)->0, applied_plant(store, env)->0)
}

/// The reading of the `i`-th metric that is stored for a plant; `None` where
/// the plant has no state row or the row has no such reading.
pub open spec fn stored_reading(store: StoreView, plant_id: u128, i: int) -> Option<Scalar> {
    match find_state(store.states, plant_id) {
        Some(state) => state.reading(i),
        None => None,
    }
}

/// The store after a sequence of envelopes was processed in order.
pub open spec fn process_all(store: StoreView, envs: Seq<EnvelopeView>) -> StoreView
    decreases envs.len(),
{
    if envs.len() == 0 {
        store
    } else {
        process(process_all(store, envs.drop_last()), envs.last()).0
    }
}

/// The overall severity of the last envelope of the sequence that was applied
/// to the plant, the envelopes being processed in order from `store`; `None`
/// where none was applied to it.
pub open spec fn last_applied_severity(
    store: StoreView,
    envs: Seq<EnvelopeView>,
    plant_id: u128,
) -> Option<Severity>
    decreases envs.len(),
{
    if envs.len() == 0 {
        None
    } else {
        let before = process_all(store, envs.drop_last());
        match applied_plant(before, envs.last()) {
            Some(plant) if plant.id == plant_id => Some(
                applied_state(before, envs.last()).overall,
            ),
            _ => last_applied_severity(store, envs.drop_last(), plant_id),
        }
    }
}

/// An envelope is applied exactly when its plant identifier is a UUID, the
/// ledger does not hold its fingerprint, and the plant is active.
pub proof fn lemma_result(store: StoreView, env: EnvelopeView)
    ensures
        process(store, env).1.result == IngestResult::Applied <==> applied_plant(store, env)
            is Some,
        process(store, env).1.result == IngestResult::Duplicate <==> uuid_value(env.plant_id)
            is Some && ledger_has(store.ledger, env.ingest_id),
        applied_plant(store, env) is Some ==> process(store, env).0 == applied(
            store,
            applied_state(store, env),
        ),
{
}

/// A ledger without a row for a fingerprint counts none for it.
pub proof fn lemma_absent_counts_zero(ledger: Seq<LedgerRowView>, ingest_id: Seq<char>)
    requires
        !ledger_has(ledger, ingest_id),
    ensures
        ledger_count(ledger, ingest_id) == 0,
    decreases ledger.len(),
{
    if ledger.len() > 0 {
        let front = ledger.drop_last();
        assert(ledger[ledger.len() - 1].ingest_id != ingest_id);
        assert forall|i: int| 0 <= i < front.len() implies (#[trigger] front[i]).ingest_id
            != ingest_id by {
            assert(front[i] == ledger[i]);
        }
        lemma_absent_counts_zero(front, ingest_id);
    }
}

/// The first successful processing of an envelope leaves exactly one ledger
/// row with its fingerprint, and that row says `OK`.
pub proof fn lemma_applied_leaves_one_row(store: StoreView, env: EnvelopeView)
    requires
        process(store, env).1.result == IngestResult::Applied,
    ensures
        ledger_count(process(store, env).0.ledger, env.ingest_id) == 1,
        ledger_has(process(store, env).0.ledger, env.ingest_id),
        process(store, env).0.ledger.last().ingest_id == env.ingest_id,
        process(store, env).0.ledger.last().result == LedgerResult::Applied,
        process(store, env).0.ledger.drop_last() == store.ledger,
{
    let after = process(store, env).0.ledger;
    let known = applied_state(store, env);
    let row = known.ledger_row(LedgerResult::Applied);
    assert(after == store.ledger.push(row));
    assert(after.drop_last() =~= store.ledger);
    lemma_absent_counts_zero(store.ledger, env.ingest_id);
    assert(after[after.len() - 1].ingest_id == env.ingest_id);
}

/// The ledger row of an applied envelope that was sealed from a message
/// carries the fingerprint of the message's identifying fields.
pub proof fn lemma_row_carries_fingerprint(store: StoreView, msg: UdpTelemetryMessage)
    requires
        process(store, envelope_of(msg)).1.result == IngestResult::Applied,
    ensures
        process(store, envelope_of(msg)).0.ledger.last().ingest_id == fingerprint(
            msg.device_uid@,
            msg.plant_id@,
            msg.seq,
            msg.timestamp_ns,
        ),
        ledger_count(
            process(store, envelope_of(msg)).0.ledger,
            fingerprint(msg.device_uid@, msg.plant_id@, msg.seq, msg.timestamp_ns),
        ) == 1,
{
    lemma_applied_leaves_one_row(store, envelope_of(msg));
}

/// Processing an envelope whose fingerprint the ledger holds returns
/// `Duplicate` without a status change, and writes nothing to the ledger, the
/// plant states, the ticker, the bus or the sink.
pub proof fn lemma_duplicate_writes_nothing(store: StoreView, env: EnvelopeView)
    requires
        uuid_value(env.plant_id) is Some,
        ledger_has(store.ledger, env.ingest_id),
    ensures
        process(store, env).1 == plain_outcome(IngestResult::Duplicate),
        process(store, env).0.ledger == store.ledger,
        process(store, env).0.states == store.states,
        process(store, env).0.ticker == store.ticker,
        process(store, env).0.published == store.published,
        process(store, env).0.points == store.points,
{
}

/// Ledger rows are permanent: processing an envelope removes no fingerprint
/// from the ledger.
pub proof fn lemma_ledger_permanent(store: StoreView, env: EnvelopeView, ingest_id: Seq<char>)
    requires
        ledger_has(store.ledger, ingest_id),
    ensures
        ledger_has(process(store, env).0.ledger, ingest_id),
{
    let after = process(store, env).0.ledger;
    let i = choose|i: int| 0 <= i < store.ledger.len() && (#[trigger] store.ledger[i]).ingest_id
        == ingest_id;
    assert(forall|row: LedgerRowView|
        #![trigger record(store.ledger, row)]
        record(store.ledger, row).len() >= store.ledger.len() && record(store.ledger, row)[i]
            == store.ledger[i]);
    assert(after[i].ingest_id == ingest_id);
}

/// Ledger rows stay through any sequence of envelopes.
pub proof fn lemma_ledger_permanent_all(
    store: StoreView,
    envs: Seq<EnvelopeView>,
    ingest_id: Seq<char>,
)
    requires
        ledger_has(store.ledger, ingest_id),
    ensures
        ledger_has(process_all(store, envs).ledger, ingest_id),
    decreases envs.len(),
{
    if envs.len() > 0 {
        lemma_ledger_permanent_all(store, envs.drop_last(), ingest_id);
        lemma_ledger_permanent(process_all(store, envs.drop_last()), envs.last(), ingest_id);
    }
}

/// Once an envelope has been applied, every later processing of an envelope
/// with the same fingerprint, after any envelopes in between, returns
/// `Duplicate` and writes nothing to the plant states, the ticker or the bus.
pub proof fn lemma_replay_is_duplicate(
    store: StoreView,
    first: EnvelopeView,
    between: Seq<EnvelopeView>,
    again: EnvelopeView,
)
    requires
        process(store, first).1.result == IngestResult::Applied,
        again.ingest_id == first.ingest_id,
        uuid_value(again.plant_id) is Some,
    ensures
        ({
            let before = process_all(process(store, first).0, between);
            &&& process(before, again).1 == plain_outcome(IngestResult::Duplicate)
            &&& process(before, again).0.ledger == before.ledger
            &&& process(before, again).0.states == before.states
            &&& process(before, again).0.ticker == before.ticker
            &&& process(before, again).0.published == before.published
        }),
{
    lemma_applied_leaves_one_row(store, first);
    lemma_ledger_permanent_all(process(store, first).0, between, first.ingest_id);
    lemma_duplicate_writes_nothing(process_all(process(store, first).0, between), again);
}

/// The state row of a plant in a table whose rows were rewritten one by one,
/// each keeping its plant.
pub proof fn lemma_find_state_rewritten(
    states: Seq<PlantStateView>,
    rewrite: spec_fn(PlantStateView) -> PlantStateView,
    plant_id: u128,
)
    requires
        forall|s: PlantStateView| #[trigger] rewrite(s).plant_id == s.plant_id,
    ensures
        find_state(states.map_values(rewrite), plant_id) == match find_state(states, plant_id) {
            Some(s) => Some(rewrite(s)),
            None => None,
        },
    decreases states.len(),
{
    if states.len() > 0 {
        assert(states.map_values(rewrite).drop_first() =~= states.drop_first().map_values(rewrite));
        assert(states.map_values(rewrite)[0] == rewrite(states[0]));
        lemma_find_state_rewritten(states.drop_first(), rewrite, plant_id);
    }
}

/// The state row of a plant in a table that got one more row.
pub proof fn lemma_find_state_pushed(
    states: Seq<PlantStateView>,
    row: PlantStateView,
    plant_id: u128,
)
    ensures
        find_state(states.push(row), plant_id) == if find_state(states, plant_id) is Some {
            find_state(states, plant_id)
        } else if row.plant_id == plant_id {
            Some(row)
        } else {
            None
        },
    decreases states.len(),
{
    if states.len() == 0 {
        assert(states.push(row).drop_first() =~= Seq::<PlantStateView>::empty());
        assert(find_state(states.push(row).drop_first(), plant_id) is None);
    } else {
        assert(states.push(row).drop_first() =~= states.drop_first().push(row));
        lemma_find_state_pushed(states.drop_first(), row, plant_id);
    }
}

/// A plant has a state row exactly when a state row is found for it.
pub proof fn lemma_has_state_is_found(states: Seq<PlantStateView>, plant_id: u128)
    ensures
        has_state(states, plant_id) <==> find_state(states, plant_id) is Some,
        find_state(states, plant_id) is Some ==> find_state(states, plant_id)->0.plant_id
            == plant_id,
    decreases states.len(),
{
    if states.len() > 0 {
        lemma_has_state_is_found(states.drop_first(), plant_id);
        if states[0].plant_id != plant_id {
            if has_state(states, plant_id) {
                let i = choose|i: int|
                    0 <= i < states.len() && (#[trigger] states[i]).plant_id == plant_id;
                assert(states.drop_first()[i - 1] == states[i]);
            }
            if has_state(states.drop_first(), plant_id) {
                let i = choose|i: int|
                    0 <= i < states.drop_first().len() && (#[trigger] states.drop_first()[i]).plant_id
                        == plant_id;
                assert(states[i + 1] == states.drop_first()[i]);
            }
        }
    }
}

/// The state row of a plant after an upsert: the upserted plant's row is the
/// old one merged with the new values, or the new values where there was
/// none; every other plant's row is as before.
pub proof fn lemma_find_state_upsert(
    states: Seq<PlantStateView>,
    row: StateRowView,
    now: i64,
    plant_id: u128,
)
    ensures
        find_state(upsert(states, row, now), plant_id) == if plant_id != row.plant_id {
            find_state(states, plant_id)
        } else {
            match find_state(states, plant_id) {
                Some(old) => Some(merged(old, row, now)),
                None => Some(inserted(row, now)),
            }
        },
{
    lemma_has_state_is_found(states, row.plant_id);
    lemma_has_state_is_found(states, plant_id);
    if has_state(states, row.plant_id) {
        let rewrite = |s: PlantStateView|
            if s.plant_id == row.plant_id {
                merged(s, row, now)
            } else {
                s
            };
        lemma_find_state_rewritten(states, rewrite, plant_id);
    } else {
        lemma_find_state_pushed(states, inserted(row, now), plant_id);
    }
}

/// Processing an envelope that lacks a reading does not change the stored
/// value of that reading, for any plant.
pub proof fn lemma_missing_reading_is_kept(
    store: StoreView,
    env: EnvelopeView,
    i: int,
    plant_id: u128,
)
    requires
        0 <= i < 4,
        env.reading(i) is None,
    ensures
        stored_reading(process(store, env).0, plant_id, i) == stored_reading(store, plant_id, i),
{
    lemma_result(store, env);
    if applied_plant(store, env) is Some {
        let known = applied_state(store, env);
        lemma_find_state_upsert(store.states, known.state_row(), store.now, plant_id);
    }
}

/// Processing an envelope that carries a reading stores it for the plant to
/// which the envelope is applied.
pub proof fn lemma_present_reading_is_stored(store: StoreView, env: EnvelopeView, i: int)
    requires
        0 <= i < 4,
        env.reading(i) is Some,
        applied_plant(store, env) is Some,
    ensures
        stored_reading(process(store, env).0, applied_plant(store, env)->0.id, i) == env.reading(
            i,
        ),
{
    lemma_result(store, env);
    let known = applied_state(store, env);
    lemma_find_state_upsert(store.states, known.state_row(), store.now, known.plant.id);
}

/// After an envelope was applied, the severity stored for its plant is the
/// overall severity of the envelope.
pub proof fn lemma_applied_sets_severity(store: StoreView, env: EnvelopeView)
    requires
        applied_plant(store, env) is Some,
    ensures
        find_state(process(store, env).0.states, applied_plant(store, env)->0.id) is Some,
        find_state(process(store, env).0.states, applied_plant(store, env)->0.id)->0.severity
            == applied_state(store, env).overall,
{
    lemma_result(store, env);
    let known = applied_state(store, env);
    lemma_find_state_upsert(store.states, known.state_row(), store.now, known.plant.id);
}

/// Processing an envelope leaves the state of every plant other than the one
/// to which it is applied as it was.
pub proof fn lemma_other_plants_untouched(store: StoreView, env: EnvelopeView, plant_id: u128)
    requires
        applied_plant(store, env) is None || applied_plant(store, env)->0.id != plant_id,
    ensures
        find_state(process(store, env).0.states, plant_id) == find_state(store.states, plant_id),
{
    lemma_result(store, env);
    if applied_plant(store, env) is Some {
        let known = applied_state(store, env);
        lemma_find_state_upsert(store.states, known.state_row(), store.now, plant_id);
    }
}

/// After any sequence of envelopes, the severity stored for a plant is the
/// overall severity of the last envelope that was applied to it.
pub proof fn lemma_last_writer_wins(
    store: StoreView,
    envs: Seq<EnvelopeView>,
    plant_id: u128,
)
    requires
        last_applied_severity(store, envs, plant_id) is Some,
    ensures
        find_state(process_all(store, envs).states, plant_id) is Some,
        find_state(process_all(store, envs).states, plant_id)->0.severity == last_applied_severity(
            store,
            envs,
            plant_id,
        )->0,
    decreases envs.len(),
{
    if envs.len() > 0 {
        let before = process_all(store, envs.drop_last());
        let env = envs.last();
        if applied_plant(before, env) is Some && applied_plant(before, env)->0.id == plant_id {
            lemma_applied_sets_severity(before, env);
        } else {
            lemma_last_writer_wins(store, envs.drop_last(), plant_id);
            lemma_other_plants_untouched(before, env, plant_id);
        }
    }
}

/// A status change is emitted if and only if the envelope is applied and its
/// overall severity differs from the plant's previous severity; what is
/// published on the bus is that change and nothing else.
pub proof fn lemma_change_iff_severity_differs(store: StoreView, env: EnvelopeView)
    ensures
        process(store, env).1.change is Some <==> applied_plant(store, env) is Some
            && applied_state(store, env).overall != applied_state(store, env).previous,
        process(store, env).1.change is Some ==> {
            &&& process(store, env).0.published == store.published.push(
                process(store, env).1.change->0,
            )
            &&& process(store, env).1.change->0.prev_severity == applied_state(
                store,
                env,
            ).previous
            &&& process(store, env).1.change->0.new_severity == applied_state(store, env).overall
            &&& process(store, env).1.change->0.plant_id == env.plant_id
            &&& process(store, env).1.change->0.occurred_at_ns == env.timestamp_ns
        },
        process(store, env).1.change is None ==> process(store, env).0.published
            == store.published,
{
}

/// The previous severity of an envelope is the severity that the last
/// applied envelope stored: the state row is read back as it was written.
pub proof fn lemma_previous_is_stored(store: StoreView, env: EnvelopeView)
    requires
        applied_plant(store, env) is Some,
    ensures
        applied_state(store, env).previous == match find_state(
            store.states,
            applied_plant(store, env)->0.id,
        ) {
            Some(state) => state.severity,
            None => Severity::Normal,
        },
{
    let plant = applied_plant(store, env)->0;
    match find_state(store.states, plant.id) {
        Some(state) => {
            crate::threshold::lemma_parse_name(state.severity);
        },
        None => {},
    }
}

/// No fingerprint occurs twice in the ledger, no plant twice among the plant
/// states, no device twice in the device table: the tables' primary keys.
pub open spec fn keys_unique(store: StoreView) -> bool {
    &&& forall|i: int, j: int|
        0 <= i < store.ledger.len() && 0 <= j < store.ledger.len() && i != j
            ==> store.ledger[i].ingest_id != store.ledger[j].ingest_id
    &&& forall|i: int, j: int|
        0 <= i < store.states.len() && 0 <= j < store.states.len() && i != j
            ==> store.states[i].plant_id != store.states[j].plant_id
    &&& forall|i: int, j: int|
        0 <= i < store.devices.len() && 0 <= j < store.devices.len() && i != j
            ==> store.devices[i].device_uid != store.devices[j].device_uid
}

/// Processing an envelope keeps the primary keys unique.
pub proof fn lemma_keys_stay_unique(store: StoreView, env: EnvelopeView)
    requires
        keys_unique(store),
    ensures
        keys_unique(process(store, env).0),
{
    let after = process(store, env).0;
    assert forall|row: LedgerRowView, i: int, j: int|
        0 <= i < record(store.ledger, row).len() && 0 <= j < record(store.ledger, row).len() && i
            != j implies (#[trigger] record(store.ledger, row)[i]).ingest_id != (#[trigger] record(
        store.ledger,
        row,
    )[j]).ingest_id by {
        if !ledger_has(store.ledger, row.ingest_id) {
            if i < store.ledger.len() {
                assert(store.ledger[i].ingest_id != row.ingest_id);
            }
            if j < store.ledger.len() {
                assert(store.ledger[j].ingest_id != row.ingest_id);
            }
        }
    }
    assert forall|row: StateRowView, i: int, j: int|
        0 <= i < upsert(store.states, row, store.now).len() && 0 <= j < upsert(
            store.states,
            row,
            store.now,
        ).len() && i != j implies (#[trigger] upsert(store.states, row, store.now)[i]).plant_id != (
    #[trigger] upsert(store.states, row, store.now)[j]).plant_id by {
        if !has_state(store.states, row.plant_id) {
            if i < store.states.len() {
                assert(store.states[i].plant_id != row.plant_id);
            }
            if j < store.states.len() {
                assert(store.states[j].plant_id != row.plant_id);
            }
        }
    }
}

/// With unique keys, the ledger holds at most one row for a fingerprint.
pub proof fn lemma_unique_counts_at_most_one(ledger: Seq<LedgerRowView>, ingest_id: Seq<char>)
    requires
        forall|i: int, j: int|
            0 <= i < ledger.len() && 0 <= j < ledger.len() && i != j ==> ledger[i].ingest_id
                != ledger[j].ingest_id,
    ensures
        ledger_count(ledger, ingest_id) <= 1,
        ledger_count(ledger, ingest_id) == 1 <==> ledger_has(ledger, ingest_id),
    decreases ledger.len(),
{
    if ledger.len() > 0 {
        let front = ledger.drop_last();
        assert forall|i: int, j: int|
            0 <= i < front.len() && 0 <= j < front.len() && i != j implies front[i].ingest_id
            != front[j].ingest_id by {
            assert(front[i] == ledger[i]);
            assert(front[j] == ledger[j]);
        }
        lemma_unique_counts_at_most_one(front, ingest_id);
        if ledger.last().ingest_id == ingest_id {
            assert(ledger[ledger.len() - 1].ingest_id == ingest_id);
            if ledger_has(front, ingest_id) {
                let i = choose|i: int| 0 <= i < front.len() && (#[trigger] front[i]).ingest_id == ingest_id;
                assert(front[i] == ledger[i]);
                assert(false);
            }
            lemma_absent_counts_zero(front, ingest_id);
        } else {
            if ledger_has(ledger, ingest_id) {
                let i = choose|i: int| 0 <= i < ledger.len() && (#[trigger] ledger[i]).ingest_id == ingest_id;
                assert(front[i] == ledger[i]);
            }
            if ledger_has(front, ingest_id) {
                let i = choose|i: int| 0 <= i < front.len() && (#[trigger] front[i]).ingest_id == ingest_id;
                assert(ledger[i] == front[i]);
            }
        }
    } else {
        assert(!ledger_has(ledger, ingest_id));
    }
}

/// Processing an envelope reads the plants and the thresholds and never
/// writes them, and it does not move the clock.
pub proof fn lemma_reference_tables_untouched(store: StoreView, env: EnvelopeView)
    ensures
        process(store, env).0.plants == store.plants,
        process(store, env).0.thresholds == store.thresholds,
        process(store, env).0.now == store.now,
{
}

/// Each applied envelope adds exactly one ticker event, and an envelope that
/// is not applied adds none.
pub proof fn lemma_one_ticker_event_per_application(store: StoreView, env: EnvelopeView)
    ensures
        applied_plant(store, env) is Some ==> process(store, env).0.ticker == store.ticker.push(
            applied_state(store, env).ticker(),
        ),
        applied_plant(store, env) is None ==> process(store, env).0.ticker == store.ticker,
{
}

/// An upsert done twice is an upsert done once.
pub proof fn lemma_upsert_idempotent(states: Seq<PlantStateView>, row: StateRowView, now: i64)
    ensures
        upsert(upsert(states, row, now), row, now) == upsert(states, row, now),
{
    let once = upsert(states, row, now);
    if has_state(states, row.plant_id) {
        let i = choose|i: int| 0 <= i < states.len() && (#[trigger] states[i]).plant_id == row.plant_id;
        assert(once[i].plant_id == row.plant_id);
        assert(has_state(once, row.plant_id));
    } else {
        assert(once[states.len() as int].plant_id == row.plant_id);
        assert(has_state(once, row.plant_id));
        assert forall|i: int| 0 <= i < states.len() implies (#[trigger] once[i]).plant_id
            != row.plant_id by {
            assert(states[i].plant_id != row.plant_id);
        }
    }
    assert(upsert(once, row, now) =~= once);
}

/// A heartbeat done twice is a heartbeat done once.
pub proof fn lemma_heartbeat_idempotent(
    devices: Seq<DeviceView>,
    device_uid: Seq<char>,
    ingest_id: Seq<char>,
    now: i64,
)
    ensures
        heartbeat(heartbeat(devices, device_uid, ingest_id, now), device_uid, ingest_id, now)
            == heartbeat(devices, device_uid, ingest_id, now),
{
    assert(heartbeat(heartbeat(devices, device_uid, ingest_id, now), device_uid, ingest_id, now)
        =~= heartbeat(devices, device_uid, ingest_id, now));
}

/// The store, the state and the pending action after the first `steps`
/// actions of a run were performed. A run that has reached its end stays
/// there.
pub open spec fn run_steps(
    store: StoreView,
    state: StateView,
    action: ActionView,
    steps: nat,
) -> (StoreView, StateView, ActionView)
    decreases steps,
{
    if steps == 0 || action is Finish {
        (store, state, action)
    } else {
        let (after, event) = effect(store, action);
        let (following, then) = next(state, event);
        run_steps(after, following, then, (steps - 1) as nat)
    }
}

/// True when the pending action writes the ledger exactly at the two stages
/// that await a ledger insert.
pub open spec fn ledger_write_pending(state: StateView, action: ActionView) -> bool {
    action is RecordLedger <==> state.stage == Stage::RejectionLedger || state.stage
        == Stage::FinalLedger
}

/// Performing the pending action, unless it is a ledger insert, leaves the
/// ledger as it is; after a ledger insert the run is at its end.
proof fn lemma_step_keeps_ledger(store: StoreView, state: StateView, action: ActionView)
    requires
        ledger_write_pending(state, action),
        state.stage != Stage::Done,
    ensures
        ({
            let (after, event) = effect(store, action);
            let (following, then) = next(state, event);
            &&& !(action is RecordLedger) ==> after.ledger == store.ledger
            &&& action is RecordLedger ==> then is Finish
            &&& ledger_write_pending(following, then) || then is Finish
            &&& following.stage == Stage::Done ==> then is Finish
        }),
{
}

/// The ledger row is written last: as long as a run has not reached its end,
/// the ledger is as it was when the run began. A run that is cut short
/// therefore leaves no ledger row, and the envelope is processed anew when it
/// arrives again.
pub proof fn lemma_cut_short_leaves_ledger(store: StoreView, env: EnvelopeView, steps: nat)
    requires
        !(run_steps(store, begin(env).0, begin(env).1, steps).2 is Finish),
    ensures
        run_steps(store, begin(env).0, begin(env).1, steps).0.ledger == store.ledger,
{
    lemma_cut_short_from(store, store, begin(env).0, begin(env).1, steps);
}

/// The same, from any point of a run at which the ledger is still as it was.
proof fn lemma_cut_short_from(
    first: StoreView,
    store: StoreView,
    state: StateView,
    action: ActionView,
    steps: nat,
)
    requires
        store.ledger == first.ledger,
        ledger_write_pending(state, action) || action is Finish,
        state.stage == Stage::Done ==> action is Finish,
        !(run_steps(store, state, action, steps).2 is Finish),
    ensures
        run_steps(store, state, action, steps).0.ledger == first.ledger,
    decreases steps,
{
    if steps > 0 && !(action is Finish) {
        lemma_step_keeps_ledger(store, state, action);
        let (after, event) = effect(store, action);
        let (following, then) = next(state, event);
        if action is RecordLedger {
            assert(run_steps(after, following, then, (steps - 1) as nat).2 is Finish);
        } else {
            lemma_cut_short_from(first, after, following, then, (steps - 1) as nat);
        }
    }
}

} // verus!
