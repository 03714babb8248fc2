//! The answer to a batch of envelopes: one result per envelope, in the order
//! of the envelopes, and the status changes that occurred.

use vstd::prelude::*;
use crate::envelope::{
    EnvelopeView, IngestResult, StatusChange, StatusChangeView, TelemetryEnvelope,
};
use crate::ingest::{IngestOutcome, OutcomeView};
use crate::procedure::process;
use crate::store::{changes_view, MemoryStore, StoreView};
use crate::threshold::Severity;

verus! {

/// The result for one envelope of a batch.
#[derive(Debug)]
pub struct ItemResult {
    pub ingest_id: String,
    pub result: IngestResult,
    /// The failure that ended the processing; empty where there was none.
    pub error: String,
}

/// What an item result holds, as plain values.
pub struct ItemView {
    pub ingest_id: Seq<char>,
    pub result: IngestResult,
    pub error: Seq<char>,
}

impl View for ItemResult {
    type V = ItemView;

    open spec fn view(&self) -> ItemView {
        ItemView { ingest_id: self.ingest_id@, result: self.result, error: self.error@ }
    }
}

/// The answer to a batch.
#[derive(Debug)]
pub struct IngestTelemetryResponse {
    pub results: Vec<ItemResult>,
    pub status_changes: Vec<StatusChange>,
}

/// What an answer holds, as plain values.
pub struct ResponseView {
    pub results: Seq<ItemView>,
    pub status_changes: Seq<StatusChangeView>,
}

impl View for IngestTelemetryResponse {
    type V = ResponseView;

    open spec fn view(&self) -> ResponseView {
        ResponseView {
            results: self.results@.map_values(|r: ItemResult| r@),
            status_changes: changes_view(self.status_changes@),
        }
    }
}

/// The answer with one more outcome: a result for the envelope, and its
/// status change where there is one.
pub open spec fn with_outcome(
    response: ResponseView,
    ingest_id: Seq<char>,
    outcome: OutcomeView,
) -> ResponseView {
    ResponseView {
        results: response.results.push(
            ItemView { ingest_id, result: outcome.result, error: outcome.error },
        ),
        status_changes: match outcome.change {
            Some(change) => response.status_changes.push(change),
            None => response.status_changes,
        },
    }
}

/// The store after a batch was processed in order, and the answer.
pub open spec fn ingest_all(store: StoreView, batch: Seq<EnvelopeView>) -> (StoreView, ResponseView)
    decreases batch.len(),
{
    if batch.len() == 0 {
        (store, ResponseView { results: Seq::empty(), status_changes: Seq::empty() })
    } else {
        let (before, response) = ingest_all(store, batch.drop_last());
        let (after, outcome) = process(before, batch.last());
        (after, with_outcome(response, batch.last().ingest_id, outcome))
    }
}

impl IngestTelemetryResponse {
    /// The answer to the empty batch.
    pub fn new() -> (response: IngestTelemetryResponse)
        ensures
            response@.results.len() == 0,
            response@.status_changes.len() == 0,
    {
        IngestTelemetryResponse { results: Vec::new(), status_changes: Vec::new() }
    }

    /// Adds the outcome of one envelope.
    pub fn record(&mut self, ingest_id: String, outcome: IngestOutcome)
        ensures
            final(self)@ == with_outcome(old(self)@, ingest_id@, outcome@),
    {
        let item = ItemResult { ingest_id, result: outcome.result, error: outcome.error };
        self.results.push(item);
        assert(self@.results =~= old(self)@.results.push(item@));
        match outcome.change {
            Some(change) => {
                self.status_changes.push(change);
                assert(self@.status_changes =~= old(self)@.status_changes.push(change@));
            },
            None => {},
        }
    }
}

/// The number of a severity on the wire: its place in the order.
pub fn severity_to_proto(s: Severity) -> (code: i32)
    ensures
        code == s.rank(),
{
    match s {
        Severity::Normal => 0,
        Severity::Warn => 1,
        Severity::Critical => 2,
    }
}

/// The views of a batch of envelopes.
pub open spec fn batch_view(batch: Seq<TelemetryEnvelope>) -> Seq<EnvelopeView> {
    batch.map_values(|e: TelemetryEnvelope| e@)
}

impl MemoryStore {
    /// Processes a batch of envelopes in order and answers with one result
    /// per envelope. An envelope that fails does not stop the batch.
    pub fn ingest_telemetry(&mut self, batch: Vec<TelemetryEnvelope>) -> (response:
        IngestTelemetryResponse)
        ensures
            (final(self)@, response@) == ingest_all(old(self)@, batch_view(batch@)),
    {
        let ghost all = batch_view(batch@);
        let mut response = IngestTelemetryResponse::new();
        assert(response@.results =~= Seq::empty());
        assert(response@.status_changes =~= Seq::empty());
        let n = batch.len();
        let mut i: usize = 0;
        while i < n
            invariant
                i <= n,
                n == batch@.len(),
                all == batch_view(batch@),
                (self@, response@) == ingest_all(old(self)@, all.take(i as int)),
            decreases n - i,
        {
            proof {
                assert(all.take(i + 1).drop_last() =~= all.take(i as int));
                assert(all.take(i + 1).last() == batch@[i as int]@);
            }
            let env = batch[i].duplicate();
            let ingest_id = batch[i].ingest_id.clone();
            let outcome = self.process_envelope(env);
            response.record(ingest_id, outcome);
            i += 1;
        }
        assert(all.take(n as int) =~= all);
        response
    }
}

/// The answer to a batch has one result per envelope, in the order of the
/// envelopes, each under the envelope's fingerprint.
pub proof fn lemma_results_aligned(store: StoreView, batch: Seq<EnvelopeView>)
    ensures
        ingest_all(store, batch).1.results.len() == batch.len(),
        forall|i: int|
            0 <= i < batch.len() ==> (#[trigger] ingest_all(store, batch).1.results[i]).ingest_id
                == batch[i].ingest_id,
    decreases batch.len(),
{
    if batch.len() > 0 {
        lemma_results_aligned(store, batch.drop_last());
        assert forall|i: int| 0 <= i < batch.len() implies (#[trigger] ingest_all(
            store,
            batch,
        ).1.results[i]).ingest_id == batch[i].ingest_id by {
            if i < batch.len() - 1 {
                assert(batch.drop_last()[i] == batch[i]);
            }
        }
    }
}

/// The result for each envelope of a batch is what processing it gives on
/// the store that the envelopes before it left: no envelope's failure reaches
/// the others.
pub proof fn lemma_results_independent(store: StoreView, batch: Seq<EnvelopeView>, i: int)
    requires
        0 <= i < batch.len(),
    ensures
        ingest_all(store, batch).1.results[i].result == process(
            ingest_all(store, batch.take(i)).0,
            batch[i],
        ).1.result,
        ingest_all(store, batch).1.results[i].error == process(
            ingest_all(store, batch.take(i)).0,
            batch[i],
        ).1.error,
    decreases batch.len(),
{
    lemma_results_aligned(store, batch.drop_last());
    if i == batch.len() - 1 {
        assert(batch.take(i) =~= batch.drop_last());
    } else {
        lemma_results_independent(store, batch.drop_last(), i);
        assert(batch.drop_last().take(i) =~= batch.take(i));
        assert(batch.drop_last()[i] == batch[i]);
    }
}

} // verus!
