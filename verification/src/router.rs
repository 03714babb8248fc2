//! The front of the pipeline: what becomes of a datagram, and how envelopes
//! are gathered into batches.
//!
//! The socket, the queue between the receiver and the batcher, and the clock
//! belong to the caller. The receiver hands each datagram's reading to
//! [`accept`] and tries to enqueue what it returns, dropping it when the
//! queue is full. The batcher feeds what it pulls from the queue, the fall of
//! its deadline and the closing of the queue to [`Batcher::on_event`] and does
//! what that answers.

use vstd::prelude::*;
use crate::codec::{check_message, decode, DecodeError, UdpTelemetryMessage};
use crate::envelope::{envelope_of, seal, EnvelopeView, TelemetryEnvelope};

verus! {

/// Size of the receive buffer, in bytes; a datagram is at most this long.
pub const MAX_PACKET_SIZE: usize = 4096;

/// Capacity of the queue between the receiver and the batcher, in envelopes.
pub const QUEUE_CAPACITY: usize = 1024;

/// Time that a batch cycle waits for envelopes, in milliseconds.
pub const BATCH_DEADLINE_MS: u64 = 100;

/// Number of envelopes that fill a batch, unless configured otherwise.
pub const DEFAULT_BATCH_SIZE: usize = 64;

/// Accepts or rejects what was read from a datagram, and seals an accepted
/// message into an envelope with its fingerprint.
pub fn accept(parsed: Result<UdpTelemetryMessage, String>) -> (r: Result<
    TelemetryEnvelope,
    DecodeError,
>)
    ensures
        parsed is Err ==> r == Err::<TelemetryEnvelope, DecodeError>(
            DecodeError::Json(parsed->Err_0),
        ),
        parsed is Ok ==> match check_message(parsed->Ok_0) {
            Ok(msg) => r is Ok && r->Ok_0@ == envelope_of(msg),
            Err(e) => r == Err::<TelemetryEnvelope, DecodeError>(e),
        },
{
    match decode(parsed) {
        Ok(msg) => Ok(seal(msg)),
        Err(e) => Err(e),
    }
}

/// What the batcher learns while it waits.
#[derive(Debug)]
pub enum BatchEvent {
    /// An envelope was pulled from the queue.
    Received(TelemetryEnvelope),
    /// The deadline of the cycle has passed.
    DeadlineElapsed,
    /// The queue is closed: no sender is left.
    Closed,
}

/// What the batcher is to do.
#[derive(Debug)]
pub enum BatchAction {
    /// Go on pulling, under the deadline of the current cycle.
    Wait,
    /// Forward the batch, then begin a new cycle with a new deadline.
    Forward(Vec<TelemetryEnvelope>),
    /// Begin a new cycle with a new deadline; there is nothing to forward.
    Restart,
    /// Return.
    Stop,
}

/// What a batch action holds, as plain values.
pub enum BatchActionView {
    Wait,
    Forward(Seq<EnvelopeView>),
    Restart,
    Stop,
}

/// The views of a list of envelopes.
pub open spec fn envelopes_view(list: Seq<TelemetryEnvelope>) -> Seq<EnvelopeView> {
    list.map_values(|e: TelemetryEnvelope| e@)
}

impl View for BatchAction {
    type V = BatchActionView;

    open spec fn view(&self) -> BatchActionView {
        match self {
            BatchAction::Wait => BatchActionView::Wait,
            BatchAction::Forward(batch) => BatchActionView::Forward(envelopes_view(batch@)),
            BatchAction::Restart => BatchActionView::Restart,
            BatchAction::Stop => BatchActionView::Stop,
        }
    }
}

/// The batcher between two events: the size that fills a batch, and the
/// envelopes gathered in the current cycle.
#[derive(Debug)]
pub struct Batcher {
    pub batch_size: usize,
    pub pending: Vec<TelemetryEnvelope>,
}

/// What a batcher holds, as plain values.
pub struct BatcherView {
    pub batch_size: usize,
    pub pending: Seq<EnvelopeView>,
}

impl View for Batcher {
    type V = BatcherView;

    open spec fn view(&self) -> BatcherView {
        BatcherView { batch_size: self.batch_size, pending: envelopes_view(self.pending@) }
    }
}

/// What an event holds, as plain values.
pub enum BatchEventView {
    Received(EnvelopeView),
    DeadlineElapsed,
    Closed,
}

impl View for BatchEvent {
    type V = BatchEventView;

    open spec fn view(&self) -> BatchEventView {
        match self {
            BatchEvent::Received(env) => BatchEventView::Received(env@),
            BatchEvent::DeadlineElapsed => BatchEventView::DeadlineElapsed,
            BatchEvent::Closed => BatchEventView::Closed,
        }
    }
}

/// The batcher after an event, and what it is to do.
///
/// * An envelope joins the pending ones; once they are `batch_size` or more
///   they are forwarded.
/// * At the deadline the pending envelopes are forwarded, if there are any.
/// * When the queue is closed the batcher stops; what is pending is not
///   forwarded.
pub open spec fn batch_step(batcher: BatcherView, event: BatchEventView) -> (
    BatcherView,
    BatchActionView,
) {
    match event {
        BatchEventView::Received(env) => {
            let gathered = batcher.pending.push(env);
            if gathered.len() >= batcher.batch_size {
                (
                    BatcherView { pending: Seq::empty(), ..batcher },
                    BatchActionView::Forward(gathered),
                )
            } else {
                (BatcherView { pending: gathered, ..batcher }, BatchActionView::Wait)
            }
        },
        BatchEventView::DeadlineElapsed => if batcher.pending.len() == 0 {
            (batcher, BatchActionView::Restart)
        } else {
            (
                BatcherView { pending: Seq::empty(), ..batcher },
                BatchActionView::Forward(batcher.pending),
            )
        },
        BatchEventView::Closed => (batcher, BatchActionView::Stop),
    }
}

impl Batcher {
    /// A batcher with nothing pending.
    pub fn new(batch_size: usize) -> (batcher: Batcher)
        ensures
            batcher@ == (BatcherView { batch_size, pending: Seq::empty() }),
    {
        let batcher = Batcher { batch_size, pending: Vec::new() };
        assert(batcher@.pending =~= Seq::empty());
        batcher
    }

    /// Takes an event and says what to do.
    pub fn on_event(&mut self, event: BatchEvent) -> (action: BatchAction)
        ensures
            (final(self)@, action@) == batch_step(old(self)@, event@),
    {
        match event {
            BatchEvent::Received(env) => {
                self.pending.push(env);
                assert(self@.pending =~= old(self)@.pending.push(env@));
                if self.pending.len() >= self.batch_size {
                    let mut batch: Vec<TelemetryEnvelope> = Vec::new();
                    batch.append(&mut self.pending);
                    assert(envelopes_view(batch@) =~= old(self)@.pending.push(env@));
                    assert(self@.pending =~= Seq::empty());
                    BatchAction::Forward(batch)
                } else {
                    BatchAction::Wait
                }
            },
            BatchEvent::DeadlineElapsed => {
                if self.pending.len() == 0 {
                    BatchAction::Restart
                } else {
                    let mut batch: Vec<TelemetryEnvelope> = Vec::new();
                    batch.append(&mut self.pending);
                    assert(envelopes_view(batch@) =~= old(self)@.pending);
                    assert(self@.pending =~= Seq::empty());
                    BatchAction::Forward(batch)
                }
            },
            BatchEvent::Closed => BatchAction::Stop,
        }
    }
}

/// What a sequence of events makes the batcher forward, batch by batch, and
/// the batcher at the end. Events after the closing of the queue do nothing.
pub open spec fn batch_run(batcher: BatcherView, events: Seq<BatchEventView>) -> (
    BatcherView,
    Seq<Seq<EnvelopeView>>,
)
    decreases events.len(),
{
    if events.len() == 0 {
        (batcher, Seq::empty())
    } else {
        let (before, forwarded) = batch_run(batcher, events.drop_last());
        let (after, action) = batch_step(before, events.last());
        match action {
            BatchActionView::Forward(batch) => (after, forwarded.push(batch)),
            _ => (after, forwarded),
        }
    }
}

/// The envelopes among a sequence of events, in order.
pub open spec fn received(events: Seq<BatchEventView>) -> Seq<EnvelopeView>
    decreases events.len(),
{
    if events.len() == 0 {
        Seq::empty()
    } else {
        match events.last() {
            BatchEventView::Received(env) => received(events.drop_last()).push(env),
            _ => received(events.drop_last()),
        }
    }
}

/// The batches of a sequence, joined end to end.
pub open spec fn joined(batches: Seq<Seq<EnvelopeView>>) -> Seq<EnvelopeView>
    decreases batches.len(),
{
    if batches.len() == 0 {
        Seq::empty()
    } else {
        joined(batches.drop_last()) + batches.last()
    }
}

/// Nothing is lost, repeated or reordered: what was forwarded, followed by
/// what is pending, is what was pending at the start followed by what was
/// received.
pub proof fn lemma_batches_keep_order(batcher: BatcherView, events: Seq<BatchEventView>)
    ensures
        joined(batch_run(batcher, events).1) + batch_run(batcher, events).0.pending
            == batcher.pending + received(events),
        batch_run(batcher, events).0.batch_size == batcher.batch_size,
    decreases events.len(),
{
    if events.len() == 0 {
        assert(joined(batch_run(batcher, events).1) + batch_run(batcher, events).0.pending
            =~= batcher.pending + received(events));
    } else {
        lemma_batches_keep_order(batcher, events.drop_last());
        let (before, forwarded) = batch_run(batcher, events.drop_last());
        let (after, action) = batch_step(before, events.last());
        let start = batcher.pending + received(events.drop_last());
        assert(joined(forwarded) + before.pending == start);
        match action {
            BatchActionView::Forward(batch) => {
                assert(forwarded.push(batch).drop_last() =~= forwarded);
                assert(joined(forwarded.push(batch)) == joined(forwarded) + batch);
                assert(after.pending =~= Seq::<EnvelopeView>::empty());
                match events.last() {
                    BatchEventView::Received(env) => {
                        assert(batch == before.pending.push(env));
                        assert(joined(forwarded) + batch =~= start.push(env));
                    },
                    _ => {
                        assert(batch == before.pending);
                    },
                }
                assert(joined(forwarded.push(batch)) + after.pending =~= batcher.pending
                    + received(events));
            },
            _ => {
                match events.last() {
                    BatchEventView::Received(env) => {
                        assert(after.pending == before.pending.push(env));
                        assert(joined(forwarded) + after.pending =~= start.push(env));
                    },
                    _ => {},
                }
                assert(joined(forwarded) + after.pending =~= batcher.pending + received(events));
            },
        }
    }
}

/// A forwarded batch is never empty, and holds no more than `batch_size`
/// envelopes (one, where `batch_size` is 0) when the batcher started with
/// fewer than that pending.
pub proof fn lemma_batches_bounded(batcher: BatcherView, events: Seq<BatchEventView>)
    requires
        batcher.pending.len() < batcher.batch_size || batcher.pending.len() == 0,
    ensures
        batch_run(batcher, events).0.pending.len() < batcher.batch_size || batch_run(
            batcher,
            events,
        ).0.pending.len() == 0,
        forall|i: int|
            0 <= i < batch_run(batcher, events).1.len() ==> 0 < (#[trigger] batch_run(
                batcher,
                events,
            ).1[i]).len() && (batch_run(batcher, events).1[i].len() <= batcher.batch_size
                || batch_run(batcher, events).1[i].len() == 1),
    decreases events.len(),
{
    if events.len() > 0 {
        lemma_batches_bounded(batcher, events.drop_last());
        lemma_batches_keep_order(batcher, events.drop_last());
        let (before, forwarded) = batch_run(batcher, events.drop_last());
        let (after, action) = batch_step(before, events.last());
        assert forall|i: int| 0 <= i < batch_run(batcher, events).1.len() implies 0 < (
        #[trigger] batch_run(batcher, events).1[i]).len() && (batch_run(batcher, events).1[i].len()
            <= batcher.batch_size || batch_run(batcher, events).1[i].len() == 1) by {
            if i < forwarded.len() {
                assert(batch_run(batcher, events).1[i] == forwarded[i]);
            }
        }
    }
}

} // verus!
