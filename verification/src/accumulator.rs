//! The batch accumulator and flush scheduler's decision core: a state
//! machine that appends arriving records to a working set and decides, on
//! each trigger, whether a batch is handed off for persistence. The caller
//! runs the timer/arrival race and performs the handoff; every decision is
//! taken here.

use vstd::prelude::*;
use crate::record::{EventRecord, RecordModel, models_of};

verus! {

/// A batch is handed off as soon as the working set reaches this many
/// records, without waiting for the timer.
pub const FLUSH_THRESHOLD: usize = 100;

/// One trigger of the scheduler's readiness race, at the model level.
pub enum StepInput {
    /// The flush timer fired.
    Timer,
    /// A record arrived from the relay channel.
    Arrival(RecordModel),
}

/// What one trigger does to the working set, and which batch (if any) it
/// hands off: a timer fire flushes a non-empty working set whole and is a
/// no-op on an empty one; an arrival appends, and flushes immediately when
/// the set reaches the threshold.
pub open spec fn spec_step(buf: Seq<RecordModel>, e: StepInput) -> (Seq<RecordModel>, Option<
    Seq<RecordModel>,
>) {
    match e {
        StepInput::Timer => if buf.len() == 0 {
            (buf, None)
        } else {
            (Seq::empty(), Some(buf))
        },
        StepInput::Arrival(r) => {
            let grown = buf.push(r);
            if grown.len() >= FLUSH_THRESHOLD as int {
                (Seq::empty(), Some(grown))
            } else {
                (grown, None)
            }
        },
    }
}

/// The accumulator's working set: the records received and not yet handed
/// off, in arrival order.
pub struct Accumulator {
    buffer: Vec<EventRecord>,
}

impl View for Accumulator {
    type V = Seq<RecordModel>;

    closed spec fn view(&self) -> Seq<RecordModel> {
        models_of(self.buffer@)
    }
}

impl Accumulator {
    /// Between triggers the working set is strictly below the threshold:
    /// reaching it flushes at once.
    pub open spec fn inv(&self) -> bool {
        self@.len() < FLUSH_THRESHOLD as int
    }

    /// A fresh accumulator with an empty working set.
    pub fn new() -> (r: Accumulator)
        ensures
            r@ == Seq::<RecordModel>::empty(),
            r.inv(),
    {
        let r = Accumulator { buffer: Vec::new() };
        proof {
            assert(r@ =~= Seq::<RecordModel>::empty());
        }
        r
    }

    /// How many records are waiting in the working set.
    pub fn pending(&self) -> (n: usize)
        ensures
            n == self@.len(),
    {
        self.buffer.len()
    }

    /// Moves the whole working set out as a batch, leaving it empty.
    fn take_buffer(&mut self) -> (batch: Vec<EventRecord>)
        ensures
            models_of(batch@) == old(self)@,
            final(self)@ == Seq::<RecordModel>::empty(),
    {
        let mut batch: Vec<EventRecord> = Vec::new();
        core::mem::swap(&mut self.buffer, &mut batch);
        proof {
            assert(self@ =~= Seq::<RecordModel>::empty());
        }
        batch
    }

    /// The timer fired: hands off the whole working set when it is
    /// non-empty, and does nothing on an empty one (no empty batches).
    pub fn on_timer(&mut self) -> (r: Option<Vec<EventRecord>>)
        requires
            old(self).inv(),
        ensures
            final(self).inv(),
            (match r {
                Some(batch) => spec_step(old(self)@, StepInput::Timer) == (
                    final(self)@,
                    Some(models_of(batch@)),
                ) && models_of(batch@) == old(self)@ && final(self)@.len() == 0 && batch@.len()
                    <= FLUSH_THRESHOLD,
                None => spec_step(old(self)@, StepInput::Timer) == (
                    final(self)@,
                    None::<Seq<RecordModel>>,
                ) && final(self)@ == old(self)@ && old(self)@.len() == 0,
            }),
            r is Some <==> old(self)@.len() > 0,
    {
        if self.buffer.len() == 0 {
            None
        } else {
            Some(self.take_buffer())
        }
    }

    /// A record arrived: appends it to the working set, and hands the set
    /// off as a batch as soon as it reaches the threshold.
    pub fn on_arrival(&mut self, rec: EventRecord) -> (r: Option<Vec<EventRecord>>)
        requires
            old(self).inv(),
        ensures
            final(self).inv(),
            (match r {
                Some(batch) => spec_step(old(self)@, StepInput::Arrival(rec@)) == (
                    final(self)@,
                    Some(models_of(batch@)),
                ) && models_of(batch@) == old(self)@.push(rec@) && final(self)@.len() == 0
                    && batch@.len() <= FLUSH_THRESHOLD && batch@.len() > 0,
                None => spec_step(old(self)@, StepInput::Arrival(rec@)) == (
                    final(self)@,
                    None::<Seq<RecordModel>>,
                ) && final(self)@ == old(self)@.push(rec@),
            }),
            r is Some <==> old(self)@.len() + 1 >= FLUSH_THRESHOLD as int,
    {
        let ghost buf0 = self@;
        self.buffer.push(rec);
        proof {
            assert(self@ =~= buf0.push(rec@));
        }
        if self.buffer.len() >= FLUSH_THRESHOLD {
            Some(self.take_buffer())
        } else {
            None
        }
    }
}

/// The batches handed off over a whole sequence of triggers, in order.
pub open spec fn spec_run_batches(buf: Seq<RecordModel>, es: Seq<StepInput>) -> Seq<
    Seq<RecordModel>,
>
    decreases es.len(),
{
    if es.len() == 0 {
        Seq::empty()
    } else {
        let stepped = spec_step(buf, es[0]);
        let rest = spec_run_batches(stepped.0, es.drop_first());
        match stepped.1 {
            Some(b) => seq![b] + rest,
            None => rest,
        }
    }
}

/// Law: over any sequence of triggers starting below the threshold, every
/// batch handed off is non-empty and never larger than the threshold, and
/// the working set stays below the threshold after every trigger. A timer
/// fire always leaves the working set empty, so no record outlives a timer
/// fire in the working set.
pub proof fn lemma_batches_bounded(buf: Seq<RecordModel>, es: Seq<StepInput>)
    requires
        buf.len() < FLUSH_THRESHOLD as int,
    ensures
        forall|k: int|
            0 <= k < spec_run_batches(buf, es).len() ==> 0 < (#[trigger] spec_run_batches(
                buf,
                es,
            )[k]).len() <= FLUSH_THRESHOLD as int,
        forall|b: Seq<RecordModel>, e: StepInput|
            b.len() < FLUSH_THRESHOLD as int ==> (#[trigger] spec_step(b, e)).0.len()
                < FLUSH_THRESHOLD as int,
        forall|b: Seq<RecordModel>| (#[trigger] spec_step(b, StepInput::Timer)).0.len() == 0,
    decreases es.len(),
{
    if es.len() > 0 {
        let stepped = spec_step(buf, es[0]);
        lemma_batches_bounded(stepped.0, es.drop_first());
        let rest = spec_run_batches(stepped.0, es.drop_first());
        let all = spec_run_batches(buf, es);
        match stepped.1 {
            Some(b) => {
                assert(all == seq![b] + rest);
                assert(0 < b.len() <= FLUSH_THRESHOLD as int);
                assert forall|k: int| 0 <= k < all.len() implies 0 < (#[trigger] all[k]).len()
                    <= FLUSH_THRESHOLD as int by {
                    if k > 0 {
                        assert(all[k] == rest[k - 1]);
                    }
                }
            },
            None => {
                assert(all == rest);
                assert forall|k: int| 0 <= k < all.len() implies 0 < (#[trigger] all[k]).len()
                    <= FLUSH_THRESHOLD as int by {
                    assert(all[k] == rest[k]);
                }
            },
        }
    }
}

} // verus!
