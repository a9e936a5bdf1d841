//! The single-slot transmit queue.
//!
//! Pending waveforms wait in FIFO order; one busy flag records whether a
//! waveform is in flight at the transmitter. Two actors drive the state:
//! the dispatcher (`tick`, which starts at most one waveform per idle
//! observation, and `send`) and the hardware completion notification
//! (`transmit_finish`). In the surrounding program each of these steps is
//! made atomic by keeping the flag behind an atomic primitive; the step
//! functions and lemmas below say what any interleaving of the atomic
//! steps does to the state, in particular that no interleaving loses or
//! duplicates a pending waveform.

use crate::pulse::PulsePair;
use vstd::prelude::*;

verus! {

/// Abstract state of a transmit queue: the pending waveforms in FIFO
/// order, and whether a waveform is in flight at the transmitter.
#[verifier::ext_equal]
pub ghost struct QueueModel {
    /// Waveforms waiting to be transmitted, head first.
    pub pending: Seq<Seq<PulsePair>>,
    /// True iff a waveform is in flight.
    pub busy: bool,
}

/// The producer's step: an enqueue appends one waveform and is always
/// accepted, whatever the state.
pub open spec fn send_step(m: QueueModel, w: Seq<PulsePair>) -> QueueModel {
    QueueModel { pending: m.pending.push(w), busy: m.busy }
}

/// The hardware completion notification's step: the in-flight waveform is
/// done, the transmitter is free again.
pub open spec fn finish_step(m: QueueModel) -> QueueModel {
    QueueModel { pending: m.pending, busy: false }
}

/// The state after one dispatcher tick: if the transmitter is idle and
/// work is pending, the head waveform leaves the buffer and the
/// transmitter becomes busy; otherwise nothing changes.
pub open spec fn tick_state(m: QueueModel) -> QueueModel {
    if m.busy || m.pending.len() == 0 {
        m
    } else {
        QueueModel { pending: m.pending.drop_first(), busy: true }
    }
}

/// The waveform a dispatcher tick hands to the transmitter: the head of
/// the buffer if the transmitter is idle and work is pending, none
/// otherwise.
pub open spec fn tick_output(m: QueueModel) -> Option<Seq<PulsePair>> {
    if m.busy || m.pending.len() == 0 {
        None
    } else {
        Some(m.pending.first())
    }
}

/// Transmit queue: pending waveforms and the transmitter-busy flag.
pub struct Queue {
    /// Waveforms waiting to be transmitted, head first.
    pending: Vec<Vec<PulsePair>>,
    /// True iff a waveform is in flight.
    busy: bool,
}

impl Queue {
    /// The abstract state of this queue.
    pub closed spec fn model(self) -> QueueModel {
        QueueModel {
            pending: self.pending@.map_values(|w: Vec<PulsePair>| w@),
            busy: self.busy,
        }
    }

    /// Create a new queue: nothing pending, transmitter idle.
    pub fn new() -> (r: Queue)
        ensures
            r.model().pending == Seq::<Seq<PulsePair>>::empty(),
            !r.model().busy,
    {
        let q = Queue { pending: Vec::new(), busy: false };
        proof {
            assert(q.model().pending =~= Seq::<Seq<PulsePair>>::empty());
        }
        q
    }

    /// Enqueue a waveform for transmission. Always accepted, never
    /// blocking, whatever the state: the waveform joins the tail of the
    /// buffer and everything else stays as it was.
    pub fn send(&mut self, waveform: Vec<PulsePair>)
        ensures
            final(self).model() == send_step(old(self).model(), waveform@),
    {
        self.pending.push(waveform);
        proof {
            assert(self.model() =~= send_step(old(self).model(), waveform@));
        }
    }

    /// Record the hardware completion notification: the in-flight
    /// waveform is done and the transmitter is free again. The pending
    /// buffer is untouched.
    pub fn transmit_finish(&mut self)
        ensures
            final(self).model() == finish_step(old(self).model()),
    {
        self.busy = false;
        proof {
            assert(self.model() =~= finish_step(old(self).model()));
        }
    }

    /// Whether a waveform is in flight at the transmitter.
    pub fn is_busy(&self) -> (r: bool)
        ensures
            r == self.model().busy,
    {
        self.busy
    }

    /// How many waveforms are waiting in the pending buffer.
    pub fn pending_len(&self) -> (r: usize)
        ensures
            r == self.model().pending.len(),
    {
        self.pending.len()
    }

    /// One dispatcher tick. If the transmitter is busy, or nothing is
    /// pending, nothing changes and no waveform is started. Otherwise the
    /// head waveform leaves the buffer, the queue becomes busy, and the
    /// waveform is returned for the caller to hand to the transmitter —
    /// at most one start per idle observation.
    pub fn tick(&mut self) -> (r: Option<Vec<PulsePair>>)
        ensures
            final(self).model() == tick_state(old(self).model()),
            match r {
                Some(w) => tick_output(old(self).model()) == Some(w@),
                None => tick_output(old(self).model()) is None,
            },
    {
        if self.busy {
            return None;
        }
        if self.pending.len() == 0 {
            return None;
        }
        let head = self.pending.remove(0);
        self.busy = true;
        proof {
            assert(self.model().pending =~= old(self).model().pending.drop_first());
            assert(self.model() =~= tick_state(old(self).model()));
        }
        Some(head)
    }
}

/// Mutual exclusion of the single transmit slot. From an idle queue with
/// pending work, one dispatcher tick starts exactly the head waveform and
/// leaves the queue busy; while busy, further ticks change nothing and
/// start nothing; only after a completion event does a tick start the
/// next waveform.
pub proof fn lemma_tick_mutual_exclusion(m: QueueModel)
    requires
        !m.busy,
        m.pending.len() >= 2,
    ensures
        tick_output(m) == Some(m.pending[0]),
        tick_state(m).busy,
        tick_state(m).pending.len() == m.pending.len() - 1,
        tick_output(tick_state(m)) is None,
        tick_state(tick_state(m)) == tick_state(m),
        tick_output(finish_step(tick_state(m))) == Some(m.pending[1]),
{
    assert(m.pending.drop_first().first() == m.pending[1]);
}

/// Enqueues and completion events commute: the state ends the same
/// whichever order the producer's step and the hardware notification
/// interleave.
pub proof fn lemma_send_finish_commute(m: QueueModel, w: Seq<PulsePair>)
    ensures
        finish_step(send_step(m, w)) == send_step(finish_step(m), w),
{
}

/// An enqueue neither loses nor duplicates entries: every waveform
/// already pending keeps its position, the new one lands at the tail, and
/// nothing else appears.
pub proof fn lemma_send_preserves_entries(m: QueueModel, w: Seq<PulsePair>)
    ensures
        send_step(m, w).pending.len() == m.pending.len() + 1,
        forall|i: int| 0 <= i < m.pending.len() ==> send_step(m, w).pending[i] == m.pending[i],
        send_step(m, w).pending.last() == w,
        send_step(m, w).busy == m.busy,
{
}

/// A dispatcher tick and an enqueue commute whenever the transmitter is
/// busy or other work is already pending: under either interleaving the
/// same waveform is started and the same buffer remains. (Only on an idle,
/// empty queue does the order decide whether the fresh waveform starts on
/// this tick or on the next one.)
pub proof fn lemma_tick_send_commute(m: QueueModel, w: Seq<PulsePair>)
    requires
        m.busy || m.pending.len() > 0,
    ensures
        tick_state(send_step(m, w)) == send_step(tick_state(m), w),
        tick_output(send_step(m, w)) == tick_output(m),
{
    if !m.busy {
        assert(m.pending.push(w).first() == m.pending.first());
        assert(m.pending.push(w).drop_first() =~= m.pending.drop_first().push(w));
        assert(tick_state(send_step(m, w)) =~= send_step(tick_state(m), w));
    }
}

/// A completion event loses no pending waveform and invents none.
pub proof fn lemma_finish_preserves_entries(m: QueueModel)
    ensures
        finish_step(m).pending == m.pending,
        !finish_step(m).busy,
{
}

} // verus!
