//! Command dispatcher: a bounded queue of serialized outbound requests and
//! the race between outbound traffic and shutdown.  The queue's hard capacity
//! is the sole backpressure mechanism; the shutdown path wins the race once,
//! emits the cooperative shutdown line, and only then forces termination —
//! never a second time.

use vstd::prelude::*;
use crate::codec;

verus! {

/// Capacity of the outbound queue.
pub const OUTBOUND_QUEUE_CAPACITY: usize = 100;

/// Grace window, in milliseconds, between the cooperative shutdown line and
/// the forced kill.
pub const SHUTDOWN_GRACE_MS: u64 = 500;

/// One queued outbound request: the framed wire line, tagged with its
/// correlation id so that a failed write can be attributed to the caller
/// that issued it.
#[derive(Debug)]
pub struct OutboundLine {
    pub id: String,
    pub line: String,
}

/// A first-in-first-out queue of outbound lines with a hard capacity bound.
pub struct BoundedQueue {
    items: Vec<OutboundLine>,
    capacity: usize,
}

impl View for BoundedQueue {
    type V = Seq<OutboundLine>;

    closed spec fn view(&self) -> Seq<OutboundLine> {
        self.items@
    }
}

impl BoundedQueue {
    /// The capacity the queue was created with.
    pub closed spec fn cap(self) -> nat {
        self.capacity as nat
    }

    /// The queue never holds more than its capacity.
    pub open spec fn wf(self) -> bool {
        self@.len() <= self.cap()
    }

    pub fn new(capacity: usize) -> (r: Self)
        ensures
            r@.len() == 0,
            r.cap() == capacity,
            r.wf(),
    {
        BoundedQueue { items: Vec::new(), capacity }
    }

    pub fn len(&self) -> (r: usize)
        ensures
            r == self@.len(),
    {
        self.items.len()
    }

    /// Appends an item when there is room; hands the item back untouched
    /// when the queue is full, so the producer can suspend and retry.
    pub fn try_push(&mut self, item: OutboundLine) -> (r: Result<(), OutboundLine>)
        requires
            old(self).wf(),
        ensures
            final(self).wf(),
            final(self).cap() == old(self).cap(),
            old(self)@.len() < old(self).cap() ==> r is Ok && final(self)@ == old(self)@.push(item),
            old(self)@.len() >= old(self).cap() ==> (r matches Err(l) && l == item) && final(self)@ == old(self)@,
    {
        if self.items.len() < self.capacity {
            self.items.push(item);
            Ok(())
        } else {
            Err(item)
        }
    }

    /// Removes and returns the oldest item, if any.
    pub fn pop_front(&mut self) -> (r: Option<OutboundLine>)
        ensures
            final(self).cap() == old(self).cap(),
            old(self).wf() ==> final(self).wf(),
            old(self)@.len() == 0 ==> r is None && final(self)@ == old(self)@,
            old(self)@.len() > 0 ==> (r matches Some(s) && s == old(self)@[0]) && final(self)@ == old(self)@.drop_first(),
    {
        if self.items.len() > 0 {
            let ghost pre = self@;
            let s = self.items.remove(0);
            proof {
                assert(self@ =~= pre.drop_first());
            }
            Some(s)
        } else {
            None
        }
    }
}

/// Where the dispatcher stands in its lifecycle.
#[derive(Clone, Copy, PartialEq, Eq, Structural, Debug)]
pub enum DispatchPhase {
    /// Serving outbound traffic.
    Running,
    /// The shutdown sequence has been emitted; the worker is gone or going.
    Stopped,
}

/// What the runtime loop must do next.
pub enum DispatchAction {
    /// Write this request line to the worker's input.
    Write(OutboundLine),
    /// Write this cooperative shutdown line, allow the grace window, then
    /// force-terminate the worker.
    ShutdownSequence(String),
    /// Nothing to do.
    Idle,
}

/// The dispatcher's phase after it sees (or does not see) a shutdown signal.
pub open spec fn next_phase(phase: DispatchPhase, shutdown_signal: bool) -> DispatchPhase {
    if shutdown_signal {
        DispatchPhase::Stopped
    } else {
        phase
    }
}

/// Whether one step of the dispatcher force-terminates the worker.
pub open spec fn step_kills(phase: DispatchPhase, shutdown_signal: bool) -> bool {
    shutdown_signal && phase is Running
}

/// The outbound queue together with the dispatcher's phase.
pub struct Dispatcher {
    pub queue: BoundedQueue,
    pub phase: DispatchPhase,
}

impl Dispatcher {
    pub open spec fn wf(self) -> bool {
        self.queue.wf()
    }

    pub fn new() -> (r: Self)
        ensures
            r.wf(),
            r.phase == DispatchPhase::Running,
            r.queue@.len() == 0,
            r.queue.cap() == OUTBOUND_QUEUE_CAPACITY as nat,
    {
        Dispatcher { queue: BoundedQueue::new(OUTBOUND_QUEUE_CAPACITY), phase: DispatchPhase::Running }
    }

    /// Accepts an outbound item unless shutdown has already won the race:
    /// after shutdown, producers fail fast instead of queueing.
    pub fn enqueue(&mut self, item: OutboundLine) -> (r: Result<(), OutboundLine>)
        requires
            old(self).wf(),
        ensures
            final(self).wf(),
            final(self).phase == old(self).phase,
            final(self).queue.cap() == old(self).queue.cap(),
            old(self).phase is Stopped ==> (r matches Err(l) && l == item) && final(self).queue@
                == old(self).queue@,
            old(self).phase is Running && old(self).queue@.len() < old(self).queue.cap() ==> r
                is Ok && final(self).queue@ == old(self).queue@.push(item),
            old(self).phase is Running && old(self).queue@.len() >= old(self).queue.cap() ==> (
            r matches Err(l) && l == item) && final(self).queue@ == old(self).queue@,
    {
        match self.phase {
            DispatchPhase::Stopped => Err(item),
            DispatchPhase::Running => self.queue.try_push(item),
        }
    }

    /// One step of the two-armed race: a pending shutdown signal always wins
    /// over queued traffic, and wins exactly once.
    pub fn next_action(&mut self, shutdown_signal: bool) -> (r: DispatchAction)
        requires
            old(self).wf(),
        ensures
            final(self).wf(),
            final(self).queue.cap() == old(self).queue.cap(),
            final(self).phase == next_phase(old(self).phase, shutdown_signal),
            (r is ShutdownSequence) == step_kills(old(self).phase, shutdown_signal),
            r matches DispatchAction::ShutdownSequence(l) ==> l@ == codec::framed(
                "shutdown"@,
                "shutdown"@,
                "{}"@,
            ) && codec::line_safe(l@),
            old(self).phase is Stopped ==> r is Idle && final(self).queue@ == old(self).queue@,
            !shutdown_signal && old(self).phase is Running && old(self).queue@.len() > 0 ==> (
            r matches DispatchAction::Write(s) && s == old(self).queue@[0]) && final(self).queue@
                == old(self).queue@.drop_first(),
            !shutdown_signal && old(self).phase is Running && old(self).queue@.len() == 0 ==> r
                is Idle && final(self).queue@ == old(self).queue@,
            shutdown_signal ==> final(self).queue@ == old(self).queue@,
    {
        match self.phase {
            DispatchPhase::Stopped => DispatchAction::Idle,
            DispatchPhase::Running => {
                if shutdown_signal {
                    self.phase = DispatchPhase::Stopped;
                    DispatchAction::ShutdownSequence(codec::shutdown_request_line())
                } else {
                    match self.queue.pop_front() {
                        Some(item) => DispatchAction::Write(item),
                        None => DispatchAction::Idle,
                    }
                }
            },
        }
    }
}

/// Shutdown is idempotent: whatever phase the dispatcher is in when a
/// shutdown signal arrives, it ends up stopped, and a stopped dispatcher
/// never force-terminates the worker again — a second shutdown request is a
/// no-op rather than a second kill.
pub proof fn lemma_shutdown_idempotent(phase: DispatchPhase)
    ensures
        next_phase(phase, true) is Stopped,
        !step_kills(next_phase(phase, true), true),
        forall|signal: bool| !step_kills(DispatchPhase::Stopped, signal),
{
}

} // verus!
