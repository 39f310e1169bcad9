use vstd::prelude::*;
use crate::event::Event;
use crate::priority::Priority;
use core::marker::PhantomData;

verus! {

/// A submission was refused because the bus's consumer has shut down: the
/// submission channel is closed and no further run can ever be delivered.
#[derive(Clone, Copy, PartialEq, Eq, Structural, Debug)]
pub struct BusClosed;

/// The dispatch queue of one bus: a single consumer that executes submitted
/// runs strictly one at a time, in submission order.
///
/// Runs are identified by the ticket handed out at submission: ticket `t`
/// is the `t`-th run ever accepted. The state counts how far each stage of
/// the pipeline has advanced, so
/// `completed <= started <= submitted` always holds:
/// - `submitted` runs were accepted into the single-slot channel,
/// - `started` of those have begun executing,
/// - `completed` of those have finished and signalled their submitter.
///
/// The asynchronous consumer task and the channel it reads live with the
/// executor outside this crate; each of its suspension points maps to one
/// transition here, and the guards of the transitions (`requires`) are the
/// conditions under which the executor lets that step happen.
pub struct EventBus {
    pub submitted: u64,
    pub started: u64,
    pub completed: u64,
    pub closed: bool,
}

impl EventBus {
    /// Every reachable state of the dispatch queue satisfies this: the
    /// pipeline stages are ordered, at most one run is in flight
    /// (serialization), and at most one accepted run awaits execution
    /// (the single-slot channel).
    pub open spec fn wf(self) -> bool {
        &&& self.completed <= self.started
        &&& self.started <= self.submitted
        &&& self.started - self.completed <= 1
        &&& self.submitted - self.started <= 1
    }

    /// How many runs are executing right now.
    pub open spec fn in_flight(self) -> int {
        self.started - self.completed
    }

    /// How many accepted runs wait in the channel, not yet executing.
    pub open spec fn pending(self) -> int {
        self.submitted - self.started
    }

    /// The consumer may take a run: it is idle and one is pending.
    pub open spec fn can_begin(self) -> bool {
        self.started == self.completed && self.started < self.submitted
    }

    /// Whether the run with ticket `t` has finished executing.
    pub open spec fn is_completed(self, t: u64) -> bool {
        t < self.completed
    }

    /// Creates a bus with an empty dispatch queue and a running consumer.
    pub fn new() -> (bus: EventBus)
        ensures
            bus.wf(),
            bus.submitted == 0,
            bus.started == 0,
            bus.completed == 0,
            !bus.closed,
    {
        EventBus { submitted: 0, started: 0, completed: 0, closed: false }
    }

    /// Derives a typed event that dispatches through this bus with the
    /// given priority and no subscribers yet.
    pub fn create_event<T: Copy>(&self, priority: Priority) -> (event: Event<T>)
        ensures
            event.priority == priority,
            event.subscriber_count == 0,
    {
        Event { priority, subscriber_count: 0, marker: PhantomData }
    }

    /// One submission attempt reaching the channel. On an open bus the run
    /// is accepted and its ticket — its position in the global FIFO order —
    /// is returned; once the bus is closed every attempt fails with
    /// [`BusClosed`] and changes nothing. The guard that a channel slot is
    /// free models the submitter suspending until its run can be accepted.
    pub fn submit(&mut self) -> (r: Result<u64, BusClosed>)
        requires
            old(self).wf(),
            old(self).pending() == 0,
            old(self).submitted < u64::MAX,
        ensures
            final(self).wf(),
            old(self).closed ==> r == Result::<u64, BusClosed>::Err(BusClosed)
                && *final(self) == *old(self),
            !old(self).closed ==> r == Result::<u64, BusClosed>::Ok(old(self).submitted)
                && *final(self) == (EventBus {
                    submitted: (old(self).submitted + 1) as u64,
                    ..*old(self)
                }),
    {
        if self.closed {
            Err(BusClosed)
        } else {
            let ticket: u64 = self.submitted;
            self.submitted = self.submitted + 1;
            Ok(ticket)
        }
    }

    /// The consumer takes the next run off the channel and starts executing
    /// it. The returned ticket is the oldest not yet executed, and every
    /// earlier run has already completed: runs begin in FIFO order and
    /// never overlap.
    pub fn begin_run(&mut self) -> (t: u64)
        requires
            old(self).wf(),
            old(self).can_begin(),
        ensures
            final(self).wf(),
            t == old(self).started,
            t == old(self).completed,
            forall|s: u64| s < t ==> final(self).is_completed(s),
            *final(self) == (EventBus { started: (old(self).started + 1) as u64, ..*old(self) }),
    {
        let t: u64 = self.started;
        self.started = self.started + 1;
        t
    }

    /// The run in flight finishes and its completion is signalled; the
    /// returned ticket says which run that was. Whether the submitter still
    /// listens does not matter here: the work is done either way.
    pub fn finish_run(&mut self) -> (t: u64)
        requires
            old(self).wf(),
            old(self).in_flight() == 1,
        ensures
            final(self).wf(),
            t == old(self).completed,
            final(self).is_completed(t),
            *final(self) == (EventBus { completed: (old(self).completed + 1) as u64, ..*old(self) }),
    {
        let t: u64 = self.completed;
        self.completed = self.completed + 1;
        t
    }

    /// The last owning reference is dropped: the submission channel closes.
    /// Closing is permanent; no later transition reopens the bus, so every
    /// later submission attempt fails and the consumer terminates once the
    /// already-accepted runs are drained.
    pub fn close(&mut self)
        requires
            old(self).wf(),
        ensures
            final(self).wf(),
            *final(self) == (EventBus { closed: true, ..*old(self) }),
    {
        self.closed = true;
    }
}

} // verus!
