use vstd::prelude::*;
use crate::bus::EventBus;
use crate::event::{Invocation, full_dispatch, run_slice};
use crate::priority::{Priority, BATCH_SIZE, run_count};

verus! {

// The dispatch queue as a transition system. Each transition below is the
// relational form of the corresponding `EventBus` method, so the inductive
// laws here cover every history the executable interface can produce.

/// A freshly created bus: nothing submitted, consumer idle, channel open.
pub open spec fn init(b: EventBus) -> bool {
    b.submitted == 0 && b.started == 0 && b.completed == 0 && !b.closed
}

/// A run is accepted into the free channel slot of an open bus.
pub open spec fn submit_step(pre: EventBus, post: EventBus) -> bool {
    &&& !pre.closed
    &&& pre.pending() == 0
    &&& pre.submitted < u64::MAX
    &&& post == (EventBus { submitted: (pre.submitted + 1) as u64, ..pre })
}

/// The idle consumer takes the pending run and starts executing it.
pub open spec fn begin_step(pre: EventBus, post: EventBus) -> bool {
    &&& pre.can_begin()
    &&& post == (EventBus { started: (pre.started + 1) as u64, ..pre })
}

/// The run in flight finishes and signals completion.
pub open spec fn finish_step(pre: EventBus, post: EventBus) -> bool {
    &&& pre.in_flight() == 1
    &&& post == (EventBus { completed: (pre.completed + 1) as u64, ..pre })
}

/// The last owning reference is dropped and the channel closes.
pub open spec fn close_step(pre: EventBus, post: EventBus) -> bool {
    post == (EventBus { closed: true, ..pre })
}

/// Any one step of the dispatch queue.
pub open spec fn step(pre: EventBus, post: EventBus) -> bool {
    submit_step(pre, post) || begin_step(pre, post) || finish_step(pre, post) || close_step(
        pre,
        post,
    )
}

/// A history of the dispatch queue: it starts at creation and every state
/// follows from its predecessor by one step.
pub open spec fn valid_trace(tr: Seq<EventBus>) -> bool {
    &&& tr.len() > 0
    &&& init(tr[0])
    &&& forall|i: int| 0 <= i < tr.len() - 1 ==> step(tr[i], #[trigger] tr[i + 1])
}

/// Each step preserves the bus invariant.
pub proof fn lemma_step_preserves_wf(pre: EventBus, post: EventBus)
    requires
        pre.wf(),
        step(pre, post),
    ensures
        post.wf(),
{
}

/// Every state a bus can reach satisfies the invariant.
pub proof fn lemma_trace_wf(tr: Seq<EventBus>, i: int)
    requires
        valid_trace(tr),
        0 <= i < tr.len(),
    ensures
        tr[i].wf(),
    decreases i,
{
    if i > 0 {
        lemma_trace_wf(tr, i - 1);
        assert(step(tr[i - 1], tr[(i - 1) + 1]));
        lemma_step_preserves_wf(tr[i - 1], tr[i]);
    }
}

/// Serialization: in every reachable state of a bus at most one run is
/// executing, however many events share it and however their submissions
/// interleave. Two runs therefore never overlap in time.
pub proof fn lemma_runs_never_overlap(tr: Seq<EventBus>, i: int)
    requires
        valid_trace(tr),
        0 <= i < tr.len(),
    ensures
        tr[i].in_flight() <= 1,
{
    lemma_trace_wf(tr, i);
}

/// FIFO completion ordering: when the run with ticket `t` begins
/// executing, every run submitted before it — from whichever event of the
/// bus, a `High` run or any batch of a `Low` emission — has already
/// completed.
pub proof fn lemma_earlier_runs_complete_first(b: EventBus, s: u64, t: u64)
    requires
        b.wf(),
        b.can_begin(),
        t == b.started,
        s < t,
    ensures
        b.is_completed(s),
{
}

/// Once a bus is closed it stays closed and accepts nothing more: every
/// later state is still closed and no further run was ever submitted.
pub proof fn lemma_closed_is_permanent(tr: Seq<EventBus>, i: int, j: int)
    requires
        valid_trace(tr),
        0 <= i <= j < tr.len(),
        tr[i].closed,
    ensures
        tr[j].closed,
        tr[j].submitted == tr[i].submitted,
    decreases j - i,
{
    if j > i {
        lemma_closed_is_permanent(tr, i, j - 1);
        assert(step(tr[j - 1], tr[(j - 1) + 1]));
    }
}

/// A closed and drained bus is final: no step changes it any more, so the
/// consumer, finding nothing to take, terminates.
pub proof fn lemma_closed_drained_is_final(b: EventBus, post: EventBus)
    requires
        b.wf(),
        b.closed,
        b.completed == b.submitted,
        step(b, post),
    ensures
        post == b,
{
}

// Laws of the fan-out planned by `Event::emit`. Its postcondition equates
// the concatenated runs with `full_dispatch`, so these laws hold of every
// emission.

/// Every run of a `Low` emission is a nonempty batch of at most
/// `BATCH_SIZE` subscribers, and all but the last batch are exactly full.
pub proof fn lemma_low_batches_bounded<T>(n: nat, data: T, k: int)
    requires
        0 <= k < run_count(n, Priority::Low),
    ensures
        0 < run_slice(n, Priority::Low, data, k).len() <= BATCH_SIZE,
        k + 1 < run_count(n, Priority::Low) ==> run_slice(n, Priority::Low, data, k).len()
            == BATCH_SIZE,
{
    let rc = run_count(n, Priority::Low) as int;
    assert(k * BATCH_SIZE < n && (k + 1 < rc ==> (k + 1) * BATCH_SIZE <= n))
        by (nonlinear_arith)
        requires
            0 <= k < rc,
            rc == ((n + BATCH_SIZE) - 1) / (BATCH_SIZE as int),
            BATCH_SIZE == 20,
    ;
}

/// How often subscriber `i` is invoked by a sequence of invocations.
pub open spec fn count_for<T>(s: Seq<Invocation<T>>, i: usize) -> nat
    decreases s.len(),
{
    if s.len() == 0 {
        0
    } else {
        count_for(s.drop_last(), i) + if s.last().subscriber == i {
            1nat
        } else {
            0nat
        }
    }
}

/// Every registered subscriber is invoked exactly once per emission, an
/// unregistered position never, and always with the emitted data itself.
pub proof fn lemma_each_subscriber_invoked_once<T>(n: nat, data: T, i: usize)
    requires
        n <= usize::MAX,
    ensures
        count_for(full_dispatch(n, data), i) == if (i as nat) < n {
            1nat
        } else {
            0nat
        },
        forall|j: int| 0 <= j < n ==> full_dispatch(n, data)[j].data == data,
    decreases n,
{
    if n > 0 {
        lemma_each_subscriber_invoked_once((n - 1) as nat, data, i);
        assert(full_dispatch(n, data).drop_last() =~= full_dispatch((n - 1) as nat, data));
        assert(full_dispatch(n, data).last().subscriber == ((n - 1) as usize));
    }
}

/// How often subscriber `i` is invoked over a whole sequence of emissions.
pub open spec fn total_count<T>(emissions: Seq<Seq<Invocation<T>>>, i: usize) -> nat
    decreases emissions.len(),
{
    if emissions.len() == 0 {
        0
    } else {
        total_count(emissions.drop_last(), i) + count_for(emissions.last(), i)
    }
}

/// Emitting any number of times over a fixed subscriber list invokes each
/// subscriber exactly once per emission, each time with that emission's own
/// data: `M` emissions mean exactly `M` invocations of every subscriber.
pub proof fn lemma_each_emit_invokes_each_subscriber_once<T>(
    n: nat,
    datas: Seq<T>,
    emissions: Seq<Seq<Invocation<T>>>,
    i: usize,
)
    requires
        n <= usize::MAX,
        (i as nat) < n,
        emissions.len() == datas.len(),
        forall|m: int|
            0 <= m < emissions.len() ==> emissions[m] == full_dispatch(n, #[trigger] datas[m]),
    ensures
        total_count(emissions, i) == emissions.len(),
    decreases emissions.len(),
{
    if emissions.len() > 0 {
        lemma_each_emit_invokes_each_subscriber_once(
            n,
            datas.drop_last(),
            emissions.drop_last(),
            i,
        );
        lemma_each_subscriber_invoked_once(n, datas.last(), i);
        assert(emissions.last() == full_dispatch(n, datas[emissions.len() - 1]));
    }
}

} // verus!
