use vstd::prelude::*;
use core::marker::PhantomData;
use crate::priority::{Priority, BATCH_SIZE, run_count};

verus! {

/// One scheduled callback call: the subscriber registered at position
/// `subscriber` receives its own copy of `data`.
pub struct Invocation<T> {
    pub subscriber: usize,
    pub data: T,
}

/// One unit of work for the bus's dispatch queue. All invocations of a run
/// are started together and the run completes only once every one of them
/// has finished.
pub struct Run<T> {
    pub invocations: Vec<Invocation<T>>,
}

/// A typed notification channel: an ordered, append-only list of
/// subscribers together with the fan-out policy used by `emit`.
///
/// Subscribers have no identity beyond their registration order, so the
/// list is modelled by its length: subscriber `i` is the `i`-th callback
/// registered. The callbacks themselves, and the shared bus handle they are
/// dispatched through, live with the asynchronous executor outside this
/// crate.
pub struct Event<T> {
    pub priority: Priority,
    pub subscriber_count: usize,
    pub marker: PhantomData<T>,
}

/// The complete fan-out of one emission over `n` subscribers: subscriber
/// `i` is invoked exactly once, with the emitted data, in registration
/// order.
pub open spec fn full_dispatch<T>(n: nat, data: T) -> Seq<Invocation<T>> {
    Seq::new(n, |i: int| Invocation { subscriber: i as usize, data })
}

/// The invocations of the `k`-th run of an emission over `n` subscribers:
/// the whole dispatch for `High`, the `k`-th batch of at most `BATCH_SIZE`
/// for `Low`.
pub open spec fn run_slice<T>(n: nat, p: Priority, data: T, k: int) -> Seq<Invocation<T>> {
    match p {
        Priority::High => full_dispatch(n, data),
        Priority::Low => full_dispatch(n, data).subrange(
            k * BATCH_SIZE,
            if n < (k + 1) * BATCH_SIZE { n as int } else { (k + 1) * BATCH_SIZE },
        ),
    }
}

/// All invocations of a sequence of runs, in dispatch order.
pub open spec fn flatten_runs<T>(runs: Seq<Run<T>>) -> Seq<Invocation<T>>
    decreases runs.len(),
{
    if runs.len() == 0 {
        Seq::empty()
    } else {
        flatten_runs(runs.drop_last()) + runs.last().invocations@
    }
}

impl<T: Copy> Event<T> {
    /// Appends one subscriber to the list and returns its position.
    /// Duplicate callbacks are allowed; nothing is ever removed.
    pub fn subscribe(&mut self) -> (idx: usize)
        requires
            old(self).subscriber_count < usize::MAX,
        ensures
            final(self).subscriber_count == old(self).subscriber_count + 1,
            final(self).priority == old(self).priority,
            idx == old(self).subscriber_count,
    {
        let idx: usize = self.subscriber_count;
        self.subscriber_count = self.subscriber_count + 1;
        idx
    }

    /// Plans one emission: decides, from the priority and the subscriber
    /// list fixed at this call, exactly which subscriber is invoked in which
    /// run. The runs are submitted to the bus in order, one serialization
    /// slot each; `High` always yields a single run, `Low` one run per batch
    /// of at most `BATCH_SIZE` subscribers.
    pub fn emit(&self, data: T) -> (runs: Vec<Run<T>>)
        ensures
            runs@.len() == run_count(self.subscriber_count as nat, self.priority),
            forall|k: int|
                0 <= k < runs@.len() ==> (#[trigger] runs@[k]).invocations@ == run_slice(
                    self.subscriber_count as nat,
                    self.priority,
                    data,
                    k,
                ),
            flatten_runs(runs@) == full_dispatch(self.subscriber_count as nat, data),
    {
        let n: usize = self.subscriber_count;
        match self.priority {
            Priority::High => {
                let invocations = build_invocations(0, n, data);
                let mut runs: Vec<Run<T>> = Vec::new();
                runs.push(Run { invocations });
                proof {
                    assert(runs@[0].invocations@ == run_slice(n as nat, Priority::High, data, 0));
                    assert(runs@.drop_last() =~= Seq::<Run<T>>::empty());
                    assert(flatten_runs(runs@.drop_last()) =~= Seq::<Invocation<T>>::empty());
                    assert(runs@.last().invocations@ =~= full_dispatch(n as nat, data));
                    assert(flatten_runs(runs@) =~= full_dispatch(n as nat, data));
                }
                runs
            }
            Priority::Low => {
                let mut runs: Vec<Run<T>> = Vec::new();
                let mut start: usize = 0;
                while start < n
                    invariant
                        start <= n,
                        n == self.subscriber_count,
                        runs@.len() * BATCH_SIZE >= start,
                        (runs@.len() * BATCH_SIZE) - start < BATCH_SIZE,
                        start < n ==> start == runs@.len() * BATCH_SIZE,
                        forall|k: int|
                            0 <= k < runs@.len() ==> runs@[k].invocations@ == run_slice(
                                n as nat,
                                Priority::Low,
                                data,
                                k,
                            ),
                        flatten_runs(runs@) == full_dispatch(n as nat, data).subrange(
                            0,
                            start as int,
                        ),
                    decreases n - start,
                {
                    let end: usize = if n - start < BATCH_SIZE {
                        n
                    } else {
                        start + BATCH_SIZE
                    };
                    let invocations = build_invocations(start, end, data);
                    let ghost old_runs = runs@;
                    runs.push(Run { invocations });
                    proof {
                        let k = old_runs.len() as int;
                        assert(runs@[k].invocations@ =~= run_slice(
                            n as nat,
                            Priority::Low,
                            data,
                            k,
                        ));
                        assert(runs@.drop_last() =~= old_runs);
                        assert(flatten_runs(runs@) =~= full_dispatch(n as nat, data).subrange(
                            0,
                            end as int,
                        ));
                    }
                    start = end;
                }
                proof {
                    lemma_low_run_count_exact(n as nat, runs@.len() as nat);
                    assert(full_dispatch(n as nat, data).subrange(0, n as int) =~= full_dispatch(
                        n as nat,
                        data,
                    ));
                }
                runs
            }
        }
    }
}

/// Builds the invocations of one run: subscribers `start .. end`, each with
/// its own copy of `data`, in registration order.
fn build_invocations<T: Copy>(start: usize, end: usize, data: T) -> (invocations: Vec<
    Invocation<T>,
>)
    requires
        start <= end,
    ensures
        invocations@ == full_dispatch(end as nat, data).subrange(start as int, end as int),
{
    let mut invocations: Vec<Invocation<T>> = Vec::new();
    let mut i: usize = start;
    while i < end
        invariant
            start <= i <= end,
            invocations@.len() == i - start,
            forall|j: int|
                0 <= j < invocations@.len() ==> invocations@[j] == (Invocation {
                    subscriber: (start + j) as usize,
                    data,
                }),
        decreases end - i,
    {
        invocations.push(Invocation { subscriber: i, data });
        i = i + 1;
    }
    proof {
        assert(invocations@ =~= full_dispatch(end as nat, data).subrange(
            start as int,
            end as int,
        ));
    }
    invocations
}

/// A `Low`-priority emission over `n` subscribers that covered all of them
/// with full batches, the last possibly partial, used exactly
/// `run_count(n, Low)` runs.
proof fn lemma_low_run_count_exact(n: nat, runs: nat)
    requires
        runs * BATCH_SIZE >= n,
        (runs * BATCH_SIZE) - n < BATCH_SIZE,
    ensures
        runs == run_count(n, Priority::Low),
{
    assert(runs == (((n + BATCH_SIZE) - 1) / (BATCH_SIZE as int))) by (nonlinear_arith)
        requires
            runs * BATCH_SIZE >= n,
            (runs * BATCH_SIZE) - n < BATCH_SIZE,
            BATCH_SIZE == 20,
    ;
}

} // verus!
