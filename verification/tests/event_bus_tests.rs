use event_bus::bus::{BusClosed, EventBus};
use event_bus::event::{Event, Invocation, Run};
use event_bus::priority::{Priority, BATCH_SIZE};

fn flatten<T: Copy>(runs: &[Run<T>]) -> Vec<Invocation<T>> {
    let mut all: Vec<Invocation<T>> = Vec::new();
    for run in runs {
        for inv in &run.invocations {
            all.push(Invocation { subscriber: inv.subscriber, data: inv.data });
        }
    }
    all
}

fn event_with_subscribers<T: Copy>(priority: Priority, count: usize) -> Event<T> {
    let bus = EventBus::new();
    let mut ev = bus.create_event::<T>(priority);
    for expected in 0..count {
        let idx = ev.subscribe();
        assert_eq!(idx, expected);
    }
    ev
}

#[test]
fn create_event_starts_empty() {
    let bus = EventBus::new();
    let ev = bus.create_event::<u32>(Priority::High);
    assert_eq!(ev.priority, Priority::High);
    assert_eq!(ev.subscriber_count, 0);
    let ev = bus.create_event::<u32>(Priority::Low);
    assert_eq!(ev.priority, Priority::Low);
    assert_eq!(ev.subscriber_count, 0);
}

#[test]
fn subscribe_appends_in_order() {
    let mut ev = event_with_subscribers::<u8>(Priority::High, 0);
    assert_eq!(ev.subscribe(), 0);
    assert_eq!(ev.subscribe(), 1);
    assert_eq!(ev.subscribe(), 2);
    assert_eq!(ev.subscriber_count, 3);
    assert_eq!(ev.priority, Priority::High);
}

#[test]
fn high_priority_emits_one_run_with_all_subscribers() {
    let ev = event_with_subscribers::<u64>(Priority::High, 45);
    let runs = ev.emit(9);
    assert_eq!(runs.len(), 1);
    assert_eq!(runs[0].invocations.len(), 45);
    for (j, inv) in runs[0].invocations.iter().enumerate() {
        assert_eq!(inv.subscriber, j);
        assert_eq!(inv.data, 9);
    }
}

#[test]
fn low_priority_batches_forty_five_subscribers_into_three_runs() {
    let ev = event_with_subscribers::<u64>(Priority::Low, 45);
    let runs = ev.emit(3);
    assert_eq!(runs.len(), 3);
    assert_eq!(runs[0].invocations.len(), BATCH_SIZE);
    assert_eq!(runs[1].invocations.len(), BATCH_SIZE);
    assert_eq!(runs[2].invocations.len(), 5);
    assert_eq!(runs[0].invocations[0].subscriber, 0);
    assert_eq!(runs[1].invocations[0].subscriber, 20);
    assert_eq!(runs[2].invocations[0].subscriber, 40);
    assert_eq!(runs[2].invocations[4].subscriber, 44);
}

#[test]
fn low_priority_batch_count_is_exact_at_the_boundaries() {
    assert_eq!(event_with_subscribers::<u8>(Priority::Low, 1).emit(0).len(), 1);
    assert_eq!(event_with_subscribers::<u8>(Priority::Low, 19).emit(0).len(), 1);
    assert_eq!(event_with_subscribers::<u8>(Priority::Low, 20).emit(0).len(), 1);
    assert_eq!(event_with_subscribers::<u8>(Priority::Low, 21).emit(0).len(), 2);
    assert_eq!(event_with_subscribers::<u8>(Priority::Low, 40).emit(0).len(), 2);
    assert_eq!(event_with_subscribers::<u8>(Priority::Low, 100).emit(0).len(), 5);
}

#[test]
fn emit_with_no_subscribers() {
    // High still submits its single (empty) run; Low has no batch to start.
    let high = event_with_subscribers::<u8>(Priority::High, 0);
    let runs = high.emit(1);
    assert_eq!(runs.len(), 1);
    assert!(runs[0].invocations.is_empty());
    let low = event_with_subscribers::<u8>(Priority::Low, 0);
    assert!(low.emit(1).is_empty());
}

#[test]
fn every_subscriber_invoked_exactly_once_with_the_emitted_data() {
    for priority in [Priority::High, Priority::Low] {
        let ev = event_with_subscribers::<i32>(priority, 33);
        let runs = ev.emit(-7);
        let all = flatten(&runs);
        assert_eq!(all.len(), 33);
        let mut counts = [0usize; 33];
        for inv in &all {
            counts[inv.subscriber] += 1;
            assert_eq!(inv.data, -7);
        }
        assert!(counts.iter().all(|&c| c == 1));
    }
}

#[test]
fn repeated_emits_invoke_each_subscriber_once_per_emit() {
    let ev = event_with_subscribers::<u32>(Priority::Low, 7);
    let emissions = [10u32, 20, 30];
    let mut counts = [0usize; 7];
    for &data in &emissions {
        let all = flatten(&ev.emit(data));
        for inv in &all {
            counts[inv.subscriber] += 1;
            assert_eq!(inv.data, data);
        }
    }
    assert!(counts.iter().all(|&c| c == emissions.len()));
}

#[test]
fn bus_serves_runs_one_at_a_time_in_fifo_order() {
    let mut bus = EventBus::new();
    // A High emission's run, then the first batch of a Low emission.
    let a = bus.submit().unwrap();
    assert_eq!(a, 0);
    let started = bus.begin_run();
    assert_eq!(started, a);
    let b = bus.submit().unwrap();
    assert_eq!(b, 1);
    // The consumer must finish run 0 before it may take run 1.
    let finished = bus.finish_run();
    assert_eq!(finished, a);
    let started = bus.begin_run();
    assert_eq!(started, b);
    assert_eq!(bus.finish_run(), b);
}

#[test]
fn low_batches_occupy_one_serialization_slot_each() {
    let mut bus = EventBus::new();
    let ev = event_with_subscribers::<u8>(Priority::Low, 45);
    let runs = ev.emit(5);
    let mut tickets: Vec<u64> = Vec::new();
    for _run in &runs {
        let t = bus.submit().unwrap();
        assert_eq!(bus.begin_run(), t);
        assert_eq!(bus.finish_run(), t);
        tickets.push(t);
    }
    assert_eq!(tickets, vec![0, 1, 2]);
}

#[test]
fn closed_bus_refuses_submissions() {
    let mut bus = EventBus::new();
    assert_eq!(bus.submit(), Ok(0));
    assert_eq!(bus.begin_run(), 0);
    assert_eq!(bus.finish_run(), 0);
    bus.close();
    assert_eq!(bus.submit(), Err(BusClosed));
    assert_eq!(bus.submit(), Err(BusClosed));
}
