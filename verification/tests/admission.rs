use std::time::Duration;

use pd_router::admission::{
    AcquireStep, PrefillAdmission, PrefillAdmissionError, PrefillQueueGuard, PrefillRoomPermit,
    RoomGauges, TryRooms, WaitOutcome,
};
use pd_router::config::PrefillAdmissionConfig;
use pd_router::router::PDRouter;

const WORKER: &str = "http://prefill:30000";

fn limited(rooms: usize, queue: usize, timeout: Duration) -> PrefillAdmission {
    PrefillAdmission::new(Some(PrefillAdmissionConfig {
        max_rooms_per_worker: rooms,
        queue_size_per_worker: queue,
        queue_timeout: timeout,
    }))
}

fn admitted(step: AcquireStep) -> PrefillRoomPermit {
    match step {
        AcquireStep::Admitted(permit) => permit,
        other => panic!("not admitted: {other:?}"),
    }
}

fn queued(step: AcquireStep) -> PrefillQueueGuard {
    match step {
        AcquireStep::Queued(guard) => guard,
        other => panic!("not queued: {other:?}"),
    }
}

fn rejected(step: AcquireStep) -> PrefillAdmissionError {
    match step {
        AcquireStep::Rejected(error) => error,
        other => panic!("not rejected: {other:?}"),
    }
}

fn wait(guard: &PrefillQueueGuard) -> WaitOutcome {
    let runtime = tokio::runtime::Builder::new_current_thread()
        .enable_time()
        .build()
        .unwrap();
    let semaphore = guard.semaphore.clone();
    let rooms = guard.rooms;
    let timeout = guard.timeout;
    match runtime
        .block_on(async { tokio::time::timeout(timeout, semaphore.acquire_many_owned(rooms)).await })
    {
        Ok(Ok(permit)) => WaitOutcome::Permit(permit),
        Ok(Err(_)) => WaitOutcome::Closed,
        Err(_) => WaitOutcome::TimedOut,
    }
}

#[test]
fn test_prefill_admission_queues_before_dispatch_and_releases_rooms() {
    let mut admission = limited(2, 1, Duration::from_secs(1));
    let worker = "http://prefill:30000";
    let first = admitted(admission.acquire(worker, 2));
    assert_eq!(admission.counters(worker), Some((2, 0)));

    let waiter = queued(admission.acquire("http://prefill:30000", 1));
    assert_eq!(
        admission.counters(worker),
        Some((2, 1)),
        "request should enter the Router-side queue"
    );

    assert!(matches!(
        rejected(admission.acquire(worker, 1)),
        PrefillAdmissionError::QueueFull { .. }
    ));

    admission.release(first);
    let outcome = wait(&waiter);
    let second = admission
        .finish_wait(waiter, outcome)
        .expect("queued request should receive the released room");
    assert_eq!(admission.counters(worker), Some((1, 0)));
    admission.release(second);
    assert_eq!(admission.counters(worker), Some((0, 0)));
}

#[test]
fn test_prefill_admission_rejects_oversized_and_times_out() {
    let mut admission = limited(1, 1, Duration::from_millis(10));
    let worker = "http://prefill:30000";

    assert!(matches!(
        rejected(admission.acquire(worker, 2)),
        PrefillAdmissionError::RequestTooLarge { .. }
    ));
    let first = admitted(admission.acquire(worker, 1));
    let guard = queued(admission.acquire(worker, 1));
    let outcome = wait(&guard);
    assert!(matches!(
        admission.finish_wait(guard, outcome),
        Err(PrefillAdmissionError::Timeout { .. })
    ));
    admission.release(first);
    assert_eq!(admission.counters(worker), Some((0, 0)));
}

#[test]
fn without_settings_rooms_are_not_limited() {
    let mut admission = PrefillAdmission::new(None);
    assert!(matches!(
        admission.acquire(WORKER, usize::MAX),
        AcquireStep::Unlimited
    ));
    assert_eq!(admission.counters(WORKER), None);
    assert!(admission.config().is_none());
}

#[test]
fn asking_for_no_room_takes_one() {
    let mut admission = limited(2, 0, Duration::from_secs(1));
    let permit = admitted(admission.acquire(WORKER, 0));
    assert_eq!(permit.rooms, 1);
    assert_eq!(permit.worker, WORKER);
    assert_eq!(permit.permit.num_permits(), 1);
    assert_eq!(admission.counters(WORKER), Some((1, 0)));
}

#[test]
fn workers_have_rooms_of_their_own() {
    let mut admission = limited(1, 0, Duration::from_secs(1));
    let first = admitted(admission.acquire("http://a", 1));
    let second = admitted(admission.acquire("http://b", 1));
    assert!(matches!(
        rejected(admission.acquire("http://a", 1)),
        PrefillAdmissionError::QueueFull { queue_limit: 0, .. }
    ));
    admission.release(first);
    assert_eq!(admission.counters("http://a"), Some((0, 0)));
    assert_eq!(admission.counters("http://b"), Some((1, 0)));
    assert_eq!(admission.counters("http://c"), None);
    admission.release(second);
}

#[test]
fn a_worker_is_known_once_it_was_asked_for_too_much() {
    let mut admission = limited(1, 0, Duration::from_secs(1));
    assert_eq!(admission.counters(WORKER), None);
    match rejected(admission.acquire(WORKER, 5)) {
        PrefillAdmissionError::RequestTooLarge {
            worker,
            requested_rooms,
            room_limit,
        } => {
            assert_eq!(worker, WORKER);
            assert_eq!(requested_rooms, 5);
            assert_eq!(room_limit, 1);
        }
        other => panic!("{other:?}"),
    }
    assert_eq!(admission.counters(WORKER), Some((0, 0)));
}

#[test]
fn a_try_is_settled_by_what_it_gave() {
    let mut admission = limited(4, 1, Duration::from_secs(3));
    let permit = admitted(admission.acquire(WORKER, 1));
    let guard = queued(admission.settle(WORKER, 2, TryRooms::NoPermits));
    assert_eq!(guard.worker, WORKER);
    assert_eq!(guard.rooms, 2);
    assert_eq!(guard.timeout, Duration::from_secs(3));
    assert_eq!(guard.semaphore.available_permits(), 3);
    assert_eq!(admission.counters(WORKER), Some((1, 1)));
    assert!(matches!(
        rejected(admission.settle(WORKER, 1, TryRooms::NoPermits)),
        PrefillAdmissionError::QueueFull { queue_limit: 1, .. }
    ));
    assert!(matches!(
        rejected(admission.settle(WORKER, 1, TryRooms::Closed)),
        PrefillAdmissionError::Closed { .. }
    ));
    assert_eq!(admission.counters(WORKER), Some((1, 1)));
    admission.leave_queue(guard);
    assert_eq!(admission.counters(WORKER), Some((1, 0)));
    admission.release(permit);
}

#[test]
fn a_closed_semaphore_closes_admission() {
    let mut admission = limited(1, 1, Duration::from_secs(1));
    let held = admitted(admission.acquire(WORKER, 1));
    let guard = queued(admission.acquire(WORKER, 1));
    guard.semaphore.close();
    let outcome = wait(&guard);
    assert!(matches!(
        admission.finish_wait(guard, outcome),
        Err(PrefillAdmissionError::Closed { .. })
    ));
    assert_eq!(admission.counters(WORKER), Some((1, 0)));
    assert!(matches!(
        rejected(admission.acquire(WORKER, 1)),
        PrefillAdmissionError::Closed { .. }
    ));
    admission.release(held);
}

#[test]
fn rooms_come_back_after_every_history() {
    let mut admission = limited(8, 4, Duration::from_secs(1));
    let mut held = vec![];
    let mut total: usize = 0;
    for rooms in [3, 1, 4] {
        held.push(admitted(admission.acquire(WORKER, rooms)));
        total += rooms;
        assert_eq!(admission.counters(WORKER), Some((total, 0)));
    }
    let guard = queued(admission.acquire(WORKER, 1));
    assert_eq!(admission.counters(WORKER), Some((8, 1)));
    admission.leave_queue(guard);
    while let Some(permit) = held.pop() {
        total -= permit.rooms;
        admission.release(permit);
        assert_eq!(admission.counters(WORKER), Some((total, 0)));
    }
    assert_eq!(admitted(admission.acquire(WORKER, 8)).rooms, 8);
}

#[test]
fn each_rejection_has_its_reply() {
    let too_large = PDRouter::handle_prefill_admission_error(PrefillAdmissionError::RequestTooLarge {
        worker: "http://p".to_string(),
        requested_rooms: 20,
        room_limit: 16,
    });
    assert_eq!(too_large.status, 429);
    assert_eq!(too_large.code, "prefill_room_request_too_large");
    assert_eq!(
        too_large.message,
        "Request needs 20 Prefill rooms, but worker http://p has a 16-room limit"
    );

    let full = PDRouter::handle_prefill_admission_error(PrefillAdmissionError::QueueFull {
        worker: "http://p".to_string(),
        queue_limit: 32_768,
    });
    assert_eq!(full.status, 429);
    assert_eq!(full.code, "prefill_room_queue_full");
    assert_eq!(
        full.message,
        "Router Prefill room queue for worker http://p reached 32768 requests"
    );

    let timeout = PDRouter::handle_prefill_admission_error(PrefillAdmissionError::Timeout {
        worker: "http://p".to_string(),
        timeout: Duration::from_secs(28_800),
    });
    assert_eq!(timeout.status, 429);
    assert_eq!(timeout.code, "prefill_room_queue_timeout");
    assert_eq!(
        timeout.message,
        "Timed out after 28800.000s waiting for a Prefill room on worker http://p"
    );
    let short = PDRouter::handle_prefill_admission_error(PrefillAdmissionError::Timeout {
        worker: "w".to_string(),
        timeout: Duration::from_millis(10),
    });
    assert_eq!(
        short.message,
        "Timed out after 0.010s waiting for a Prefill room on worker w"
    );

    let closed = PDRouter::handle_prefill_admission_error(PrefillAdmissionError::Closed {
        worker: "http://p".to_string(),
    });
    assert_eq!(closed.status, 503);
    assert_eq!(closed.code, "prefill_room_admission_closed");
    assert_eq!(
        closed.message,
        "Prefill room admission closed for worker http://p"
    );
}

#[test]
fn each_outcome_is_counted_under_its_name() {
    assert_eq!(AcquireStep::Unlimited.decision(), None);
    let mut admission = limited(1, 1, Duration::from_millis(5));
    assert_eq!(
        admission.acquire(WORKER, 2).decision(),
        Some("request_too_large")
    );
    let step = admission.acquire(WORKER, 1);
    assert_eq!(step.decision(), Some("admitted_immediate"));
    let first = admitted(step);
    let step = admission.acquire(WORKER, 1);
    assert_eq!(step.decision(), None);
    let guard = queued(step);
    assert_eq!(admission.acquire(WORKER, 1).decision(), Some("queue_full"));
    assert_eq!(
        admission.gauges(WORKER),
        Some(RoomGauges {
            active_rooms: 1,
            queued_requests: 1,
            room_limit: 1
        })
    );
    assert_eq!(admission.gauges("http://other"), None);
    let outcome = wait(&guard);
    assert_eq!(outcome.result(), "timeout");
    assert_eq!(outcome.decision(), "timeout");
    assert!(admission.finish_wait(guard, outcome).is_err());
    let guard = queued(admission.acquire(WORKER, 1));
    admission.release(first);
    let outcome = wait(&guard);
    assert_eq!(outcome.result(), "admitted");
    assert_eq!(outcome.decision(), "admitted_after_wait");
    assert!(admission.finish_wait(guard, outcome).is_ok());
    assert_eq!(WaitOutcome::Closed.result(), "closed");
    assert_eq!(WaitOutcome::Closed.decision(), "closed");
    assert_eq!(
        admission.settle(WORKER, 1, TryRooms::Closed).decision(),
        Some("closed")
    );
}

#[test]
fn counters_are_the_sum_of_what_is_out_in_any_order() {
    let mut admission = limited(3, 2, Duration::from_secs(1));
    let a1 = admitted(admission.acquire("http://a", 2));
    let b1 = admitted(admission.acquire("http://b", 3));
    let a2 = admitted(admission.acquire("http://a", 1));
    let waits = queued(admission.acquire("http://a", 2));
    let gives_up = queued(admission.acquire("http://a", 1));
    assert!(matches!(
        rejected(admission.acquire("http://a", 1)),
        PrefillAdmissionError::QueueFull { .. }
    ));
    assert_eq!(admission.counters("http://a"), Some((3, 2)));
    assert_eq!(admission.counters("http://b"), Some((3, 0)));
    admission.leave_queue(gives_up);
    admission.release(a1);
    assert_eq!(admission.counters("http://a"), Some((1, 1)));
    let outcome = wait(&waits);
    let a3 = admission.finish_wait(waits, outcome).unwrap();
    assert_eq!(admission.counters("http://a"), Some((3, 0)));
    admission.release(b1);
    admission.release(a3);
    admission.release(a2);
    assert_eq!(admission.counters("http://a"), Some((0, 0)));
    assert_eq!(admission.counters("http://b"), Some((0, 0)));
}
