//! Laws on admission to the rooms of prefill workers.
use vstd::prelude::*;
use crate::admission::{
    after_events, call_events, made_with, permit_source, permits_held, shown_seconds, AcquireStep,
    PrefillAdmission, PrefillAdmissionError, PrefillQueueGuard, PrefillRoomPermit,
    PrefillWorkerAdmission, RoomCall, RoomEvent, RoomGauges, TryRooms, WaitOutcome, WorkerRooms,
};
use crate::config::{duration_nanos, PrefillAdmissionConfig};
use crate::router::PDRouter;
use crate::status::ErrorReply;
use crate::text::decimal;

verus! {

/// The rooms of a worker that are counted as taken.
pub open spec fn active_of(books: Map<Seq<char>, WorkerRooms>, worker: Seq<char>) -> int {
    if books.dom().contains(worker) {
        books[worker].active as int
    } else {
        0
    }
}

/// The requests that are counted as waiting for rooms of a worker.
pub open spec fn queued_of(books: Map<Seq<char>, WorkerRooms>, worker: Seq<char>) -> int {
    if books.dom().contains(worker) {
        books[worker].queued as int
    } else {
        0
    }
}

/// Whether books differ at most in the two counters of one worker, which keeps its
/// semaphore where it was known.
pub open spec fn only_counts_of(
    before: Map<Seq<char>, WorkerRooms>,
    after: Map<Seq<char>, WorkerRooms>,
    worker: Seq<char>,
) -> bool {
    &&& after.dom().contains(worker)
    &&& before.dom().contains(worker) ==> after[worker].semaphore == before[worker].semaphore
    &&& forall|other: Seq<char>|
        other != worker ==> (#[trigger] after.dom().contains(other) <==> before.dom().contains(
            other,
        ))
    &&& forall|other: Seq<char>|
        other != worker && before.dom().contains(other) ==> #[trigger] after[other]
            == before[other]
}

/// Whether a counter is the sum of two counts, as far as a counter can hold it.
pub open spec fn is_sum(counter: int, a: int, b: int) -> bool {
    if a + b <= usize::MAX {
        counter == a + b
    } else {
        counter == a + b - usize::MAX - 1
    }
}

/// The rooms that a request is for.
pub open spec fn rooms_for(requested: usize) -> int {
    if requested >= 1 {
        requested as int
    } else {
        1
    }
}

proof fn lemma_none(kept: WorkerRooms)
    ensures
        after_events(kept, Seq::empty()) == kept,
{
}

proof fn lemma_one(kept: WorkerRooms, event: RoomEvent)
    ensures
        after_events(kept, seq![event]) == crate::admission::after_event(kept, event),
{
    assert(seq![event].drop_last() =~= Seq::empty());
    lemma_none(kept);
}

proof fn lemma_two(kept: WorkerRooms, first: RoomEvent, then: RoomEvent)
    ensures
        after_events(kept, seq![first, then]) == crate::admission::after_event(
            crate::admission::after_event(kept, first),
            then,
        ),
{
    assert(seq![first, then].drop_last() =~= seq![first]);
    lemma_one(kept, first);
}

proof fn lemma_settled(kept: WorkerRooms, rooms: usize)
    ensures
        after_events(kept, Seq::empty()) == kept,
        after_events(kept, seq![RoomEvent::Join]) == crate::admission::joined(kept),
        after_events(kept, seq![RoomEvent::Take(rooms)]) == crate::admission::taken(kept, rooms),
{
    lemma_none(kept);
    lemma_one(kept, RoomEvent::Join);
    lemma_one(kept, RoomEvent::Take(rooms));
}

/// Without settings rooms are not limited, and nothing is counted.
pub proof fn law_without_settings_rooms_are_not_limited(
    admission: &mut PrefillAdmission,
    worker: &str,
    requested: usize,
    step: AcquireStep,
)
    requires
        call_ensures(PrefillAdmission::acquire, (admission, worker, requested), step),
        old(admission).settings() is None,
    ensures
        step is Unlimited,
        final(admission)@ == old(admission)@,
        final(admission).settings() is None,
{
}

/// A request for n rooms, at least one, is refused as too large if and only if n
/// exceeds the limit, and is otherwise admitted with exactly n rooms and n permits,
/// queued for n, or refused because the queue is full or the admission closed.
pub proof fn law_a_request_gets_the_rooms_it_asks_for(
    admission: &mut PrefillAdmission,
    worker: &str,
    requested: usize,
    step: AcquireStep,
    config: PrefillAdmissionConfig,
)
    requires
        call_ensures(PrefillAdmission::acquire, (admission, worker, requested), step),
        old(admission).settings() == Some(config),
    ensures
        ({
            let n = rooms_for(requested);
            let too_large = step is Rejected && step->Rejected_0 is RequestTooLarge;
            &&& step !is Unlimited
            &&& too_large <==> n > config.max_rooms_per_worker
            &&& too_large ==> step->Rejected_0->RequestTooLarge_worker@ == worker@
                && step->Rejected_0->requested_rooms == n && step->Rejected_0->room_limit
                == config.max_rooms_per_worker
            &&& step is Admitted ==> step->Admitted_0.worker@ == worker@ && step->Admitted_0.rooms
                == n && permits_held(step->Admitted_0.permit) == n && permit_source(
                step->Admitted_0.permit,
            ) == final(admission)@[worker@].semaphore
            &&& step is Queued ==> step->Queued_0.worker@ == worker@ && step->Queued_0.rooms == n
                && step->Queued_0.timeout == config.queue_timeout && *step->Queued_0.semaphore
                == final(admission)@[worker@].semaphore && queued_of(old(admission)@, worker@)
                < config.queue_size_per_worker
            &&& step is Rejected && !too_large ==> step->Rejected_0 is QueueFull
                || step->Rejected_0 is Closed
            &&& step is Rejected && step->Rejected_0 is QueueFull
                ==> step->Rejected_0->QueueFull_worker@ == worker@ && step->Rejected_0->queue_limit
                == config.queue_size_per_worker && queued_of(old(admission)@, worker@)
                >= config.queue_size_per_worker
            &&& step is Rejected && step->Rejected_0 is Closed ==> step->Rejected_0->Closed_worker@
                == worker@
        }),
{
    lemma_acquired(admission, worker, requested, step, config);
}

/// The books count what a request came to: its rooms where it is admitted, one more
/// that waits where it is queued, and nothing where it is refused; and they count it
/// for its worker alone.
pub proof fn law_a_request_is_counted(
    admission: &mut PrefillAdmission,
    worker: &str,
    requested: usize,
    step: AcquireStep,
    config: PrefillAdmissionConfig,
)
    requires
        call_ensures(PrefillAdmission::acquire, (admission, worker, requested), step),
        old(admission).settings() == Some(config),
    ensures
        ({
            let before = old(admission)@;
            let after = final(admission)@;
            let w = worker@;
            &&& final(admission).settings() == Some(config)
            &&& only_counts_of(before, after, w)
            &&& step is Admitted ==> is_sum(
                active_of(after, w),
                active_of(before, w),
                rooms_for(requested),
            ) && queued_of(after, w) == queued_of(before, w)
            &&& step is Queued ==> active_of(after, w) == active_of(before, w) && queued_of(after, w)
                == queued_of(before, w) + 1
            &&& step is Rejected ==> active_of(after, w) == active_of(before, w) && queued_of(
                after,
                w,
            ) == queued_of(before, w)
        }),
{
    lemma_acquired(admission, worker, requested, step, config);
}

/// Whatever becomes of a request, its worker then has a semaphore of as many permits as
/// the settings give it rooms, and no more requests wait for it than its queue holds.
pub proof fn law_every_worker_has_the_rooms_of_the_settings(
    admission: &mut PrefillAdmission,
    worker: &str,
    requested: usize,
    step: AcquireStep,
    config: PrefillAdmissionConfig,
)
    requires
        call_ensures(PrefillAdmission::acquire, (admission, worker, requested), step),
        old(admission).settings() == Some(config),
    ensures
        final(admission)@.dom().contains(worker@),
        made_with(final(admission)@[worker@].semaphore) == config.max_rooms_per_worker,
        queued_of(final(admission)@, worker@) <= config.queue_size_per_worker,
{
    lemma_acquired(admission, worker, requested, step, config);
    final(admission).law_books_keep_to_the_settings(worker@);
}

proof fn lemma_acquired(
    admission: &mut PrefillAdmission,
    worker: &str,
    requested: usize,
    step: AcquireStep,
    config: PrefillAdmissionConfig,
)
    requires
        call_ensures(PrefillAdmission::acquire, (admission, worker, requested), step),
        old(admission).settings() == Some(config),
    ensures
        ({
            let before = old(admission)@;
            let after = final(admission)@;
            let w = worker@;
            let n = rooms_for(requested);
            &&& only_counts_of(before, after, w)
            &&& n > config.max_rooms_per_worker ==> {
                &&& step is Rejected
                &&& step->Rejected_0 is RequestTooLarge
                &&& step->Rejected_0->RequestTooLarge_worker@ == w
                &&& step->Rejected_0->requested_rooms == n
                &&& step->Rejected_0->room_limit == config.max_rooms_per_worker
                &&& active_of(after, w) == active_of(before, w)
                &&& queued_of(after, w) == queued_of(before, w)
            }
            &&& n <= config.max_rooms_per_worker ==> {
                ||| {
                    &&& step is Admitted
                    &&& step->Admitted_0.worker@ == w
                    &&& step->Admitted_0.rooms == n
                    &&& permits_held(step->Admitted_0.permit) == n
                    &&& permit_source(step->Admitted_0.permit) == after[w].semaphore
                    &&& is_sum(active_of(after, w), active_of(before, w), n)
                    &&& queued_of(after, w) == queued_of(before, w)
                }
                ||| {
                    &&& step is Queued
                    &&& step->Queued_0.worker@ == w
                    &&& step->Queued_0.rooms == n
                    &&& step->Queued_0.timeout == config.queue_timeout
                    &&& *step->Queued_0.semaphore == after[w].semaphore
                    &&& queued_of(before, w) < config.queue_size_per_worker
                    &&& active_of(after, w) == active_of(before, w)
                    &&& queued_of(after, w) == queued_of(before, w) + 1
                }
                ||| {
                    &&& step is Rejected
                    &&& step->Rejected_0 is QueueFull
                    &&& step->Rejected_0->QueueFull_worker@ == w
                    &&& step->Rejected_0->queue_limit == config.queue_size_per_worker
                    &&& queued_of(before, w) >= config.queue_size_per_worker
                    &&& active_of(after, w) == active_of(before, w)
                    &&& queued_of(after, w) == queued_of(before, w)
                }
                ||| {
                    &&& step is Rejected
                    &&& step->Rejected_0 is Closed
                    &&& step->Rejected_0->Closed_worker@ == w
                    &&& active_of(after, w) == active_of(before, w)
                    &&& queued_of(after, w) == queued_of(before, w)
                }
            }
        }),
{
    let w = worker@;
    let after = final(admission)@;
    let rooms = crate::admission::asked_rooms(requested);
    let known = crate::admission::with_worker(old(admission)@, w, after[w].semaphore);
    if rooms <= config.max_rooms_per_worker {
        let tried = choose|tried: TryRooms|
            (tried is Permit ==> permits_held(tried->Permit_0) == rooms && permit_source(
                tried->Permit_0,
            ) == known[w].semaphore) && #[trigger] crate::admission::admission_is(
                config,
                w,
                rooms,
                tried,
                known[w],
                step,
            ) && after == crate::admission::books_after_call(
                config,
                known,
                RoomCall::Settle { worker: w, rooms, tried },
            );
        lemma_settled(known[w], rooms);
        assert(after == known.insert(
            w,
            after_events(
                known[w],
                call_events(config, known[w], RoomCall::Settle { worker: w, rooms, tried }),
            ),
        ));
    }
}

/// A try for rooms is settled by what it gave: a permit admits with the rooms that
/// were asked for, no permits queue where the queue has a place left and are refused
/// where it has none, and a closed semaphore is refused as such.
pub proof fn law_a_try_is_settled_by_what_it_gave(
    admission: &mut PrefillAdmission,
    worker: &str,
    rooms: u32,
    tried: TryRooms,
    step: AcquireStep,
    config: PrefillAdmissionConfig,
)
    requires
        call_ensures(PrefillAdmission::settle, (admission, worker, rooms, tried), step),
        old(admission).settings() == Some(config),
        old(admission)@.dom().contains(worker@),
    ensures
        ({
            let before = old(admission)@;
            let after = final(admission)@;
            let w = worker@;
            let has_place = queued_of(before, w) < config.queue_size_per_worker;
            &&& final(admission).settings() == Some(config)
            &&& only_counts_of(before, after, w)
            &&& tried is Permit ==> step is Admitted && step->Admitted_0.worker@ == w
                && step->Admitted_0.rooms == rooms && step->Admitted_0.permit == tried->Permit_0
                && is_sum(active_of(after, w), active_of(before, w), rooms as int) && queued_of(
                after,
                w,
            ) == queued_of(before, w)
            &&& tried !is Permit ==> active_of(after, w) == active_of(before, w)
            &&& tried is NoPermits && has_place ==> step is Queued && step->Queued_0.worker@ == w
                && step->Queued_0.rooms == rooms && step->Queued_0.timeout == config.queue_timeout
                && *step->Queued_0.semaphore == before[w].semaphore && queued_of(after, w)
                == queued_of(before, w) + 1
            &&& tried is NoPermits && !has_place ==> step is Rejected && step->Rejected_0
                is QueueFull && step->Rejected_0->QueueFull_worker@ == w
                && step->Rejected_0->queue_limit == config.queue_size_per_worker && queued_of(
                after,
                w,
            ) == queued_of(before, w)
            &&& tried is Closed ==> step is Rejected && step->Rejected_0 is Closed
                && step->Rejected_0->Closed_worker@ == w && queued_of(after, w) == queued_of(
                before,
                w,
            )
        }),
{
    lemma_settled(old(admission)@[worker@], rooms as usize);
}

/// A wait that ended takes the request out of the queue, and a permit then admits it
/// with the rooms that it waited for; without one it is refused as timed out or closed.
pub proof fn law_a_wait_ends_by_its_outcome(
    admission: &mut PrefillAdmission,
    guard: PrefillQueueGuard,
    outcome: WaitOutcome,
    r: Result<PrefillRoomPermit, PrefillAdmissionError>,
)
    requires
        call_ensures(PrefillAdmission::finish_wait, (admission, guard, outcome), r),
        old(admission)@.dom().contains(guard.worker@),
        old(admission)@[guard.worker@].queued > 0,
    ensures
        ({
            let before = old(admission)@;
            let after = final(admission)@;
            let w = guard.worker@;
            &&& final(admission).settings() == old(admission).settings()
            &&& only_counts_of(before, after, w)
            &&& queued_of(after, w) == queued_of(before, w) - 1
            &&& r is Ok <==> outcome is Permit
            &&& r is Ok ==> r->Ok_0.worker@ == w && r->Ok_0.rooms == guard.rooms && r->Ok_0.permit
                == outcome->Permit_0 && is_sum(
                active_of(after, w),
                active_of(before, w),
                guard.rooms as int,
            )
            &&& r is Err ==> active_of(after, w) == active_of(before, w)
            &&& outcome is TimedOut ==> r->Err_0 is Timeout && r->Err_0->Timeout_worker@ == w
                && r->Err_0->timeout == guard.timeout
            &&& outcome is Closed ==> r->Err_0 is Closed && r->Err_0->Closed_worker@ == w
        }),
{
    let kept = old(admission)@[guard.worker@];
    lemma_one(kept, RoomEvent::Leave);
    lemma_two(kept, RoomEvent::Leave, RoomEvent::Take(guard.rooms as usize));
}

/// Giving up a wait takes one request out of the queue of its worker.
pub proof fn law_giving_up_leaves_the_queue(
    admission: &mut PrefillAdmission,
    guard: PrefillQueueGuard,
)
    requires
        call_ensures(PrefillAdmission::leave_queue, (admission, guard), ()),
        old(admission)@.dom().contains(guard.worker@),
        old(admission)@[guard.worker@].queued > 0,
    ensures
        final(admission).settings() == old(admission).settings(),
        only_counts_of(old(admission)@, final(admission)@, guard.worker@),
        queued_of(final(admission)@, guard.worker@) == queued_of(old(admission)@, guard.worker@)
            - 1,
        active_of(final(admission)@, guard.worker@) == active_of(old(admission)@, guard.worker@),
{
    lemma_one(old(admission)@[guard.worker@], RoomEvent::Leave);
}

/// Giving a permit back frees exactly its rooms.
pub proof fn law_a_permit_frees_its_rooms(
    admission: &mut PrefillAdmission,
    permit: PrefillRoomPermit,
)
    requires
        call_ensures(PrefillAdmission::release, (admission, permit), ()),
        old(admission)@.dom().contains(permit.worker@),
        old(admission)@[permit.worker@].active >= permit.rooms,
    ensures
        final(admission).settings() == old(admission).settings(),
        only_counts_of(old(admission)@, final(admission)@, permit.worker@),
        active_of(final(admission)@, permit.worker@) == active_of(
            old(admission)@,
            permit.worker@,
        ) - permit.rooms,
        queued_of(final(admission)@, permit.worker@) == queued_of(old(admission)@, permit.worker@),
{
    lemma_one(old(admission)@[permit.worker@], RoomEvent::Free(permit.rooms));
}

/// Admission starts with the settings it is given and nothing counted.
pub proof fn law_admission_starts_with_nothing(
    config: Option<PrefillAdmissionConfig>,
    r: PrefillAdmission,
    read: Option<PrefillAdmissionConfig>,
)
    requires
        call_ensures(PrefillAdmission::new, (config,), r),
        call_ensures(PrefillAdmission::config, (&r,), read),
    ensures
        r.wf(),
        r.settings() == config,
        read == config,
        forall|worker: Seq<char>| !#[trigger] r@.dom().contains(worker),
{
}

/// What is read and shown of a worker is what the books count.
pub proof fn law_counters_show_the_books(
    admission: &PrefillAdmission,
    worker: &str,
    counters: Option<(usize, usize)>,
    gauges: Option<RoomGauges>,
)
    requires
        call_ensures(PrefillAdmission::counters, (admission, worker), counters),
        call_ensures(PrefillAdmission::gauges, (admission, worker), gauges),
    ensures
        counters is Some <==> admission@.dom().contains(worker@),
        gauges is Some <==> admission@.dom().contains(worker@),
        counters is Some ==> (counters->0).0 == active_of(admission@, worker@) && (counters->0).1
            == queued_of(admission@, worker@),
        gauges is Some ==> gauges->0.active_rooms == active_of(admission@, worker@)
            && gauges->0.queued_requests == queued_of(admission@, worker@) && gauges->0.room_limit
            == admission.settings()->0.max_rooms_per_worker,
{
}

/// A worker starts with nothing counted and a semaphore of as many permits as it has rooms.
pub proof fn law_a_worker_starts_with_all_its_rooms(
    worker: &str,
    room_limit: usize,
    r: PrefillWorkerAdmission,
)
    requires
        call_ensures(PrefillWorkerAdmission::new, (worker, room_limit), r),
    ensures
        r.name() == worker@,
        r.kept().active == 0,
        r.kept().queued == 0,
        made_with(r.kept().semaphore) == room_limit,
{
}

/// What became of a request is counted under these names.
pub proof fn law_decisions_have_their_names(step: &AcquireStep, r: Option<&'static str>)
    requires
        call_ensures(AcquireStep::decision, (step,), r),
    ensures
        r is None <==> step is Unlimited || step is Queued,
        step is Admitted ==> r->0@ == "admitted_immediate"@,
        step is Rejected && step->Rejected_0 is RequestTooLarge ==> r->0@ == "request_too_large"@,
        step is Rejected && step->Rejected_0 is QueueFull ==> r->0@ == "queue_full"@,
        step is Rejected && step->Rejected_0 is Timeout ==> r->0@ == "timeout"@,
        step is Rejected && step->Rejected_0 is Closed ==> r->0@ == "closed"@,
{
}

/// What became of a wait is counted under these names.
pub proof fn law_waits_have_their_names(
    outcome: &WaitOutcome,
    result: &'static str,
    decision: &'static str,
)
    requires
        call_ensures(WaitOutcome::result, (outcome,), result),
        call_ensures(WaitOutcome::decision, (outcome,), decision),
    ensures
        outcome is Permit ==> result@ == "admitted"@ && decision@ == "admitted_after_wait"@,
        outcome is Closed ==> result@ == "closed"@ && decision@ == "closed"@,
        outcome is TimedOut ==> result@ == "timeout"@ && decision@ == "timeout"@,
{
}

/// Each refusal is answered with its status, its code and a message with the worker
/// and the numbers of the refusal: overload with 429, and a closed admission with 503.
pub proof fn law_refusals_of_rooms_are_answered(error: PrefillAdmissionError, r: ErrorReply)
    requires
        call_ensures(PDRouter::handle_prefill_admission_error, (error,), r),
    ensures
        match error {
            PrefillAdmissionError::RequestTooLarge { worker, requested_rooms, room_limit } => {
                &&& r.status == 429
                &&& r.code@ == "prefill_room_request_too_large"@
                &&& r.message@ == "Request needs "@ + decimal(requested_rooms as nat)
                    + " Prefill rooms, but worker "@ + worker@ + " has a "@ + decimal(
                    room_limit as nat,
                ) + "-room limit"@
            },
            PrefillAdmissionError::QueueFull { worker, queue_limit } => {
                &&& r.status == 429
                &&& r.code@ == "prefill_room_queue_full"@
                &&& r.message@ == "Router Prefill room queue for worker "@ + worker@ + " reached "@
                    + decimal(queue_limit as nat) + " requests"@
            },
            PrefillAdmissionError::Timeout { worker, timeout } => {
                &&& r.status == 429
                &&& r.code@ == "prefill_room_queue_timeout"@
                &&& r.message@ == "Timed out after "@ + shown_seconds(duration_nanos(timeout))
                    + "s waiting for a Prefill room on worker "@ + worker@
            },
            PrefillAdmissionError::Closed { worker } => {
                &&& r.status == 503
                &&& r.code@ == "prefill_room_admission_closed"@
                &&& r.message@ == "Prefill room admission closed for worker "@ + worker@
            },
        },
{
    assert(r@.status == r.status);
}

/// The reply to a request that waited too long names the worker and the seconds.
pub proof fn law_timeouts_are_answered(worker: &str, seconds: &str, r: ErrorReply)
    requires
        call_ensures(PDRouter::timed_out_reply, (worker, seconds), r),
    ensures
        r.status == 429,
        r.code@ == "prefill_room_queue_timeout"@,
        r.message@ == "Timed out after "@ + seconds@ + "s waiting for a Prefill room on worker "@
            + worker@,
{
    assert(r@.status == r.status);
}

} // verus!
