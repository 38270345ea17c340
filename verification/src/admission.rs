//! Admission of requests to the rooms of prefill workers.
use vstd::prelude::*;
use std::sync::Arc;
use std::time::Duration;
use dashmap::DashMap;
use tokio::sync::{OwnedSemaphorePermit, Semaphore, TryAcquireError};
use crate::config::{
    config_result_is, duration_nanos, env_outcome, text_of, EnvReading, PrefillAdmissionConfig,
};
use crate::router::PDRouter;
use crate::status::{create_error, ErrorReply, ErrorText, SERVICE_UNAVAILABLE, TOO_MANY_REQUESTS};
use crate::text::{cat2, cat4, cat5, decimal, decimal_text};

verus! {

#[verifier::external_type_specification]
#[verifier::external_body]
#[verifier::reject_recursive_types(K)]
#[verifier::reject_recursive_types(V)]
#[verifier::reject_recursive_types(S)]
pub struct ExDashMap<K, V, S>(DashMap<K, V, S>);

#[verifier::external_type_specification]
#[verifier::external_body]
pub struct ExSemaphore(Semaphore);

#[verifier::external_type_specification]
#[verifier::external_body]
pub struct ExOwnedSemaphorePermit(OwnedSemaphorePermit);

/// The slots that a `dashmap::DashMap` holds for the names of workers.
pub uninterp spec fn slots_of(map: DashMap<String, usize>) -> Map<Seq<char>, usize>;

/// The permits of its semaphore that a `tokio::sync::OwnedSemaphorePermit` holds.
pub uninterp spec fn permits_held(permit: OwnedSemaphorePermit) -> nat;

/// The semaphore that a `tokio::sync::OwnedSemaphorePermit` came from.
pub uninterp spec fn permit_source(permit: OwnedSemaphorePermit) -> Semaphore;

/// The permits that a `tokio::sync::Semaphore` was made with.
pub uninterp spec fn made_with(semaphore: Semaphore) -> nat;

/// `dashmap::DashMap::new`: no entries.
#[verifier::external_body]
fn no_slots() -> (r: DashMap<String, usize>)
    ensures
        (slots_of(r) == Map::<Seq<char>, usize>::empty()),
{
    DashMap::new()
}

/// `dashmap::DashMap::entry` with `or_insert_with`: the slot under a name, set
/// to `fresh` first where there was none.
#[verifier::external_body]
fn slot_or_insert(map: &mut DashMap<String, usize>, name: &str, fresh: usize) -> (r: usize)
    ensures
        r == (if slots_of(*old(map)).dom().contains(name@) {
            slots_of(*old(map))[name@]
        } else {
            fresh
        }),
        slots_of(*final(map)) == slots_of(*old(map)).insert(name@, r),
{
    *map.entry(name.to_string()).or_insert_with(|| fresh)
}

/// `dashmap::DashMap::get`: the slot under a name, where there is one.
#[verifier::external_body]
fn find_slot(map: &DashMap<String, usize>, name: &str) -> (r: Option<usize>)
    ensures
        r == (if slots_of(*map).dom().contains(name@) {
            Some(slots_of(*map)[name@])
        } else {
            None
        }),
{
    map.get(name).map(|slot| *slot)
}

/// `tokio::sync::Semaphore::new`. More than an eighth of what a `usize` counts is refused by it.
#[verifier::external_body]
fn new_semaphore(permits: usize) -> (r: Semaphore)
    requires
        permits <= usize::MAX / 8,
    ensures
        made_with(r) == permits,
{
    Semaphore::new(permits)
}

/// What trying to take permits of a semaphore gave.
#[derive(Debug)]
pub enum TryRooms {
    Permit(OwnedSemaphorePermit),
    NoPermits,
    Closed,
}

/// `tokio::sync::Semaphore::try_acquire_many_owned`. A permit comes from the
/// semaphore that was asked and holds as many as were asked for. Nothing is
/// stated of which of the three results comes: that depends on what other
/// holders have taken and given back meanwhile.
#[verifier::external_body]
fn try_rooms(semaphore: &Arc<Semaphore>, rooms: u32) -> (r: TryRooms)
    requires
        rooms <= usize::MAX / 8,
    ensures
        r is Permit ==> permits_held(r->Permit_0) == rooms && permit_source(r->Permit_0)
            == **semaphore,
{
    match Arc::clone(semaphore).try_acquire_many_owned(rooms) {
        Ok(permit) => TryRooms::Permit(permit),
        Err(TryAcquireError::NoPermits) => TryRooms::NoPermits,
        Err(TryAcquireError::Closed) => TryRooms::Closed,
    }
}

/// What the router keeps of a prefill worker.
pub struct WorkerRooms {
    /// The rooms that admitted requests hold.
    pub active: usize,
    /// The requests that wait for a room.
    pub queued: usize,
    /// The semaphore that hands the rooms out.
    pub semaphore: Semaphore,
}

/// A prefill worker as admission sees it.
#[derive(Debug)]
pub struct PrefillWorkerAdmission {
    worker: String,
    semaphore: Arc<Semaphore>,
    active_rooms: usize,
    queued_requests: usize,
}

impl PrefillWorkerAdmission {
    /// The URL of the worker.
    pub closed spec fn name(&self) -> Seq<char> {
        self.worker@
    }

    /// What is kept of the worker.
    pub closed spec fn kept(&self) -> WorkerRooms {
        WorkerRooms {
            active: self.active_rooms,
            queued: self.queued_requests,
            semaphore: *self.semaphore,
        }
    }

    /// A worker of which no room is taken and nobody waits.
    pub fn new(worker: &str, room_limit: usize) -> (r: Self)
        requires
            room_limit <= usize::MAX / 8,
        ensures
            r.name() == worker@,
            r.kept().active == 0,
            r.kept().queued == 0,
            made_with(r.kept().semaphore) == room_limit,
    {
        PrefillWorkerAdmission {
            worker: worker.to_string(),
            semaphore: Arc::new(new_semaphore(room_limit)),
            active_rooms: 0,
            queued_requests: 0,
        }
    }
}

/// Rooms of a prefill worker that a request holds. Giving it back to
/// [`PrefillAdmission::release`] frees them.
#[derive(Debug)]
pub struct PrefillRoomPermit {
    pub worker: String,
    pub rooms: usize,
    pub permit: OwnedSemaphorePermit,
}

/// A place in the queue for the rooms of a prefill worker.
#[derive(Debug)]
pub struct PrefillQueueGuard {
    pub worker: String,
    pub rooms: u32,
    pub semaphore: Arc<Semaphore>,
    pub timeout: Duration,
}

/// How waiting for rooms ended.
#[derive(Debug)]
pub enum WaitOutcome {
    Permit(OwnedSemaphorePermit),
    Closed,
    TimedOut,
}

/// Why a request gets no rooms.
#[derive(Debug)]
pub enum PrefillAdmissionError {
    RequestTooLarge { worker: String, requested_rooms: usize, room_limit: usize },
    QueueFull { worker: String, queue_limit: usize },
    Timeout { worker: String, timeout: Duration },
    Closed { worker: String },
}

/// Why a request gets no rooms, as a value.
pub enum Rejection {
    RequestTooLarge { worker: Seq<char>, requested_rooms: usize, room_limit: usize },
    QueueFull { worker: Seq<char>, queue_limit: usize },
    Timeout { worker: Seq<char>, timeout: Duration },
    Closed { worker: Seq<char> },
}

impl View for PrefillAdmissionError {
    type V = Rejection;

    open spec fn view(&self) -> Rejection {
        match self {
            PrefillAdmissionError::RequestTooLarge {
                worker,
                requested_rooms,
                room_limit,
            } => Rejection::RequestTooLarge {
                worker: worker@,
                requested_rooms: *requested_rooms,
                room_limit: *room_limit,
            },
            PrefillAdmissionError::QueueFull { worker, queue_limit } => Rejection::QueueFull {
                worker: worker@,
                queue_limit: *queue_limit,
            },
            PrefillAdmissionError::Timeout { worker, timeout } => Rejection::Timeout {
                worker: worker@,
                timeout: *timeout,
            },
            PrefillAdmissionError::Closed { worker } => Rejection::Closed { worker: worker@ },
        }
    }
}

/// What asking for rooms comes to.
#[derive(Debug)]
pub enum AcquireStep {
    /// Rooms are not limited.
    Unlimited,
    /// The rooms are taken.
    Admitted(PrefillRoomPermit),
    /// The request is in the queue: its permits are to be awaited, at most for
    /// the timeout, and what came of it handed to [`PrefillAdmission::finish_wait`].
    Queued(PrefillQueueGuard),
    /// The request gets no rooms.
    Rejected(PrefillAdmissionError),
}

/// The name under which what became of a request for rooms is counted.
pub open spec fn decision_on(step: AcquireStep) -> Option<Seq<char>> {
    match step {
        AcquireStep::Unlimited => None,
        AcquireStep::Admitted(permit) => Some("admitted_immediate"@),
        AcquireStep::Queued(guard) => None,
        AcquireStep::Rejected(error) => Some(
            match error {
                PrefillAdmissionError::RequestTooLarge { .. } => "request_too_large"@,
                PrefillAdmissionError::QueueFull { .. } => "queue_full"@,
                PrefillAdmissionError::Timeout { .. } => "timeout"@,
                PrefillAdmissionError::Closed { .. } => "closed"@,
            },
        ),
    }
}

impl AcquireStep {
    /// The name under which what became of the request is counted: none where
    /// rooms are not limited, nor of a request that waits, before its wait has ended.
    pub fn decision(&self) -> (r: Option<&'static str>)
        ensures
            text_of(r) == decision_on(*self),
    {
        match self {
            AcquireStep::Unlimited => None,
            AcquireStep::Admitted(_) => Some("admitted_immediate"),
            AcquireStep::Queued(_) => None,
            AcquireStep::Rejected(error) => Some(
                match error {
                    PrefillAdmissionError::RequestTooLarge { .. } => "request_too_large",
                    PrefillAdmissionError::QueueFull { .. } => "queue_full",
                    PrefillAdmissionError::Timeout { .. } => "timeout",
                    PrefillAdmissionError::Closed { .. } => "closed",
                },
            ),
        }
    }
}

impl WaitOutcome {
    /// The name under which the time of the wait is counted.
    pub fn result(&self) -> (r: &'static str)
        ensures
            r@ == match self {
                WaitOutcome::Permit(_) => "admitted"@,
                WaitOutcome::Closed => "closed"@,
                WaitOutcome::TimedOut => "timeout"@,
            },
    {
        match self {
            WaitOutcome::Permit(_) => "admitted",
            WaitOutcome::Closed => "closed",
            WaitOutcome::TimedOut => "timeout",
        }
    }

    /// The name under which what became of the request that waited is counted.
    pub fn decision(&self) -> (r: &'static str)
        ensures
            r@ == match self {
                WaitOutcome::Permit(_) => "admitted_after_wait"@,
                WaitOutcome::Closed => "closed"@,
                WaitOutcome::TimedOut => "timeout"@,
            },
    {
        match self {
            WaitOutcome::Permit(_) => "admitted_after_wait",
            WaitOutcome::Closed => "closed",
            WaitOutcome::TimedOut => "timeout",
        }
    }
}

/// What is shown of the rooms of a worker.
#[derive(Clone, Copy, Debug, PartialEq, Eq, Structural)]
pub struct RoomGauges {
    pub active_rooms: usize,
    pub queued_requests: usize,
    pub room_limit: usize,
}

/// The counters once rooms are taken. They wrap around as atomic counters do.
pub open spec fn taken(kept: WorkerRooms, rooms: usize) -> WorkerRooms {
    WorkerRooms { active: wrapping_total(kept.active, rooms), ..kept }
}

/// The sum of two counts, as far as a counter can hold it.
pub open spec fn wrapping_total(a: usize, b: usize) -> usize {
    if a + b > usize::MAX {
        (a + b - usize::MAX - 1) as usize
    } else {
        (a + b) as usize
    }
}

/// The counters once rooms are given back.
pub open spec fn freed(kept: WorkerRooms, rooms: usize) -> WorkerRooms {
    WorkerRooms { active: (kept.active - rooms) as usize, ..kept }
}

/// The counters once a request has joined the queue.
pub open spec fn joined(kept: WorkerRooms) -> WorkerRooms {
    WorkerRooms { queued: (kept.queued + 1) as usize, ..kept }
}

/// The counters once a request has left the queue.
pub open spec fn left(kept: WorkerRooms) -> WorkerRooms {
    WorkerRooms { queued: (kept.queued - 1) as usize, ..kept }
}

/// One thing that happens to the rooms of a worker.
pub enum RoomEvent {
    Take(usize),
    Free(usize),
    Join,
    Leave,
}

/// What is kept of a worker after one more event.
pub open spec fn after_event(kept: WorkerRooms, event: RoomEvent) -> WorkerRooms {
    match event {
        RoomEvent::Take(rooms) => taken(kept, rooms),
        RoomEvent::Free(rooms) => freed(kept, rooms),
        RoomEvent::Join => joined(kept),
        RoomEvent::Leave => left(kept),
    }
}

/// What is kept of a worker after more events.
pub open spec fn after_events(kept: WorkerRooms, events: Seq<RoomEvent>) -> WorkerRooms
    decreases events.len(),
{
    if events.len() == 0 {
        kept
    } else {
        after_event(after_events(kept, events.drop_last()), events.last())
    }
}

/// A call that can change the books.
pub enum RoomCall {
    /// Rooms of a worker are asked for. One that is new gets this semaphore.
    Meet { worker: Seq<char>, semaphore: Semaphore },
    /// A try for rooms is settled.
    Settle { worker: Seq<char>, rooms: usize, tried: TryRooms },
    /// A wait for rooms has ended.
    Wait { worker: Seq<char>, rooms: usize, outcome: WaitOutcome },
    /// A wait for rooms is given up.
    Quit { worker: Seq<char> },
    /// Rooms are given back.
    Release { worker: Seq<char>, rooms: usize },
}

/// The worker that a call concerns.
pub open spec fn call_worker(call: RoomCall) -> Seq<char> {
    match call {
        RoomCall::Meet { worker, semaphore } => worker,
        RoomCall::Settle { worker, rooms, tried } => worker,
        RoomCall::Wait { worker, rooms, outcome } => worker,
        RoomCall::Quit { worker } => worker,
        RoomCall::Release { worker, rooms } => worker,
    }
}

/// What a call does to the rooms of its worker, one thing after the other.
pub open spec fn call_events(
    config: PrefillAdmissionConfig,
    kept: WorkerRooms,
    call: RoomCall,
) -> Seq<RoomEvent> {
    match call {
        RoomCall::Meet { worker, semaphore } => Seq::empty(),
        RoomCall::Settle { worker, rooms, tried } => match tried {
            TryRooms::Permit(permit) => seq![RoomEvent::Take(rooms)],
            TryRooms::Closed => Seq::empty(),
            TryRooms::NoPermits => if kept.queued < config.queue_size_per_worker {
                seq![RoomEvent::Join]
            } else {
                Seq::empty()
            },
        },
        RoomCall::Wait { worker, rooms, outcome } => match outcome {
            WaitOutcome::Permit(permit) => seq![RoomEvent::Leave, RoomEvent::Take(rooms)],
            _ => seq![RoomEvent::Leave],
        },
        RoomCall::Quit { worker } => seq![RoomEvent::Leave],
        RoomCall::Release { worker, rooms } => seq![RoomEvent::Free(rooms)],
    }
}

/// Whether a call may be made: of a worker in the books, and giving back no more
/// than is out.
pub open spec fn is_allowed(books: Map<Seq<char>, WorkerRooms>, call: RoomCall) -> bool {
    match call {
        RoomCall::Meet { worker, semaphore } => true,
        RoomCall::Settle { worker, rooms, tried } => books.dom().contains(worker),
        RoomCall::Wait { worker, rooms, outcome } => books.dom().contains(worker)
            && books[worker].queued > 0,
        RoomCall::Quit { worker } => books.dom().contains(worker) && books[worker].queued > 0,
        RoomCall::Release { worker, rooms } => books.dom().contains(worker)
            && books[worker].active >= rooms,
    }
}

/// The books after one more call.
pub open spec fn books_after_call(
    config: PrefillAdmissionConfig,
    books: Map<Seq<char>, WorkerRooms>,
    call: RoomCall,
) -> Map<Seq<char>, WorkerRooms> {
    let worker = call_worker(call);
    match call {
        RoomCall::Meet { worker, semaphore } => with_worker(books, worker, semaphore),
        _ => books.insert(worker, after_events(books[worker], call_events(config, books[worker], call))),
    }
}

/// The books once a worker is in them, with the given semaphore where it is new.
pub open spec fn with_worker(
    books: Map<Seq<char>, WorkerRooms>,
    worker: Seq<char>,
    semaphore: Semaphore,
) -> Map<Seq<char>, WorkerRooms> {
    if books.dom().contains(worker) {
        books
    } else {
        books.insert(worker, WorkerRooms { active: 0, queued: 0, semaphore })
    }
}

/// The rooms that a request asks for: at least one.
pub open spec fn asked_rooms(requested_rooms: usize) -> usize {
    if requested_rooms == 0 {
        1
    } else {
        requested_rooms
    }
}

/// Whether a step is what a try for `rooms` rooms of a worker comes to by these
/// settings, with what is kept of the worker.
pub open spec fn admission_is(
    config: PrefillAdmissionConfig,
    worker: Seq<char>,
    rooms: usize,
    tried: TryRooms,
    kept: WorkerRooms,
    step: AcquireStep,
) -> bool {
    match tried {
        TryRooms::Permit(permit) => {
            &&& step is Admitted
            &&& step->Admitted_0.worker@ == worker
            &&& step->Admitted_0.rooms == rooms
            &&& step->Admitted_0.permit == permit
        },
        TryRooms::Closed => {
            &&& step is Rejected
            &&& step->Rejected_0@ == (Rejection::Closed { worker })
        },
        TryRooms::NoPermits => if kept.queued < config.queue_size_per_worker {
            &&& step is Queued
            &&& step->Queued_0.worker@ == worker
            &&& step->Queued_0.rooms == rooms
            &&& step->Queued_0.timeout == config.queue_timeout
            &&& *step->Queued_0.semaphore == kept.semaphore
        } else {
            &&& step is Rejected
            &&& step->Rejected_0@ == (Rejection::QueueFull {
                worker,
                queue_limit: config.queue_size_per_worker,
            })
        },
    }
}

/// Whether a result is what the end of a wait for `rooms` rooms of a worker comes to.
pub open spec fn wait_is(
    worker: Seq<char>,
    rooms: usize,
    timeout: Duration,
    outcome: WaitOutcome,
    r: Result<PrefillRoomPermit, PrefillAdmissionError>,
) -> bool {
    match outcome {
        WaitOutcome::Permit(permit) => {
            &&& r is Ok
            &&& r->Ok_0.worker@ == worker
            &&& r->Ok_0.rooms == rooms
            &&& r->Ok_0.permit == permit
        },
        WaitOutcome::Closed => r is Err && r->Err_0@ == (Rejection::Closed { worker }),
        WaitOutcome::TimedOut => r is Err && r->Err_0@ == (Rejection::Timeout { worker, timeout }),
    }
}

/// None, one or two events in a row.
proof fn lemma_few_events(kept: WorkerRooms, events: Seq<RoomEvent>)
    ensures
        events.len() == 0 ==> after_events(kept, events) == kept,
        events.len() == 1 ==> after_events(kept, events) == after_event(kept, events[0]),
        events.len() == 2 ==> after_events(kept, events) == after_event(
            after_event(kept, events[0]),
            events[1],
        ),
{
    reveal_with_fuel(after_events, 3);
    if events.len() == 2 {
        assert(events.drop_last()[0] == events[0]);
    }
}

/// Admission of requests to the rooms of prefill workers.
#[derive(Debug)]
pub struct PrefillAdmission {
    config: Option<PrefillAdmissionConfig>,
    slots: DashMap<String, usize>,
    states: Vec<PrefillWorkerAdmission>,
}

impl View for PrefillAdmission {
    type V = Map<Seq<char>, WorkerRooms>;

    /// The counters of every worker that has been asked for rooms.
    closed spec fn view(&self) -> Map<Seq<char>, WorkerRooms> {
        Map::new(
            |worker: Seq<char>| slots_of(self.slots).dom().contains(worker),
            |worker: Seq<char>| self.states@[slots_of(self.slots)[worker] as int].kept(),
        )
    }
}

impl PrefillAdmission {
    /// The settings of the limiter, where it is on.
    pub closed spec fn settings(&self) -> Option<PrefillAdmissionConfig> {
        self.config
    }

    /// Whether every worker has one place of its own in the books, and no queue
    /// is longer than the settings let it be.
    pub closed spec fn wf(&self) -> bool {
        let slots = slots_of(self.slots);
        &&& forall|worker: Seq<char>| #[trigger]
            slots.dom().contains(worker) ==> slots[worker] < self.states@.len()
                && self.states@[slots[worker] as int].name() == worker
        &&& forall|i: int|
            0 <= i < self.states@.len() ==> slots.dom().contains(
                #[trigger] self.states@[i].name(),
            ) && slots[self.states@[i].name()] == i
        &&& self.config is Some ==> forall|i: int|
            0 <= i < self.states@.len() ==> (#[trigger] self.states@[i]).queued_requests
                <= self.config->0.queue_size_per_worker
        &&& self.config is Some ==> forall|i: int|
            0 <= i < self.states@.len() ==> made_with((#[trigger] self.states@[i]).kept().semaphore)
                == self.config->0.max_rooms_per_worker
        &&& self.config is None ==> self.states@.len() == 0
    }

    /// Whether the settings are such as semaphores can count.
    pub open spec fn is_countable(&self) -> bool {
        self.settings() is Some ==> self.settings()->0.max_rooms_per_worker <= u32::MAX
            && self.settings()->0.max_rooms_per_worker <= usize::MAX / 8
    }

    /// Admission by the given settings, or without a limit where there are none.
    pub fn new(config: Option<PrefillAdmissionConfig>) -> (r: Self)
        ensures
            r.wf(),
            r.settings() == config,
            r@ == Map::<Seq<char>, WorkerRooms>::empty(),
    {
        let r = PrefillAdmission { config, slots: no_slots(), states: Vec::new() };
        assert(r@ =~= Map::<Seq<char>, WorkerRooms>::empty());
        r
    }

    /// Admission by the settings that reading the environment gave.
    pub fn from_env(
        max_rooms: EnvReading,
        queue_size: EnvReading,
        queue_timeout: EnvReading,
    ) -> (r: Result<Self, String>)
        ensures
            r is Ok ==> r->Ok_0.wf() && r->Ok_0@ == Map::<Seq<char>, WorkerRooms>::empty(),
            config_result_is(
                match r {
                    Ok(admission) => Ok(admission.settings()),
                    Err(message) => Err(message),
                },
                env_outcome(max_rooms@, queue_size@, queue_timeout@),
            ),
    {
        match PrefillAdmissionConfig::from_env(max_rooms, queue_size, queue_timeout) {
            Ok(config) => Ok(Self::new(config)),
            Err(message) => Err(message),
        }
    }

    /// The settings of the limiter, where it is on.
    pub fn config(&self) -> (r: Option<PrefillAdmissionConfig>)
        ensures
            r == self.settings(),
    {
        self.config
    }

    /// The place of a worker in the books, made first where it has none.
    fn state_for(&mut self, worker: &str, config: PrefillAdmissionConfig) -> (slot: usize)
        requires
            old(self).wf(),
            old(self).settings() == Some(config),
            config.max_rooms_per_worker <= usize::MAX / 8,
        ensures
            final(self).wf(),
            final(self).settings() == old(self).settings(),
            final(self)@ == with_worker(old(self)@, worker@, final(self)@[worker@].semaphore),
            slot < final(self).states@.len(),
            final(self).states@[slot as int].name() == worker@,
            slots_of(final(self).slots).dom().contains(worker@),
            slots_of(final(self).slots)[worker@] == slot,
    {
        let fresh: usize = self.states.len();
        let slot: usize = slot_or_insert(&mut self.slots, worker, fresh);
        if slot == fresh {
            self.states.push(PrefillWorkerAdmission::new(worker, config.max_rooms_per_worker));
        }
        proof {
            let before = slots_of(old(self).slots);
            let after = slots_of(self.slots);
            if before.dom().contains(worker@) {
                assert(slot != fresh);
                assert(after =~= before);
            } else {
                assert(slot == fresh);
                assert forall|i: int| 0 <= i < old(self).states@.len() implies old(
                    self,
                ).states@[i].name() != worker@ by {
                    assert(before.dom().contains(old(self).states@[i].name()));
                }
                assert forall|i: int| 0 <= i < self.states@.len() implies after.dom().contains(
                    #[trigger] self.states@[i].name(),
                ) && after[self.states@[i].name()] == i by {
                    if i < fresh {
                        assert(self.states@[i] == old(self).states@[i]);
                    }
                }
            }
            assert(self@ =~= with_worker(old(self)@, worker@, self@[worker@].semaphore));
        }
        slot
    }

    /// The counters of a worker, where it has been asked for rooms.
    pub fn counters(&self, worker: &str) -> (r: Option<(usize, usize)>)
        requires
            self.wf(),
        ensures
            match r {
                Some((active, queued)) => self@.dom().contains(worker@) && self@[worker@].active
                    == active && self@[worker@].queued == queued,
                None => !self@.dom().contains(worker@),
            },
    {
        match find_slot(&self.slots, worker) {
            Some(slot) => Some((self.states[slot].active_rooms, self.states[slot].queued_requests)),
            None => None,
        }
    }

    /// What is shown of the rooms of a worker, where it has been asked for rooms.
    pub fn gauges(&self, worker: &str) -> (r: Option<RoomGauges>)
        requires
            self.wf(),
        ensures
            r is Some <==> self@.dom().contains(worker@),
            r is Some ==> r->0 == (RoomGauges {
                active_rooms: self@[worker@].active,
                queued_requests: self@[worker@].queued,
                room_limit: self.settings()->0.max_rooms_per_worker,
            }),
    {
        match (self.counters(worker), self.config) {
            (Some((active_rooms, queued_requests)), Some(config)) => Some(
                RoomGauges {
                    active_rooms,
                    queued_requests,
                    room_limit: config.max_rooms_per_worker,
                },
            ),
            (Some(_), None) => {
                proof {
                    self.law_books_keep_to_the_settings(worker@);
                }
                None
            },
            _ => None,
        }
    }

    /// Sets the counters of a worker.
    fn set_counters(&mut self, worker: &str, active: usize, queued: usize)
        requires
            old(self).wf(),
            old(self)@.dom().contains(worker@),
            old(self).settings() is Some ==> queued <= old(
                self,
            ).settings()->0.queue_size_per_worker,
        ensures
            final(self).wf(),
            final(self).settings() == old(self).settings(),
            final(self)@ == old(self)@.insert(
                worker@,
                WorkerRooms { active, queued, ..old(self)@[worker@] },
            ),
    {
        match find_slot(&self.slots, worker) {
            Some(slot) => {
                self.states[slot].active_rooms = active;
                self.states[slot].queued_requests = queued;
                proof {
                    assert forall|i: int| 0 <= i < self.states@.len() implies (
                    #[trigger] self.states@[i]).name() == old(self).states@[i].name() by {}
                    assert forall|name: Seq<char>|
                        slots_of(self.slots).dom().contains(name) && name
                            != worker@ implies #[trigger] slots_of(self.slots)[name] != slot by {
                        assert(old(self).states@[slots_of(self.slots)[name] as int].name() == name);
                    }
                    assert(self@ =~= old(self)@.insert(
                        worker@,
                        WorkerRooms { active, queued, ..old(self)@[worker@] },
                    ));
                }
            },
            None => {},
        }
    }

    /// Settles a try for rooms of a worker: a permit admits the request, a lack
    /// of permits queues it where the queue has a place left.
    pub fn settle(&mut self, worker: &str, rooms: u32, tried: TryRooms) -> (step: AcquireStep)
        requires
            old(self).wf(),
            old(self).settings() is Some,
            old(self)@.dom().contains(worker@),
        ensures
            final(self).wf(),
            final(self).settings() == old(self).settings(),
            admission_is(
                old(self).settings()->0,
                worker@,
                rooms as usize,
                tried,
                old(self)@[worker@],
                step,
            ),
            final(self)@ == books_after_call(
                old(self).settings()->0,
                old(self)@,
                RoomCall::Settle { worker: worker@, rooms: rooms as usize, tried },
            ),
    {
        let name = worker.to_string();
        let (slot, config): (usize, PrefillAdmissionConfig) = match (
            find_slot(&self.slots, worker),
            self.config,
        ) {
            (Some(slot), Some(config)) => (slot, config),
            _ => {
                return AcquireStep::Unlimited;
            },
        };
        let active: usize = self.states[slot].active_rooms;
        let queued: usize = self.states[slot].queued_requests;
        assert(self@[worker@] == self.states@[slot as int].kept());
        proof {
            let call = RoomCall::Settle { worker: worker@, rooms: rooms as usize, tried };
            lemma_few_events(self@[worker@], call_events(config, self@[worker@], call));
            assert(self@.insert(worker@, self@[worker@]) =~= self@);
        }
        match tried {
            TryRooms::Permit(permit) => {
                let rooms: usize = rooms as usize;
                self.set_counters(worker, active.wrapping_add(rooms), queued);
                AcquireStep::Admitted(PrefillRoomPermit { worker: name, rooms, permit })
            },
            TryRooms::Closed => AcquireStep::Rejected(
                PrefillAdmissionError::Closed { worker: name },
            ),
            TryRooms::NoPermits => if queued < config.queue_size_per_worker {
                let semaphore = self.states[slot].semaphore.clone();
                self.set_counters(worker, active, queued + 1);
                AcquireStep::Queued(
                    PrefillQueueGuard {
                        worker: name,
                        rooms,
                        semaphore,
                        timeout: config.queue_timeout,
                    },
                )
            } else {
                AcquireStep::Rejected(
                    PrefillAdmissionError::QueueFull {
                        worker: name,
                        queue_limit: config.queue_size_per_worker,
                    },
                )
            },
        }
    }

    /// Asks for rooms of a worker. A request that asks for none is counted as
    /// asking for one.
    ///
    /// Which of permit, lack of permits and closure comes is up to the
    /// semaphore of the worker; what is made of each, [`PrefillAdmission::settle`] says.
    pub fn acquire(&mut self, worker: &str, requested_rooms: usize) -> (step: AcquireStep)
        requires
            old(self).wf(),
            old(self).is_countable(),
        ensures
            final(self).wf(),
            final(self).settings() == old(self).settings(),
            match old(self).settings() {
                None => step is Unlimited && final(self)@ == old(self)@,
                Some(config) => {
                    let rooms = asked_rooms(requested_rooms);
                    let known = books_after_call(
                        config,
                        old(self)@,
                        RoomCall::Meet {
                            worker: worker@,
                            semaphore: final(self)@[worker@].semaphore,
                        },
                    );
                    if rooms > config.max_rooms_per_worker {
                        &&& step is Rejected
                        &&& step->Rejected_0@ == (Rejection::RequestTooLarge {
                            worker: worker@,
                            requested_rooms: rooms,
                            room_limit: config.max_rooms_per_worker,
                        })
                        &&& final(self)@ == known
                    } else {
                        exists|tried: TryRooms|
                            (tried is Permit ==> permits_held(tried->Permit_0) == rooms
                                && permit_source(tried->Permit_0) == known[worker@].semaphore)
                                && #[trigger] admission_is(
                                config,
                                worker@,
                                rooms,
                                tried,
                                known[worker@],
                                step,
                            ) && final(self)@ == books_after_call(
                                config,
                                known,
                                RoomCall::Settle { worker: worker@, rooms, tried },
                            )
                    }
                },
            },
    {
        let config: PrefillAdmissionConfig = match self.config {
            Some(config) => config,
            None => {
                return AcquireStep::Unlimited;
            },
        };
        let rooms: usize = if requested_rooms == 0 {
            1
        } else {
            requested_rooms
        };
        let slot: usize = self.state_for(worker, config);
        if rooms > config.max_rooms_per_worker {
            return AcquireStep::Rejected(
                PrefillAdmissionError::RequestTooLarge {
                    worker: worker.to_string(),
                    requested_rooms: rooms,
                    room_limit: config.max_rooms_per_worker,
                },
            );
        }
        let ghost known = self@;
        assert(known[worker@] == self.states@[slot as int].kept());
        let tried = try_rooms(&self.states[slot].semaphore, rooms as u32);
        proof {
            let call = RoomCall::Settle { worker: worker@, rooms, tried };
            lemma_few_events(known[worker@], call_events(config, known[worker@], call));
        }
        let step = self.settle(worker, rooms as u32, tried);
        assert(self@[worker@].semaphore == known[worker@].semaphore);
        assert(known == books_after_call(
            config,
            old(self)@,
            RoomCall::Meet { worker: worker@, semaphore: self@[worker@].semaphore },
        ));
        step
    }

    /// Takes a request out of the queue.
    pub fn leave_queue(&mut self, guard: PrefillQueueGuard)
        requires
            old(self).wf(),
            old(self)@.dom().contains(guard.worker@),
            old(self)@[guard.worker@].queued > 0,
        ensures
            final(self).wf(),
            final(self).settings() == old(self).settings(),
            final(self)@ == books_after_call(
                old(self).settings()->0,
                old(self)@,
                RoomCall::Quit { worker: guard.worker@ },
            ),
    {
        proof {
            lemma_few_events(self@[guard.worker@], seq![RoomEvent::Leave]);
        }
        match self.counters(guard.worker.as_str()) {
            Some((active, queued)) => {
                proof {
                    self.law_books_keep_to_the_settings(guard.worker@);
                }
                self.set_counters(guard.worker.as_str(), active, queued - 1);
            },
            None => {},
        }
    }

    /// Takes a request out of the queue once its wait has ended, and admits it
    /// where a permit came.
    pub fn finish_wait(&mut self, guard: PrefillQueueGuard, outcome: WaitOutcome) -> (r: Result<
        PrefillRoomPermit,
        PrefillAdmissionError,
    >)
        requires
            old(self).wf(),
            old(self)@.dom().contains(guard.worker@),
            old(self)@[guard.worker@].queued > 0,
        ensures
            final(self).wf(),
            final(self).settings() == old(self).settings(),
            wait_is(guard.worker@, guard.rooms as usize, guard.timeout, outcome, r),
            final(self)@ == books_after_call(
                old(self).settings()->0,
                old(self)@,
                RoomCall::Wait { worker: guard.worker@, rooms: guard.rooms as usize, outcome },
            ),
    {
        let worker = guard.worker.clone();
        let rooms: usize = guard.rooms as usize;
        let timeout = guard.timeout;
        proof {
            let kept = self@[worker@];
            lemma_few_events(kept, seq![RoomEvent::Leave]);
            lemma_few_events(kept, seq![RoomEvent::Leave, RoomEvent::Take(rooms)]);
        }
        self.leave_queue(guard);
        match outcome {
            WaitOutcome::Permit(permit) => {
                match self.counters(worker.as_str()) {
                    Some((active, queued)) => {
                        proof {
                            self.law_books_keep_to_the_settings(worker@);
                        }
                        self.set_counters(worker.as_str(), active.wrapping_add(rooms), queued);
                    },
                    None => {},
                }
                proof {
                    let kept = left(old(self)@[worker@]);
                    assert(old(self)@.insert(worker@, kept).insert(
                        worker@,
                        taken(kept, rooms),
                    ) =~= old(self)@.insert(worker@, taken(kept, rooms)));
                }
                Ok(PrefillRoomPermit { worker, rooms, permit })
            },
            WaitOutcome::Closed => Err(PrefillAdmissionError::Closed { worker }),
            WaitOutcome::TimedOut => Err(PrefillAdmissionError::Timeout { worker, timeout }),
        }
    }

    /// Gives rooms back. The permits of the semaphore are freed once the
    /// counter no longer counts them.
    pub fn release(&mut self, permit: PrefillRoomPermit)
        requires
            old(self).wf(),
            old(self)@.dom().contains(permit.worker@),
            old(self)@[permit.worker@].active >= permit.rooms,
        ensures
            final(self).wf(),
            final(self).settings() == old(self).settings(),
            final(self)@ == books_after_call(
                old(self).settings()->0,
                old(self)@,
                RoomCall::Release { worker: permit.worker@, rooms: permit.rooms },
            ),
    {
        proof {
            lemma_few_events(self@[permit.worker@], seq![RoomEvent::Free(permit.rooms)]);
        }
        match self.counters(permit.worker.as_str()) {
            Some((active, queued)) => {
                proof {
                    self.law_books_keep_to_the_settings(permit.worker@);
                }
                self.set_counters(permit.worker.as_str(), active - permit.rooms, queued);
            },
            None => {},
        }
    }

    /// The queue for a worker is never longer than the settings let it be, its
    /// semaphore was made with as many permits as they give it rooms, and
    /// without a limiter no worker is in the books.
    pub proof fn law_books_keep_to_the_settings(&self, worker: Seq<char>)
        requires
            self.wf(),
            self@.dom().contains(worker),
        ensures
            self.settings() is Some,
            self@[worker].queued <= self.settings()->0.queue_size_per_worker,
            made_with(self@[worker].semaphore) == self.settings()->0.max_rooms_per_worker,
    {
        let slot = slots_of(self.slots)[worker] as int;
        assert(slots_of(self.slots).dom().contains(worker));
        assert(self.states@[slot].kept() == self@[worker]);
    }
}

/// A duration in seconds, with three decimals.
pub uninterp spec fn shown_seconds(nanos: nat) -> Seq<char>;

/// `std::time::Duration::as_secs_f64`, written with three decimals, whose
/// result is named by [`shown_seconds`]. Whole seconds, as long as a double
/// holds them exactly, are written in digits with three zeros.
#[verifier::external_body]
fn write_seconds(duration: Duration) -> (r: String)
    ensures
        r@ == shown_seconds(duration_nanos(duration)),
        forall|secs: nat|
            secs < 9_007_199_254_740_992 && duration_nanos(duration) == #[trigger] whole_seconds(
                secs,
            ) ==> r@ == decimal(secs) + ".000"@,
{
    format!("{:.3}", duration.as_secs_f64())
}

/// The nanoseconds of whole seconds.
pub open spec fn whole_seconds(secs: nat) -> nat {
    secs * 1_000_000_000
}

/// The reply to a request that waited too long, with the seconds given as they are shown.
pub open spec fn timed_out(worker: Seq<char>, seconds: Seq<char>) -> ErrorText {
    ErrorText {
        status: TOO_MANY_REQUESTS,
        code: "prefill_room_queue_timeout"@,
        message: "Timed out after "@ + seconds + "s waiting for a Prefill room on worker "@ + worker,
    }
}

/// The reply to a request that gets no rooms.
pub open spec fn rejection_reply(rejection: Rejection) -> ErrorText {
    match rejection {
        Rejection::RequestTooLarge { worker, requested_rooms, room_limit } => ErrorText {
            status: TOO_MANY_REQUESTS,
            code: "prefill_room_request_too_large"@,
            message: "Request needs "@ + decimal(requested_rooms as nat)
                + " Prefill rooms, but worker "@ + worker + " has a "@ + decimal(room_limit as nat)
                + "-room limit"@,
        },
        Rejection::QueueFull { worker, queue_limit } => ErrorText {
            status: TOO_MANY_REQUESTS,
            code: "prefill_room_queue_full"@,
            message: "Router Prefill room queue for worker "@ + worker + " reached "@ + decimal(
                queue_limit as nat,
            ) + " requests"@,
        },
        Rejection::Timeout { worker, timeout } => timed_out(
            worker,
            shown_seconds(duration_nanos(timeout)),
        ),
        Rejection::Closed { worker } => ErrorText {
            status: SERVICE_UNAVAILABLE,
            code: "prefill_room_admission_closed"@,
            message: "Prefill room admission closed for worker "@ + worker,
        },
    }
}

impl PDRouter {
    /// The reply to a request that waited too long.
    pub fn timed_out_reply(worker: &str, seconds: &str) -> (r: ErrorReply)
        ensures
            r@ == timed_out(worker@, seconds@),
    {
        create_error(
            TOO_MANY_REQUESTS,
            "prefill_room_queue_timeout",
            cat4("Timed out after ", seconds, "s waiting for a Prefill room on worker ", worker),
        )
    }

    /// The reply to a request that gets no rooms.
    ///
    /// Overload is answered as such and not as a failure of a worker, so that
    /// the request is not put back into the queue at once.
    pub fn handle_prefill_admission_error(error: PrefillAdmissionError) -> (r: ErrorReply)
        ensures
            r@ == rejection_reply(error@),
    {
        match error {
            PrefillAdmissionError::RequestTooLarge { worker, requested_rooms, room_limit } => {
                let requested = decimal_text(requested_rooms as u64);
                let limit = decimal_text(room_limit as u64);
                let start = cat4(
                    "Request needs ",
                    requested.as_str(),
                    " Prefill rooms, but worker ",
                    worker.as_str(),
                );
                create_error(
                    TOO_MANY_REQUESTS,
                    "prefill_room_request_too_large",
                    cat4(start.as_str(), " has a ", limit.as_str(), "-room limit"),
                )
            },
            PrefillAdmissionError::QueueFull { worker, queue_limit } => {
                let limit = decimal_text(queue_limit as u64);
                create_error(
                    TOO_MANY_REQUESTS,
                    "prefill_room_queue_full",
                    cat5(
                        "Router Prefill room queue for worker ",
                        worker.as_str(),
                        " reached ",
                        limit.as_str(),
                        " requests",
                    ),
                )
            },
            PrefillAdmissionError::Timeout { worker, timeout } => {
                let seconds = write_seconds(timeout);
                Self::timed_out_reply(worker.as_str(), seconds.as_str())
            },
            PrefillAdmissionError::Closed { worker } => create_error(
                SERVICE_UNAVAILABLE,
                "prefill_room_admission_closed",
                cat2("Prefill room admission closed for worker ", worker.as_str()),
            ),
        }
    }
}

/// Overload is answered with 429, never with a server error; only a closed
/// admission is answered as one.
pub proof fn law_overload_is_not_a_server_error(rejection: Rejection)
    ensures
        rejection is Closed ==> rejection_reply(rejection).status == 503,
        rejection !is Closed ==> rejection_reply(rejection).status == 429
            && !crate::status::is_server_error(rejection_reply(rejection).status),
{
}

/// Giving rooms back undoes taking them, and leaving the queue undoes joining it.
pub proof fn law_giving_back_undoes_taking(kept: WorkerRooms, rooms: usize)
    ensures
        kept.active + rooms <= usize::MAX ==> freed(taken(kept, rooms), rooms) == kept,
        kept.queued < usize::MAX ==> left(joined(kept)) == kept,
{
}

/// Every call is at most two events on its worker, and leaves every other worker alone.
pub proof fn law_a_call_concerns_one_worker(
    config: PrefillAdmissionConfig,
    books: Map<Seq<char>, WorkerRooms>,
    call: RoomCall,
    other: Seq<char>,
)
    ensures
        call_events(config, books[call_worker(call)], call).len() <= 2,
        other != call_worker(call) ==> {
            let after = books_after_call(config, books, call);
            &&& after.dom().contains(other) == books.dom().contains(other)
            &&& books.dom().contains(other) ==> after[other] == books[other]
        },
{
}

/// The books after calls, from the start.
pub open spec fn books_after_calls(config: PrefillAdmissionConfig, calls: Seq<RoomCall>) -> Map<
    Seq<char>,
    WorkerRooms,
>
    decreases calls.len(),
{
    if calls.len() == 0 {
        Map::empty()
    } else {
        books_after_call(config, books_after_calls(config, calls.drop_last()), calls.last())
    }
}

/// Whether every call is one that may be made when it is made.
pub open spec fn are_allowed(config: PrefillAdmissionConfig, calls: Seq<RoomCall>) -> bool
    decreases calls.len(),
{
    calls.len() > 0 ==> {
        &&& are_allowed(config, calls.drop_last())
        &&& is_allowed(books_after_calls(config, calls.drop_last()), calls.last())
    }
}

/// The rooms that a call takes.
pub open spec fn rooms_taken(call: RoomCall) -> Option<usize> {
    match call {
        RoomCall::Settle { worker, rooms, tried: TryRooms::Permit(permit) } => Some(rooms),
        RoomCall::Wait { worker, rooms, outcome: WaitOutcome::Permit(permit) } => Some(rooms),
        _ => None,
    }
}

/// The rooms of every permit of a worker that is out after calls, one entry for
/// each permit: a call that takes rooms adds one, and giving one back removes it.
pub open spec fn live_permits(calls: Seq<RoomCall>, worker: Seq<char>) -> Seq<usize>
    decreases calls.len(),
{
    if calls.len() == 0 {
        Seq::empty()
    } else {
        let before = live_permits(calls.drop_last(), worker);
        let call = calls.last();
        if call_worker(call) != worker {
            before
        } else if call is Release {
            before.remove(before.index_of(call->Release_rooms))
        } else if rooms_taken(call) is Some {
            before.push(rooms_taken(call)->0)
        } else {
            before
        }
    }
}

/// The requests that wait for rooms of a worker after calls: a try that finds no
/// permits but a place in the queue adds one, and the end of a wait removes one.
pub open spec fn live_waits(
    config: PrefillAdmissionConfig,
    calls: Seq<RoomCall>,
    worker: Seq<char>,
) -> int
    decreases calls.len(),
{
    if calls.len() == 0 {
        0
    } else {
        let before = live_waits(config, calls.drop_last(), worker);
        let kept = books_after_calls(config, calls.drop_last())[worker];
        let call = calls.last();
        if call_worker(call) != worker {
            before
        } else if call is Wait || call is Quit {
            before - 1
        } else if call_events(config, kept, call) == seq![RoomEvent::Join] {
            before + 1
        } else {
            before
        }
    }
}

/// The sum of rooms.
pub open spec fn total(rooms: Seq<usize>) -> int
    decreases rooms.len(),
{
    if rooms.len() == 0 {
        0
    } else {
        total(rooms.drop_last()) + rooms.last()
    }
}

/// Whether a worker has been asked for rooms.
pub open spec fn was_met(calls: Seq<RoomCall>, worker: Seq<char>) -> bool {
    exists|i: int|
        0 <= i < calls.len() && #[trigger] calls[i] is Meet && call_worker(calls[i]) == worker
}

/// Whether permits and places in a queue are used as things are that one owns: a
/// try follows the asking, what is given back is a permit that is out, and the end
/// of a wait is that of one that is under way. So none is used twice.
pub open spec fn each_is_used_once(config: PrefillAdmissionConfig, calls: Seq<RoomCall>) -> bool
    decreases calls.len(),
{
    calls.len() > 0 ==> {
        let before = calls.drop_last();
        let call = calls.last();
        let worker = call_worker(call);
        &&& each_is_used_once(config, before)
        &&& call is Settle ==> was_met(before, worker)
        &&& call is Wait || call is Quit ==> live_waits(config, before, worker) > 0
        &&& call is Release ==> live_permits(before, worker).contains(call->Release_rooms)
    }
}

/// Whether a counter could hold the rooms of a worker that were out all along.
pub open spec fn rooms_fit(calls: Seq<RoomCall>, worker: Seq<char>) -> bool
    decreases calls.len(),
{
    &&& total(live_permits(calls, worker)) <= usize::MAX
    &&& calls.len() > 0 ==> rooms_fit(calls.drop_last(), worker)
}

/// Whether the semaphore of a worker only ever gave permits that were free: with
/// every permit, the rooms that were out and those of the permit were no more than
/// the settings give the worker.
pub open spec fn permits_were_free(
    config: PrefillAdmissionConfig,
    calls: Seq<RoomCall>,
    worker: Seq<char>,
) -> bool
    decreases calls.len(),
{
    calls.len() > 0 ==> {
        &&& permits_were_free(config, calls.drop_last(), worker)
        &&& call_worker(calls.last()) == worker && rooms_taken(calls.last()) is Some ==> total(
            live_permits(calls.drop_last(), worker),
        ) + rooms_taken(calls.last())->0 <= config.max_rooms_per_worker
    }
}

proof fn lemma_total_without(rooms: Seq<usize>, i: int)
    requires
        0 <= i < rooms.len(),
    ensures
        total(rooms.remove(i)) == total(rooms) - rooms[i],
        total(rooms) >= rooms[i],
    decreases rooms.len(),
{
    lemma_total_not_negative(rooms.drop_last());
    if i == rooms.len() - 1 {
        assert(rooms.remove(i) =~= rooms.drop_last());
    } else {
        lemma_total_without(rooms.drop_last(), i);
        assert(rooms.remove(i).drop_last() =~= rooms.drop_last().remove(i));
        assert(rooms.remove(i).last() == rooms.last());
    }
}

proof fn lemma_total_not_negative(rooms: Seq<usize>)
    ensures
        total(rooms) >= 0,
    decreases rooms.len(),
{
    if rooms.len() > 0 {
        lemma_total_not_negative(rooms.drop_last());
    }
}

/// Whatever calls are made, for whatever workers and in whatever order, finished
/// or given up: the counter of active rooms of a worker is the sum of the rooms of
/// its permits that are out, as long as a counter can hold it, and the counter of
/// queued requests is the number of those that wait, which never exceeds the size
/// of the queue.
pub proof fn law_counters_are_true(
    config: PrefillAdmissionConfig,
    calls: Seq<RoomCall>,
    worker: Seq<char>,
)
    requires
        each_is_used_once(config, calls),
        rooms_fit(calls, worker),
    ensures
        ({
            let books = books_after_calls(config, calls);
            let rooms = total(live_permits(calls, worker));
            let waits = live_waits(config, calls, worker);
            &&& was_met(calls, worker) <==> books.dom().contains(worker)
            &&& 0 <= waits <= config.queue_size_per_worker
            &&& books.dom().contains(worker) ==> books[worker].active == rooms
                && books[worker].queued == waits
            &&& !books.dom().contains(worker) ==> live_permits(calls, worker).len() == 0 && waits
                == 0
        }),
    decreases calls.len(),
{
    if calls.len() > 0 {
        let shorter = calls.drop_last();
        let call = calls.last();
        let before = books_after_calls(config, shorter);
        let kept = before[worker];
        law_counters_are_true(config, shorter, worker);
        law_a_call_concerns_one_worker(config, before, call, worker);
        lemma_was_met(calls, worker);
        if call_worker(call) == worker {
            let events = call_events(config, kept, call);
            lemma_few_events(kept, events);
            let out = live_permits(shorter, worker);
            if rooms_taken(call) is Some {
                assert(out.push(rooms_taken(call)->0).drop_last() =~= out);
            }
            if call is Release {
                lemma_total_without(out, out.index_of(call->Release_rooms));
            }
            if call is Settle {
                assert(events.len() == 1 ==> events =~= seq![events[0]]);
                assert(seq![RoomEvent::Join][0] == RoomEvent::Join);
                assert(seq![RoomEvent::Take(call->Settle_rooms)][0] != RoomEvent::Join);
            }
        }
    }
}

/// Where the semaphore of a worker gives only permits that are free, the rooms of
/// its permits that are out never exceed the limit together, and the counters of
/// the worker are true and within their limits.
pub proof fn law_counters_are_true_and_within_limits(
    config: PrefillAdmissionConfig,
    calls: Seq<RoomCall>,
    worker: Seq<char>,
)
    requires
        each_is_used_once(config, calls),
        permits_were_free(config, calls, worker),
    ensures
        rooms_fit(calls, worker),
        0 <= total(live_permits(calls, worker)) <= config.max_rooms_per_worker,
        books_after_calls(config, calls).dom().contains(worker) ==> {
            let kept = books_after_calls(config, calls)[worker];
            &&& kept.active == total(live_permits(calls, worker))
            &&& kept.active <= config.max_rooms_per_worker
            &&& kept.queued == live_waits(config, calls, worker)
            &&& kept.queued <= config.queue_size_per_worker
        },
{
    lemma_rooms_stay_within_the_limit(config, calls, worker);
    law_counters_are_true(config, calls, worker);
}

proof fn lemma_rooms_stay_within_the_limit(
    config: PrefillAdmissionConfig,
    calls: Seq<RoomCall>,
    worker: Seq<char>,
)
    requires
        each_is_used_once(config, calls),
        permits_were_free(config, calls, worker),
    ensures
        rooms_fit(calls, worker),
        0 <= total(live_permits(calls, worker)) <= config.max_rooms_per_worker,
    decreases calls.len(),
{
    lemma_total_not_negative(live_permits(calls, worker));
    if calls.len() > 0 {
        let call = calls.last();
        let out = live_permits(calls.drop_last(), worker);
        lemma_rooms_stay_within_the_limit(config, calls.drop_last(), worker);
        if rooms_taken(call) is Some {
            assert(out.push(rooms_taken(call)->0).drop_last() =~= out);
        }
        if call is Release && call_worker(call) == worker {
            lemma_total_without(out, out.index_of(call->Release_rooms));
        }
    }
}

proof fn lemma_was_met(calls: Seq<RoomCall>, worker: Seq<char>)
    requires
        calls.len() > 0,
    ensures
        was_met(calls, worker) <==> was_met(calls.drop_last(), worker) || (calls.last() is Meet
            && call_worker(calls.last()) == worker),
{
    let shorter = calls.drop_last();
    if was_met(shorter, worker) {
        let i = choose|i: int|
            0 <= i < shorter.len() && #[trigger] shorter[i] is Meet && call_worker(shorter[i])
                == worker;
        assert(calls[i] == shorter[i]);
    }
    if was_met(calls, worker) {
        let i = choose|i: int|
            0 <= i < calls.len() && #[trigger] calls[i] is Meet && call_worker(calls[i]) == worker;
        if i < shorter.len() {
            assert(calls[i] == shorter[i]);
        }
    }
    assert(calls[calls.len() - 1] == calls.last());
}

/// Where permits and places in a queue are used once, every call may be made when
/// it is made: giving back never takes a counter below zero.
pub proof fn law_what_is_used_once_is_allowed(
    config: PrefillAdmissionConfig,
    calls: Seq<RoomCall>,
)
    requires
        each_is_used_once(config, calls),
        forall|worker: Seq<char>| #[trigger] rooms_fit(calls, worker),
    ensures
        are_allowed(config, calls),
    decreases calls.len(),
{
    if calls.len() > 0 {
        let shorter = calls.drop_last();
        let call = calls.last();
        let worker = call_worker(call);
        assert forall|worker: Seq<char>| #[trigger] rooms_fit(shorter, worker) by {
            assert(rooms_fit(calls, worker));
        }
        law_what_is_used_once_is_allowed(config, shorter);
        law_counters_are_true(config, shorter, worker);
        if call is Release {
            let out = live_permits(shorter, worker);
            lemma_total_without(out, out.index_of(call->Release_rooms));
        }
    }
}

/// When every permit of a worker is given back its counter of active rooms is zero,
/// and when nobody waits its counter of queued requests is.
pub proof fn law_nothing_out_counts_nothing(
    config: PrefillAdmissionConfig,
    calls: Seq<RoomCall>,
    worker: Seq<char>,
)
    requires
        each_is_used_once(config, calls),
        rooms_fit(calls, worker),
        books_after_calls(config, calls).dom().contains(worker),
    ensures
        live_permits(calls, worker).len() == 0 ==> books_after_calls(config, calls)[worker].active
            == 0,
        live_waits(config, calls, worker) == 0 ==> books_after_calls(config, calls)[worker].queued
            == 0,
{
    law_counters_are_true(config, calls, worker);
}

} // verus!
