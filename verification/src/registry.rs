//! The registry of requests in flight.
//!
//! Each kind of operation has one slot, and a slot holds at most one request.
//! Starting a request gives it the next generation number, signals the
//! cancellation of the request that the slot held and puts the new one in its
//! place. A request that ends clears its slot only if the slot still holds it.

use futures_util::future::{AbortHandle, AbortRegistration};
use vstd::prelude::*;

verus! {

/// `futures_util::future::AbortHandle`, kept as it is: the capability to stop
/// one task.
#[verifier::external_type_specification]
#[verifier::external_body]
pub struct ExAbortHandle(AbortHandle);

/// `futures_util::future::AbortRegistration`, kept as it is: what a task is
/// run under so that its handle can stop it.
#[verifier::external_type_specification]
#[verifier::external_body]
pub struct ExAbortRegistration(AbortRegistration);

/// The pair that a handle belongs to: what it shares with the registration
/// that was made together with it.
pub uninterp spec fn handle_pair(handle: AbortHandle) -> int;

/// The pair that a registration belongs to: what it shares with the handle
/// that was made together with it.
pub uninterp spec fn registration_pair(registration: AbortRegistration) -> int;

/// `AbortHandle::new_pair`: a handle and a registration that belong to one
/// pair, so that the handle stops the task that is run under the
/// registration.
#[verifier::external_body]
fn new_pair() -> (pair: (AbortHandle, AbortRegistration))
    ensures
        handle_pair(pair.0) == registration_pair(pair.1),
{
    AbortHandle::new_pair()
}

/// `AbortHandle::abort`: tells the task that is run under the registration of
/// the handle's pair to stop. Nothing comes back from it.
#[verifier::external_body]
fn abort(handle: &AbortHandle) {
    handle.abort()
}

/// The kinds of operation that the registry keeps apart.
#[derive(Debug, Clone, Copy, PartialEq, Eq, Structural)]
pub enum Slot {
    QuickAnswer,
    Translation,
}

/// What a slot holds: the generation of a request, and the pair of the
/// handle that stops it.
pub struct Held {
    pub generation: u64,
    pub pair: int,
}

/// The mathematical state of a registry.
pub struct RegistryState {
    /// The number of generations given out so far; also the last one given.
    pub issued: nat,
    /// What the quick-answer slot holds.
    pub quick_answer: Option<Held>,
    /// What the translation slot holds.
    pub translation: Option<Held>,
    /// The generations whose cancellation has been signalled, oldest first.
    pub cancelled: Seq<u64>,
}

/// How often `generation` occurs in `log`.
pub open spec fn occurrences(log: Seq<u64>, generation: u64) -> nat
    decreases log.len(),
{
    if log.len() == 0 {
        0
    } else {
        occurrences(log.drop_last(), generation) + if log.last() == generation {
            1nat
        } else {
            0nat
        }
    }
}

impl RegistryState {
    /// The state of a registry that has seen no request.
    pub open spec fn empty() -> RegistryState {
        RegistryState { issued: 0, quick_answer: None, translation: None, cancelled: Seq::empty() }
    }

    /// What a slot holds.
    pub open spec fn held(self, slot: Slot) -> Option<Held> {
        match slot {
            Slot::QuickAnswer => self.quick_answer,
            Slot::Translation => self.translation,
        }
    }

    /// The generation that a slot holds.
    pub open spec fn occupant(self, slot: Slot) -> Option<u64> {
        match self.held(slot) {
            Some(held) => Some(held.generation),
            None => None,
        }
    }

    /// This state with another occupant in one slot.
    pub open spec fn with_occupant(self, slot: Slot, occupant: Option<Held>) -> RegistryState {
        match slot {
            Slot::QuickAnswer => RegistryState { quick_answer: occupant, ..self },
            Slot::Translation => RegistryState { translation: occupant, ..self },
        }
    }

    /// This state after the occupant of a slot, if there is one, has been
    /// told to stop.
    pub open spec fn with_signal(self, slot: Slot) -> RegistryState {
        match self.occupant(slot) {
            Some(generation) => RegistryState {
                cancelled: self.cancelled.push(generation),
                ..self
            },
            None => self,
        }
    }

    /// The state after a request has been started in a slot: the occupant is
    /// told to stop, and the next generation takes its place, with the handle
    /// of the pair under which the new request runs.
    pub open spec fn start(self, slot: Slot, pair: int) -> RegistryState {
        let next = (self.issued + 1) as nat;
        RegistryState { issued: next, ..self.with_signal(slot) }.with_occupant(
            slot,
            Some(Held { generation: next as u64, pair }),
        )
    }

    /// The state after the request of a generation has ended: the slot is
    /// cleared if it holds that generation, and nothing changes otherwise.
    pub open spec fn finish(self, slot: Slot, generation: u64) -> RegistryState {
        if self.occupant(slot) == Some(generation) {
            self.with_occupant(slot, None)
        } else {
            self
        }
    }

    /// The state after the request in a slot has been cancelled: the occupant
    /// is told to stop and the slot is cleared.
    pub open spec fn cancel(self, slot: Slot) -> RegistryState {
        self.with_signal(slot).with_occupant(slot, None)
    }

    /// The state after requests have been started in a slot, one after the
    /// other, each under its pair.
    pub open spec fn start_many(self, slot: Slot, pairs: Seq<int>) -> RegistryState
        decreases pairs.len(),
    {
        if pairs.len() == 0 {
            self
        } else {
            self.start_many(slot, pairs.drop_last()).start(slot, pairs.last())
        }
    }

    /// Whether `occupant` may be held: it is a generation that was given
    /// out and whose cancellation has not been signalled.
    pub open spec fn may_hold(self, occupant: Option<u64>) -> bool {
        occupant.is_some() ==> 1 <= occupant.unwrap() <= self.issued && occurrences(
            self.cancelled,
            occupant.unwrap(),
        ) == 0
    }

    /// What holds of every state that a registry can reach: the slots hold
    /// different generations, each of which was given out and has not been
    /// cancelled, and no generation was cancelled twice or before it was
    /// given out.
    pub open spec fn wf(self) -> bool {
        &&& self.issued <= u64::MAX
        &&& self.may_hold(self.occupant(Slot::QuickAnswer))
        &&& self.may_hold(self.occupant(Slot::Translation))
        &&& self.quick_answer.is_some() ==> self.occupant(Slot::QuickAnswer) != self.occupant(
            Slot::Translation,
        )
        &&& forall|g: u64|
            #![trigger occurrences(self.cancelled, g)]
            occurrences(self.cancelled, g) <= 1 && (g > self.issued ==> occurrences(
                self.cancelled,
                g,
            ) == 0)
    }
}

/// Pushing a generation onto a log adds one to its own count and leaves the
/// other counts as they were.
pub proof fn lemma_occurrences_push(log: Seq<u64>, pushed: u64, generation: u64)
    ensures
        occurrences(log.push(pushed), generation) == occurrences(log, generation) + if pushed
            == generation {
            1nat
        } else {
            0nat
        },
{
    assert(log.push(pushed).drop_last() == log);
}

/// Starting a request keeps the registry well formed.
pub proof fn lemma_start_wf(state: RegistryState, slot: Slot, pair: int)
    requires
        state.wf(),
        state.issued < u64::MAX,
    ensures
        state.start(slot, pair).wf(),
        state.start(slot, pair).issued == state.issued + 1,
        state.start(slot, pair).held(slot) == Some(
            Held { generation: (state.issued + 1) as u64, pair },
        ),
{
    let after = state.start(slot, pair);
    assert forall|g: u64| #![trigger occurrences(after.cancelled, g)]
        occurrences(after.cancelled, g) <= 1 && (g > after.issued ==> occurrences(
            after.cancelled,
            g,
        ) == 0) by {
        if state.occupant(slot).is_some() {
            lemma_occurrences_push(state.cancelled, state.occupant(slot).unwrap(), g);
        }
    }
    let next = (state.issued + 1) as u64;
    if state.occupant(slot).is_some() {
        lemma_occurrences_push(state.cancelled, state.occupant(slot).unwrap(), next);
    }
    match slot {
        Slot::QuickAnswer => {
            if state.translation.is_some() && state.quick_answer.is_some() {
                lemma_occurrences_push(
                    state.cancelled,
                    state.occupant(Slot::QuickAnswer).unwrap(),
                    state.occupant(Slot::Translation).unwrap(),
                );
            }
        },
        Slot::Translation => {
            if state.translation.is_some() && state.quick_answer.is_some() {
                lemma_occurrences_push(
                    state.cancelled,
                    state.occupant(Slot::Translation).unwrap(),
                    state.occupant(Slot::QuickAnswer).unwrap(),
                );
            }
        },
    }
}

/// Ending a request keeps the registry well formed.
pub proof fn lemma_finish_wf(state: RegistryState, slot: Slot, generation: u64)
    requires
        state.wf(),
    ensures
        state.finish(slot, generation).wf(),
{
}

/// Cancelling a request keeps the registry well formed.
pub proof fn lemma_cancel_wf(state: RegistryState, slot: Slot)
    requires
        state.wf(),
    ensures
        state.cancel(slot).wf(),
{
    let after = state.cancel(slot);
    assert forall|g: u64| #![trigger occurrences(after.cancelled, g)]
        occurrences(after.cancelled, g) <= 1 && (g > after.issued ==> occurrences(
            after.cancelled,
            g,
        ) == 0) by {
        if state.occupant(slot).is_some() {
            lemma_occurrences_push(state.cancelled, state.occupant(slot).unwrap(), g);
        }
    }
    match slot {
        Slot::QuickAnswer => {
            if state.translation.is_some() && state.quick_answer.is_some() {
                lemma_occurrences_push(
                    state.cancelled,
                    state.occupant(Slot::QuickAnswer).unwrap(),
                    state.occupant(Slot::Translation).unwrap(),
                );
            }
        },
        Slot::Translation => {
            if state.translation.is_some() && state.quick_answer.is_some() {
                lemma_occurrences_push(
                    state.cancelled,
                    state.occupant(Slot::Translation).unwrap(),
                    state.occupant(Slot::QuickAnswer).unwrap(),
                );
            }
        },
    }
}

/// Cancelling a slot that holds no request changes nothing.
pub proof fn lemma_cancel_idle(state: RegistryState, slot: Slot)
    requires
        state.occupant(slot).is_none(),
    ensures
        state.cancel(slot) == state,
{
}

/// A generation that is given out is new: it is larger than every
/// generation that a slot holds, and its cancellation has not been signalled.
pub proof fn lemma_generation_is_new(state: RegistryState, slot: Slot, other: Slot, pair: int)
    requires
        state.wf(),
        state.issued < u64::MAX,
    ensures
        state.occupant(other).is_some() ==> state.occupant(other).unwrap() < state.issued + 1,
        occurrences(state.cancelled, (state.issued + 1) as u64) == 0,
        state.start(slot, pair).occupant(slot) == Some((state.issued + 1) as u64),
{
}

/// One call of the registry.
pub enum Operation {
    Start(Slot, int),
    Finish(Slot, u64),
    Cancel(Slot),
}

impl RegistryState {
    /// The state after one call.
    pub open spec fn apply(self, operation: Operation) -> RegistryState {
        match operation {
            Operation::Start(slot, pair) => self.start(slot, pair),
            Operation::Finish(slot, generation) => self.finish(slot, generation),
            Operation::Cancel(slot) => self.cancel(slot),
        }
    }

    /// The state after a sequence of calls, one after the other.
    pub open spec fn apply_all(self, operations: Seq<Operation>) -> RegistryState
        decreases operations.len(),
    {
        if operations.len() == 0 {
            self
        } else {
            self.apply_all(operations.drop_last()).apply(operations.last())
        }
    }
}

/// Whatever is called, and in whatever order, the registry stays well formed
/// as long as generations are left to give out.
pub proof fn lemma_calls_keep_wf(state: RegistryState, operations: Seq<Operation>)
    requires
        state.wf(),
        state.issued + operations.len() <= u64::MAX,
    ensures
        state.apply_all(operations).wf(),
        state.issued <= state.apply_all(operations).issued <= state.issued + operations.len(),
    decreases operations.len(),
{
    if operations.len() > 0 {
        let before = state.apply_all(operations.drop_last());
        lemma_calls_keep_wf(state, operations.drop_last());
        match operations.last() {
            Operation::Start(slot, pair) => {
                lemma_start_wf(before, slot, pair);
            },
            Operation::Finish(_, _) => {},
            Operation::Cancel(slot) => {
                lemma_cancel_wf(before, slot);
            },
        }
    }
}

/// Every state that a new registry reaches is well formed.
pub proof fn lemma_reachable_wf(operations: Seq<Operation>)
    requires
        operations.len() <= u64::MAX,
    ensures
        RegistryState::empty().apply_all(operations).wf(),
{
    lemma_calls_keep_wf(RegistryState::empty(), operations);
}

/// After any number of requests have been started in one slot, the slot
/// holds the generation of the last of them, with the handle of its pair.
/// Ending that generation clears the slot. Ending any earlier one of them
/// changes nothing, and the cancellation of each earlier one has been
/// signalled exactly once; so has that of the request that the slot held
/// before the first of them.
pub proof fn lemma_latest_start_wins(state: RegistryState, slot: Slot, pairs: Seq<int>)
    requires
        state.wf(),
        pairs.len() >= 1,
        state.issued + pairs.len() <= u64::MAX,
    ensures
        ({
            let after = state.start_many(slot, pairs);
            let latest = (state.issued + pairs.len()) as u64;
            &&& after.wf()
            &&& after.issued == state.issued + pairs.len()
            &&& after.held(slot) == Some(Held { generation: latest, pair: pairs.last() })
            &&& after.finish(slot, latest).occupant(slot).is_none()
            &&& forall|k: nat|
                #![trigger occurrences(after.cancelled, (state.issued + k) as u64)]
                1 <= k < pairs.len() ==> after.finish(slot, (state.issued + k) as u64) == after
                    && occurrences(after.cancelled, (state.issued + k) as u64) == 1
            &&& state.occupant(slot).is_some() ==> occurrences(
                after.cancelled,
                state.occupant(slot).unwrap(),
            ) == 1
        }),
    decreases pairs.len(),
{
    let before = state.start_many(slot, pairs.drop_last());
    let after = state.start_many(slot, pairs);
    if pairs.len() == 1 {
        assert(pairs.drop_last().len() == 0);
        lemma_start_wf(state, slot, pairs.last());
        if state.occupant(slot).is_some() {
            lemma_occurrences_push(
                state.cancelled,
                state.occupant(slot).unwrap(),
                state.occupant(slot).unwrap(),
            );
        }
    } else {
        lemma_latest_start_wins(state, slot, pairs.drop_last());
        lemma_start_wf(before, slot, pairs.last());
        let previous = (state.issued + pairs.len() - 1) as u64;
        assert(before.occupant(slot) == Some(previous));
        assert forall|k: nat|
            #![trigger occurrences(after.cancelled, (state.issued + k) as u64)]
            1 <= k < pairs.len() implies after.finish(slot, (state.issued + k) as u64) == after
            && occurrences(after.cancelled, (state.issued + k) as u64) == 1 by {
            let g = (state.issued + k) as u64;
            lemma_occurrences_push(before.cancelled, previous, g);
        }
        if state.occupant(slot).is_some() {
            lemma_occurrences_push(before.cancelled, previous, state.occupant(slot).unwrap());
        }
    }
}

/// The message for a request that was stopped before it ended.
pub open spec fn cancelled_message() -> Seq<char> {
    "Cancelled"@
}

/// One request in flight: its generation and the handle that stops it.
struct RequestSlot {
    id: u64,
    handle: AbortHandle,
}

/// What a slot holds: the generation of its request and the pair of its
/// handle.
spec fn held(slot: Option<RequestSlot>) -> Option<Held> {
    match slot {
        Some(request) => Some(Held { generation: request.id, pair: handle_pair(request.handle) }),
        None => None,
    }
}

/// The registry of the requests in flight, with one slot for each kind of
/// operation.
pub struct RequestAbortState {
    counter: u64,
    quick_answer: Option<RequestSlot>,
    translation: Option<RequestSlot>,
    cancelled: Ghost<Seq<u64>>,
}

impl View for RequestAbortState {
    type V = RegistryState;

    closed spec fn view(&self) -> RegistryState {
        RegistryState {
            issued: self.counter as nat,
            quick_answer: held(self.quick_answer),
            translation: held(self.translation),
            cancelled: self.cancelled@,
        }
    }
}

impl Default for RequestAbortState {
    fn default() -> (registry: RequestAbortState)
        ensures
            registry@ == RegistryState::empty(),
    {
        RequestAbortState::new()
    }
}

impl RequestAbortState {
    /// A registry that has seen no request.
    pub fn new() -> (registry: RequestAbortState)
        ensures
            registry@ == RegistryState::empty(),
    {
        RequestAbortState {
            counter: 0,
            quick_answer: None,
            translation: None,
            cancelled: Ghost(Seq::empty()),
        }
    }

    /// The generation that a slot holds.
    pub fn current(&self, slot: Slot) -> (occupant: Option<u64>)
        ensures
            occupant == self@.occupant(slot),
    {
        let held = match slot {
            Slot::QuickAnswer => &self.quick_answer,
            Slot::Translation => &self.translation,
        };
        match held {
            Some(request) => Some(request.id),
            None => None,
        }
    }

    /// Whether another generation can be given out.
    pub fn can_start(&self) -> (can: bool)
        ensures
            can == (self@.issued < u64::MAX),
    {
        self.counter < u64::MAX
    }

    /// Gives out the next generation.
    fn next_id(&mut self) -> (id: u64)
        requires
            old(self)@.issued < u64::MAX,
        ensures
            id == old(self)@.issued + 1,
            final(self)@ == (RegistryState { issued: id as nat, ..old(self)@ }),
    {
        self.counter = self.counter + 1;
        self.counter
    }

    /// Takes the request out of a slot, if it holds one, and tells it to stop.
    fn signal(&mut self, slot: Slot) -> (stopped: Option<u64>)
        ensures
            stopped == old(self)@.occupant(slot),
            final(self)@ == old(self)@.cancel(slot),
    {
        let previous = match slot {
            Slot::QuickAnswer => self.quick_answer.take(),
            Slot::Translation => self.translation.take(),
        };
        match previous {
            Some(request) => {
                abort(&request.handle);
                proof {
                    self.cancelled@ = self.cancelled@.push(request.id);
                }
                Some(request.id)
            },
            None => None,
        }
    }

    /// Starts a request in a slot. The request gets the next generation; the
    /// request that the slot held, if any, is told to stop and gives way to
    /// it. Returns the generation and the registration under which the new
    /// request is to run; the slot holds the handle of the same pair.
    pub fn start_request(&mut self, slot: Slot) -> (started: (u64, AbortRegistration))
        requires
            old(self)@.issued < u64::MAX,
        ensures
            started.0 == old(self)@.issued + 1,
            final(self)@ == old(self)@.start(slot, registration_pair(started.1)),
    {
        let (handle, registration) = new_pair();
        let id = self.next_id();
        let _ = self.signal(slot);
        let request = RequestSlot { id, handle };
        match slot {
            Slot::QuickAnswer => {
                self.quick_answer = Some(request);
            },
            Slot::Translation => {
                self.translation = Some(request);
            },
        }
        (id, registration)
    }

    /// Ends the request of a generation: clears the slot if it still holds
    /// that generation, and does nothing otherwise.
    pub fn finish_request(&mut self, slot: Slot, id: u64)
        ensures
            final(self)@ == old(self)@.finish(slot, id),
    {
        if self.current(slot) == Some(id) {
            match slot {
                Slot::QuickAnswer => {
                    self.quick_answer = None;
                },
                Slot::Translation => {
                    self.translation = None;
                },
            }
        }
    }

    /// Cancels the request that a slot holds: tells it to stop, clears the
    /// slot and returns its generation. Where the slot holds none, nothing
    /// changes and `None` is returned.
    pub fn cancel_request(&mut self, slot: Slot) -> (cancelled: Option<u64>)
        ensures
            cancelled == old(self)@.occupant(slot),
            final(self)@ == old(self)@.cancel(slot),
            old(self)@.occupant(slot).is_none() ==> final(self)@ == old(self)@,
    {
        self.signal(slot)
    }

    /// Ends the request of a generation with what it has brought: `None`
    /// where the request was stopped before it ended, which is reported as a
    /// failure of its own. The slot is cleared if it still holds the
    /// generation.
    pub fn conclude<T>(&mut self, slot: Slot, id: u64, outcome: Option<Result<T, String>>) -> (r:
        Result<T, String>)
        ensures
            final(self)@ == old(self)@.finish(slot, id),
            match (outcome, r) {
                (Some(Ok(value)), Ok(given)) => given == value,
                (Some(Err(cause)), Err(message)) => message@ == cause@,
                (None, Err(message)) => message@ == cancelled_message(),
                _ => false,
            },
    {
        self.finish_request(slot, id);
        match outcome {
            Some(result) => result,
            None => Err("Cancelled".to_owned()),
        }
    }

    /// Starts a quick answer.
    pub fn start_quick_answer(&mut self) -> (started: (u64, AbortRegistration))
        requires
            old(self)@.issued < u64::MAX,
        ensures
            started.0 == old(self)@.issued + 1,
            final(self)@ == old(self)@.start(Slot::QuickAnswer, registration_pair(started.1)),
    {
        self.start_request(Slot::QuickAnswer)
    }

    /// Ends the quick answer of a generation.
    pub fn finish_quick_answer(&mut self, id: u64)
        ensures
            final(self)@ == old(self)@.finish(Slot::QuickAnswer, id),
    {
        self.finish_request(Slot::QuickAnswer, id)
    }

    /// Cancels the quick answer in flight.
    pub fn cancel_quick_answer(&mut self) -> (cancelled: Option<u64>)
        ensures
            cancelled == old(self)@.occupant(Slot::QuickAnswer),
            final(self)@ == old(self)@.cancel(Slot::QuickAnswer),
            old(self)@.quick_answer.is_none() ==> final(self)@ == old(self)@,
    {
        self.cancel_request(Slot::QuickAnswer)
    }

    /// Starts a translation.
    pub fn start_translation(&mut self) -> (started: (u64, AbortRegistration))
        requires
            old(self)@.issued < u64::MAX,
        ensures
            started.0 == old(self)@.issued + 1,
            final(self)@ == old(self)@.start(Slot::Translation, registration_pair(started.1)),
    {
        self.start_request(Slot::Translation)
    }

    /// Ends the translation of a generation.
    pub fn finish_translation(&mut self, id: u64)
        ensures
            final(self)@ == old(self)@.finish(Slot::Translation, id),
    {
        self.finish_request(Slot::Translation, id)
    }

    /// Cancels the translation in flight.
    pub fn cancel_translation(&mut self) -> (cancelled: Option<u64>)
        ensures
            cancelled == old(self)@.occupant(Slot::Translation),
            final(self)@ == old(self)@.cancel(Slot::Translation),
            old(self)@.translation.is_none() ==> final(self)@ == old(self)@,
    {
        self.cancel_request(Slot::Translation)
    }
}

} // verus!
