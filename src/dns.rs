//! The decisions of a resolver that memoizes its one in-flight lookup.
//!
//! A resolver is polled repeatedly; the first poll starts the lookup, later
//! polls drive the same lookup, and once it has finished every poll returns
//! its cached outcome. The lookup itself, and the waiting on it, belong to
//! the caller: this module says what to do on each poll.
use vstd::prelude::*;

verus! {

/// Where a resolver stands with its lookup.
#[derive(Debug, Clone, Copy, PartialEq, Eq)]
pub enum LookupState<T> {
    /// No lookup has been started.
    Idle,
    /// A lookup is in flight.
    Pending,
    /// The lookup finished with this outcome.
    Done(T),
}

/// Which resolver a client looks host names up with.
#[derive(Debug, Clone, Copy, PartialEq, Eq)]
pub enum DnsResolverSetting<R> {
    /// The host operating system's resolver.
    System,
    /// A resolver that the caller supplied.
    Custom(R),
}

/// The type parameter of a client track on which no custom resolver was set.
#[derive(Debug, Clone, Copy, PartialEq, Eq)]
pub struct SystemResolver;

/// What the caller does on a poll.
#[derive(Debug, Clone, Copy, PartialEq, Eq)]
pub enum PollAction<T> {
    /// Start the lookup, then poll it.
    StartLookup,
    /// Poll the lookup already in flight.
    PollLookup,
    /// Return this outcome without any lookup.
    Ready(T),
}

/// What happens to a resolver.
#[derive(Debug, Clone, Copy, PartialEq, Eq)]
pub enum LookupEvent<T> {
    /// The resolver is polled.
    Poll,
    /// The lookup in flight finished with this outcome.
    Finished(T),
}

/// The state after a poll, and what the caller does.
pub open spec fn poll_step<T>(s: LookupState<T>) -> (LookupState<T>, PollAction<T>) {
    match s {
        LookupState::Idle => (LookupState::Pending, PollAction::StartLookup),
        LookupState::Pending => (LookupState::Pending, PollAction::PollLookup),
        LookupState::Done(v) => (LookupState::Done(v), PollAction::Ready(v)),
    }
}

/// The state after the lookup in flight finished with `v`; with no lookup in
/// flight nothing changes.
pub open spec fn finish_step<T>(s: LookupState<T>, v: T) -> LookupState<T> {
    match s {
        LookupState::Pending => LookupState::Done(v),
        _ => s,
    }
}

/// The state after one event.
pub open spec fn next_state<T>(s: LookupState<T>, e: LookupEvent<T>) -> LookupState<T> {
    match e {
        LookupEvent::Poll => poll_step(s).0,
        LookupEvent::Finished(v) => finish_step(s, v),
    }
}

/// How many lookups are started while `events` happen, from `s`.
pub open spec fn lookups_started<T>(s: LookupState<T>, events: Seq<LookupEvent<T>>) -> nat
    decreases events.len(),
{
    if events.len() == 0 {
        0
    } else {
        let started: nat = match events[0] {
            LookupEvent::Poll => if poll_step(s).1 is StartLookup {
                1nat
            } else {
                0nat
            },
            LookupEvent::Finished(_) => 0nat,
        };
        started + lookups_started(next_state(s, events[0]), events.skip(1))
    }
}

/// Whether `events` holds a poll.
pub open spec fn has_poll<T>(events: Seq<LookupEvent<T>>) -> bool {
    exists|i: int| 0 <= i < events.len() && events[i] is Poll
}

impl<T: Copy> LookupState<T> {
    /// A resolver that has started nothing.
    pub fn new() -> (r: LookupState<T>)
        ensures
            r is Idle,
    {
        LookupState::Idle
    }

    /// Decides what a poll does, and moves to the state after it.
    pub fn on_poll(&mut self) -> (a: PollAction<T>)
        ensures
            (*final(self), a) == poll_step(*old(self)),
    {
        match *self {
            LookupState::Idle => {
                *self = LookupState::Pending;
                PollAction::StartLookup
            },
            LookupState::Pending => PollAction::PollLookup,
            LookupState::Done(v) => PollAction::Ready(v),
        }
    }

    /// Records that the lookup in flight finished with `v`.
    pub fn on_finished(&mut self, v: T)
        ensures
            *final(self) == finish_step(*old(self), v),
    {
        if let LookupState::Pending = *self {
            *self = LookupState::Done(v);
        }
    }
}

/// Once a lookup has been started, no event starts another.
pub proof fn lemma_no_second_lookup<T>(s: LookupState<T>, events: Seq<LookupEvent<T>>)
    requires
        !(s is Idle),
    ensures
        lookups_started(s, events) == 0,
    decreases events.len(),
{
    if events.len() > 0 {
        lemma_no_second_lookup(next_state(s, events[0]), events.skip(1));
    }
}

/// A fresh resolver starts exactly one lookup over any run of events that
/// polls it at all, however often it is polled before or after the lookup
/// finishes, and none over a run without a poll.
pub proof fn lemma_single_lookup<T>(events: Seq<LookupEvent<T>>)
    ensures
        lookups_started(LookupState::<T>::Idle, events) == if has_poll(events) {
            1nat
        } else {
            0nat
        },
    decreases events.len(),
{
    if events.len() > 0 {
        let rest = events.skip(1);
        match events[0] {
            LookupEvent::Poll => {
                lemma_no_second_lookup(LookupState::<T>::Pending, rest);
                assert(has_poll(events));
            },
            LookupEvent::Finished(_) => {
                lemma_single_lookup(rest);
                if has_poll(events) {
                    let i = choose|i: int| 0 <= i < events.len() && events[i] is Poll;
                    assert(rest[i - 1] is Poll);
                }
                if has_poll(rest) {
                    let j = choose|j: int| 0 <= j < rest.len() && rest[j] is Poll;
                    assert(events[j + 1] is Poll);
                }
            },
        }
    }
}

/// Two polls of a fresh resolver before its lookup finishes start one lookup:
/// the first starts it, the second drives the same one, and both leave the
/// lookup pending.
pub proof fn lemma_two_polls_before_finish<T>()
    ensures
        poll_step(LookupState::<T>::Idle) == (LookupState::<T>::Pending, PollAction::<T>::StartLookup),
        poll_step(poll_step(LookupState::<T>::Idle).0) == (
            LookupState::<T>::Pending,
            PollAction::<T>::PollLookup,
        ),
{
}

/// After the lookup has finished, every poll returns its outcome and leaves the
/// state as it is.
pub proof fn lemma_cached_after_finish<T>(v: T, events: Seq<LookupEvent<T>>)
    ensures
        poll_step(finish_step(LookupState::<T>::Pending, v)) == (LookupState::Done(v), PollAction::Ready(v)),
        lookups_started(LookupState::Done(v), events) == 0,
{
    lemma_no_second_lookup(LookupState::Done(v), events);
}

} // verus!
