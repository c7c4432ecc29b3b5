//! The life of the one native environment of a process, as a state machine.
//!
//! This is the mathematical model that the contracts of
//! [`crate::environment`] speak of. A [`Lifecycle`] is a state, an [`Event`]
//! is something that happened to it, and an [`Effect`] is what the event
//! leads to. The laws at the end of this file hold of every sequence of
//! events.

use vstd::prelude::*;
use crate::LoggingLevel;

verus! {

/// Where the process stands with its native environment.
#[derive(Debug, Clone, Copy, PartialEq, Eq, Structural)]
pub enum Phase {
    /// No native environment was ever created.
    Uninitialized,
    /// One requester is creating the native environment; others wait for it.
    Creating,
    /// The native environment exists and at least one handle refers to it.
    Ready,
    /// The last handle was given back and the native environment released.
    Released,
}

/// What a handle to the environment shows to its holder.
pub struct EnvironmentView {
    pub env_ptr: usize,
    pub name: Seq<char>,
}

/// The configuration carried by a request to build an environment.
pub struct Request {
    pub name: Seq<char>,
    pub log_level: LoggingLevel,
}

/// Something that happens to the environment of the process.
pub enum Event {
    /// A caller asks for an environment.
    Build(Request),
    /// The native engine created an environment at the given address.
    Created { env_ptr: usize },
    /// The native engine failed to create an environment.
    CreationFailed,
    /// A handle to the environment at the given address is given back.
    Dropped { env_ptr: usize },
}

/// What an event leads to.
pub enum Effect {
    /// The requester has to create the native environment, with this
    /// configuration.
    CreateNative(Request),
    /// The requester receives a handle.
    Grant(EnvironmentView),
    /// Another requester is creating the environment: ask again later.
    Wait,
    /// The requester receives the failure of the native engine.
    Fail,
    /// A handle was given back and others remain.
    Retain,
    /// The last handle was given back: the native environment at this
    /// address has to be released now.
    ReleaseNative { env_ptr: usize },
    /// The event does not belong to the current phase and changes nothing.
    Ignore,
}

/// The state of the environment of the process.
pub struct Lifecycle {
    pub phase: Phase,
    /// Address of the native environment, null unless `Ready`.
    pub env_ptr: usize,
    /// Name of the request that started the latest creation.
    pub name: Seq<char>,
    /// Number of handles that refer to the native environment.
    pub handles: nat,
}

impl Lifecycle {
    /// The state of a process that never asked for an environment.
    pub open spec fn initial() -> Lifecycle {
        Lifecycle { phase: Phase::Uninitialized, env_ptr: 0, name: Seq::empty(), handles: 0 }
    }

    /// A native address and a positive handle count exist together, in
    /// `Ready`, or not at all.
    pub open spec fn wf(self) -> bool {
        if self.phase is Ready {
            self.env_ptr != 0 && self.handles >= 1
        } else {
            self.env_ptr == 0 && self.handles == 0
        }
    }

    /// No native environment exists and none is being created.
    pub open spec fn vacant(self) -> bool {
        self.phase is Uninitialized || self.phase is Released
    }

    /// The handle that is granted while the environment is `Ready`.
    pub open spec fn handle(self) -> EnvironmentView {
        EnvironmentView { env_ptr: self.env_ptr, name: self.name }
    }

    /// A handle to the current environment at `env_ptr` can be given back.
    pub open spec fn owns(self, env_ptr: usize) -> bool {
        self.phase is Ready && env_ptr == self.env_ptr
    }

    /// The state after `event`.
    pub open spec fn step(self, event: Event) -> Lifecycle {
        match event {
            Event::Build(request) => {
                if self.vacant() {
                    Lifecycle { phase: Phase::Creating, env_ptr: 0, name: request.name, handles: 0 }
                } else if self.phase is Ready {
                    Lifecycle { handles: self.handles + 1, ..self }
                } else {
                    self
                }
            },
            Event::Created { env_ptr } => {
                if self.phase is Creating && env_ptr != 0 {
                    Lifecycle { phase: Phase::Ready, env_ptr, handles: 1, ..self }
                } else {
                    self
                }
            },
            Event::CreationFailed => {
                if self.phase is Creating {
                    Lifecycle { phase: Phase::Uninitialized, ..self }
                } else {
                    self
                }
            },
            Event::Dropped { env_ptr } => {
                if !self.owns(env_ptr) {
                    self
                } else if self.handles == 1 {
                    Lifecycle { phase: Phase::Released, env_ptr: 0, handles: 0, ..self }
                } else {
                    Lifecycle { handles: (self.handles - 1) as nat, ..self }
                }
            },
        }
    }

    /// What `event` leads to in this state.
    pub open spec fn effect(self, event: Event) -> Effect {
        match event {
            Event::Build(request) => {
                if self.vacant() {
                    Effect::CreateNative(request)
                } else if self.phase is Ready {
                    Effect::Grant(self.handle())
                } else {
                    Effect::Wait
                }
            },
            Event::Created { env_ptr } => {
                if self.phase is Creating && env_ptr != 0 {
                    Effect::Grant(EnvironmentView { env_ptr, name: self.name })
                } else {
                    Effect::Ignore
                }
            },
            Event::CreationFailed => {
                if self.phase is Creating {
                    Effect::Fail
                } else {
                    Effect::Ignore
                }
            },
            Event::Dropped { env_ptr } => {
                if !self.owns(env_ptr) {
                    Effect::Ignore
                } else if self.handles == 1 {
                    Effect::ReleaseNative { env_ptr }
                } else {
                    Effect::Retain
                }
            },
        }
    }

    /// The state after all of `events`, in order.
    pub open spec fn run(self, events: Seq<Event>) -> Lifecycle
        decreases events.len(),
    {
        if events.len() == 0 {
            self
        } else {
            self.run(events.drop_last()).step(events.last())
        }
    }

    /// What the event at position `at` of `events` leads to, when the events
    /// before it have happened.
    pub open spec fn effect_at(self, events: Seq<Event>, at: int) -> Effect {
        self.run(events.take(at)).effect(events[at])
    }
}

/// Number of native environments that exist in `state`: 1 while `Ready`,
/// otherwise 0.
pub open spec fn live_environments(state: Lifecycle) -> int {
    if state.phase is Ready {
        1
    } else {
        0
    }
}

/// Native creations minus native releases among the effects of `events`,
/// starting in `state`.
pub open spec fn native_balance(state: Lifecycle, events: Seq<Event>) -> int
    decreases events.len(),
{
    if events.len() == 0 {
        0
    } else {
        let before = state.run(events.drop_last());
        let change: int = match (events.last(), before.effect(events.last())) {
            (Event::Created { .. }, Effect::Grant(_)) => 1,
            (_, Effect::ReleaseNative { .. }) => -1,
            _ => 0,
        };
        native_balance(state, events.drop_last()) + change
    }
}

/// Running one event more is one step from the state before it.
pub proof fn lemma_run_unfold(state: Lifecycle, events: Seq<Event>, at: int)
    requires
        0 <= at < events.len(),
    ensures
        state.run(events.take(at + 1)) == state.run(events.take(at)).step(events[at]),
{
    assert(events.take(at + 1).drop_last() =~= events.take(at));
}

/// No event breaks the invariant of the state.
pub proof fn lemma_step_keeps_wf(state: Lifecycle, event: Event)
    requires
        state.wf(),
    ensures
        state.step(event).wf(),
{
}

/// No sequence of events breaks the invariant of the state.
pub proof fn lemma_run_keeps_wf(state: Lifecycle, events: Seq<Event>)
    requires
        state.wf(),
    ensures
        state.run(events).wf(),
    decreases events.len(),
{
    if events.len() > 0 {
        lemma_run_keeps_wf(state, events.drop_last());
        lemma_step_keeps_wf(state.run(events.drop_last()), events.last());
    }
}

/// At most one native environment exists at any time: whatever the events,
/// the native creations and releases among their effects balance so that one
/// environment is alive while the state is `Ready` and none otherwise.
pub proof fn lemma_at_most_one_environment(state: Lifecycle, events: Seq<Event>)
    requires
        state.wf(),
    ensures
        live_environments(state) + native_balance(state, events) == live_environments(
            state.run(events),
        ),
        0 <= live_environments(state.run(events)) <= 1,
    decreases events.len(),
{
    if events.len() > 0 {
        lemma_at_most_one_environment(state, events.drop_last());
        lemma_run_keeps_wf(state, events.drop_last());
    }
}

/// While no effect releases the native environment, the state stays `Ready`
/// and keeps the address and the name it had.
pub proof fn lemma_environment_persists(state: Lifecycle, events: Seq<Event>, upto: int)
    requires
        state.wf(),
        state.phase is Ready,
        0 <= upto <= events.len(),
        forall|k: int| 0 <= k < upto ==> !(#[trigger] state.effect_at(events, k) is ReleaseNative),
    ensures
        state.run(events.take(upto)).wf(),
        state.run(events.take(upto)).phase is Ready,
        state.run(events.take(upto)).handle() == state.handle(),
    decreases upto,
{
    if upto > 0 {
        lemma_environment_persists(state, events, upto - 1);
        lemma_run_unfold(state, events, upto - 1);
        assert(!(state.effect_at(events, upto - 1) is ReleaseNative));
    }
}

/// Singleton: once the environment is `Ready`, every handle that is granted
/// before the environment is released refers to the same native address and
/// carries the same name, whatever events come in between and whatever names
/// and log levels the requests carry.
pub proof fn lemma_singleton(state: Lifecycle, events: Seq<Event>, at: int)
    requires
        state.wf(),
        state.phase is Ready,
        0 <= at < events.len(),
        forall|k: int| 0 <= k < at ==> !(#[trigger] state.effect_at(events, k) is ReleaseNative),
    ensures
        events[at] is Build ==> state.effect_at(events, at) == Effect::Grant(state.handle()),
        state.effect_at(events, at) is Grant ==> state.effect_at(events, at) == Effect::Grant(
            state.handle(),
        ),
{
    lemma_environment_persists(state, events, at);
}

/// First writer wins: the request that finds no environment is told to
/// create it; requests that arrive while it does so wait; the environment
/// that is then created carries the name of that first request; and every
/// request after that, until the environment is released, is granted a handle
/// to the same address under that same name.
pub proof fn lemma_first_writer_wins(
    state: Lifecycle,
    first: Request,
    racers: Seq<Event>,
    env_ptr: usize,
    later: Seq<Event>,
    at: int,
)
    requires
        state.wf(),
        state.vacant(),
        env_ptr != 0,
        forall|k: int| 0 <= k < racers.len() ==> racers[k] is Build,
        0 <= at < later.len(),
        later[at] is Build,
        forall|k: int|
            0 <= k < at ==> !(#[trigger] state.step(Event::Build(first)).run(racers).step(
                Event::Created { env_ptr },
            ).effect_at(later, k) is ReleaseNative),
    ensures
        state.effect(Event::Build(first)) == Effect::CreateNative(first),
        forall|k: int|
            0 <= k < racers.len() ==> #[trigger] state.step(Event::Build(first)).effect_at(
                racers,
                k,
            ) == Effect::Wait,
        state.step(Event::Build(first)).run(racers).effect(Event::Created { env_ptr })
            == Effect::Grant(EnvironmentView { env_ptr, name: first.name }),
        state.step(Event::Build(first)).run(racers).step(Event::Created { env_ptr }).effect_at(
            later,
            at,
        ) == Effect::Grant(EnvironmentView { env_ptr, name: first.name }),
{
    let creating = state.step(Event::Build(first));
    assert forall|k: int| 0 <= k <= racers.len() implies #[trigger] creating.run(racers.take(k))
        == creating by {
        lemma_racers_wait(creating, racers, k);
    }
    assert(racers.take(racers.len() as int) =~= racers);
    let ready = creating.run(racers).step(Event::Created { env_ptr });
    lemma_singleton(ready, later, at);
}

/// Requests that arrive while the environment is being created change
/// nothing.
pub proof fn lemma_racers_wait(creating: Lifecycle, racers: Seq<Event>, upto: int)
    requires
        creating.phase is Creating,
        0 <= upto <= racers.len(),
        forall|k: int| 0 <= k < racers.len() ==> racers[k] is Build,
    ensures
        creating.run(racers.take(upto)) == creating,
    decreases upto,
{
    if upto > 0 {
        lemma_racers_wait(creating, racers, upto - 1);
        lemma_run_unfold(creating, racers, upto - 1);
    }
}

/// Every handle is counted: each request that reaches a `Ready` environment
/// adds one handle to it and changes nothing else.
pub proof fn lemma_handles_are_counted(state: Lifecycle, requests: Seq<Event>)
    requires
        state.phase is Ready,
        forall|k: int| 0 <= k < requests.len() ==> requests[k] is Build,
    ensures
        state.run(requests) == (Lifecycle { handles: state.handles + requests.len(), ..state }),
    decreases requests.len(),
{
    if requests.len() > 0 {
        lemma_handles_are_counted(state, requests.drop_last());
    }
}

/// The events of giving back `count` handles to the environment at
/// `env_ptr`.
pub open spec fn drops(env_ptr: usize, count: nat) -> Seq<Event> {
    Seq::new(count, |i: int| Event::Dropped { env_ptr })
}

/// Single release: when all handles of a `Ready` environment are given back,
/// each but the last leaves the native environment alone, the last one
/// releases it, and nothing can release it again.
pub proof fn lemma_single_release(state: Lifecycle, at: int)
    requires
        state.wf(),
        state.phase is Ready,
        0 <= at < state.handles,
    ensures
        at < state.handles - 1 ==> state.effect_at(drops(state.env_ptr, state.handles), at)
            == Effect::Retain,
        at == state.handles - 1 ==> state.effect_at(drops(state.env_ptr, state.handles), at)
            == (Effect::ReleaseNative { env_ptr: state.env_ptr }),
        state.run(drops(state.env_ptr, state.handles)).phase is Released,
        forall|env_ptr: usize|
            state.run(drops(state.env_ptr, state.handles)).effect(Event::Dropped { env_ptr })
                == Effect::Ignore,
        native_balance(state, drops(state.env_ptr, state.handles)) == -1,
{
    let all = drops(state.env_ptr, state.handles);
    lemma_drops_count_down(state, at);
    lemma_drops_count_down(state, state.handles - 1);
    lemma_run_unfold(state, all, state.handles - 1);
    assert(all.take(state.handles as int) =~= all);
    lemma_at_most_one_environment(state, all);
}

/// The native environment is released by nothing but the return of its last
/// handle: an effect that releases it comes from a handle to the current
/// environment, given back while it was the only one, and leaves no handle
/// and no environment behind.
pub proof fn lemma_release_only_by_last_handle(state: Lifecycle, event: Event)
    requires
        state.wf(),
        state.effect(event) is ReleaseNative,
    ensures
        event == (Event::Dropped { env_ptr: state.env_ptr }),
        state.effect(event) == (Effect::ReleaseNative { env_ptr: state.env_ptr }),
        state.phase is Ready,
        state.handles == 1,
        state.step(event).phase is Released,
        state.step(event).handles == 0,
{
}

/// After `given` of its handles were given back, a `Ready` environment is
/// still there, with that many handles fewer.
pub proof fn lemma_drops_count_down(state: Lifecycle, given: int)
    requires
        state.wf(),
        state.phase is Ready,
        0 <= given < state.handles,
    ensures
        state.run(drops(state.env_ptr, state.handles).take(given)) == (Lifecycle {
            handles: (state.handles - given) as nat,
            ..state
        }),
    decreases given,
{
    if given > 0 {
        lemma_drops_count_down(state, given - 1);
        lemma_run_unfold(state, drops(state.env_ptr, state.handles), given - 1);
    }
}

} // verus!
