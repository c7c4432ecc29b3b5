//! The single native environment of a process and the handles to it.
//!
//! The native engine allows one environment per process. An
//! [`EnvironmentManager`] keeps track of it: the first request to build an
//! environment is told to create it, every later request receives a handle to
//! the one that exists, and the request that gives back the last handle is
//! told to release it. Name and log level count at creation only: the first
//! writer wins, and the configuration of every later request is ignored.
//!
//! The manager makes no native call. Its caller keeps it behind a lock, makes
//! the calls that it asks for, and reports their outcome.

use vstd::prelude::*;
use crate::LoggingLevel;
use crate::error::{OrtApiError, OrtError};
use crate::lifecycle::{Effect, EnvironmentView, Event, Lifecycle, Phase, Request};

verus! {

/// A handle to the native environment of the process.
///
/// Handles are granted by an [`EnvironmentManager`] and given back to it with
/// [`EnvironmentManager::release`]. A handle cannot be copied: to share the
/// environment, build another one.
#[derive(Debug)]
pub struct Environment {
    env_ptr: usize,
    name: String,
}

impl View for Environment {
    type V = EnvironmentView;

    closed spec fn view(&self) -> EnvironmentView {
        EnvironmentView { env_ptr: self.env_ptr, name: self.name@ }
    }
}

impl Environment {
    /// Starts a builder with the name `default` and the log level
    /// [`LoggingLevel::Warning`].
    #[must_use]
    pub fn builder() -> (builder: EnvBuilder)
        ensures
            builder@ == (Request { name: "default"@, log_level: LoggingLevel::Warning }),
    {
        EnvBuilder { name: "default".to_owned(), log_level: LoggingLevel::Warning }
    }

    /// The name under which the environment was created.
    #[must_use]
    pub fn name(&self) -> (name: String)
        ensures
            name@ == self@.name,
    {
        self.name.clone()
    }

    /// The address of the native environment.
    pub fn env_ptr(&self) -> (env_ptr: usize)
        ensures
            env_ptr == self@.env_ptr,
    {
        self.env_ptr
    }
}

/// Configuration of a request for an environment.
///
/// When a method is called more than once, the last value counts.
#[derive(Debug)]
pub struct EnvBuilder {
    name: String,
    log_level: LoggingLevel,
}

impl View for EnvBuilder {
    type V = Request;

    closed spec fn view(&self) -> Request {
        Request { name: self.name@, log_level: self.log_level }
    }
}

/// What a requester has to do after [`EnvBuilder::build`].
#[derive(Debug)]
pub enum BuildStep {
    /// No environment exists. The requester creates the native environment
    /// with this configuration and reports the outcome through
    /// [`EnvironmentManager::finish_creation`].
    Create { name: String, log_level: LoggingLevel },
    /// The environment exists: this is a handle to it.
    Shared(Environment),
    /// Another requester is creating the environment: ask again when it is
    /// done.
    Busy,
}

impl BuildStep {
    /// The effect of a build request that this step stands for.
    pub open spec fn effect(self) -> Effect {
        match self {
            BuildStep::Create { name, log_level } => Effect::CreateNative(
                Request { name: name@, log_level },
            ),
            BuildStep::Shared(env) => Effect::Grant(env@),
            BuildStep::Busy => Effect::Wait,
        }
    }
}

impl EnvBuilder {
    /// Sets the name of the environment.
    pub fn with_name(self, name: &str) -> (builder: EnvBuilder)
        ensures
            builder@ == (Request { name: name@, log_level: self@.log_level }),
    {
        EnvBuilder { name: name.to_owned(), log_level: self.log_level }
    }

    /// Sets the log level of the environment.
    #[must_use]
    pub fn with_log_level(self, log_level: LoggingLevel) -> (builder: EnvBuilder)
        ensures
            builder@ == (Request { name: self@.name, log_level }),
    {
        EnvBuilder { name: self.name, log_level }
    }

    /// Asks `manager` for an environment with this configuration.
    ///
    /// The configuration is used only if the environment has to be created.
    /// The handle count of an environment cannot pass `usize::MAX`.
    pub fn build(self, manager: &mut EnvironmentManager) -> (step: BuildStep)
        requires
            old(manager)@.handles < usize::MAX,
        ensures
            final(manager)@ == old(manager)@.step(Event::Build(self@)),
            step.effect() == old(manager)@.effect(Event::Build(self@)),
            final(manager)@.wf(),
    {
        proof {
            use_type_invariant(&*manager);
        }
        match manager.phase {
            Phase::Uninitialized | Phase::Released => {
                let name = self.name.clone();
                *manager = EnvironmentManager {
                    phase: Phase::Creating,
                    env_ptr: 0,
                    name: self.name,
                    handles: 0,
                };
                BuildStep::Create { name, log_level: self.log_level }
            },
            Phase::Ready => {
                manager.handles = manager.handles + 1;
                BuildStep::Shared(
                    Environment { env_ptr: manager.env_ptr, name: manager.name.clone() },
                )
            },
            Phase::Creating => BuildStep::Busy,
        }
    }
}

/// What the holder of a handle has to do after
/// [`EnvironmentManager::release`].
#[derive(Debug, Clone, Copy, PartialEq, Eq, Structural)]
pub enum Release {
    /// Other handles remain: nothing to do.
    Retained,
    /// This was the last handle: release the native environment at this
    /// address, now and once.
    Last { env_ptr: usize },
    /// The handle does not refer to the environment of this manager: a logic
    /// error of the caller. Nothing was changed and nothing may be released.
    Foreign,
}

impl Release {
    /// The effect of giving back a handle that this result stands for.
    pub open spec fn effect(self) -> Effect {
        match self {
            Release::Retained => Effect::Retain,
            Release::Last { env_ptr } => Effect::ReleaseNative { env_ptr },
            Release::Foreign => Effect::Ignore,
        }
    }
}

/// Keeper of the one native environment of the process.
#[derive(Debug)]
pub struct EnvironmentManager {
    phase: Phase,
    env_ptr: usize,
    name: String,
    handles: usize,
}

impl View for EnvironmentManager {
    type V = Lifecycle;

    closed spec fn view(&self) -> Lifecycle {
        Lifecycle {
            phase: self.phase,
            env_ptr: self.env_ptr,
            name: self.name@,
            handles: self.handles as nat,
        }
    }
}

/// The event that the outcome of the native creation call amounts to.
pub open spec fn creation_event(status: Result<(), OrtApiError>, env_ptr: usize) -> Event {
    match status {
        Ok(_) => Event::Created { env_ptr },
        Err(_) => Event::CreationFailed,
    }
}

impl EnvironmentManager {
    /// A native address and a positive handle count exist together, while
    /// the environment is ready, or not at all.
    #[verifier::type_invariant]
    spec fn inv(&self) -> bool {
        self@.wf()
    }

    /// A manager for a process that has no environment yet.
    pub fn new() -> (manager: EnvironmentManager)
        ensures
            manager@ == Lifecycle::initial(),
    {
        EnvironmentManager {
            phase: Phase::Uninitialized,
            env_ptr: 0,
            name: String::new(),
            handles: 0,
        }
    }

    /// Where the process stands with its environment.
    pub fn phase(&self) -> (phase: Phase)
        ensures
            phase == self@.phase,
            self@.wf(),
    {
        proof {
            use_type_invariant(self);
        }
        self.phase
    }

    /// The number of handles that refer to the environment.
    pub fn handle_count(&self) -> (count: usize)
        ensures
            count == self@.handles,
            self@.wf(),
    {
        proof {
            use_type_invariant(self);
        }
        self.handles
    }

    /// Takes the outcome of the native creation call that
    /// [`EnvBuilder::build`] asked for: the status it returned and the
    /// address it wrote.
    ///
    /// On success the environment is `Ready`, under the name of the request
    /// that asked for the creation, and the result is the first handle to it.
    /// On failure nothing exists and the next request may try again.
    ///
    /// A creation is reported only while one is under way, and a native call
    /// that succeeded has written an address that is not null.
    pub fn finish_creation(&mut self, status: Result<(), OrtApiError>, env_ptr: usize) -> (result:
        Result<Environment, OrtError>)
        requires
            old(self)@.phase is Creating,
            status is Ok ==> env_ptr != 0,
        ensures
            final(self)@ == old(self)@.step(creation_event(status, env_ptr)),
            final(self)@.wf(),
            match result {
                Ok(env) => status is Ok && Effect::Grant(env@) == old(self)@.effect(
                    creation_event(status, env_ptr),
                ),
                Err(error) => status is Err && error == OrtError::Environment(status->Err_0),
            },
    {
        proof {
            use_type_invariant(&*self);
        }
        match status {
            Ok(_) => {
                let name = self.name.clone();
                *self = EnvironmentManager {
                    phase: Phase::Ready,
                    env_ptr,
                    name: self.name.clone(),
                    handles: 1,
                };
                Ok(Environment { env_ptr, name })
            },
            Err(error) => {
                self.phase = Phase::Uninitialized;
                Err(OrtError::Environment(error))
            },
        }
    }

    /// Gives back a handle.
    ///
    /// The native environment is to be released exactly when the result is
    /// [`Release::Last`]: when this was the last handle to it.
    pub fn release(&mut self, env: Environment) -> (release: Release)
        ensures
            final(self)@ == old(self)@.step(Event::Dropped { env_ptr: env@.env_ptr }),
            release.effect() == old(self)@.effect(Event::Dropped { env_ptr: env@.env_ptr }),
            final(self)@.wf(),
    {
        proof {
            use_type_invariant(&*self);
        }
        match self.phase {
            Phase::Ready => {
                if env.env_ptr != self.env_ptr {
                    Release::Foreign
                } else if self.handles == 1 {
                    *self = EnvironmentManager {
                        phase: Phase::Released,
                        env_ptr: 0,
                        name: self.name.clone(),
                        handles: 0,
                    };
                    Release::Last { env_ptr: env.env_ptr }
                } else {
                    self.handles = self.handles - 1;
                    Release::Retained
                }
            },
            _ => Release::Foreign,
        }
    }
}

} // verus!
