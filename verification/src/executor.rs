//! Work for other threads, and the end of the default executor.

use vstd::prelude::*;
use crate::loop_core::{LoopCore, LoopStateView, LoopView};
use crate::objects::{ExceptionClass, ObjectId};

verus! {

/// Why work was refused or a shutdown failed.
#[derive(Clone, Copy, PartialEq, Eq, Debug, Structural)]
pub enum ExecutorError {
    ShutdownCalled,
    WorkerDropped,
}

impl ExecutorError {
    pub fn message(&self) -> (text: &'static str)
        ensures
            text@ == match *self {
                ExecutorError::ShutdownCalled => "Executor shutdown has been called"@,
                ExecutorError::WorkerDropped => "default executor shutdown worker dropped"@,
            },
    {
        match self {
            ExecutorError::ShutdownCalled => "Executor shutdown has been called",
            ExecutorError::WorkerDropped => "default executor shutdown worker dropped",
        }
    }

    /// The class of the exception that it becomes.
    pub open spec fn class(self) -> ExceptionClass {
        ExceptionClass::RuntimeError
    }

    pub fn exception(&self) -> (class: ExceptionClass)
        ensures
            class == self.class(),
    {
        ExceptionClass::RuntimeError
    }
}

/// Who does the work.
#[derive(Clone, Copy, PartialEq, Eq, Debug, Structural)]
pub enum ExecutorRoute {
    Submit(ObjectId),
    /// A thread of the library's own.
    OwnThread,
}

/// The given executor, or the default one, or a thread of the library's own. Without a given
/// executor nothing is taken after the shutdown.
pub open spec fn executor_route(v: LoopView, executor: Option<ObjectId>) -> Result<
    ExecutorRoute,
    ExecutorError,
> {
    match executor {
        Some(executor) => Ok(ExecutorRoute::Submit(executor)),
        None => if v.state.executor_shutdown_called {
            Err(ExecutorError::ShutdownCalled)
        } else {
            match v.state.default_executor {
                Some(executor) => Ok(ExecutorRoute::Submit(executor)),
                None => Ok(ExecutorRoute::OwnThread),
            }
        },
    }
}

/// Who does the work.
pub fn run_in_executor(core: &LoopCore, executor: Option<ObjectId>) -> (route: Result<
    ExecutorRoute,
    ExecutorError,
>)
    ensures
        route == executor_route(core@, executor),
{
    let selected = match executor {
        Some(executor) => Some(executor),
        None => {
            if core.state().executor_shutdown_called {
                return Err(ExecutorError::ShutdownCalled);
            }
            core.state().default_executor
        },
    };
    match selected {
        Some(executor) => Ok(ExecutorRoute::Submit(executor)),
        None => Ok(ExecutorRoute::OwnThread),
    }
}

/// How long a shutdown is waited for.
#[derive(Clone, Copy, PartialEq, Eq, Debug, Structural)]
pub enum ShutdownTimeout {
    /// No timeout was given, or an infinite one.
    Forever,
    /// A finite time above zero.
    Limited,
    /// Any other number. It is not waited at all.
    Nothing,
}

/// Where a shutdown stands.
#[derive(Clone, Copy, PartialEq, Eq, Debug, Structural)]
pub enum ShutdownPhase {
    Ready,
    WaitingForever,
    Starting,
    WaitingLimited,
    Warning,
    Hurrying,
    Over,
}

/// What came of the action before.
#[derive(Clone, Copy, PartialEq, Eq, Debug, Structural)]
pub enum ShutdownEvent {
    Begin,
    Done,
    TimedOut,
    /// The thread that shut the executor down went away without a word.
    Dropped,
    Raised(ObjectId),
}

/// What a shutdown does next.
#[derive(Clone, Copy, PartialEq, Eq, Debug, Structural)]
pub enum ShutdownAction {
    /// Shut the executor down on another thread, wait for its work, and wait for that thread.
    ShutDownAndWait(ObjectId),
    /// The same, without waiting for that thread.
    StartShutDown(ObjectId),
    WaitUntilTimeout,
    /// Warn that the executor did not finish in time.
    Warn,
    /// Shut the executor down without waiting for its work.
    ShutDownNow(ObjectId),
    Finish,
    Fail(ObjectId),
    FailDropped,
}

/// One step of a shutdown.
pub open spec fn shutdown_step(
    executor: Option<ObjectId>,
    timeout: ShutdownTimeout,
    phase: ShutdownPhase,
    event: ShutdownEvent,
) -> (ShutdownPhase, ShutdownAction) {
    let finish = (ShutdownPhase::Over, ShutdownAction::Finish);
    match executor {
        None => finish,
        Some(executor) => match (phase, event) {
            (_, ShutdownEvent::Raised(raised)) => (
                ShutdownPhase::Over,
                ShutdownAction::Fail(raised),
            ),
            (ShutdownPhase::Ready, ShutdownEvent::Begin) => if timeout is Forever {
                (ShutdownPhase::WaitingForever, ShutdownAction::ShutDownAndWait(executor))
            } else {
                (ShutdownPhase::Starting, ShutdownAction::StartShutDown(executor))
            },
            (ShutdownPhase::Starting, ShutdownEvent::Done) => if timeout is Limited {
                (ShutdownPhase::WaitingLimited, ShutdownAction::WaitUntilTimeout)
            } else {
                (ShutdownPhase::Warning, ShutdownAction::Warn)
            },
            (ShutdownPhase::WaitingLimited, ShutdownEvent::Dropped) => (
                ShutdownPhase::Over,
                ShutdownAction::FailDropped,
            ),
            (ShutdownPhase::WaitingLimited, ShutdownEvent::TimedOut) => (
                ShutdownPhase::Warning,
                ShutdownAction::Warn,
            ),
            (ShutdownPhase::Warning, ShutdownEvent::Done) => (
                ShutdownPhase::Hurrying,
                ShutdownAction::ShutDownNow(executor),
            ),
            _ => finish,
        },
    }
}

/// Shuts the default executor down.
pub struct ExecutorShutdown {
    executor: Option<ObjectId>,
    timeout: ShutdownTimeout,
    phase: ShutdownPhase,
}

impl ExecutorShutdown {
    pub closed spec fn spec_executor(&self) -> Option<ObjectId> {
        self.executor
    }

    pub closed spec fn spec_timeout(&self) -> ShutdownTimeout {
        self.timeout
    }

    pub closed spec fn spec_phase(&self) -> ShutdownPhase {
        self.phase
    }

    /// Takes what came of the action before and says what to do next.
    pub fn step(&mut self, event: ShutdownEvent) -> (action: ShutdownAction)
        ensures
            final(self).spec_executor() == old(self).spec_executor(),
            final(self).spec_timeout() == old(self).spec_timeout(),
            (final(self).spec_phase(), action) == shutdown_step(
                old(self).spec_executor(),
                old(self).spec_timeout(),
                old(self).spec_phase(),
                event,
            ),
    {
        let executor = match self.executor {
            Some(executor) => executor,
            None => {
                self.phase = ShutdownPhase::Over;
                return ShutdownAction::Finish;
            },
        };
        let (phase, action) = match (self.phase, event) {
            (_, ShutdownEvent::Raised(raised)) => (
                ShutdownPhase::Over,
                ShutdownAction::Fail(raised),
            ),
            (ShutdownPhase::Ready, ShutdownEvent::Begin) => {
                match self.timeout {
                    ShutdownTimeout::Forever => (
                        ShutdownPhase::WaitingForever,
                        ShutdownAction::ShutDownAndWait(executor),
                    ),
                    _ => (ShutdownPhase::Starting, ShutdownAction::StartShutDown(executor)),
                }
            },
            (ShutdownPhase::Starting, ShutdownEvent::Done) => {
                match self.timeout {
                    ShutdownTimeout::Limited => (
                        ShutdownPhase::WaitingLimited,
                        ShutdownAction::WaitUntilTimeout,
                    ),
                    _ => (ShutdownPhase::Warning, ShutdownAction::Warn),
                }
            },
            (ShutdownPhase::WaitingLimited, ShutdownEvent::Dropped) => (
                ShutdownPhase::Over,
                ShutdownAction::FailDropped,
            ),
            (ShutdownPhase::WaitingLimited, ShutdownEvent::TimedOut) => (
                ShutdownPhase::Warning,
                ShutdownAction::Warn,
            ),
            (ShutdownPhase::Warning, ShutdownEvent::Done) => (
                ShutdownPhase::Hurrying,
                ShutdownAction::ShutDownNow(executor),
            ),
            _ => (ShutdownPhase::Over, ShutdownAction::Finish),
        };
        self.phase = phase;
        action
    }
}

/// The loop once its default executor is shut down.
pub open spec fn without_executor(v: LoopView) -> LoopView {
    LoopView {
        state: LoopStateView { executor_shutdown_called: true, default_executor: None, ..v.state },
        ..v
    }
}

/// Takes the default executor away from the loop, for its shutdown. From then on the loop takes no
/// work for it.
pub fn shutdown_default_executor(core: &mut LoopCore, timeout: ShutdownTimeout) -> (shutdown:
    ExecutorShutdown)
    ensures
        final(core)@ == without_executor(old(core)@),
        shutdown.spec_executor() == old(core)@.state.default_executor,
        shutdown.spec_timeout() == timeout,
        shutdown.spec_phase() == ShutdownPhase::Ready,
{
    let executor = core.state().default_executor;
    let state = core.state_mut();
    state.executor_shutdown_called = true;
    state.default_executor = None;
    ExecutorShutdown { executor, timeout, phase: ShutdownPhase::Ready }
}

/// The text of the warning. `timeout` is the time in seconds.
pub fn executor_timeout_message(timeout: &str) -> (text: String)
    ensures
        text@ == "The executor did not finishing joining its threads within "@ + timeout@
            + " seconds."@,
{
    let mut text = "The executor did not finishing joining its threads within ".to_owned();
    text.append(timeout);
    text.append(" seconds.");
    text
}

/// An executor that the shutdown found is always told to shut down, and the shutdown gives up
/// waiting only after a warning.
pub proof fn law_executor_is_told_to_shut_down(
    executor: ObjectId,
    timeout: ShutdownTimeout,
    phase: ShutdownPhase,
    event: ShutdownEvent,
)
    ensures
        shutdown_step(Some(executor), timeout, ShutdownPhase::Ready, ShutdownEvent::Begin).1 == if timeout
            is Forever {
            ShutdownAction::ShutDownAndWait(executor)
        } else {
            ShutdownAction::StartShutDown(executor)
        },
        shutdown_step(Some(executor), timeout, phase, event).1 is ShutDownNow ==> phase is Warning,
        phase is WaitingLimited && event is TimedOut ==> shutdown_step(
            Some(executor),
            timeout,
            phase,
            event,
        ).1 is Warn,
{
}

/// After its shutdown the loop takes no work without a given executor, whatever came of the
/// shutdown.
pub proof fn law_no_work_after_the_shutdown(before: LoopCore, after: LoopCore)
    requires
        after@.state == (LoopStateView {
            executor_shutdown_called: true,
            default_executor: None,
            ..before@.state
        }),
    ensures
        executor_route(after@, None) == Result::<ExecutorRoute, ExecutorError>::Err(
            ExecutorError::ShutdownCalled,
        ),
        forall|executor: ObjectId| #[trigger]
            executor_route(after@, Some(executor)) == executor_route(before@, Some(executor)),
{
}

} // verus!
