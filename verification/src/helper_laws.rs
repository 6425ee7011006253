//! What holds of the loop's helpers: executors, asynchronous generators, futures and tasks.

use vstd::prelude::*;
use crate::asyncgens::{
    asyncgen_step, closes_dropped, comes_late, with_asyncgens, without_new_asyncgens,
    AsyncgenAction, AsyncgenEvent, AsyncgenPhase, AsyncgensView,
};
use crate::executor::{
    executor_route, shutdown_step, without_executor, ExecutorError, ExecutorRoute, ShutdownAction,
    ShutdownEvent, ShutdownPhase, ShutdownTimeout,
};
use crate::loop_core::{LoopView, ThreadView};
use crate::objects::ObjectId;
use crate::tasks::{
    class_kwargs, class_route, extra_kwargs, factory_kwargs, future_route, is_task_step,
    last_entry, runs_here, support_found, support_marked, task_kwnames, TaskKwarg,
    TaskKwargSupport, TaskOptions, TaskStep,
};

verus! {

/// Work goes to the executor that was given, shut down or not. Without one it goes to the default
/// executor, or to a thread of the library's own where there is none, and it is refused once the
/// shutdown was called.
pub proof fn law_work_goes_where_it_was_sent(v: LoopView, given: ObjectId)
    ensures
        executor_route(v, Some(given)) == Result::<ExecutorRoute, ExecutorError>::Ok(
            ExecutorRoute::Submit(given),
        ),
        executor_route(v, None) is Err <==> v.state.executor_shutdown_called,
        executor_route(v, None) is Err ==> executor_route(v, None)->Err_0
            == ExecutorError::ShutdownCalled,
        !v.state.executor_shutdown_called ==> (v.state.default_executor matches Some(own)
            ==> executor_route(v, None) == Result::<ExecutorRoute, ExecutorError>::Ok(
            ExecutorRoute::Submit(own),
        )),
        !v.state.executor_shutdown_called && v.state.default_executor is None ==> executor_route(
            v,
            None,
        ) == Result::<ExecutorRoute, ExecutorError>::Ok(ExecutorRoute::OwnThread),
{
}

/// A loop whose executor was shut down has none, takes no more work for it, and is else as before.
pub proof fn law_shut_down_executor_is_gone(v: LoopView)
    ensures
        executor_route(without_executor(v), None) is Err,
        without_executor(v).state.default_executor is None,
        without_executor(v).state.executor_shutdown_called,
        without_executor(v).state.closed == v.state.closed,
        without_executor(v).state.running == v.state.running,
        without_executor(v).state.stopping == v.state.stopping,
        without_executor(v).state.signal_handlers == v.state.signal_handlers,
        without_executor(v).state.active_asyncgens == v.state.active_asyncgens,
        without_executor(v).sent == v.sent,
        without_executor(without_executor(v)) == without_executor(v),
{
}

/// A shutdown without a limit waits for the executor's work and is then over. One with a limit
/// starts it, waits as long as the limit, and is over where the work was done in time; else it
/// warns and has the executor shut down at once. A limit that is no time is not waited for at all.
pub proof fn law_shutdown_waits_as_long_as_it_may(executor: ObjectId, timeout: ShutdownTimeout)
    ensures
        ({
            let some = Some(executor);
            let (begun, first) = shutdown_step(
                some,
                timeout,
                ShutdownPhase::Ready,
                ShutdownEvent::Begin,
            );
            let (started, second) = shutdown_step(some, timeout, begun, ShutdownEvent::Done);
            let (late, third) = shutdown_step(some, timeout, started, ShutdownEvent::TimedOut);
            &&& timeout is Forever ==> first == ShutdownAction::ShutDownAndWait(executor) && second
                is Finish
            &&& !(timeout is Forever) ==> first == ShutdownAction::StartShutDown(executor)
            &&& timeout is Limited ==> second is WaitUntilTimeout && third is Warn
                && shutdown_step(some, timeout, started, ShutdownEvent::Done).1 is Finish
                && shutdown_step(some, timeout, started, ShutdownEvent::Dropped).1 is FailDropped
                && shutdown_step(some, timeout, late, ShutdownEvent::Done).1
                == ShutdownAction::ShutDownNow(executor)
            &&& timeout is Nothing ==> second is Warn && shutdown_step(
                some,
                timeout,
                started,
                ShutdownEvent::Done,
            ).1 == ShutdownAction::ShutDownNow(executor)
        }),
{
}

/// What raises ends a shutdown and comes out as it was; where there is no executor there is nothing
/// to shut down. Once the executor was told to hurry the shutdown is over.
pub proof fn law_shutdown_ends(
    executor: Option<ObjectId>,
    timeout: ShutdownTimeout,
    phase: ShutdownPhase,
    raised: ObjectId,
    event: ShutdownEvent,
)
    ensures
        executor is Some ==> shutdown_step(executor, timeout, phase, ShutdownEvent::Raised(raised))
            == (ShutdownPhase::Over, ShutdownAction::Fail(raised)),
        executor is None ==> shutdown_step(executor, timeout, phase, event).1 is Finish,
        phase is Hurrying && event is Done ==> shutdown_step(executor, timeout, phase, event).1
            is Finish,
        shutdown_step(executor, timeout, phase, event).1 matches ShutdownAction::Fail(out) ==> event
            == ShutdownEvent::Raised(out),
{
}

/// The loop keeps one set for its generators: the one that it has, or else the new one, and then
/// always that. Nothing else of the loop changes.
pub proof fn law_asyncgens_share_one_set(v: LoopView, fresh: ObjectId, other: ObjectId)
    ensures
        v.state.active_asyncgens is Some ==> with_asyncgens(v, fresh) == v,
        v.state.active_asyncgens is None ==> with_asyncgens(v, fresh).state.active_asyncgens
            == Some(fresh),
        with_asyncgens(with_asyncgens(v, fresh), other) == with_asyncgens(v, fresh),
        with_asyncgens(v, fresh).state.closed == v.state.closed,
        with_asyncgens(v, fresh).state.running == v.state.running,
        with_asyncgens(v, fresh).state.asyncgens_shutdown_called
            == v.state.asyncgens_shutdown_called,
        with_asyncgens(v, fresh).sent == v.sent,
{
}

/// A generator is warned about exactly when it comes after the shutdown of the others, and that
/// shutdown changes nothing else. One that is dropped is closed unless the loop is.
pub proof fn law_late_asyncgens_are_warned_about(v: LoopView)
    ensures
        comes_late(without_new_asyncgens(v)),
        comes_late(v) <==> v.state.asyncgens_shutdown_called,
        closes_dropped(v) <==> !v.state.closed,
        without_new_asyncgens(v).state.active_asyncgens == v.state.active_asyncgens,
        without_new_asyncgens(v).state.closed == v.state.closed,
        without_new_asyncgens(v).state.default_executor == v.state.default_executor,
        without_new_asyncgens(v).sent == v.sent,
{
}

/// Generators are closed in their order, each once: a step closes the first that is left and leaves
/// the others. The end comes when none is left. What closing one raised is reported with it; what
/// else raises ends it all and comes out as it was.
pub proof fn law_asyncgens_are_closed_in_order(v: AsyncgensView, event: AsyncgenEvent)
    ensures
        ({
            let (after, action) = asyncgen_step(v, event);
            &&& action matches AsyncgenAction::Close(agen) ==> v.left.len() > 0 && agen == v.left[0]
                && after.left == v.left.skip(1) && after.phase == AsyncgenPhase::Closing(agen)
            &&& !(action is Close) ==> after.left == v.left
            &&& action matches AsyncgenAction::Report { agen, raised } ==> v.phase
                == AsyncgenPhase::Closing(agen) && event == AsyncgenEvent::CloseFailed(raised)
                && after.phase is Next
            &&& action matches AsyncgenAction::Fail(raised) ==> event == AsyncgenEvent::Raised(
                raised,
            )
            &&& event matches AsyncgenEvent::Raised(raised) ==> action == AsyncgenAction::Fail(
                raised,
            ) && after.phase is Over
            &&& v.phase is Closing && event is Closed ==> (action is Finish <==> v.left.len() == 0)
            &&& v.phase is Closing && event is CloseFailed ==> action is Report
            &&& action is Finish ==> after.phase is Over
            &&& v.phase is Over && !(event is Raised) ==> action is Finish
            &&& v.phase is Next && (event is Begin || event is Reported) ==> (action is Finish
                <==> v.left.len() == 0)
        }),
{
    assert(v.left.len() > 0 ==> v.left.drop_first() =~= v.left.skip(1));
}

/// A future belongs to the loop that runs, or is handed the loop: that is needed exactly where
/// neither the thread runs it nor it is the one that runs.
pub proof fn law_futures_find_their_loop(v: LoopView, thread: ThreadView, is_current: bool)
    ensures
        runs_here(v, thread) <==> thread.active_loop == Some(v.id),
        future_route(v, thread, is_current) is ForLoop <==> !runs_here(v, thread) && !is_current,
        class_route(is_current, false) is ForRunningLoop <==> is_current,
        class_route(is_current, true) is ForRunningLoopWithKwargs <==> is_current,
        class_route(is_current, false) is ForLoop <==> !is_current,
        class_route(is_current, true) is ForLoopWithKwargs <==> !is_current,
{
}

/// What a class takes is what its signature says, or a name alone where it says nothing. A keyword
/// that is marked is taken from then on, and no other changes.
pub proof fn law_support_is_what_was_found(support: TaskKwargSupport, name: Seq<char>)
    ensures
        support_found(Some(support)) == support,
        support_found(None).name,
        !support_found(None).context,
        !support_found(None).eager_start,
        support_marked(support, name).name <==> support.name || name == "name"@,
        support_marked(support, name).context <==> support.context || name == "context"@,
        support_marked(support, name).eager_start <==> support.eager_start || name
            == "eager_start"@,
{
    reveal_strlit("name");
    reveal_strlit("context");
    reveal_strlit("eager_start");
    assert("name"@.len() == 4);
    assert("context"@.len() == 7);
    assert("eager_start"@.len() == 11);
}

/// An installed factory makes every task and gets all that was asked for. Without one a keyword that
/// the call does not know is refused, the first one by name; a task without any request is made
/// directly on the thread that runs the loop; else it is asked which loop runs, and what the class
/// takes is handed on exactly where something is.
pub proof fn law_tasks_are_made_by_the_factory_or_the_class(
    v: LoopView,
    thread: ThreadView,
    support: TaskKwargSupport,
    options: TaskOptions,
    step: TaskStep,
)
    requires
        is_task_step(v, thread, support, options, step),
        v.task_factory_installed <==> v.state.task_factory is Some,
    ensures
        v.state.task_factory matches Some(factory) ==> step is CallFactory
            && step->CallFactory_factory == factory && step->CallFactory_kwargs@ == factory_kwargs(
            options,
        ),
        step is CallFactory ==> v.state.task_factory is Some,
        v.state.task_factory is None ==> (options.extra@.len() > 0 <==> step is Unexpected),
        step is Unexpected ==> step->Unexpected_key == options.extra@[0].0,
        step is ForRunningLoop ==> v.state.task_factory is None && options.name is None
            && options.extra@.len() == 0 && thread.active_loop == Some(v.id),
        v.state.task_factory is None && options.extra@.len() == 0 && options.name is None
            && options.context is None && options.eager_start is None && thread.active_loop == Some(
            v.id,
        ) ==> step is ForRunningLoop,
        v.state.task_factory is None && options.extra@.len() == 0 && options.name is Some ==> step
            is AskRunningLoop && step->AskRunningLoop_kwargs is Some,
        step is AskRunningLoop ==> step->trim_traceback == v.debug_enabled,
        step is AskRunningLoop ==> (step->AskRunningLoop_kwargs matches Some(kwargs) ==> kwargs@
            == class_kwargs(options, support)),
        v.state.task_factory is None && options.extra@.len() == 0 && options.context is Some
            && support.context ==> step is AskRunningLoop && step->AskRunningLoop_kwargs is Some,
        v.state.task_factory is None && options.extra@.len() == 0 && options.eager_start is Some
            && support.eager_start ==> step is AskRunningLoop && step->AskRunningLoop_kwargs
            is Some,
{
}

/// A factory gets nothing that was not asked for: the unknown keywords in their order, then the name
/// in any case, then the context and the eager start where they were given.
pub proof fn law_factory_gets_nothing_else(options: TaskOptions)
    ensures
        factory_kwargs(options).len() == options.extra@.len() + 1 + (if options.context is Some {
            1int
        } else {
            0int
        }) + (if options.eager_start is Some {
            1int
        } else {
            0int
        }),
        factory_kwargs(options).take(options.extra@.len() as int) == extra_kwargs(options),
        factory_kwargs(options)[options.extra@.len() as int] == TaskKwarg::Name(options.name),
        options.context matches Some(context) ==> factory_kwargs(options)[options.extra@.len() as int
            + 1] == TaskKwarg::Context(context),
        options.eager_start matches Some(eager) ==> factory_kwargs(options).last()
            == TaskKwarg::EagerStart(eager),
        extra_kwargs(options).len() == options.extra@.len(),
        forall|i: int|
            0 <= i < options.extra@.len() ==> (#[trigger] extra_kwargs(options)[i])
                == (TaskKwarg::Extra { key: options.extra@[i].0, value: options.extra@[i].1 }),
{
    assert(factory_kwargs(options).take(options.extra@.len() as int) =~= extra_kwargs(options));
}

/// The loop is always named, and named first. The name and the context are named exactly where they
/// are handed over, the name before the context, and nothing else is.
pub proof fn law_keywords_are_named_in_order(include_name: bool, include_context: bool)
    ensures
        ({
            let names = task_kwnames(include_name, include_context);
            &&& names.len() >= 1
            &&& names[0] == "loop"@
            &&& names.contains("name"@) <==> include_name
            &&& names.contains("context"@) <==> include_context
            &&& include_name ==> names[1] == "name"@
            &&& include_context ==> names.last() == "context"@
            &&& forall|i: int, j: int| 0 <= i < j < names.len() ==> names[i] != names[j]
        }),
        include_name && include_context ==> task_kwnames(include_name, include_context).len() == 3,
        include_name != include_context ==> task_kwnames(include_name, include_context).len() == 2,
        !include_name && !include_context ==> task_kwnames(include_name, include_context).len()
            == 1,
{
    reveal_strlit("loop");
    reveal_strlit("name");
    reveal_strlit("context");
    assert("loop"@[0] != "name"@[0]);
    assert("loop"@.len() == 4);
    assert("context"@.len() == 7);
    assert("name"@.len() == 4);
    let names = task_kwnames(include_name, include_context);
    assert(include_name ==> names[1] == "name"@);
    assert(include_context ==> names[names.len() - 1] == "context"@);
}

/// Of a traceback the last entry is taken off, and nothing where there is no entry or no traceback.
pub proof fn law_last_entry_is_taken_off(len: usize)
    ensures
        last_entry(None) is None,
        last_entry(Some(len)) is None <==> len == 0,
        last_entry(Some(len)) matches Some(entry) ==> entry + 1 == len,
{
}

} // verus!
