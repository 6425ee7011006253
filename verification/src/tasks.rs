//! Futures and tasks: which constructor makes them, with which keywords.

use vstd::prelude::*;
use crate::loop_core::{LoopCore, LoopView, ThreadReady, ThreadView};
use crate::objects::ObjectId;
use crate::text::same_text;

verus! {

/// Which keywords the task class takes.
#[derive(Clone, Copy, PartialEq, Eq, Debug, Structural)]
pub struct TaskKwargSupport {
    pub name: bool,
    pub context: bool,
    pub eager_start: bool,
}

/// What a class takes, by what its signature says.
pub open spec fn support_found(keyword_only: Option<TaskKwargSupport>) -> TaskKwargSupport {
    match keyword_only {
        Some(found) => found,
        None => TaskKwargSupport { name: true, context: false, eager_start: false },
    }
}

/// A class whose signature cannot be had counts as one that takes a name.
pub fn detect_asyncio_task_kwarg_support(keyword_only: Option<TaskKwargSupport>) -> (support:
    TaskKwargSupport)
    ensures
        support == support_found(keyword_only),
{
    match keyword_only {
        Some(found) => found,
        None => TaskKwargSupport { name: true, context: false, eager_start: false },
    }
}

/// What a class takes, with one more keyword.
pub open spec fn support_marked(support: TaskKwargSupport, kwarg_name: Seq<char>) -> TaskKwargSupport {
    if kwarg_name == "name"@ {
        TaskKwargSupport { name: true, ..support }
    } else if kwarg_name == "context"@ {
        TaskKwargSupport { context: true, ..support }
    } else if kwarg_name == "eager_start"@ {
        TaskKwargSupport { eager_start: true, ..support }
    } else {
        support
    }
}

/// Notes that the class takes a keyword. One that nobody asks for is ignored.
pub fn mark_task_kwarg_supported(support: &mut TaskKwargSupport, kwarg_name: &str)
    ensures
        *final(support) == support_marked(*old(support), kwarg_name@),
{
    if same_text(kwarg_name, "name") {
        support.name = true;
    } else if same_text(kwarg_name, "context") {
        support.context = true;
    } else if same_text(kwarg_name, "eager_start") {
        support.eager_start = true;
    }
}

/// How a future is made.
#[derive(Clone, Copy, PartialEq, Eq, Debug, Structural)]
pub enum FutureRoute {
    /// The class finds the loop itself.
    ForRunningLoop,
    /// The loop is handed over.
    ForLoop,
}

/// The thread runs this loop.
pub open spec fn runs_here(v: LoopView, thread: ThreadView) -> bool {
    thread.active_loop == Some(v.id)
}

/// How a future is made for a loop.
pub open spec fn future_route(v: LoopView, thread: ThreadView, is_current: bool) -> FutureRoute {
    if runs_here(v, thread) || is_current {
        FutureRoute::ForRunningLoop
    } else {
        FutureRoute::ForLoop
    }
}

/// On its own thread the loop is the one that runs; elsewhere it has to be asked which one does.
pub fn future_needs_asking(core: &LoopCore, thread: &ThreadReady) -> (ask: bool)
    ensures
        ask == !runs_here(core@, thread@),
{
    !core.on_runtime_thread(thread)
}

/// How a future is made. `is_current` says that the loop is the one that runs, as far as it had to
/// be asked.
pub fn create_future(core: &LoopCore, thread: &ThreadReady, is_current: bool) -> (route: FutureRoute)
    ensures
        route == future_route(core@, thread@, is_current),
{
    if core.on_runtime_thread(thread) {
        return FutureRoute::ForRunningLoop;
    }
    if is_current {
        return FutureRoute::ForRunningLoop;
    }
    FutureRoute::ForLoop
}

/// What the caller asked for, besides the coroutine.
pub struct TaskOptions {
    pub name: Option<ObjectId>,
    pub context: Option<ObjectId>,
    pub eager_start: Option<bool>,
    /// Keywords that the call does not know, each with its value.
    pub extra: Vec<(ObjectId, ObjectId)>,
}

/// A keyword that is handed on.
#[derive(Clone, Copy, PartialEq, Eq, Debug, Structural)]
pub enum TaskKwarg {
    Extra { key: ObjectId, value: ObjectId },
    /// The name, or `None` in its place.
    Name(Option<ObjectId>),
    Context(ObjectId),
    EagerStart(bool),
}

/// Something was asked for that has to be handed on.
pub open spec fn has_kwargs(options: TaskOptions, support: TaskKwargSupport) -> bool {
    ||| options.extra@.len() > 0
    ||| options.name is Some
    ||| options.context is Some && support.context
    ||| options.eager_start is Some && support.eager_start
}

/// The keywords that the call does not know.
pub open spec fn extra_kwargs(options: TaskOptions) -> Seq<TaskKwarg> {
    Seq::new(
        options.extra@.len(),
        |i: int| TaskKwarg::Extra { key: options.extra@[i].0, value: options.extra@[i].1 },
    )
}

/// What a task factory gets: everything, and a name in any case.
pub open spec fn factory_kwargs(options: TaskOptions) -> Seq<TaskKwarg> {
    let named = extra_kwargs(options).push(TaskKwarg::Name(options.name));
    let with_context = match options.context {
        Some(context) => named.push(TaskKwarg::Context(context)),
        None => named,
    };
    match options.eager_start {
        Some(eager_start) => with_context.push(TaskKwarg::EagerStart(eager_start)),
        None => with_context,
    }
}

/// What the task class gets: as much as it takes.
pub open spec fn class_kwargs(options: TaskOptions, support: TaskKwargSupport) -> Seq<TaskKwarg> {
    let named = if support.name && options.name is Some {
        extra_kwargs(options).push(TaskKwarg::Name(options.name))
    } else {
        extra_kwargs(options)
    };
    let with_context = match options.context {
        Some(context) => if support.context {
            named.push(TaskKwarg::Context(context))
        } else {
            named
        },
        None => named,
    };
    match options.eager_start {
        Some(eager_start) => if support.eager_start {
            with_context.push(TaskKwarg::EagerStart(eager_start))
        } else {
            with_context
        },
        None => with_context,
    }
}

/// How a task is made.
pub enum TaskStep {
    /// The class gets the coroutine and nothing else.
    ForRunningLoop,
    /// Refuse the call for this keyword.
    Unexpected { key: ObjectId },
    /// The factory gets the loop, the coroutine and the keywords.
    CallFactory { factory: ObjectId, kwargs: Vec<TaskKwarg> },
    /// Ask which loop runs, then see `task_route`. The keywords are there where anything has to be
    /// handed on.
    AskRunningLoop { kwargs: Option<Vec<TaskKwarg>>, trim_traceback: bool },
}

fn push_extra(options: &TaskOptions) -> (kwargs: Vec<TaskKwarg>)
    ensures
        kwargs@ == extra_kwargs(*options),
{
    let mut kwargs: Vec<TaskKwarg> = Vec::new();
    while kwargs.len() < options.extra.len()
        invariant
            kwargs@.len() <= options.extra@.len(),
            kwargs@ == extra_kwargs(*options).take(kwargs@.len() as int),
        decreases options.extra@.len() - kwargs@.len(),
    {
        let (key, value) = options.extra[kwargs.len()];
        kwargs.push(TaskKwarg::Extra { key, value });
        assert(kwargs@ =~= extra_kwargs(*options).take(kwargs@.len() as int));
    }
    assert(kwargs@ =~= extra_kwargs(*options));
    kwargs
}

fn kwargs_for_factory(options: &TaskOptions) -> (kwargs: Vec<TaskKwarg>)
    ensures
        kwargs@ == factory_kwargs(*options),
{
    let mut kwargs = push_extra(options);
    kwargs.push(TaskKwarg::Name(options.name));
    if let Some(context) = options.context {
        kwargs.push(TaskKwarg::Context(context));
    }
    if let Some(eager_start) = options.eager_start {
        kwargs.push(TaskKwarg::EagerStart(eager_start));
    }
    kwargs
}

fn kwargs_for_class(options: &TaskOptions, support: &TaskKwargSupport) -> (kwargs: Vec<TaskKwarg>)
    ensures
        kwargs@ == class_kwargs(*options, *support),
{
    let mut kwargs = push_extra(options);
    if support.name && options.name.is_some() {
        kwargs.push(TaskKwarg::Name(options.name));
    }
    if let Some(context) = options.context {
        if support.context {
            kwargs.push(TaskKwarg::Context(context));
        }
    }
    if let Some(eager_start) = options.eager_start {
        if support.eager_start {
            kwargs.push(TaskKwarg::EagerStart(eager_start));
        }
    }
    kwargs
}

/// The factory that makes tasks, if one is installed.
pub open spec fn factory_of(v: LoopView) -> Option<ObjectId> {
    if v.task_factory_installed {
        v.state.task_factory
    } else {
        None
    }
}

/// What making a task comes to.
pub open spec fn is_task_step(
    v: LoopView,
    thread: ThreadView,
    support: TaskKwargSupport,
    options: TaskOptions,
    step: TaskStep,
) -> bool {
    let wanted = has_kwargs(options, support);
    if !v.task_factory_installed && !wanted && runs_here(v, thread) {
        step is ForRunningLoop
    } else {
        match factory_of(v) {
            Some(factory) => step is CallFactory && step->CallFactory_factory == factory
                && step->CallFactory_kwargs@ == factory_kwargs(options),
            None => if options.extra@.len() > 0 {
                step is Unexpected && step->Unexpected_key == options.extra@[0].0
            } else {
                step is AskRunningLoop && step->trim_traceback == v.debug_enabled
                    && match step->AskRunningLoop_kwargs {
                    Some(kwargs) => wanted && kwargs@ == class_kwargs(options, support),
                    None => !wanted,
                }
            },
        }
    }
}

/// How a task is made.
pub fn create_task(
    core: &LoopCore,
    thread: &ThreadReady,
    support: &TaskKwargSupport,
    options: &TaskOptions,
) -> (step: TaskStep)
    ensures
        is_task_step(core@, thread@, *support, *options, step),
{
    let extra = options.extra.len() > 0;
    let wanted = extra || options.name.is_some() || (options.context.is_some() && support.context)
        || (options.eager_start.is_some() && support.eager_start);
    if !core.has_task_factory() && !wanted && core.on_runtime_thread(thread) {
        return TaskStep::ForRunningLoop;
    }
    let factory = if core.has_task_factory() {
        core.state().task_factory
    } else {
        None
    };
    if let Some(factory) = factory {
        return TaskStep::CallFactory { factory, kwargs: kwargs_for_factory(options) };
    }
    if extra {
        return TaskStep::Unexpected { key: options.extra[0].0 };
    }
    let kwargs = if wanted {
        Some(kwargs_for_class(options, support))
    } else {
        None
    };
    TaskStep::AskRunningLoop { kwargs, trim_traceback: core.get_debug() }
}

/// How the task class is called.
#[derive(Clone, Copy, PartialEq, Eq, Debug, Structural)]
pub enum TaskRoute {
    /// With the coroutine and nothing else.
    ForRunningLoop,
    /// With the coroutine and the keywords.
    ForRunningLoopWithKwargs,
    /// With the coroutine, the loop and the context where one was given.
    ForLoop,
    /// With the coroutine, the keywords and the loop.
    ForLoopWithKwargs,
}

/// How the task class is called.
pub open spec fn class_route(is_current: bool, has_kwargs: bool) -> TaskRoute {
    match (is_current, has_kwargs) {
        (true, false) => TaskRoute::ForRunningLoop,
        (true, true) => TaskRoute::ForRunningLoopWithKwargs,
        (false, false) => TaskRoute::ForLoop,
        (false, true) => TaskRoute::ForLoopWithKwargs,
    }
}

/// The loop is handed over where another one runs, or none.
pub fn task_route(is_current: bool, has_kwargs: bool) -> (route: TaskRoute)
    ensures
        route == class_route(is_current, has_kwargs),
{
    match (is_current, has_kwargs) {
        (true, false) => TaskRoute::ForRunningLoop,
        (true, true) => TaskRoute::ForRunningLoopWithKwargs,
        (false, false) => TaskRoute::ForLoop,
        (false, true) => TaskRoute::ForLoopWithKwargs,
    }
}

/// The message of the refusal of a keyword. `key` is the representation of its name.
pub fn unexpected_keyword_message(key: &str) -> (text: String)
    ensures
        text@ == "create_task() got an unexpected keyword argument "@ + key@,
{
    let mut text = "create_task() got an unexpected keyword argument ".to_owned();
    text.append(key);
    text
}

/// The loop, then the name and the context where they are handed over.
pub open spec fn task_kwnames(include_name: bool, include_context: bool) -> Seq<Seq<char>> {
    let first = seq!["loop"@];
    let second = if include_name {
        first.push("name"@)
    } else {
        first
    };
    if include_context {
        second.push("context"@)
    } else {
        second
    }
}

/// The names of the keywords behind the coroutine, in the order of their values.
pub fn asyncio_task_kwnames_for_options(include_name: bool, include_context: bool) -> (names: Vec<
    &'static str,
>)
    ensures
        Seq::new(names@.len(), |i: int| names@[i]@) == task_kwnames(include_name, include_context),
{
    let mut names: Vec<&'static str> = Vec::new();
    names.push("loop");
    if include_name {
        names.push("name");
    }
    if include_context {
        names.push("context");
    }
    assert(Seq::new(names@.len(), |i: int| names@[i]@) =~= task_kwnames(
        include_name,
        include_context,
    ));
    names
}

/// The last of so many entries.
pub open spec fn last_entry(len: Option<usize>) -> Option<usize> {
    match len {
        Some(len) => if len == 0 {
            None
        } else {
            Some((len - 1) as usize)
        },
        None => None,
    }
}

/// The entry of a task's traceback that is taken off: the last one, which stands for the call that
/// made the task. `len` is `None` where there is no traceback.
pub fn trim_task_source_traceback(len: Option<usize>) -> (entry: Option<usize>)
    ensures
        entry == last_entry(len),
{
    match len {
        None => None,
        Some(len) => {
            if len == 0 {
                None
            } else {
                Some(len - 1)
            }
        },
    }
}

/// The task class is never handed a keyword that it does not take, and what it takes and was asked
/// for reaches it.
pub proof fn law_task_class_gets_what_it_takes(
    options: TaskOptions,
    support: TaskKwargSupport,
    kwarg: TaskKwarg,
)
    requires
        options.extra@.len() == 0,
    ensures
        class_kwargs(options, support).contains(kwarg) <==> match kwarg {
            TaskKwarg::Extra { .. } => false,
            TaskKwarg::Name(name) => support.name && name is Some && name == options.name,
            TaskKwarg::Context(context) => support.context && options.context == Some(context),
            TaskKwarg::EagerStart(eager_start) => support.eager_start && options.eager_start
                == Some(eager_start),
        },
{
    let extra = extra_kwargs(options);
    let named = if support.name && options.name is Some {
        extra.push(TaskKwarg::Name(options.name))
    } else {
        extra
    };
    let with_context = if support.context && options.context is Some {
        named.push(TaskKwarg::Context(options.context.unwrap()))
    } else {
        named
    };
    let all = class_kwargs(options, support);
    if support.name && options.name is Some {
        assert(named[0] == TaskKwarg::Name(options.name));
        assert(all[0] == TaskKwarg::Name(options.name));
    }
    if support.context && options.context is Some {
        assert(with_context.last() == TaskKwarg::Context(options.context.unwrap()));
        assert(all[with_context.len() - 1] == TaskKwarg::Context(options.context.unwrap()));
    }
    if support.eager_start && options.eager_start is Some {
        assert(all.last() == TaskKwarg::EagerStart(options.eager_start.unwrap()));
    }
}

/// A factory is handed everything that was asked for.
pub proof fn law_factory_gets_everything(options: TaskOptions, i: int)
    ensures
        factory_kwargs(options).contains(TaskKwarg::Name(options.name)),
        options.context matches Some(context) ==> factory_kwargs(options).contains(
            TaskKwarg::Context(context),
        ),
        options.eager_start matches Some(eager_start) ==> factory_kwargs(options).contains(
            TaskKwarg::EagerStart(eager_start),
        ),
        0 <= i < options.extra@.len() ==> factory_kwargs(options).contains(
            TaskKwarg::Extra { key: options.extra@[i].0, value: options.extra@[i].1 },
        ),
{
    let all = factory_kwargs(options);
    let n = options.extra@.len() as int;
    assert(all[n] == TaskKwarg::Name(options.name));
    if options.context is Some {
        assert(all[n + 1] == TaskKwarg::Context(options.context.unwrap()));
    }
    if options.eager_start is Some {
        assert(all.last() == TaskKwarg::EagerStart(options.eager_start.unwrap()));
    }
    if 0 <= i < n {
        assert(all[i] == extra_kwargs(options)[i]);
    }
}

} // verus!
