//! What a child process does to itself before it becomes the new program.

use vstd::prelude::*;
use crate::os_constants::{fd_cloexec, sigpipe, sigxfsz, FD_CLOEXEC, SIGPIPE, SIGXFSZ};

verus! {

/// What the caller asked for. Nothing is done for what is `None`.
pub struct UnixPreExecConfig {
    pub restore_signals: bool,
    pub start_new_session: bool,
    pub process_group: Option<i32>,
    pub pass_fds: Vec<i32>,
    pub gid: Option<u32>,
    pub extra_groups: Option<Vec<u32>>,
    pub uid: Option<u32>,
    pub umask: Option<u32>,
}

/// The model of what was asked for.
#[verifier::ext_equal]
pub struct PreExecView {
    pub restore_signals: bool,
    pub start_new_session: bool,
    pub process_group: Option<i32>,
    pub pass_fds: Seq<i32>,
    pub gid: Option<u32>,
    pub extra_groups: Option<Seq<u32>>,
    pub uid: Option<u32>,
    pub umask: Option<u32>,
}

impl View for UnixPreExecConfig {
    type V = PreExecView;

    open spec fn view(&self) -> PreExecView {
        PreExecView {
            restore_signals: self.restore_signals,
            start_new_session: self.start_new_session,
            process_group: self.process_group,
            pass_fds: self.pass_fds@,
            gid: self.gid,
            extra_groups: match self.extra_groups {
                Some(groups) => Some(groups@),
                None => None,
            },
            uid: self.uid,
            umask: self.umask,
        }
    }
}

/// What holds where the caller asked for nothing.
pub open spec fn default_pre_exec() -> PreExecView {
    PreExecView {
        restore_signals: true,
        start_new_session: false,
        process_group: None,
        pass_fds: Seq::empty(),
        gid: None,
        extra_groups: None,
        uid: None,
        umask: None,
    }
}

impl Default for UnixPreExecConfig {
    fn default() -> (config: Self)
        ensures
            config@ == default_pre_exec(),
    {
        UnixPreExecConfig {
            restore_signals: true,
            start_new_session: false,
            process_group: None,
            pass_fds: Vec::new(),
            gid: None,
            extra_groups: None,
            uid: None,
            umask: None,
        }
    }
}

/// One thing that the child does. Where it fails, nothing after it is done, and there is no new
/// program.
pub enum ChildStep {
    /// Give a signal its default handling again.
    DefaultSignal(i32),
    /// Let the new program have the descriptor.
    KeepDescriptor(i32),
    NewSession,
    ProcessGroup(i32),
    Groups(Vec<u32>),
    Group(u32),
    User(u32),
    /// This cannot fail.
    Umask(u32),
}

/// The model of such a thing.
#[verifier::ext_equal]
pub enum StepView {
    DefaultSignal(i32),
    KeepDescriptor(i32),
    NewSession,
    ProcessGroup(i32),
    Groups(Seq<u32>),
    Group(u32),
    User(u32),
    Umask(u32),
}

impl View for ChildStep {
    type V = StepView;

    open spec fn view(&self) -> StepView {
        match *self {
            ChildStep::DefaultSignal(signal) => StepView::DefaultSignal(signal),
            ChildStep::KeepDescriptor(fd) => StepView::KeepDescriptor(fd),
            ChildStep::NewSession => StepView::NewSession,
            ChildStep::ProcessGroup(group) => StepView::ProcessGroup(group),
            ChildStep::Groups(groups) => StepView::Groups(groups@),
            ChildStep::Group(gid) => StepView::Group(gid),
            ChildStep::User(uid) => StepView::User(uid),
            ChildStep::Umask(umask) => StepView::Umask(umask),
        }
    }
}

/// The models of a list of such things.
pub open spec fn step_views(steps: Seq<ChildStep>) -> Seq<StepView> {
    Seq::new(steps.len(), |i: int| steps[i]@)
}

/// One thing or none.
pub open spec fn step_if(wanted: bool, step: StepView) -> Seq<StepView> {
    if wanted {
        seq![step]
    } else {
        Seq::empty()
    }
}

/// The signals that get their default handling again.
pub open spec fn signal_steps(config: PreExecView) -> Seq<StepView> {
    if config.restore_signals {
        seq![StepView::DefaultSignal(SIGPIPE), StepView::DefaultSignal(SIGXFSZ)]
    } else {
        Seq::empty()
    }
}

/// The descriptors that the new program gets.
pub open spec fn descriptor_steps(config: PreExecView) -> Seq<StepView> {
    Seq::new(config.pass_fds.len(), |i: int| StepView::KeepDescriptor(config.pass_fds[i]))
}

/// The session and the process group. A new session brings a process group of its own, so that one
/// need not be asked for.
pub open spec fn session_steps(config: PreExecView) -> Seq<StepView> {
    step_if(config.start_new_session, StepView::NewSession) + match config.process_group {
        Some(group) => step_if(
            !(config.start_new_session && group == 0),
            StepView::ProcessGroup(group),
        ),
        None => Seq::empty(),
    }
}

/// The groups, then the group, then the user.
pub open spec fn identity_steps(config: PreExecView) -> Seq<StepView> {
    (match config.extra_groups {
        Some(groups) => seq![StepView::Groups(groups)],
        None => Seq::empty(),
    }) + (match config.gid {
        Some(gid) => seq![StepView::Group(gid)],
        None => Seq::empty(),
    }) + (match config.uid {
        Some(uid) => seq![StepView::User(uid)],
        None => Seq::empty(),
    })
}

/// The mask for new files.
pub open spec fn umask_steps(config: PreExecView) -> Seq<StepView> {
    match config.umask {
        Some(umask) => seq![StepView::Umask(umask)],
        None => Seq::empty(),
    }
}

/// All that the child does, in this order.
pub open spec fn child_steps(config: PreExecView) -> Seq<StepView> {
    signal_steps(config) + descriptor_steps(config) + session_steps(config) + identity_steps(config)
        + umask_steps(config)
}

/// The flags without the one that closes the descriptor for the new program.
pub open spec fn flags_without_cloexec(flags: i32) -> i32 {
    flags & !FD_CLOEXEC
}

/// The flags of a descriptor that the new program gets.
pub fn kept_descriptor_flags(flags: i32) -> (kept: i32)
    ensures
        kept == flags_without_cloexec(flags),
{
    flags & !fd_cloexec()
}

/// Adds one thing to a list.
fn add_step(steps: &mut Vec<ChildStep>, step: ChildStep)
    ensures
        step_views(final(steps)@) == step_views(old(steps)@) + seq![step@],
{
    steps.push(step);
    assert(step_views(steps@) =~= step_views(old(steps)@) + seq![step@]);
}

fn add_signals(steps: &mut Vec<ChildStep>, config: &UnixPreExecConfig)
    ensures
        step_views(final(steps)@) == step_views(old(steps)@) + signal_steps(config@),
{
    if config.restore_signals {
        add_step(steps, ChildStep::DefaultSignal(sigpipe()));
        add_step(steps, ChildStep::DefaultSignal(sigxfsz()));
    }
    assert(step_views(steps@) =~= step_views(old(steps)@) + signal_steps(config@));
}

fn add_descriptors(steps: &mut Vec<ChildStep>, config: &UnixPreExecConfig)
    ensures
        step_views(final(steps)@) == step_views(old(steps)@) + descriptor_steps(config@),
{
    let ghost start = step_views(steps@);
    let mut done: usize = 0;
    assert(start =~= start + descriptor_steps(config@).take(0));
    while done < config.pass_fds.len()
        invariant
            start == step_views(old(steps)@),
            done <= config.pass_fds@.len(),
            step_views(steps@) == start + descriptor_steps(config@).take(done as int),
        decreases config.pass_fds@.len() - done,
    {
        add_step(steps, ChildStep::KeepDescriptor(config.pass_fds[done]));
        assert(step_views(steps@) =~= start + descriptor_steps(config@).take(done + 1));
        done += 1;
    }
    assert(descriptor_steps(config@).take(config.pass_fds@.len() as int) =~= descriptor_steps(
        config@,
    ));
}

fn add_session(steps: &mut Vec<ChildStep>, config: &UnixPreExecConfig)
    ensures
        step_views(final(steps)@) == step_views(old(steps)@) + session_steps(config@),
{
    if config.start_new_session {
        add_step(steps, ChildStep::NewSession);
    }
    if let Some(group) = config.process_group {
        if !(config.start_new_session && group == 0) {
            add_step(steps, ChildStep::ProcessGroup(group));
        }
    }
    assert(step_views(steps@) =~= step_views(old(steps)@) + session_steps(config@));
}

fn copied(groups: &Vec<u32>) -> (copy: Vec<u32>)
    ensures
        copy@ == groups@,
{
    let mut copy: Vec<u32> = Vec::new();
    while copy.len() < groups.len()
        invariant
            copy@.len() <= groups@.len(),
            copy@ == groups@.take(copy@.len() as int),
        decreases groups@.len() - copy@.len(),
    {
        copy.push(groups[copy.len()]);
        assert(copy@ =~= groups@.take(copy@.len() as int));
    }
    assert(copy@ =~= groups@);
    copy
}

fn add_identity(steps: &mut Vec<ChildStep>, config: &UnixPreExecConfig)
    ensures
        step_views(final(steps)@) == step_views(old(steps)@) + identity_steps(config@),
{
    if let Some(groups) = &config.extra_groups {
        add_step(steps, ChildStep::Groups(copied(groups)));
    }
    if let Some(gid) = config.gid {
        add_step(steps, ChildStep::Group(gid));
    }
    if let Some(uid) = config.uid {
        add_step(steps, ChildStep::User(uid));
    }
    assert(step_views(steps@) =~= step_views(old(steps)@) + identity_steps(config@));
}

/// What the child will do. The list is made before the child is, which must not allocate.
pub fn apply_in_child(config: &UnixPreExecConfig) -> (steps: Vec<ChildStep>)
    ensures
        step_views(steps@) == child_steps(config@),
{
    let mut steps: Vec<ChildStep> = Vec::new();
    add_signals(&mut steps, config);
    add_descriptors(&mut steps, config);
    add_session(&mut steps, config);
    add_identity(&mut steps, config);
    if let Some(umask) = config.umask {
        add_step(&mut steps, ChildStep::Umask(umask));
    }
    assert(step_views(steps@) =~= child_steps(config@));
    steps
}

/// The user changes after the group, and the group after the list of groups: one who is no longer
/// privileged could not do the others.
pub proof fn law_user_changes_last(config: PreExecView, i: int, j: int)
    requires
        0 <= i < child_steps(config).len(),
        0 <= j < child_steps(config).len(),
    ensures
        child_steps(config)[i] is Groups && child_steps(config)[j] is Group ==> i < j,
        child_steps(config)[i] is Groups && child_steps(config)[j] is User ==> i < j,
        child_steps(config)[i] is Group && child_steps(config)[j] is User ==> i < j,
{
    let before = signal_steps(config) + descriptor_steps(config) + session_steps(config);
    assert(child_steps(config) =~= before + (identity_steps(config) + umask_steps(config)));
    assert forall|k: int| 0 <= k < before.len() implies !(#[trigger] before[k] is Groups)
        && !(before[k] is Group) && !(before[k] is User) by {
        let first = signal_steps(config);
        let second = descriptor_steps(config);
        if k < first.len() {
            assert(before[k] == first[k]);
        } else if k < first.len() + second.len() {
            assert(before[k] == second[k - first.len()]);
        } else {
            assert(before[k] == session_steps(config)[k - first.len() - second.len()]);
        }
    }
    if i >= before.len() {
        assert(child_steps(config)[i] == (identity_steps(config) + umask_steps(config))[i
            - before.len()]);
    } else {
        assert(child_steps(config)[i] == before[i]);
    }
    if j >= before.len() {
        assert(child_steps(config)[j] == (identity_steps(config) + umask_steps(config))[j
            - before.len()]);
    } else {
        assert(child_steps(config)[j] == before[j]);
    }
}

/// A descriptor that was passed on is kept, each one.
pub proof fn law_passed_descriptors_are_kept(config: PreExecView, i: int)
    requires
        0 <= i < config.pass_fds.len(),
    ensures
        child_steps(config).contains(StepView::KeepDescriptor(config.pass_fds[i])),
{
    let at = signal_steps(config).len() + i;
    assert(child_steps(config)[at] == StepView::KeepDescriptor(config.pass_fds[i]));
}

} // verus!
