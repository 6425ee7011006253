//! What holds of the arguments of a subprocess, of its start, and of what the child does first.

use vstd::prelude::*;
use crate::os_constants::{FD_CLOEXEC, SIGPIPE, SIGXFSZ};
use crate::pre_exec::{
    child_steps, default_pre_exec, descriptor_steps, flags_without_cloexec, identity_steps,
    session_steps, signal_steps, umask_steps, PreExecView, StepView,
};
use crate::process_transport::ProcessTextConfig;
use crate::subprocess::{
    all_kw_applied, id_step, is_id_database, is_text_config, kw_applied, kw_conversion,
    kw_named, own_or_keywords, plain_command, shell_line, stdio_or_pipe, stdio_plan, text_fits,
    text_mode, ChildStdio, CommandView, IdArgument, IdDatabase, IdKind, IdStep, KwConversion,
    KwSetting, ProcessKw, ProcessStdioSpec, StdioArgument, StdioPlan, SubprocessEntry,
    SubprocessError, PROCESS_UMASK_MAX,
};
use crate::subprocess_flow::{
    requested, spawn_step, SpawnAction, SpawnEvent, SpawnPhase, SubprocessRequest,
};

verus! {

/// A stream of the child is connected to what was asked for it.
pub open spec fn connects(asked: ProcessStdioSpec, stdio: ChildStdio) -> bool {
    &&& asked is Pipe ==> stdio is Piped
    &&& asked is DevNull ==> stdio is Null
    &&& asked is Inherit ==> stdio is Inherit
    &&& asked matches ProcessStdioSpec::Fd(fd) ==> stdio == ChildStdio::Fd(fd)
    &&& !(asked is Stdout)
}

/// In every plan each stream is connected to what was asked for it: a pipe, nothing, a descriptor,
/// or what this process has. Output and errors share a pipe exactly where the errors are to go with
/// an output that is a pipe.
pub proof fn law_streams_are_connected_as_asked(
    stdin: ProcessStdioSpec,
    stdout: ProcessStdioSpec,
    stderr: ProcessStdioSpec,
    plan: StdioPlan,
)
    requires
        stdio_plan(stdin, stdout, stderr) == Result::<StdioPlan, SubprocessError>::Ok(plan),
    ensures
        connects(stdin, plan.stdin),
        !(stdout is Pipe && stderr is Stdout) ==> connects(stdout, plan.stdout),
        !(stderr is Stdout) ==> connects(stderr, plan.stderr),
        stderr is Stdout && !(stdout is Pipe) ==> connects(stdout, plan.stderr),
        stdout is Pipe && stderr is Stdout <==> plan.stdout is SharedPipe,
        stdout is Pipe && stderr is Stdout <==> plan.stderr is SharedPipe,
        !(plan.stdin is SharedPipe),
{
}

/// Streams can be set up unless the input or the output is to go where the output goes; that is said
/// of the one that is at fault.
pub proof fn law_only_errors_go_with_the_output(
    stdin: ProcessStdioSpec,
    stdout: ProcessStdioSpec,
    stderr: ProcessStdioSpec,
)
    ensures
        stdio_plan(stdin, stdout, stderr) is Ok <==> !(stdin is Stdout) && !(stdout is Stdout),
        stdin is Stdout || stdout is Stdout ==> stdio_plan(stdin, stdout, stderr) == Result::<
            StdioPlan,
            SubprocessError,
        >::Err(SubprocessError::StdoutOnlyForStderr),
{
}

/// A stream of the child is connected to what the caller gave for it.
pub open spec fn connects_argument(given: StdioArgument, stdio: ChildStdio) -> bool {
    &&& given is Pipe ==> stdio is Piped
    &&& given is DevNull ==> stdio is Null
    &&& given is Nothing ==> stdio is Inherit
    &&& given matches StdioArgument::File(fd) ==> stdio == ChildStdio::Fd(fd)
}

/// From the arguments of the call to the streams of the child nothing is mixed up: each stream gets
/// what was given for it, a pipe where nothing was.
pub proof fn law_arguments_reach_the_streams(
    entry: SubprocessEntry,
    shell: bool,
    universal_newlines: bool,
    has_encoding: bool,
    has_errors: bool,
    text: Option<bool>,
    stdin: Option<StdioArgument>,
    stdout: Option<StdioArgument>,
    stderr: Option<StdioArgument>,
    request: SubprocessRequest,
    plan: StdioPlan,
)
    requires
        requested(
            entry,
            shell,
            universal_newlines,
            has_encoding,
            has_errors,
            text,
            stdio_or_pipe(stdin),
            stdio_or_pipe(stdout),
            stdio_or_pipe(stderr),
        ) == Result::<SubprocessRequest, SubprocessError>::Ok(request),
        stdio_plan(request.stdin, request.stdout, request.stderr) == Result::<
            StdioPlan,
            SubprocessError,
        >::Ok(plan),
    ensures
        request.entry == entry,
        request.text_mode <==> universal_newlines || text == Some(true) || has_encoding
            || has_errors,
        stdin matches Some(given) ==> connects_argument(given, plan.stdin),
        stdin is None ==> plan.stdin is Piped,
        stdout matches Some(given) ==> given is Pipe || connects_argument(given, plan.stdout),
        stdout is None || stdout == Some(StdioArgument::Pipe) ==> plan.stdout == if stderr == Some(
            StdioArgument::Stdout,
        ) {
            ChildStdio::SharedPipe
        } else {
            ChildStdio::Piped
        },
        stderr matches Some(given) ==> given is Stdout || connects_argument(given, plan.stderr),
        stderr == Some(StdioArgument::Stdout) ==> plan.stderr == plan.stdout,
        stderr is None ==> plan.stderr is Piped,
{
}

/// The shell, then the text mode, then the streams in order: the first that is at fault is named.
pub proof fn law_first_fault_is_named(
    entry: SubprocessEntry,
    shell: bool,
    universal_newlines: bool,
    has_encoding: bool,
    has_errors: bool,
    text: Option<bool>,
    stdin: StdioArgument,
    stdout: StdioArgument,
    stderr: StdioArgument,
)
    ensures
        ({
            let request = requested(
                entry,
                shell,
                universal_newlines,
                has_encoding,
                has_errors,
                text,
                stdin,
                stdout,
                stderr,
            );
            let fits = shell == (entry == SubprocessEntry::Shell);
            let clear = !(text == Some(false) && universal_newlines);
            &&& fits && !clear ==> request == Result::<SubprocessRequest, SubprocessError>::Err(
                SubprocessError::TextModesDiffer,
            )
            &&& fits && clear && (stdin is Stdout || stdout is Stdout) ==> request == Result::<
                SubprocessRequest,
                SubprocessError,
            >::Err(SubprocessError::StdoutOnlyForStderr)
        }),
{
}

/// Text mode uses what was given, and else the encoding of the machine and strict errors; newlines
/// are translated. Without it there is no text configuration. The stream protocol is refused in
/// text mode alone.
pub proof fn law_text_mode_uses_what_was_given(
    entry: SubprocessEntry,
    universal_newlines: bool,
    encoding: Option<String>,
    errors: Option<String>,
    text: Option<bool>,
    preferred: String,
    config: Result<Option<ProcessTextConfig>, SubprocessError>,
    streams: bool,
)
    requires
        is_text_config(universal_newlines, encoding, errors, text, preferred, config),
    ensures
        config is Err <==> universal_newlines && text == Some(false),
        config is Err ==> config->Err_0 == SubprocessError::TextModesDiffer,
        config matches Ok(found) ==> (found is Some <==> universal_newlines || text == Some(true)
            || encoding is Some || errors is Some),
        config matches Ok(Some(found)) ==> found.translate_newlines,
        config matches Ok(Some(found)) ==> (encoding matches Some(given) ==> found.encoding@
            == given@),
        config matches Ok(Some(found)) ==> encoding is None ==> found.encoding@ == preferred@,
        config matches Ok(Some(found)) ==> (errors matches Some(given) ==> found.errors@ == given@),
        config matches Ok(Some(found)) ==> errors is None ==> found.errors@ == "strict"@,
        text_fits(entry, true, true) == Result::<(), SubprocessError>::Err(
            SubprocessError::TextWithStreams(entry),
        ),
        text_fits(entry, false, streams) is Ok,
        text_fits(entry, streams, false) is Ok,
{
}

/// What the call itself asked for wins over its keywords.
pub proof fn law_own_text_mode_wins(
    own: ProcessTextConfig,
    keywords: Option<ProcessTextConfig>,
)
    ensures
        own_or_keywords(Some(own), keywords) == Some(own),
        own_or_keywords(None, keywords) == keywords,
{
}

/// A number names a group or a user by itself, a name has to be looked up, and the refusal of
/// anything else says what it was for.
pub proof fn law_ids_are_numbers_or_names(kind: IdKind, id: u32, argument: IdArgument)
    ensures
        id_step(kind, IdArgument::Number(id)) == Result::<IdStep, SubprocessError>::Ok(
            IdStep::Ready(id),
        ),
        id_step(kind, argument) == Result::<IdStep, SubprocessError>::Ok(IdStep::Ready(id))
            ==> argument == IdArgument::Number(id),
        id_step(kind, argument) == Result::<IdStep, SubprocessError>::Ok(IdStep::LookUp)
            <==> argument is Name,
        id_step(kind, argument) is Err <==> argument is Other,
        argument is Other ==> id_step(kind, argument)->Err_0 == SubprocessError::IdType(kind),
{
}

/// A line is run by the shell of the system, a program by itself with its arguments in order.
/// Nothing else is said of either.
pub proof fn law_commands_run_what_was_given(
    line: Seq<char>,
    program: Seq<char>,
    args: Seq<Seq<char>>,
)
    ensures
        shell_line(line).program == "/bin/sh"@,
        shell_line(line).args.len() == 2,
        shell_line(line).args[0] == "-c"@,
        shell_line(line).args[1] == line,
        shell_line(line).cwd is None,
        shell_line(line).arg0 is None,
        shell_line(line).env.len() == 0,
        plain_command(program, args).program == program,
        plain_command(program, args).args == args,
        plain_command(program, args).cwd is None,
        plain_command(program, args).arg0 is None,
        plain_command(program, args).env.len() == 0,
{
}

/// Each keyword is known by its own name, and a name that is none of them by none.
pub proof fn law_keywords_are_known_by_name(name: Seq<char>)
    ensures
        kw_named(name) is Cwd <==> name == "cwd"@,
        kw_named(name) is Env <==> name == "env"@,
        kw_named(name) is Executable <==> name == "executable"@,
        kw_named(name) is RestoreSignals <==> name == "restore_signals"@,
        kw_named(name) is StartNewSession <==> name == "start_new_session"@,
        kw_named(name) is ProcessGroup <==> name == "process_group"@,
        kw_named(name) is PassFds <==> name == "pass_fds"@,
        kw_named(name) is Group <==> name == "group"@,
        kw_named(name) is ExtraGroups <==> name == "extra_groups"@,
        kw_named(name) is User <==> name == "user"@,
        kw_named(name) is Umask <==> name == "umask"@,
        kw_named(name) is PreexecFn <==> name == "preexec_fn"@,
{
    reveal_strlit("cwd");
    reveal_strlit("env");
    reveal_strlit("executable");
    reveal_strlit("restore_signals");
    reveal_strlit("start_new_session");
    reveal_strlit("process_group");
    reveal_strlit("pass_fds");
    reveal_strlit("group");
    reveal_strlit("extra_groups");
    reveal_strlit("user");
    reveal_strlit("umask");
    reveal_strlit("preexec_fn");
    assert("cwd"@.len() == 3);
    assert("env"@.len() == 3);
    assert("executable"@.len() == 10);
    assert("restore_signals"@.len() == 15);
    assert("start_new_session"@.len() == 17);
    assert("process_group"@.len() == 13);
    assert("pass_fds"@.len() == 8);
    assert("group"@.len() == 5);
    assert("extra_groups"@.len() == 12);
    assert("user"@.len() == 4);
    assert("umask"@.len() == 5);
    assert("preexec_fn"@.len() == 10);
    assert("cwd"@[0] != "env"@[0]);
    assert("group"@[0] != "umask"@[0]);
    assert("executable"@[0] != "preexec_fn"@[0]);
}

/// `None` stands for a keyword that was not given, but for the two flags. Every other value is turned
/// into what the keyword holds; only a function for the child is refused as such.
pub proof fn law_none_leaves_a_keyword_out(kw: ProcessKw, is_none: bool)
    ensures
        kw is RestoreSignals || kw is StartNewSession <==> kw_conversion(kw, is_none) is Truth,
        is_none && !(kw is RestoreSignals) && !(kw is StartNewSession) ==> kw_conversion(kw, is_none)
            is Skip,
        kw is Unknown ==> kw_conversion(kw, is_none) is Skip,
        !is_none && !(kw is Unknown) ==> !(kw_conversion(kw, is_none) is Skip),
        kw_conversion(kw, is_none) is Refuse <==> kw is PreexecFn && !is_none,
        kw_conversion(kw, is_none) is Path <==> (kw is Cwd || kw is Executable) && !is_none,
        kw_conversion(kw, is_none) is TextPairs <==> kw is Env && !is_none,
        kw_conversion(kw, is_none) is Int32 <==> kw is ProcessGroup && !is_none,
        kw_conversion(kw, is_none) is Int32List <==> kw is PassFds && !is_none,
        kw_conversion(kw, is_none) == KwConversion::Id(IdKind::Group) <==> kw is Group && !is_none,
        kw_conversion(kw, is_none) == KwConversion::Id(IdKind::User) <==> kw is User && !is_none,
        kw_conversion(kw, is_none) is IdList <==> kw is ExtraGroups && !is_none,
        kw_conversion(kw, is_none) is Int64 <==> kw is Umask && !is_none,
{
}

/// A setting is refused for a mask out of range, and for a function that the child is to call.
pub open spec fn is_refused(setting: KwSetting) -> bool {
    match setting {
        KwSetting::Umask(mask) => mask < -1 || mask > PROCESS_UMASK_MAX,
        KwSetting::PreexecFn => true,
        _ => false,
    }
}

/// Each part of the command line, and of what the child does to itself, is what the setting for it
/// says, and stays as it was under any other setting. Variables are added behind those that are
/// there. A mask of minus one sets none.
pub proof fn law_settings_change_what_they_name(
    command: CommandView,
    unix: PreExecView,
    setting: KwSetting,
)
    ensures
        kw_applied(command, unix, setting) is Err <==> is_refused(setting),
        setting is PreexecFn ==> kw_applied(command, unix, setting)->Err_0
            == SubprocessError::PreexecFn,
        setting is Umask && is_refused(setting) ==> kw_applied(command, unix, setting)->Err_0
            == SubprocessError::UmaskRange,
        kw_applied(command, unix, setting) matches Ok((c, u)) ==> {
            &&& c.program == command.program
            &&& c.args == command.args
            &&& c.cwd == match setting {
                KwSetting::Cwd(path) => Some(path@),
                _ => command.cwd,
            }
            &&& c.arg0 == match setting {
                KwSetting::Executable(path) => Some(path@),
                _ => command.arg0,
            }
            &&& c.env == match setting {
                KwSetting::Env(pairs) => command.env + pairs@,
                _ => command.env,
            }
            &&& u.restore_signals == match setting {
                KwSetting::RestoreSignals(flag) => flag,
                _ => unix.restore_signals,
            }
            &&& u.start_new_session == match setting {
                KwSetting::StartNewSession(flag) => flag,
                _ => unix.start_new_session,
            }
            &&& u.process_group == match setting {
                KwSetting::ProcessGroup(group) => Some(group),
                _ => unix.process_group,
            }
            &&& u.pass_fds == match setting {
                KwSetting::PassFds(fds) => fds@,
                _ => unix.pass_fds,
            }
            &&& u.gid == match setting {
                KwSetting::Group(gid) => Some(gid),
                _ => unix.gid,
            }
            &&& u.extra_groups == match setting {
                KwSetting::ExtraGroups(groups) => Some(groups@),
                _ => unix.extra_groups,
            }
            &&& u.uid == match setting {
                KwSetting::User(uid) => Some(uid),
                _ => unix.uid,
            }
            &&& u.umask == match setting {
                KwSetting::Umask(mask) => if mask == -1 {
                    unix.umask
                } else {
                    Some(mask as u32)
                },
                _ => unix.umask,
            }
        },
{
}

/// Settings are applied one after the other, from the first on: no settings change nothing, and one
/// more is applied to what those before it made.
pub proof fn law_settings_are_applied_in_order(
    command: CommandView,
    unix: PreExecView,
    settings: Seq<KwSetting>,
    setting: KwSetting,
)
    ensures
        all_kw_applied(command, unix, Seq::empty()) == Result::<
            (CommandView, PreExecView),
            SubprocessError,
        >::Ok((command, unix)),
        all_kw_applied(command, unix, settings) matches Ok((c, u)) ==> all_kw_applied(
            command,
            unix,
            settings.push(setting),
        ) == kw_applied(c, u, setting),
        all_kw_applied(command, unix, settings) is Err ==> all_kw_applied(
            command,
            unix,
            settings.push(setting),
        ) == all_kw_applied(command, unix, settings),
{
    assert(settings.push(setting).drop_last() =~= settings);
}

/// A call is refused for its settings exactly where one of them is, wherever it stands.
pub proof fn law_one_refused_setting_refuses_the_call(
    command: CommandView,
    unix: PreExecView,
    settings: Seq<KwSetting>,
)
    ensures
        all_kw_applied(command, unix, settings) is Ok <==> forall|i: int|
            0 <= i < settings.len() ==> !is_refused(#[trigger] settings[i]),
    decreases settings.len(),
{
    if settings.len() > 0 {
        let front = settings.drop_last();
        law_one_refused_setting_refuses_the_call(command, unix, front);
        if all_kw_applied(command, unix, settings) is Ok {
            assert forall|i: int| 0 <= i < settings.len() implies !is_refused(
                #[trigger] settings[i],
            ) by {
                if i < front.len() {
                    assert(front[i] == settings[i]);
                }
            }
        } else if all_kw_applied(command, unix, front) is Err {
            let i = choose|i: int| 0 <= i < front.len() && is_refused(#[trigger] front[i]);
            assert(is_refused(settings[i]));
        } else {
            assert(is_refused(settings[settings.len() - 1]));
        }
    }
}

/// The process is started with its streams as they were asked for, and with the protocol that the
/// factory made. What raises ends the start and comes out as it was, and so does a refusal.
pub proof fn law_start_keeps_what_was_asked(
    request: SubprocessRequest,
    phase: SpawnPhase,
    event: SpawnEvent,
)
    ensures
        ({
            let (after, action) = spawn_step(request, phase, event);
            &&& action matches SpawnAction::Spawn(plan) ==> stdio_plan(
                request.stdin,
                request.stdout,
                request.stderr,
            ) == Result::<StdioPlan, SubprocessError>::Ok(plan)
            &&& action is Spawn ==> phase is CallingFactory || phase is AskingProtocol
            &&& action is CallFactory ==> phase is Ready
            &&& event matches SpawnEvent::Failed(raised) ==> action == SpawnAction::Fail(raised)
                && after is Over
            &&& event matches SpawnEvent::Refused(error) ==> action == SpawnAction::Refuse(error)
                && after is Over
            &&& action matches SpawnAction::Fail(raised) ==> event == SpawnEvent::Failed(raised)
            &&& action matches SpawnAction::Finish { transport, protocol } ==> event
                == SpawnEvent::Made(transport) && phase == SpawnPhase::MakingTransport(protocol)
            &&& action matches SpawnAction::MakeTransport { child, protocol } ==> event
                == SpawnEvent::Made(child) && phase == SpawnPhase::Spawning(protocol)
            &&& phase matches SpawnPhase::CallingFactory ==> !request.text_mode ==> (event
                matches SpawnEvent::Made(protocol) ==> (action is Spawn && after
                == SpawnPhase::Spawning(protocol)) || action is Refuse)
        }),
{
}

/// Something is in two lists put together where it is in one of them.
proof fn lemma_in_sum(a: Seq<StepView>, b: Seq<StepView>, x: StepView)
    ensures
        (a + b).contains(x) <==> a.contains(x) || b.contains(x),
{
    if a.contains(x) {
        let i = choose|i: int| 0 <= i < a.len() && a[i] == x;
        assert((a + b)[i] == x);
    }
    if b.contains(x) {
        let i = choose|i: int| 0 <= i < b.len() && b[i] == x;
        assert((a + b)[a.len() + i] == x);
    }
    if (a + b).contains(x) {
        let i = choose|i: int| 0 <= i < (a + b).len() && (a + b)[i] == x;
        if i < a.len() {
            assert(a[i] == x);
        } else {
            assert(b[i - a.len()] == x);
        }
    }
}

/// One thing alone.
proof fn lemma_in_one(y: StepView, x: StepView)
    ensures
        seq![y].contains(x) <==> x == y,
{
    assert(seq![y][0] == y);
}

/// The child does what was asked for, each thing exactly where it was: the two signals, the
/// descriptors, the session, the process group unless the session brings it, the groups, the group,
/// the user and the mask.
#[verifier::spinoff_prover]
pub proof fn law_child_does_what_was_asked(config: PreExecView, x: StepView)
    ensures
        child_steps(config).contains(x) <==> match x {
            StepView::DefaultSignal(signal) => config.restore_signals && (signal == SIGPIPE
                || signal == SIGXFSZ),
            StepView::KeepDescriptor(fd) => config.pass_fds.contains(fd),
            StepView::NewSession => config.start_new_session,
            StepView::ProcessGroup(group) => config.process_group == Some(group) && !(
            config.start_new_session && group == 0),
            StepView::Groups(groups) => config.extra_groups == Some(groups),
            StepView::Group(gid) => config.gid == Some(gid),
            StepView::User(uid) => config.uid == Some(uid),
            StepView::Umask(umask) => config.umask == Some(umask),
        },
{
    let s = signal_steps(config);
    let d = descriptor_steps(config);
    let n = session_steps(config);
    let i = identity_steps(config);
    let u = umask_steps(config);
    lemma_in_sum(s + d + n + i, u, x);
    lemma_in_sum(s + d + n, i, x);
    lemma_in_sum(s + d, n, x);
    lemma_in_sum(s, d, x);
    lemma_signals_in(config, x);
    lemma_descriptors_in(config, x);
    lemma_session_in(config, x);
    lemma_identity_in(config, x);
    if let Some(umask) = config.umask {
        lemma_in_one(StepView::Umask(umask), x);
    }
}

proof fn lemma_signals_in(config: PreExecView, x: StepView)
    ensures
        signal_steps(config).contains(x) <==> config.restore_signals && (x
            == StepView::DefaultSignal(SIGPIPE) || x == StepView::DefaultSignal(SIGXFSZ)),
{
    if config.restore_signals {
        assert(signal_steps(config)[0] == StepView::DefaultSignal(SIGPIPE));
        assert(signal_steps(config)[1] == StepView::DefaultSignal(SIGXFSZ));
    }
}

proof fn lemma_descriptors_in(config: PreExecView, x: StepView)
    ensures
        descriptor_steps(config).contains(x) <==> (x matches StepView::KeepDescriptor(fd)
            && config.pass_fds.contains(fd)),
{
    let d = descriptor_steps(config);
    if d.contains(x) {
        let i = choose|i: int| 0 <= i < d.len() && d[i] == x;
        assert(config.pass_fds[i] == x->KeepDescriptor_0);
    }
    if let StepView::KeepDescriptor(fd) = x {
        if config.pass_fds.contains(fd) {
            let i = choose|i: int| 0 <= i < config.pass_fds.len() && config.pass_fds[i] == fd;
            assert(d[i] == x);
        }
    }
}

proof fn lemma_session_in(config: PreExecView, x: StepView)
    ensures
        session_steps(config).contains(x) <==> (x is NewSession && config.start_new_session) || (x
            matches StepView::ProcessGroup(group) && config.process_group == Some(group) && !(
        config.start_new_session && group == 0)),
{
    let first = crate::pre_exec::step_if(config.start_new_session, StepView::NewSession);
    lemma_in_one(StepView::NewSession, x);
    match config.process_group {
        Some(group) => {
            let second = crate::pre_exec::step_if(
                !(config.start_new_session && group == 0),
                StepView::ProcessGroup(group),
            );
            lemma_in_one(StepView::ProcessGroup(group), x);
            lemma_in_sum(first, second, x);
        },
        None => {
            lemma_in_sum(first, Seq::empty(), x);
        },
    }
}

proof fn lemma_identity_in(config: PreExecView, x: StepView)
    ensures
        identity_steps(config).contains(x) <==> (x matches StepView::Groups(groups)
            && config.extra_groups == Some(groups)) || (x matches StepView::Group(gid) && config.gid
            == Some(gid)) || (x matches StepView::User(uid) && config.uid == Some(uid)),
{
    let a = match config.extra_groups {
        Some(groups) => seq![StepView::Groups(groups)],
        None => Seq::empty(),
    };
    let b = match config.gid {
        Some(gid) => seq![StepView::Group(gid)],
        None => Seq::empty(),
    };
    let c = match config.uid {
        Some(uid) => seq![StepView::User(uid)],
        None => Seq::empty(),
    };
    lemma_in_sum(a + b, c, x);
    lemma_in_sum(a, b, x);
    if let Some(groups) = config.extra_groups {
        lemma_in_one(StepView::Groups(groups), x);
    }
    if let Some(gid) = config.gid {
        lemma_in_one(StepView::Group(gid), x);
    }
    if let Some(uid) = config.uid {
        lemma_in_one(StepView::User(uid), x);
    }
}

/// A child of which nothing was asked gives the two signals their default handling, and does nothing
/// else.
pub proof fn law_child_restores_signals_by_default(x: StepView)
    ensures
        child_steps(default_pre_exec()).contains(x) <==> x == StepView::DefaultSignal(SIGPIPE) || x
            == StepView::DefaultSignal(SIGXFSZ),
{
    law_child_does_what_was_asked(default_pre_exec(), x);
}

/// A descriptor for the new program loses the flag that would close it, and no other.
pub proof fn law_kept_descriptor_loses_one_flag(flags: i32)
    ensures
        flags_without_cloexec(flags) & FD_CLOEXEC == 0,
        flags_without_cloexec(flags) | FD_CLOEXEC == flags | FD_CLOEXEC,
{
    let flag: i32 = FD_CLOEXEC;
    assert((flags & !flag) & flag == 0) by (bit_vector);
    assert((flags & !flag) | flag == flags | flag) by (bit_vector);
}

/// Users are looked up among the users, and groups, extra ones too, among the groups. Either database
/// is known wholly by the kind.
pub proof fn law_ids_are_looked_up_by_their_kind(
    kind: IdKind,
    other: IdKind,
    database: IdDatabase,
    found: IdDatabase,
)
    requires
        is_id_database(kind, database),
        is_id_database(other, found),
    ensures
        database.module@ == "pwd"@ <==> kind is User,
        database.module@ == "grp"@ <==> !(kind is User),
        kind is User ==> database.function@ == "getpwnam"@ && database.field@ == "pw_uid"@,
        !(kind is User) ==> database.function@ == "getgrnam"@ && database.field@ == "gr_gid"@,
        (kind is User <==> other is User) <==> database.module@ == found.module@,
{
    reveal_strlit("pwd");
    reveal_strlit("grp");
    assert("pwd"@[0] != "grp"@[0]);
}

} // verus!
