use rsloop::loop_commands::{LoopCommand, LoopTransportCommand};
use rsloop::loop_core::{LoopCore, LoopCoreError, Sent, ThreadReady};
use rsloop::newlines::newline_replacements;
use rsloop::objects::ExceptionClass;
use rsloop::os_constants::{FD_CLOEXEC, SIGPIPE, SIGTERM, SIGXFSZ};
use rsloop::pre_exec::{apply_in_child, kept_descriptor_flags, ChildStep, UnixPreExecConfig};
use rsloop::process_transport::{
    child_call_message, exit_told, handle_process_command, pipe_loss_told, process_call_message,
    process_exit_code, process_text_extra_entries, reader_thread_name, run_process_reader,
    run_process_waiter, spawn_failed_message, spawn_process_transport, spawn_process_workers,
    wait_failed_message, AfterTelling, ChildCall, DataRoute, PendingProcessEvent, PipePayload,
    PipeReaderAction, PipeReaderEvent, ProcessCall, ProcessCommand, ProcessDrain,
    ProcessDrainAction, ProcessDrainEvent, ProcessError, ProcessPipes, ProcessRoute,
    ProcessTextConfig, ProcessTransportParams, ProcessWaitAction, ProcessWaitEvent,
    PyProcessPipeTransport, PyProcessStdinProtocol, PyProcessTransport, ReaderWorker,
    WaiterAction, WaiterEvent,
};
use rsloop::stream_transport::TransportSpawnContext;
use rsloop::subprocess::{
    apply_common_process_kwargs, apply_process_kw, apply_stdio, check_shell, check_text_protocol,
    effective_text_config, exec_command, given_stdio, id_database, is_text_mode,
    parse_process_stdio, parse_process_text_config, process_kw, process_kw_conversion,
    resolve_numeric_id, shell_command, ChildStdio, IdArgument, IdKind, IdStep, KwConversion,
    KwSetting, ProcessKw, ProcessStdioSpec, StdioArgument, StdioPlan, SubprocessEntry,
    SubprocessError,
};
use rsloop::subprocess_flow::{
    subprocess_request, SpawnAction, SpawnEvent, SubprocessFlow, SubprocessRequest,
};

const ID: u64 = 50;

fn params() -> ProcessTransportParams {
    ProcessTransportParams::new(TransportSpawnContext::new(1, 2, 3, 4, true), 5)
}

fn process(stdin: bool, stdout: bool, stderr: bool) -> PyProcessTransport {
    let pipe = |there: bool, id: u64| if there { Some(id) } else { None };
    spawn_process_transport(
        ID,
        params(),
        1234,
        ProcessPipes {
            stdin: pipe(stdin, 10),
            stdout: pipe(stdout, 11),
            stderr: pipe(stderr, 12),
        },
    )
}

fn text_config() -> ProcessTextConfig {
    ProcessTextConfig {
        encoding: "utf-8".to_owned(),
        errors: "strict".to_owned(),
        translate_newlines: true,
    }
}

#[test]
fn parameters_are_built_step_by_step() {
    let made = params()
        .with_text_config(Some(text_config()))
        .with_stdio_overrides(Some(7), None);
    assert_eq!((made.loop_core, made.loop_obj, made.protocol, made.context), (1, 2, 3, 4));
    assert!(made.context_needs_run);
    assert_eq!(made.child, 5);
    assert_eq!((made.stdout_override, made.stderr_override), (Some(7), None));
    assert!(matches!(made.text_config, Some(config) if config.encoding == "utf-8"));
    assert!(params().text_config.is_none());
}

#[test]
fn given_pipes_come_before_the_childs_own() {
    let child = ProcessPipes { stdin: Some(1), stdout: Some(2), stderr: None };
    let pipes = ProcessPipes::take_from(child, Some(9), None);
    assert_eq!(pipes, ProcessPipes { stdin: Some(1), stdout: Some(9), stderr: None });
    let mut open: Vec<i32> = pipes.open_pipes().into_iter().collect();
    open.sort();
    assert_eq!(open, vec![0, 1]);
    assert_eq!(spawn_process_workers(pipes), vec![ReaderWorker { fd: 1, reader: 9 }]);
    assert_eq!(reader_thread_name(1), "rsloop-process-stdout");
    assert_eq!(reader_thread_name(2), "rsloop-process-stderr");
    assert_eq!(
        spawn_failed_message("process waiter", "no memory"),
        "failed to spawn process waiter: no memory"
    );
}

#[test]
fn the_loss_falls_due_with_the_last_pipe() {
    let (mut core, receiver) = LoopCore::new(1);
    let mut thread = ThreadReady::new();
    let mut p = process(true, true, false).core;
    assert!(p.has_open_pipe(0) && p.has_open_pipe(1) && !p.has_open_pipe(2));
    match p.process_exited(&mut core, &mut thread, 3) {
        ProcessRoute::Later(told) => assert_eq!(told, vec![Some(Ok(Sent::Channel))]),
        _ => panic!("another thread leaves it to the loop"),
    }
    assert_eq!(
        receiver.try_recv(),
        Ok(LoopCommand::Transport(LoopTransportCommand::Process(ID)))
    );
    match p.pipe_connection_lost_message(&mut core, &mut thread, 0, None) {
        ProcessRoute::Later(told) => assert_eq!(told, vec![None]),
        _ => panic!("another thread leaves it to the loop"),
    }
    assert!(matches!(
        p.pipe_connection_lost_message(&mut core, &mut thread, 0, None),
        ProcessRoute::Ignore
    ));
    match p.pipe_connection_lost_message(&mut core, &mut thread, 1, Some("gone".to_owned())) {
        ProcessRoute::Later(told) => assert_eq!(told, vec![None, None]),
        _ => panic!("another thread leaves it to the loop"),
    }
    let mut drain = ProcessDrain::new();
    assert!(matches!(
        drain.step(&mut p, ProcessDrainEvent::Begin),
        ProcessDrainAction::CallExited { returncode: 3 }
    ));
    assert!(matches!(
        drain.step(&mut p, ProcessDrainEvent::Done),
        ProcessDrainAction::CallPipeLost { fd: 0, reason: None }
    ));
    assert!(matches!(
        drain.step(&mut p, ProcessDrainEvent::Done),
        ProcessDrainAction::CallPipeLost { fd: 1, reason: Some(text) } if text == "gone"
    ));
    assert!(matches!(
        drain.step(&mut p, ProcessDrainEvent::Done),
        ProcessDrainAction::Lose(None)
    ));
    assert!(matches!(
        drain.step(&mut p, ProcessDrainEvent::Done),
        ProcessDrainAction::Finish
    ));
}

#[test]
fn the_loss_falls_due_with_the_exit() {
    let (mut core, _receiver) = LoopCore::new(1);
    let mut thread = ThreadReady::new();
    core.mark_runtime_thread(&mut thread);
    let mut p = process(false, true, true).core;
    assert!(matches!(
        p.pipe_connection_lost_message(&mut core, &mut thread, 2, None),
        ProcessRoute::Here { finish: false }
    ));
    assert!(matches!(
        p.pipe_connection_lost_message(&mut core, &mut thread, 1, None),
        ProcessRoute::Here { finish: false }
    ));
    assert!(matches!(
        p.process_exited(&mut core, &mut thread, 0),
        ProcessRoute::Here { finish: true }
    ));
    assert!(matches!(
        p.connection_lost_message(&mut core, &mut thread, None),
        ProcessRoute::Here { .. }
    ));
    assert!(p.is_closing());
    assert!(matches!(
        p.connection_lost_message(&mut core, &mut thread, None),
        ProcessRoute::Ignore
    ));
}

#[test]
fn exit_and_last_close_come_to_the_same_in_either_order() {
    let (mut core, _receiver) = LoopCore::new(1);
    let mut thread = ThreadReady::new();
    core.mark_runtime_thread(&mut thread);
    let mut first = process(true, false, false).core;
    first.process_exited(&mut core, &mut thread, 4);
    let last = PyProcessStdinProtocol {}.connection_lost(&mut first, &mut core, &mut thread);
    assert!(matches!(last, ProcessRoute::Here { finish: true }));
    let mut second = process(true, false, false).core;
    PyProcessStdinProtocol {}.connection_lost(&mut second, &mut core, &mut thread);
    let last = second.process_exited(&mut core, &mut thread, 4);
    assert!(matches!(last, ProcessRoute::Here { finish: true }));
    assert_eq!(first.get_returncode(), second.get_returncode());
    assert!(!first.has_open_pipe(0) && !second.has_open_pipe(0));
    assert!(matches!(
        PyProcessStdinProtocol {}.connection_lost(&mut second, &mut core, &mut thread),
        ProcessRoute::Ignore
    ));
}

#[test]
fn what_the_protocol_raises_decides_what_follows() {
    assert_eq!(pipe_loss_told(true, Ok(())), AfterTelling::Lose);
    assert_eq!(pipe_loss_told(false, Ok(())), AfterTelling::Done);
    assert_eq!(
        pipe_loss_told(true, Err(8)),
        AfterTelling::ReportAndFail { raised: 8, error: ProcessError::PipeLossFailed }
    );
    assert_eq!(exit_told(true, Ok(())), AfterTelling::Lose);
    assert_eq!(exit_told(false, Ok(())), AfterTelling::Done);
    assert_eq!(exit_told(true, Err(8)), AfterTelling::Fail(8));
    assert_eq!(
        ProcessError::PipeLossFailed.message(),
        "subprocess pipe_connection_lost failed"
    );
}

#[test]
fn a_loop_that_is_gone_is_told_again_with_the_next_event() {
    let (mut core, receiver) = LoopCore::new(1);
    drop(receiver);
    let mut thread = ThreadReady::new();
    let mut p = process(false, false, false).core;
    for _ in 0..2 {
        assert_eq!(
            p.enqueue_pending_event(
                &mut core,
                &mut thread,
                PendingProcessEvent::ProcessExited { returncode: 0 },
            ),
            Some(Err(LoopCoreError::ChannelClosed))
        );
    }
}

#[test]
fn a_call_that_raises_ends_the_drain() {
    let (mut core, _receiver) = LoopCore::new(1);
    let mut thread = ThreadReady::new();
    let mut p = process(false, true, false).core;
    assert!(matches!(
        p.pipe_data_received(&mut core, &mut thread, 1, b"abc".to_vec()),
        DataRoute::Later(Some(Ok(Sent::Channel)))
    ));
    assert!(matches!(
        p.pipe_data_received(&mut core, &mut thread, 1, b"def".to_vec()),
        DataRoute::Later(None)
    ));
    let mut drain = ProcessDrain::new();
    assert!(matches!(
        drain.step(&mut p, ProcessDrainEvent::Begin),
        ProcessDrainAction::CallPipeData { fd: 1, data } if data == b"abc"
    ));
    assert!(matches!(
        drain.step(&mut p, ProcessDrainEvent::Raised(9)),
        ProcessDrainAction::ReportAndLose { call: ProcessCall::PipeData, raised: 9 }
    ));
    assert!(matches!(
        drain.step(&mut p, ProcessDrainEvent::Done),
        ProcessDrainAction::Finish
    ));
    assert!(matches!(
        drain.step(&mut p, ProcessDrainEvent::Begin),
        ProcessDrainAction::Finish
    ));
    assert_eq!(process_call_message(ProcessCall::PipeData), "subprocess pipe_data_received failed");
    assert_eq!(
        process_call_message(ProcessCall::PipeLost),
        "subprocess pipe_connection_lost failed"
    );
    assert_eq!(process_call_message(ProcessCall::Exited), "subprocess process_exited failed");
    assert_eq!(
        process_call_message(ProcessCall::ConnectionLost),
        "subprocess connection_lost failed"
    );
    core.mark_runtime_thread(&mut thread);
    assert!(matches!(
        p.pipe_data_received(&mut core, &mut thread, 1, b"ghi".to_vec()),
        DataRoute::Here(data) if data == b"ghi"
    ));
}

#[test]
fn an_exited_process_takes_no_signals() {
    let (mut core, _receiver) = LoopCore::new(1);
    let mut thread = ThreadReady::new();
    let mut p = process(false, false, false);
    assert_eq!(p.repr(), "<ProcessTransport pid=1234 returncode=None closing=false>");
    assert_eq!(p.send_signal(2), Ok(ProcessCommand::SendSignal(2)));
    assert_eq!(p.terminate(), Ok(ProcessCommand::Terminate));
    assert_eq!(p.kill(), Ok(ProcessCommand::Kill));
    assert_eq!(p.wait(ProcessWaitEvent::Begin), ProcessWaitAction::Listen);
    assert_eq!(p.wait(ProcessWaitEvent::Listening), ProcessWaitAction::Wait);
    p.core.process_exited(&mut core, &mut thread, -9);
    assert_eq!(p.wait(ProcessWaitEvent::Listening), ProcessWaitAction::Return(-9));
    assert_eq!(p.wait(ProcessWaitEvent::Noticed), ProcessWaitAction::Return(-9));
    assert_eq!(p.send_signal(2), Err(ProcessError::NotRunning));
    assert_eq!(p.terminate(), Err(ProcessError::NotRunning));
    assert_eq!(p.kill(), Err(ProcessError::NotRunning));
    assert_eq!(ProcessError::NotRunning.message(), "process is not running");
    assert_eq!(PyProcessTransport::control_sent(true), Ok(()));
    assert_eq!(PyProcessTransport::control_sent(false), Err(ProcessError::NotRunning));
    assert_eq!(p.close(), None);
    assert_eq!(p.repr(), "<ProcessTransport pid=1234 returncode=Some(-9) closing=true>");
    assert_eq!((p.get_pid(), p.get_returncode(), p.is_closing()), (1234, Some(-9), true));
}

#[test]
fn pipes_have_their_transports() {
    let mut p = process(true, true, false);
    p.core.register_initial_pipe_transports(Some(60), Some(61), None);
    assert_eq!(p.get_pipe_transport(0), Some(60));
    assert_eq!(p.get_pipe_transport(1), Some(61));
    assert_eq!(p.get_pipe_transport(2), None);
    p.core.register_pipe_transports(&vec![(2, 62), (1, 71)]);
    assert_eq!(p.get_pipe_transport(1), Some(71));
    assert_eq!(p.get_pipe_transport(2), Some(62));
    assert_eq!(p.close(), Some(60));
    let mut pipe = PyProcessPipeTransport::new(2);
    assert_eq!(pipe.repr(), "<ProcessPipeTransport fd=2 closing=false>");
    pipe.close();
    assert!(pipe.is_closing());
    assert_eq!(pipe.repr(), "<ProcessPipeTransport fd=2 closing=true>");
    assert_eq!(pipe.get_extra_info("pipe", Some(4)), Some(4));
    assert_eq!(pipe.get_extra_info("pipe", None), None);
}

#[test]
fn text_mode_reaches_the_pipes() {
    let text = spawn_process_transport(
        ID,
        params().with_text_config(Some(text_config())),
        1,
        ProcessPipes { stdin: None, stdout: None, stderr: None },
    );
    match text.core.pipe_payload() {
        PipePayload::Decoded { replacements } => {
            let mut told = "a\r\nb\rc\r\r\nd\n".to_owned();
            for one in replacements {
                told = told.replace(one.from, one.to);
            }
            assert_eq!(told, "a\nb\nc\n\nd\n");
        }
        PipePayload::Bytes => panic!("the process is in text mode"),
    }
    assert!(newline_replacements(false).is_empty());
    assert_eq!(process(false, false, false).core.pipe_payload(), PipePayload::Bytes);
    assert_eq!(
        process_text_extra_entries(text.core.text_config()),
        Some(vec![
            ("text_encoding".to_owned(), "utf-8".to_owned()),
            ("text_errors".to_owned(), "strict".to_owned()),
        ])
    );
    assert_eq!(process_text_extra_entries(&None), None);
}

#[test]
fn exit_codes_tell_of_signals() {
    assert_eq!(process_exit_code(Some(7), None), 7);
    assert_eq!(process_exit_code(None, Some(15)), -15);
    assert_eq!(process_exit_code(None, None), -1);
}

#[test]
fn commands_become_calls() {
    assert_eq!(handle_process_command(ProcessCommand::Close), ChildCall::Kill);
    assert_eq!(handle_process_command(ProcessCommand::Kill), ChildCall::Kill);
    assert_eq!(
        handle_process_command(ProcessCommand::Terminate),
        ChildCall::Signal { signal: SIGTERM, terminate: true }
    );
    assert_eq!(SIGTERM, libc::SIGTERM);
    assert_eq!(
        handle_process_command(ProcessCommand::SendSignal(10)),
        ChildCall::Signal { signal: 10, terminate: false }
    );
    assert_eq!(child_call_message(ChildCall::Kill), "subprocess kill failed");
    assert_eq!(
        child_call_message(ChildCall::Signal { signal: 15, terminate: true }),
        "subprocess terminate failed"
    );
    assert_eq!(
        child_call_message(ChildCall::Signal { signal: 10, terminate: false }),
        "subprocess send_signal failed"
    );
}

#[test]
fn pipe_reader_delivers_until_the_pipe_closes() {
    assert!(matches!(run_process_reader(PipeReaderEvent::Again), PipeReaderAction::Read));
    assert!(matches!(
        run_process_reader(PipeReaderEvent::Received(b"x".to_vec())),
        PipeReaderAction::Deliver(data) if data == b"x"
    ));
    assert!(matches!(
        run_process_reader(PipeReaderEvent::Received(vec![])),
        PipeReaderAction::ClosePipe(None)
    ));
    assert!(matches!(
        run_process_reader(PipeReaderEvent::ReadFailed("bad".to_owned())),
        PipeReaderAction::ClosePipe(Some(text)) if text == "bad"
    ));
    assert!(matches!(
        run_process_reader(PipeReaderEvent::DeliveryFailed(3)),
        PipeReaderAction::ReportAndClosePipe(3)
    ));
}

#[test]
fn waiter_looks_for_the_exit_and_obeys() {
    let p = process(true, false, false).core;
    let closed = process(false, false, false).core;
    assert_eq!(run_process_waiter(&p, WaiterEvent::Again), WaiterAction::TryWait);
    assert_eq!(run_process_waiter(&p, WaiterEvent::Running), WaiterAction::Receive);
    assert_eq!(run_process_waiter(&p, WaiterEvent::Timeout), WaiterAction::TryWait);
    assert_eq!(run_process_waiter(&p, WaiterEvent::Disconnected), WaiterAction::Finish);
    assert_eq!(run_process_waiter(&p, WaiterEvent::WaitFailed), WaiterAction::ReportAndLose);
    assert_eq!(
        run_process_waiter(&p, WaiterEvent::Command(ProcessCommand::Kill)),
        WaiterAction::Call(ChildCall::Kill)
    );
    assert_eq!(
        run_process_waiter(&p, WaiterEvent::Exited { code: None, signal: Some(9) }),
        WaiterAction::HandleExit { returncode: -9, close_stdin: true }
    );
    assert_eq!(
        run_process_waiter(&closed, WaiterEvent::Exited { code: Some(1), signal: None }),
        WaiterAction::HandleExit { returncode: 1, close_stdin: false }
    );
    assert_eq!(wait_failed_message(), "subprocess wait failed");
}

#[test]
fn child_prepares_itself_in_order() {
    let steps = apply_in_child(&UnixPreExecConfig::default());
    assert_eq!(steps.len(), 2);
    assert!(matches!(steps[0], ChildStep::DefaultSignal(SIGPIPE)));
    assert!(matches!(steps[1], ChildStep::DefaultSignal(SIGXFSZ)));
    assert_eq!((SIGPIPE, SIGXFSZ), (libc::SIGPIPE, libc::SIGXFSZ));
    let config = UnixPreExecConfig {
        restore_signals: false,
        start_new_session: true,
        process_group: Some(5),
        pass_fds: vec![8, 9],
        gid: Some(100),
        extra_groups: Some(vec![1, 2]),
        uid: Some(200),
        umask: Some(0o22),
    };
    let steps = apply_in_child(&config);
    assert_eq!(steps.len(), 8);
    assert!(matches!(steps[0], ChildStep::KeepDescriptor(8)));
    assert!(matches!(steps[1], ChildStep::KeepDescriptor(9)));
    assert!(matches!(steps[2], ChildStep::NewSession));
    assert!(matches!(steps[3], ChildStep::ProcessGroup(5)));
    assert!(matches!(&steps[4], ChildStep::Groups(groups) if *groups == vec![1, 2]));
    assert!(matches!(steps[5], ChildStep::Group(100)));
    assert!(matches!(steps[6], ChildStep::User(200)));
    assert!(matches!(steps[7], ChildStep::Umask(0o22)));
}

#[test]
fn a_new_session_needs_no_group_of_its_own() {
    let config = UnixPreExecConfig {
        restore_signals: false,
        start_new_session: true,
        process_group: Some(0),
        ..UnixPreExecConfig::default()
    };
    let steps = apply_in_child(&config);
    assert_eq!(steps.len(), 1);
    assert!(matches!(steps[0], ChildStep::NewSession));
    let config = UnixPreExecConfig { start_new_session: false, ..config };
    assert!(matches!(apply_in_child(&config)[..], [ChildStep::ProcessGroup(0)]));
}

#[test]
fn a_kept_descriptor_loses_its_flag() {
    assert_eq!(FD_CLOEXEC, libc::FD_CLOEXEC);
    assert_eq!(kept_descriptor_flags(1), 0);
    assert_eq!(kept_descriptor_flags(7), 6);
    assert_eq!(kept_descriptor_flags(4), 4);
}

#[test]
fn each_call_wants_its_own_shell_flag() {
    assert_eq!(check_shell(SubprocessEntry::Shell, true), Ok(()));
    assert_eq!(check_shell(SubprocessEntry::Exec, false), Ok(()));
    assert_eq!(
        check_shell(SubprocessEntry::Shell, false),
        Err(SubprocessError::ShellRequired)
    );
    assert_eq!(
        check_shell(SubprocessEntry::Exec, true),
        Err(SubprocessError::ShellForbidden)
    );
}

#[test]
fn errors_have_messages_and_classes() {
    let expected = [
        (
            SubprocessError::ShellRequired,
            "subprocess_shell() requires shell=True",
            ExceptionClass::RuntimeError,
        ),
        (
            SubprocessError::ShellForbidden,
            "subprocess_exec() requires shell=False",
            ExceptionClass::RuntimeError,
        ),
        (
            SubprocessError::StdoutOnlyForStderr,
            "STDOUT can only be used for stderr",
            ExceptionClass::ValueError,
        ),
        (
            SubprocessError::InvalidStderr,
            "invalid stderr=STDOUT configuration",
            ExceptionClass::RuntimeError,
        ),
        (
            SubprocessError::TextModesDiffer,
            "text and universal_newlines have different values",
            ExceptionClass::ValueError,
        ),
        (
            SubprocessError::TextWithStreams(SubprocessEntry::Shell),
            "text mode is not supported with asyncio.create_subprocess_shell() in rust-impl yet",
            ExceptionClass::ValueError,
        ),
        (
            SubprocessError::TextWithStreams(SubprocessEntry::Exec),
            "text mode is not supported with asyncio.create_subprocess_exec() in rust-impl yet",
            ExceptionClass::ValueError,
        ),
        (
            SubprocessError::IdType(IdKind::Group),
            "group must be an int or str",
            ExceptionClass::TypeError,
        ),
        (
            SubprocessError::IdType(IdKind::ExtraGroup),
            "extra_groups entries must be an int or str",
            ExceptionClass::TypeError,
        ),
        (
            SubprocessError::IdType(IdKind::User),
            "user must be an int or str",
            ExceptionClass::TypeError,
        ),
        (
            SubprocessError::UmaskRange,
            "umask must be between 0 and 0o777",
            ExceptionClass::ValueError,
        ),
        (
            SubprocessError::PreexecFn,
            "preexec_fn remains unsupported in rust-impl because it is unsafe in this runtime model",
            ExceptionClass::NotImplementedError,
        ),
    ];
    for (error, message, class) in expected {
        assert_eq!(error.message(), message);
        assert_eq!(error.exception(), class);
    }
}

#[test]
fn streams_are_understood_and_set_up() {
    assert_eq!(given_stdio(None), StdioArgument::Pipe);
    assert_eq!(given_stdio(Some(StdioArgument::DevNull)), StdioArgument::DevNull);
    assert_eq!(
        parse_process_stdio(StdioArgument::Nothing, false),
        Ok(ProcessStdioSpec::Inherit)
    );
    assert_eq!(
        parse_process_stdio(StdioArgument::File(7), false),
        Ok(ProcessStdioSpec::Fd(7))
    );
    assert_eq!(
        parse_process_stdio(StdioArgument::Stdout, true),
        Ok(ProcessStdioSpec::Stdout)
    );
    assert_eq!(
        parse_process_stdio(StdioArgument::Stdout, false),
        Err(SubprocessError::StdoutOnlyForStderr)
    );
    let arguments = [
        StdioArgument::Nothing,
        StdioArgument::Pipe,
        StdioArgument::DevNull,
        StdioArgument::Stdout,
        StdioArgument::File(3),
    ];
    for stdin in arguments {
        for stdout in arguments {
            for stderr in arguments {
                let specs = (
                    parse_process_stdio(stdin, false),
                    parse_process_stdio(stdout, false),
                    parse_process_stdio(stderr, true),
                );
                if let (Ok(stdin), Ok(stdout), Ok(stderr)) = specs {
                    assert!(apply_stdio(stdin, stdout, stderr).is_ok());
                }
            }
        }
    }
}

#[test]
fn errors_go_where_the_output_goes() {
    let merged = |stdout| apply_stdio(ProcessStdioSpec::DevNull, stdout, ProcessStdioSpec::Stdout);
    assert_eq!(
        merged(ProcessStdioSpec::Pipe),
        Ok(StdioPlan {
            stdin: ChildStdio::Null,
            stdout: ChildStdio::SharedPipe,
            stderr: ChildStdio::SharedPipe,
        })
    );
    for stdout in [
        ProcessStdioSpec::Inherit,
        ProcessStdioSpec::DevNull,
        ProcessStdioSpec::Fd(4),
    ] {
        assert!(matches!(merged(stdout), Ok(plan) if plan.stdout == plan.stderr));
    }
    assert_eq!(merged(ProcessStdioSpec::Stdout), Err(SubprocessError::StdoutOnlyForStderr));
    assert_eq!(
        apply_stdio(
            ProcessStdioSpec::Stdout,
            ProcessStdioSpec::Pipe,
            ProcessStdioSpec::Pipe,
        ),
        Err(SubprocessError::StdoutOnlyForStderr)
    );
    assert_eq!(
        rsloop::subprocess::stderr_stdio(ProcessStdioSpec::Stdout, ProcessStdioSpec::Pipe),
        Err(SubprocessError::InvalidStderr)
    );
}

#[test]
fn text_mode_follows_its_arguments() {
    assert_eq!(is_text_mode(false, false, false, None), Ok(false));
    assert_eq!(is_text_mode(true, false, false, None), Ok(true));
    assert_eq!(is_text_mode(false, true, false, Some(false)), Ok(true));
    assert_eq!(
        is_text_mode(true, false, false, Some(false)),
        Err(SubprocessError::TextModesDiffer)
    );
    let parse = |encoding: Option<&str>, errors: Option<&str>| {
        parse_process_text_config(
            false,
            encoding.map(|text| text.to_owned()),
            errors.map(|text| text.to_owned()),
            Some(true),
            "ascii".to_owned(),
        )
    };
    assert!(matches!(
        parse(None, None),
        Ok(Some(c)) if c.encoding == "ascii" && c.errors == "strict" && c.translate_newlines
    ));
    assert!(matches!(
        parse(Some("latin-1"), Some("ignore")),
        Ok(Some(c)) if c.encoding == "latin-1" && c.errors == "ignore"
    ));
    assert!(matches!(
        parse_process_text_config(false, None, None, None, "ascii".to_owned()),
        Ok(None)
    ));
    assert!(matches!(
        parse_process_text_config(true, None, None, Some(false), "ascii".to_owned()),
        Err(SubprocessError::TextModesDiffer)
    ));
    assert!(matches!(
        effective_text_config(Some(text_config()), None),
        Some(c) if c.encoding == "utf-8"
    ));
    assert!(effective_text_config(None, None).is_none());
    assert!(effective_text_config(None, Some(text_config())).is_some());
}

#[test]
fn ids_are_numbers_or_names() {
    assert_eq!(
        resolve_numeric_id(IdKind::User, IdArgument::Number(7)),
        Ok(IdStep::Ready(7))
    );
    assert_eq!(resolve_numeric_id(IdKind::User, IdArgument::Name), Ok(IdStep::LookUp));
    assert_eq!(
        resolve_numeric_id(IdKind::Group, IdArgument::Other),
        Err(SubprocessError::IdType(IdKind::Group))
    );
    let users = id_database(IdKind::User);
    assert_eq!((users.module, users.function, users.field), ("pwd", "getpwnam", "pw_uid"));
    let groups = id_database(IdKind::ExtraGroup);
    assert_eq!((groups.module, groups.function, groups.field), ("grp", "getgrnam", "gr_gid"));
}

#[test]
fn keywords_are_known_by_name() {
    let names = [
        ("cwd", ProcessKw::Cwd, KwConversion::Path),
        ("env", ProcessKw::Env, KwConversion::TextPairs),
        ("executable", ProcessKw::Executable, KwConversion::Path),
        ("restore_signals", ProcessKw::RestoreSignals, KwConversion::Truth),
        ("start_new_session", ProcessKw::StartNewSession, KwConversion::Truth),
        ("process_group", ProcessKw::ProcessGroup, KwConversion::Int32),
        ("pass_fds", ProcessKw::PassFds, KwConversion::Int32List),
        ("group", ProcessKw::Group, KwConversion::Id(IdKind::Group)),
        ("extra_groups", ProcessKw::ExtraGroups, KwConversion::IdList),
        ("user", ProcessKw::User, KwConversion::Id(IdKind::User)),
        ("umask", ProcessKw::Umask, KwConversion::Int64),
        ("preexec_fn", ProcessKw::PreexecFn, KwConversion::Refuse),
        ("close_fds", ProcessKw::Unknown, KwConversion::Skip),
    ];
    for (name, kw, conversion) in names {
        assert_eq!(process_kw(name), kw);
        assert_eq!(process_kw_conversion(kw, false), conversion);
        let flag = kw == ProcessKw::RestoreSignals || kw == ProcessKw::StartNewSession;
        let of_none = if flag { KwConversion::Truth } else { KwConversion::Skip };
        assert_eq!(process_kw_conversion(kw, true), of_none);
    }
}

#[test]
fn keywords_shape_the_command() {
    let mut command = shell_command("echo hello".to_owned());
    assert_eq!(command.program, "/bin/sh");
    assert_eq!(command.args, vec!["-c".to_owned(), "echo hello".to_owned()]);
    let pair = |k: &str, v: &str| (k.to_owned(), v.to_owned());
    let config = apply_common_process_kwargs(
        &mut command,
        vec![
            KwSetting::Skip,
            KwSetting::Cwd("/tmp".to_owned()),
            KwSetting::Env(vec![pair("A", "1")]),
            KwSetting::Executable("sh".to_owned()),
            KwSetting::Env(vec![pair("B", "2")]),
            KwSetting::RestoreSignals(false),
            KwSetting::StartNewSession(true),
            KwSetting::ProcessGroup(3),
            KwSetting::PassFds(vec![4]),
            KwSetting::Group(5),
            KwSetting::ExtraGroups(vec![6]),
            KwSetting::User(7),
            KwSetting::Umask(0o777),
        ],
    );
    assert_eq!(command.cwd, Some("/tmp".to_owned()));
    assert_eq!(command.arg0, Some("sh".to_owned()));
    assert_eq!(command.env, vec![pair("A", "1"), pair("B", "2")]);
    match config {
        Ok(config) => {
            assert!(config.text.is_none());
            assert!(!config.unix.restore_signals && config.unix.start_new_session);
            assert_eq!(config.unix.process_group, Some(3));
            assert_eq!(config.unix.pass_fds, vec![4]);
            assert_eq!((config.unix.gid, config.unix.uid), (Some(5), Some(7)));
            assert_eq!(config.unix.extra_groups, Some(vec![6]));
            assert_eq!(config.unix.umask, Some(0o777));
        }
        Err(error) => panic!("{}", error.message()),
    }
}

#[test]
fn the_first_refused_keyword_counts() {
    let mut command = exec_command("ls".to_owned(), vec!["-l".to_owned()]);
    assert_eq!((command.program.as_str(), command.args.len()), ("ls", 1));
    assert!(matches!(
        apply_common_process_kwargs(
            &mut command,
            vec![KwSetting::Umask(0o1000), KwSetting::PreexecFn],
        ),
        Err(SubprocessError::UmaskRange)
    ));
    let mut unix = UnixPreExecConfig::default();
    assert_eq!(apply_process_kw(&mut command, &mut unix, KwSetting::Umask(-1)), Ok(()));
    assert_eq!(unix.umask, None);
    assert_eq!(
        apply_process_kw(&mut command, &mut unix, KwSetting::Umask(-2)),
        Err(SubprocessError::UmaskRange)
    );
    assert_eq!(
        apply_process_kw(&mut command, &mut unix, KwSetting::PreexecFn),
        Err(SubprocessError::PreexecFn)
    );
}

fn request(text_mode: bool) -> SubprocessRequest {
    SubprocessRequest {
        entry: SubprocessEntry::Exec,
        text_mode,
        stdin: ProcessStdioSpec::Pipe,
        stdout: ProcessStdioSpec::Pipe,
        stderr: ProcessStdioSpec::Inherit,
    }
}

#[test]
fn a_process_starts_after_its_protocol() {
    let plan = StdioPlan {
        stdin: ChildStdio::Piped,
        stdout: ChildStdio::Piped,
        stderr: ChildStdio::Inherit,
    };
    let mut flow = SubprocessFlow::new(request(false));
    assert_eq!(flow.step(SpawnEvent::Begin), SpawnAction::CallFactory);
    assert_eq!(flow.step(SpawnEvent::Made(30)), SpawnAction::Spawn(plan));
    assert_eq!(
        flow.step(SpawnEvent::Made(31)),
        SpawnAction::MakeTransport { child: 31, protocol: 30 }
    );
    assert_eq!(
        flow.step(SpawnEvent::Made(32)),
        SpawnAction::Finish { transport: 32, protocol: 30 }
    );
    let mut flow = SubprocessFlow::new(request(false));
    flow.step(SpawnEvent::Begin);
    flow.step(SpawnEvent::Made(30));
    assert_eq!(
        flow.step(SpawnEvent::Refused(SubprocessError::UmaskRange)),
        SpawnAction::Refuse(SubprocessError::UmaskRange)
    );
    let mut flow = SubprocessFlow::new(request(false));
    flow.step(SpawnEvent::Begin);
    assert_eq!(flow.step(SpawnEvent::Failed(4)), SpawnAction::Fail(4));
    assert_eq!(flow.step(SpawnEvent::Answer(true)), SpawnAction::GiveUp);
}

#[test]
fn text_mode_needs_a_protocol_that_takes_text() {
    let mut flow = SubprocessFlow::new(request(true));
    flow.step(SpawnEvent::Begin);
    assert_eq!(flow.step(SpawnEvent::Made(30)), SpawnAction::AskStreamProtocol(30));
    assert_eq!(
        flow.step(SpawnEvent::Answer(true)),
        SpawnAction::Refuse(SubprocessError::TextWithStreams(SubprocessEntry::Exec))
    );
    let mut flow = SubprocessFlow::new(request(true));
    flow.step(SpawnEvent::Begin);
    flow.step(SpawnEvent::Made(30));
    assert!(matches!(flow.step(SpawnEvent::Answer(false)), SpawnAction::Spawn(_)));
    assert_eq!(check_text_protocol(SubprocessEntry::Shell, false, true), Ok(()));
    assert_eq!(
        check_text_protocol(SubprocessEntry::Shell, true, true),
        Err(SubprocessError::TextWithStreams(SubprocessEntry::Shell))
    );
}

#[test]
fn arguments_are_refused_in_order_before_anything_starts() {
    let (shell, exec) = (SubprocessEntry::Shell, SubprocessEntry::Exec);
    let (pipe, out) = (StdioArgument::Pipe, StdioArgument::Stdout);
    // Everything is wrong: the shell comes first.
    assert_eq!(
        subprocess_request(shell, false, true, false, false, Some(false), out, out, out),
        Err(SubprocessError::ShellRequired)
    );
    assert_eq!(
        subprocess_request(exec, true, true, false, false, Some(false), out, out, out),
        Err(SubprocessError::ShellForbidden)
    );
    assert_eq!(
        subprocess_request(shell, true, true, false, false, Some(false), out, out, out),
        Err(SubprocessError::TextModesDiffer)
    );
    assert_eq!(
        subprocess_request(shell, true, false, false, false, None, out, pipe, pipe),
        Err(SubprocessError::StdoutOnlyForStderr)
    );
    assert_eq!(
        subprocess_request(exec, false, false, false, false, None, pipe, out, pipe),
        Err(SubprocessError::StdoutOnlyForStderr)
    );
    let asked = subprocess_request(
        exec,
        false,
        false,
        true,
        false,
        None,
        StdioArgument::DevNull,
        StdioArgument::File(5),
        out,
    );
    assert_eq!(
        asked,
        Ok(SubprocessRequest {
            entry: exec,
            text_mode: true,
            stdin: ProcessStdioSpec::DevNull,
            stdout: ProcessStdioSpec::Fd(5),
            stderr: ProcessStdioSpec::Stdout,
        })
    );
    let plain = subprocess_request(
        shell,
        true,
        false,
        false,
        false,
        Some(false),
        StdioArgument::Nothing,
        pipe,
        pipe,
    );
    assert_eq!(
        plain,
        Ok(SubprocessRequest {
            entry: shell,
            text_mode: false,
            stdin: ProcessStdioSpec::Inherit,
            stdout: ProcessStdioSpec::Pipe,
            stderr: ProcessStdioSpec::Pipe,
        })
    );
}
