//! The arguments of a subprocess: its streams, its text mode, its keywords, its command line.

use vstd::prelude::*;
use crate::loop_commands::RawFd;
use crate::objects::ExceptionClass;
use crate::pre_exec::{PreExecView, UnixPreExecConfig};
use crate::process_transport::ProcessTextConfig;
use crate::text::same_text;

verus! {

/// The largest mask for new files: all nine permissions.
pub const PROCESS_UMASK_MAX: i64 = 511;

/// Which of the two calls starts the process.
#[derive(Clone, Copy, PartialEq, Eq, Debug, Structural)]
pub enum SubprocessEntry {
    Shell,
    Exec,
}

/// What a number is looked up for.
#[derive(Clone, Copy, PartialEq, Eq, Debug, Structural)]
pub enum IdKind {
    Group,
    ExtraGroup,
    User,
}

/// Why the arguments were refused.
#[derive(Clone, Copy, PartialEq, Eq, Debug, Structural)]
pub enum SubprocessError {
    ShellRequired,
    ShellForbidden,
    StdoutOnlyForStderr,
    InvalidStderr,
    TextModesDiffer,
    TextWithStreams(SubprocessEntry),
    IdType(IdKind),
    UmaskRange,
    PreexecFn,
}

impl SubprocessError {
    pub fn message(&self) -> (text: &'static str)
        ensures
            text@ == match *self {
                SubprocessError::ShellRequired => "subprocess_shell() requires shell=True"@,
                SubprocessError::ShellForbidden => "subprocess_exec() requires shell=False"@,
                SubprocessError::StdoutOnlyForStderr => "STDOUT can only be used for stderr"@,
                SubprocessError::InvalidStderr => "invalid stderr=STDOUT configuration"@,
                SubprocessError::TextModesDiffer =>
                    "text and universal_newlines have different values"@,
                SubprocessError::TextWithStreams(SubprocessEntry::Shell) =>
                    "text mode is not supported with asyncio.create_subprocess_shell() in rust-impl yet"@,
                SubprocessError::TextWithStreams(SubprocessEntry::Exec) =>
                    "text mode is not supported with asyncio.create_subprocess_exec() in rust-impl yet"@,
                SubprocessError::IdType(IdKind::Group) => "group must be an int or str"@,
                SubprocessError::IdType(IdKind::ExtraGroup) =>
                    "extra_groups entries must be an int or str"@,
                SubprocessError::IdType(IdKind::User) => "user must be an int or str"@,
                SubprocessError::UmaskRange => "umask must be between 0 and 0o777"@,
                SubprocessError::PreexecFn =>
                    "preexec_fn remains unsupported in rust-impl because it is unsafe in this runtime model"@,
            },
    {
        match self {
            SubprocessError::ShellRequired => "subprocess_shell() requires shell=True",
            SubprocessError::ShellForbidden => "subprocess_exec() requires shell=False",
            SubprocessError::StdoutOnlyForStderr => "STDOUT can only be used for stderr",
            SubprocessError::InvalidStderr => "invalid stderr=STDOUT configuration",
            SubprocessError::TextModesDiffer => "text and universal_newlines have different values",
            SubprocessError::TextWithStreams(SubprocessEntry::Shell) =>
                "text mode is not supported with asyncio.create_subprocess_shell() in rust-impl yet",
            SubprocessError::TextWithStreams(SubprocessEntry::Exec) =>
                "text mode is not supported with asyncio.create_subprocess_exec() in rust-impl yet",
            SubprocessError::IdType(IdKind::Group) => "group must be an int or str",
            SubprocessError::IdType(IdKind::ExtraGroup) =>
                "extra_groups entries must be an int or str",
            SubprocessError::IdType(IdKind::User) => "user must be an int or str",
            SubprocessError::UmaskRange => "umask must be between 0 and 0o777",
            SubprocessError::PreexecFn =>
                "preexec_fn remains unsupported in rust-impl because it is unsafe in this runtime model",
        }
    }

    /// The class of the exception that it becomes.
    pub open spec fn class(self) -> ExceptionClass {
        match self {
            SubprocessError::ShellRequired => ExceptionClass::RuntimeError,
            SubprocessError::ShellForbidden => ExceptionClass::RuntimeError,
            SubprocessError::InvalidStderr => ExceptionClass::RuntimeError,
            SubprocessError::IdType(_) => ExceptionClass::TypeError,
            SubprocessError::PreexecFn => ExceptionClass::NotImplementedError,
            _ => ExceptionClass::ValueError,
        }
    }

    pub fn exception(&self) -> (class: ExceptionClass)
        ensures
            class == self.class(),
    {
        match self {
            SubprocessError::ShellRequired => ExceptionClass::RuntimeError,
            SubprocessError::ShellForbidden => ExceptionClass::RuntimeError,
            SubprocessError::InvalidStderr => ExceptionClass::RuntimeError,
            SubprocessError::IdType(_) => ExceptionClass::TypeError,
            SubprocessError::PreexecFn => ExceptionClass::NotImplementedError,
            _ => ExceptionClass::ValueError,
        }
    }
}

/// One call wants a shell, the other one none.
pub open spec fn shell_fits(entry: SubprocessEntry, shell: bool) -> Result<(), SubprocessError> {
    match (entry, shell) {
        (SubprocessEntry::Shell, false) => Err(SubprocessError::ShellRequired),
        (SubprocessEntry::Exec, true) => Err(SubprocessError::ShellForbidden),
        _ => Ok(()),
    }
}

pub fn check_shell(entry: SubprocessEntry, shell: bool) -> (checked: Result<(), SubprocessError>)
    ensures
        checked == shell_fits(entry, shell),
{
    match (entry, shell) {
        (SubprocessEntry::Shell, false) => Err(SubprocessError::ShellRequired),
        (SubprocessEntry::Exec, true) => Err(SubprocessError::ShellForbidden),
        _ => Ok(()),
    }
}

/// Text does not go with the stream protocol of the standard library.
pub open spec fn text_fits(
    entry: SubprocessEntry,
    text_mode: bool,
    stream_protocol: bool,
) -> Result<(), SubprocessError> {
    if text_mode && stream_protocol {
        Err(SubprocessError::TextWithStreams(entry))
    } else {
        Ok(())
    }
}

/// The stream protocol of the standard library takes bytes only.
pub fn check_text_protocol(
    entry: SubprocessEntry,
    text_mode: bool,
    stream_protocol: bool,
) -> (checked: Result<(), SubprocessError>)
    ensures
        checked == text_fits(entry, text_mode, stream_protocol),
{
    if text_mode && stream_protocol {
        return Err(SubprocessError::TextWithStreams(entry));
    }
    Ok(())
}

/// What the caller gave for a stream.
#[derive(Clone, Copy, PartialEq, Eq, Debug, Structural)]
pub enum StdioArgument {
    /// The object `None`, where the argument was given as such.
    Nothing,
    Pipe,
    DevNull,
    Stdout,
    /// An object that stands for an open file.
    File(RawFd),
}

/// What a stream of the process is.
#[derive(Clone, Copy, PartialEq, Eq, Debug, Structural)]
pub enum ProcessStdioSpec {
    Inherit,
    Pipe,
    DevNull,
    Fd(RawFd),
    Stdout,
}

/// The argument for a stream, where none stands for a pipe.
pub open spec fn stdio_or_pipe(argument: Option<StdioArgument>) -> StdioArgument {
    match argument {
        Some(argument) => argument,
        None => StdioArgument::Pipe,
    }
}

/// A stream that was not given is a pipe.
pub fn given_stdio(argument: Option<StdioArgument>) -> (stdio: StdioArgument)
    ensures
        stdio == stdio_or_pipe(argument),
{
    match argument {
        Some(argument) => argument,
        None => StdioArgument::Pipe,
    }
}

/// What an argument means. Only the error stream may go where the output goes.
pub open spec fn stdio_meaning(argument: StdioArgument, allow_stdout_redirect: bool) -> Result<
    ProcessStdioSpec,
    SubprocessError,
> {
    match argument {
        StdioArgument::Nothing => Ok(ProcessStdioSpec::Inherit),
        StdioArgument::Pipe => Ok(ProcessStdioSpec::Pipe),
        StdioArgument::DevNull => Ok(ProcessStdioSpec::DevNull),
        StdioArgument::Stdout => if allow_stdout_redirect {
            Ok(ProcessStdioSpec::Stdout)
        } else {
            Err(SubprocessError::StdoutOnlyForStderr)
        },
        StdioArgument::File(fd) => Ok(ProcessStdioSpec::Fd(fd)),
    }
}

pub fn parse_process_stdio(argument: StdioArgument, allow_stdout_redirect: bool) -> (spec: Result<
    ProcessStdioSpec,
    SubprocessError,
>)
    ensures
        spec == stdio_meaning(argument, allow_stdout_redirect),
{
    match argument {
        StdioArgument::Nothing => Ok(ProcessStdioSpec::Inherit),
        StdioArgument::Pipe => Ok(ProcessStdioSpec::Pipe),
        StdioArgument::DevNull => Ok(ProcessStdioSpec::DevNull),
        StdioArgument::Stdout => {
            if allow_stdout_redirect {
                Ok(ProcessStdioSpec::Stdout)
            } else {
                Err(SubprocessError::StdoutOnlyForStderr)
            }
        },
        StdioArgument::File(fd) => Ok(ProcessStdioSpec::Fd(fd)),
    }
}

/// What a stream of the child is connected to.
#[derive(Clone, Copy, PartialEq, Eq, Debug, Structural)]
pub enum ChildStdio {
    Inherit,
    Piped,
    Null,
    /// A duplicate of the descriptor.
    Fd(RawFd),
    /// The write end of a pipe that output and errors share. This process reads the other end as
    /// the output.
    SharedPipe,
}

/// What the three streams of the child are connected to.
#[derive(Clone, Copy, PartialEq, Eq, Debug, Structural)]
pub struct StdioPlan {
    pub stdin: ChildStdio,
    pub stdout: ChildStdio,
    pub stderr: ChildStdio,
}

/// What a stream that stands for itself is connected to.
pub open spec fn own_stdio(spec: ProcessStdioSpec) -> Result<ChildStdio, SubprocessError> {
    match spec {
        ProcessStdioSpec::Inherit => Ok(ChildStdio::Inherit),
        ProcessStdioSpec::Pipe => Ok(ChildStdio::Piped),
        ProcessStdioSpec::DevNull => Ok(ChildStdio::Null),
        ProcessStdioSpec::Fd(fd) => Ok(ChildStdio::Fd(fd)),
        ProcessStdioSpec::Stdout => Err(SubprocessError::StdoutOnlyForStderr),
    }
}

/// What the error stream is connected to where output and errors do not share a pipe.
pub open spec fn error_stdio(stderr: ProcessStdioSpec, stdout: ProcessStdioSpec) -> Result<
    ChildStdio,
    SubprocessError,
> {
    if stderr != ProcessStdioSpec::Stdout {
        own_stdio(stderr)
    } else {
        match stdout {
            ProcessStdioSpec::Inherit => Ok(ChildStdio::Inherit),
            ProcessStdioSpec::DevNull => Ok(ChildStdio::Null),
            ProcessStdioSpec::Fd(fd) => Ok(ChildStdio::Fd(fd)),
            _ => Err(SubprocessError::InvalidStderr),
        }
    }
}

/// What the streams are connected to, or the first refusal.
pub open spec fn stdio_plan(
    stdin: ProcessStdioSpec,
    stdout: ProcessStdioSpec,
    stderr: ProcessStdioSpec,
) -> Result<StdioPlan, SubprocessError> {
    match own_stdio(stdin) {
        Err(error) => Err(error),
        Ok(input) => if stdout == ProcessStdioSpec::Pipe && stderr == ProcessStdioSpec::Stdout {
            Ok(
                StdioPlan {
                    stdin: input,
                    stdout: ChildStdio::SharedPipe,
                    stderr: ChildStdio::SharedPipe,
                },
            )
        } else {
            match own_stdio(stdout) {
                Err(error) => Err(error),
                Ok(output) => match error_stdio(stderr, stdout) {
                    Err(error) => Err(error),
                    Ok(errors) => Ok(StdioPlan { stdin: input, stdout: output, stderr: errors }),
                },
            }
        },
    }
}

pub fn output_stdio(spec: ProcessStdioSpec) -> (stdio: Result<ChildStdio, SubprocessError>)
    ensures
        stdio == own_stdio(spec),
{
    match spec {
        ProcessStdioSpec::Inherit => Ok(ChildStdio::Inherit),
        ProcessStdioSpec::Pipe => Ok(ChildStdio::Piped),
        ProcessStdioSpec::DevNull => Ok(ChildStdio::Null),
        ProcessStdioSpec::Fd(fd) => Ok(ChildStdio::Fd(fd)),
        ProcessStdioSpec::Stdout => Err(SubprocessError::StdoutOnlyForStderr),
    }
}

pub fn stderr_stdio(stderr: ProcessStdioSpec, stdout: ProcessStdioSpec) -> (stdio: Result<
    ChildStdio,
    SubprocessError,
>)
    ensures
        stdio == error_stdio(stderr, stdout),
{
    if stderr != ProcessStdioSpec::Stdout {
        return output_stdio(stderr);
    }
    match stdout {
        ProcessStdioSpec::Inherit => Ok(ChildStdio::Inherit),
        ProcessStdioSpec::DevNull => Ok(ChildStdio::Null),
        ProcessStdioSpec::Fd(fd) => Ok(ChildStdio::Fd(fd)),
        _ => Err(SubprocessError::InvalidStderr),
    }
}

pub fn apply_stdio(
    stdin: ProcessStdioSpec,
    stdout: ProcessStdioSpec,
    stderr: ProcessStdioSpec,
) -> (plan: Result<StdioPlan, SubprocessError>)
    ensures
        plan == stdio_plan(stdin, stdout, stderr),
{
    let input = match output_stdio(stdin) {
        Ok(input) => input,
        Err(error) => return Err(error),
    };
    if stdout == ProcessStdioSpec::Pipe && stderr == ProcessStdioSpec::Stdout {
        return Ok(
            StdioPlan {
                stdin: input,
                stdout: ChildStdio::SharedPipe,
                stderr: ChildStdio::SharedPipe,
            },
        );
    }
    let output = match output_stdio(stdout) {
        Ok(output) => output,
        Err(error) => return Err(error),
    };
    match stderr_stdio(stderr, stdout) {
        Ok(errors) => Ok(StdioPlan { stdin: input, stdout: output, stderr: errors }),
        Err(error) => Err(error),
    }
}

/// Where errors go with the output, they go where the output goes.
pub proof fn law_merged_errors_follow_the_output(stdin: ProcessStdioSpec, stdout: ProcessStdioSpec)
    ensures
        stdio_plan(stdin, stdout, ProcessStdioSpec::Stdout) matches Ok(plan) ==> plan.stderr
            == plan.stdout,
{
}

/// What passed as an argument is never refused later: the streams of a process can be set up
/// whenever the three arguments were understood.
pub proof fn law_understood_streams_are_set_up(
    stdin: StdioArgument,
    stdout: StdioArgument,
    stderr: StdioArgument,
)
    ensures
        (stdio_meaning(stdin, false) matches Ok(input) && stdio_meaning(stdout, false) matches Ok(
            output,
        ) && stdio_meaning(stderr, true) matches Ok(errors) && stdio_plan(input, output, errors)
            is Ok) <==> (stdin != StdioArgument::Stdout && stdout != StdioArgument::Stdout),
{
}

/// Text mode is on where anything asks for it, and two ways to ask must not contradict each other.
pub open spec fn text_mode(
    universal_newlines: bool,
    has_encoding: bool,
    has_errors: bool,
    text: Option<bool>,
) -> Result<bool, SubprocessError> {
    if text == Some(false) && universal_newlines {
        Err(SubprocessError::TextModesDiffer)
    } else {
        Ok(universal_newlines || text == Some(true) || has_encoding || has_errors)
    }
}

pub fn is_text_mode(
    universal_newlines: bool,
    has_encoding: bool,
    has_errors: bool,
    text: Option<bool>,
) -> (mode: Result<bool, SubprocessError>)
    ensures
        mode == text_mode(universal_newlines, has_encoding, has_errors, text),
{
    let off = match text {
        Some(text) => !text,
        None => false,
    };
    if off && universal_newlines {
        return Err(SubprocessError::TextModesDiffer);
    }
    let on = match text {
        Some(text) => text,
        None => false,
    };
    Ok(universal_newlines || on || has_encoding || has_errors)
}

/// What the text mode of a process comes to.
pub open spec fn is_text_config(
    universal_newlines: bool,
    encoding: Option<String>,
    errors: Option<String>,
    text: Option<bool>,
    preferred: String,
    config: Result<Option<ProcessTextConfig>, SubprocessError>,
) -> bool {
    match text_mode(universal_newlines, encoding is Some, errors is Some, text) {
        Err(error) => config == Result::<Option<ProcessTextConfig>, SubprocessError>::Err(error),
        Ok(false) => config == Result::<Option<ProcessTextConfig>, SubprocessError>::Ok(None),
        Ok(true) => config matches Ok(Some(config)) && config.encoding@ == (match encoding {
            Some(encoding) => encoding@,
            None => preferred@,
        }) && config.errors@ == (match errors {
            Some(errors) => errors@,
            None => "strict"@,
        }) && config.translate_newlines,
    }
}

/// The text mode of a process. `preferred` is the encoding of the machine's locale.
pub fn parse_process_text_config(
    universal_newlines: bool,
    encoding: Option<String>,
    errors: Option<String>,
    text: Option<bool>,
    preferred: String,
) -> (config: Result<Option<ProcessTextConfig>, SubprocessError>)
    ensures
        is_text_config(universal_newlines, encoding, errors, text, preferred, config),
{
    match is_text_mode(universal_newlines, encoding.is_some(), errors.is_some(), text) {
        Err(error) => Err(error),
        Ok(false) => Ok(None),
        Ok(true) => {
            let encoding = match encoding {
                Some(encoding) => encoding,
                None => preferred,
            };
            let errors = match errors {
                Some(errors) => errors,
                None => "strict".to_owned(),
            };
            Ok(Some(ProcessTextConfig { encoding, errors, translate_newlines: true }))
        },
    }
}

/// What the caller gave for a group or a user.
#[derive(Clone, Copy, PartialEq, Eq, Debug, Structural)]
pub enum IdArgument {
    Number(u32),
    /// A text, to be looked up in a database of the machine.
    Name,
    Other,
}

/// What becomes of it.
#[derive(Clone, Copy, PartialEq, Eq, Debug, Structural)]
pub enum IdStep {
    Ready(u32),
    LookUp,
}

/// A number is used as it is, a name is looked up, and nothing else will do.
pub open spec fn id_step(kind: IdKind, argument: IdArgument) -> Result<IdStep, SubprocessError> {
    match argument {
        IdArgument::Number(id) => Ok(IdStep::Ready(id)),
        IdArgument::Name => Ok(IdStep::LookUp),
        IdArgument::Other => Err(SubprocessError::IdType(kind)),
    }
}

pub fn resolve_numeric_id(kind: IdKind, argument: IdArgument) -> (step: Result<
    IdStep,
    SubprocessError,
>)
    ensures
        step == id_step(kind, argument),
{
    match argument {
        IdArgument::Number(id) => Ok(IdStep::Ready(id)),
        IdArgument::Name => Ok(IdStep::LookUp),
        IdArgument::Other => Err(SubprocessError::IdType(kind)),
    }
}

/// Where a name is looked up.
pub struct IdDatabase {
    pub module: &'static str,
    pub function: &'static str,
    pub field: &'static str,
}

/// Users and groups are looked up in different places.
pub open spec fn is_id_database(kind: IdKind, database: IdDatabase) -> bool {
    &&& kind == IdKind::User ==> database.module@ == "pwd"@ && database.function@ == "getpwnam"@
        && database.field@ == "pw_uid"@
    &&& kind != IdKind::User ==> database.module@ == "grp"@ && database.function@ == "getgrnam"@
        && database.field@ == "gr_gid"@
}

pub fn id_database(kind: IdKind) -> (database: IdDatabase)
    ensures
        is_id_database(kind, database),
{
    match kind {
        IdKind::User => IdDatabase { module: "pwd", function: "getpwnam", field: "pw_uid" },
        _ => IdDatabase { module: "grp", function: "getgrnam", field: "gr_gid" },
    }
}

/// A keyword of the calls that start a process.
#[derive(Clone, Copy, PartialEq, Eq, Debug, Structural)]
pub enum ProcessKw {
    Cwd,
    Env,
    Executable,
    RestoreSignals,
    StartNewSession,
    ProcessGroup,
    PassFds,
    Group,
    ExtraGroups,
    User,
    Umask,
    PreexecFn,
    /// Any other keyword. It is ignored.
    Unknown,
}

/// The keyword with a given name.
pub open spec fn kw_named(name: Seq<char>) -> ProcessKw {
    if name == "cwd"@ {
        ProcessKw::Cwd
    } else if name == "env"@ {
        ProcessKw::Env
    } else if name == "executable"@ {
        ProcessKw::Executable
    } else if name == "restore_signals"@ {
        ProcessKw::RestoreSignals
    } else if name == "start_new_session"@ {
        ProcessKw::StartNewSession
    } else if name == "process_group"@ {
        ProcessKw::ProcessGroup
    } else if name == "pass_fds"@ {
        ProcessKw::PassFds
    } else if name == "group"@ {
        ProcessKw::Group
    } else if name == "extra_groups"@ {
        ProcessKw::ExtraGroups
    } else if name == "user"@ {
        ProcessKw::User
    } else if name == "umask"@ {
        ProcessKw::Umask
    } else if name == "preexec_fn"@ {
        ProcessKw::PreexecFn
    } else {
        ProcessKw::Unknown
    }
}

pub fn process_kw(name: &str) -> (kw: ProcessKw)
    ensures
        kw == kw_named(name@),
{
    if same_text(name, "cwd") {
        ProcessKw::Cwd
    } else if same_text(name, "env") {
        ProcessKw::Env
    } else if same_text(name, "executable") {
        ProcessKw::Executable
    } else if same_text(name, "restore_signals") {
        ProcessKw::RestoreSignals
    } else if same_text(name, "start_new_session") {
        ProcessKw::StartNewSession
    } else if same_text(name, "process_group") {
        ProcessKw::ProcessGroup
    } else if same_text(name, "pass_fds") {
        ProcessKw::PassFds
    } else if same_text(name, "group") {
        ProcessKw::Group
    } else if same_text(name, "extra_groups") {
        ProcessKw::ExtraGroups
    } else if same_text(name, "user") {
        ProcessKw::User
    } else if same_text(name, "umask") {
        ProcessKw::Umask
    } else if same_text(name, "preexec_fn") {
        ProcessKw::PreexecFn
    } else {
        ProcessKw::Unknown
    }
}

/// What a value has to be turned into before it can be used.
#[derive(Clone, Copy, PartialEq, Eq, Debug, Structural)]
pub enum KwConversion {
    /// The value is not looked at.
    Skip,
    Path,
    TextPairs,
    Truth,
    Int32,
    Int32List,
    Id(IdKind),
    IdList,
    Int64,
    /// The keyword is refused, whatever its value.
    Refuse,
}

/// What the value of a keyword is turned into. Nothing is done for `None`, but for the two flags,
/// where it means no.
pub open spec fn kw_conversion(kw: ProcessKw, is_none: bool) -> KwConversion {
    match kw {
        ProcessKw::RestoreSignals => KwConversion::Truth,
        ProcessKw::StartNewSession => KwConversion::Truth,
        _ => if is_none {
            KwConversion::Skip
        } else {
            match kw {
                ProcessKw::Cwd => KwConversion::Path,
                ProcessKw::Env => KwConversion::TextPairs,
                ProcessKw::Executable => KwConversion::Path,
                ProcessKw::ProcessGroup => KwConversion::Int32,
                ProcessKw::PassFds => KwConversion::Int32List,
                ProcessKw::Group => KwConversion::Id(IdKind::Group),
                ProcessKw::ExtraGroups => KwConversion::IdList,
                ProcessKw::User => KwConversion::Id(IdKind::User),
                ProcessKw::Umask => KwConversion::Int64,
                ProcessKw::PreexecFn => KwConversion::Refuse,
                _ => KwConversion::Skip,
            }
        },
    }
}

pub fn process_kw_conversion(kw: ProcessKw, is_none: bool) -> (conversion: KwConversion)
    ensures
        conversion == kw_conversion(kw, is_none),
{
    match kw {
        ProcessKw::RestoreSignals => return KwConversion::Truth,
        ProcessKw::StartNewSession => return KwConversion::Truth,
        _ => {},
    }
    if is_none {
        return KwConversion::Skip;
    }
    match kw {
        ProcessKw::Cwd => KwConversion::Path,
        ProcessKw::Env => KwConversion::TextPairs,
        ProcessKw::Executable => KwConversion::Path,
        ProcessKw::ProcessGroup => KwConversion::Int32,
        ProcessKw::PassFds => KwConversion::Int32List,
        ProcessKw::Group => KwConversion::Id(IdKind::Group),
        ProcessKw::ExtraGroups => KwConversion::IdList,
        ProcessKw::User => KwConversion::Id(IdKind::User),
        ProcessKw::Umask => KwConversion::Int64,
        ProcessKw::PreexecFn => KwConversion::Refuse,
        _ => KwConversion::Skip,
    }
}

/// A keyword with its value, ready for use.
pub enum KwSetting {
    Skip,
    Cwd(String),
    Env(Vec<(String, String)>),
    Executable(String),
    RestoreSignals(bool),
    StartNewSession(bool),
    ProcessGroup(i32),
    PassFds(Vec<i32>),
    Group(u32),
    ExtraGroups(Vec<u32>),
    User(u32),
    Umask(i64),
    PreexecFn,
}

/// The command line of a process, with its surroundings.
pub struct ChildCommand {
    pub program: String,
    pub args: Vec<String>,
    /// The name under which the program sees itself, where it is not its own.
    pub arg0: Option<String>,
    pub cwd: Option<String>,
    /// What is added to the variables of this process. Of two with one name the later one counts.
    pub env: Vec<(String, String)>,
}

/// The model of a command line.
#[verifier::ext_equal]
pub struct CommandView {
    pub program: Seq<char>,
    pub args: Seq<Seq<char>>,
    pub arg0: Option<Seq<char>>,
    pub cwd: Option<Seq<char>>,
    pub env: Seq<(String, String)>,
}

impl View for ChildCommand {
    type V = CommandView;

    open spec fn view(&self) -> CommandView {
        CommandView {
            program: self.program@,
            args: Seq::new(self.args@.len(), |i: int| self.args@[i]@),
            arg0: match self.arg0 {
                Some(arg0) => Some(arg0@),
                None => None,
            },
            cwd: match self.cwd {
                Some(cwd) => Some(cwd@),
                None => None,
            },
            env: self.env@,
        }
    }
}

/// A program with its arguments, and nothing else said.
pub open spec fn plain_command(program: Seq<char>, args: Seq<Seq<char>>) -> CommandView {
    CommandView { program, args, arg0: None, cwd: None, env: Seq::empty() }
}

/// The shell of the system, with a line to run.
pub open spec fn shell_line(line: Seq<char>) -> CommandView {
    plain_command("/bin/sh"@, seq!["-c"@, line])
}

/// A shell that runs a line.
pub fn shell_command(line: String) -> (command: ChildCommand)
    ensures
        command@ == shell_line(line@),
{
    let mut args: Vec<String> = Vec::new();
    args.push("-c".to_owned());
    args.push(line);
    let command = ChildCommand {
        program: "/bin/sh".to_owned(),
        args,
        arg0: None,
        cwd: None,
        env: Vec::new(),
    };
    assert(command@.args =~= seq!["-c"@, line@]);
    command
}

/// A program with its arguments.
pub fn exec_command(program: String, args: Vec<String>) -> (command: ChildCommand)
    ensures
        command@ == plain_command(program@, Seq::new(args@.len(), |i: int| args@[i]@)),
{
    let command = ChildCommand { program, args, arg0: None, cwd: None, env: Vec::new() };
    assert(command@.args =~= Seq::new(args@.len(), |i: int| args@[i]@));
    command
}

/// What a setting makes of the command line and of what the child does to itself, or why it is
/// refused.
pub open spec fn kw_applied(command: CommandView, unix: PreExecView, setting: KwSetting) -> Result<
    (CommandView, PreExecView),
    SubprocessError,
> {
    match setting {
        KwSetting::Skip => Ok((command, unix)),
        KwSetting::Cwd(path) => Ok((CommandView { cwd: Some(path@), ..command }, unix)),
        KwSetting::Env(pairs) => Ok(
            (CommandView { env: command.env + pairs@, ..command }, unix),
        ),
        KwSetting::Executable(path) => Ok((CommandView { arg0: Some(path@), ..command }, unix)),
        KwSetting::RestoreSignals(flag) => Ok(
            (command, PreExecView { restore_signals: flag, ..unix }),
        ),
        KwSetting::StartNewSession(flag) => Ok(
            (command, PreExecView { start_new_session: flag, ..unix }),
        ),
        KwSetting::ProcessGroup(group) => Ok(
            (command, PreExecView { process_group: Some(group), ..unix }),
        ),
        KwSetting::PassFds(fds) => Ok((command, PreExecView { pass_fds: fds@, ..unix })),
        KwSetting::Group(gid) => Ok((command, PreExecView { gid: Some(gid), ..unix })),
        KwSetting::ExtraGroups(groups) => Ok(
            (command, PreExecView { extra_groups: Some(groups@), ..unix }),
        ),
        KwSetting::User(uid) => Ok((command, PreExecView { uid: Some(uid), ..unix })),
        KwSetting::Umask(mask) => if mask == -1 {
            Ok((command, unix))
        } else if 0 <= mask <= PROCESS_UMASK_MAX {
            Ok((command, PreExecView { umask: Some(mask as u32), ..unix }))
        } else {
            Err(SubprocessError::UmaskRange)
        },
        KwSetting::PreexecFn => Err(SubprocessError::PreexecFn),
    }
}

/// Applies one setting. One that is refused changes nothing.
pub fn apply_process_kw(
    command: &mut ChildCommand,
    unix: &mut UnixPreExecConfig,
    setting: KwSetting,
) -> (done: Result<(), SubprocessError>)
    ensures
        match kw_applied(old(command)@, old(unix)@, setting) {
            Ok((command_after, unix_after)) => done == Result::<(), SubprocessError>::Ok(())
                && final(command)@ == command_after && final(unix)@ == unix_after,
            Err(error) => done == Result::<(), SubprocessError>::Err(error) && final(command)@
                == old(command)@ && final(unix)@ == old(unix)@,
        },
{
    match setting {
        KwSetting::Skip => {},
        KwSetting::Cwd(path) => {
            command.cwd = Some(path);
        },
        KwSetting::Env(pairs) => {
            let mut pairs = pairs;
            command.env.append(&mut pairs);
        },
        KwSetting::Executable(path) => {
            command.arg0 = Some(path);
        },
        KwSetting::RestoreSignals(flag) => {
            unix.restore_signals = flag;
        },
        KwSetting::StartNewSession(flag) => {
            unix.start_new_session = flag;
        },
        KwSetting::ProcessGroup(group) => {
            unix.process_group = Some(group);
        },
        KwSetting::PassFds(fds) => {
            unix.pass_fds = fds;
        },
        KwSetting::Group(gid) => {
            unix.gid = Some(gid);
        },
        KwSetting::ExtraGroups(groups) => {
            unix.extra_groups = Some(groups);
        },
        KwSetting::User(uid) => {
            unix.uid = Some(uid);
        },
        KwSetting::Umask(mask) => {
            if mask != -1 {
                if !(0 <= mask && mask <= PROCESS_UMASK_MAX) {
                    return Err(SubprocessError::UmaskRange);
                }
                unix.umask = Some(mask as u32);
            }
        },
        KwSetting::PreexecFn => {
            return Err(SubprocessError::PreexecFn);
        },
    }
    assert(command@.args =~= old(command)@.args);
    Ok(())
}

/// What the keywords of a call come to.
pub struct ProcessSpawnConfig {
    pub text: Option<ProcessTextConfig>,
    pub unix: UnixPreExecConfig,
}

/// What a list of settings makes of a command line, or the first refusal.
pub open spec fn all_kw_applied(
    command: CommandView,
    unix: PreExecView,
    settings: Seq<KwSetting>,
) -> Result<(CommandView, PreExecView), SubprocessError>
    decreases settings.len(),
{
    if settings.len() == 0 {
        Ok((command, unix))
    } else {
        match all_kw_applied(command, unix, settings.drop_last()) {
            Err(error) => Err(error),
            Ok((command, unix)) => kw_applied(command, unix, settings.last()),
        }
    }
}

/// Once a setting was refused, later ones do not matter.
proof fn lemma_refusal_stays(
    command: CommandView,
    unix: PreExecView,
    settings: Seq<KwSetting>,
    upto: int,
)
    requires
        0 <= upto <= settings.len(),
        all_kw_applied(command, unix, settings.take(upto)) is Err,
    ensures
        all_kw_applied(command, unix, settings) == all_kw_applied(
            command,
            unix,
            settings.take(upto),
        ),
    decreases settings.len() - upto,
{
    if upto == settings.len() {
        assert(settings.take(upto) =~= settings);
    } else {
        assert(settings.take(upto + 1).drop_last() =~= settings.take(upto));
        lemma_refusal_stays(command, unix, settings, upto + 1);
    }
}

/// Applies the keywords of a call, one after the other, until one is refused.
pub fn apply_common_process_kwargs(command: &mut ChildCommand, settings: Vec<KwSetting>) -> (config:
    Result<ProcessSpawnConfig, SubprocessError>)
    ensures
        match all_kw_applied(old(command)@, crate::pre_exec::default_pre_exec(), settings@) {
            Ok((command_after, unix_after)) => config matches Ok(config) && config.text is None
                && config.unix@ == unix_after && final(command)@ == command_after,
            Err(error) => config == Result::<ProcessSpawnConfig, SubprocessError>::Err(error),
        },
{
    let mut unix = UnixPreExecConfig::default();
    let ghost start = command@;
    let ghost start_unix = unix@;
    let ghost given = settings@;
    let mut rest = settings;
    let total: usize = rest.len();
    let mut done: usize = 0;
    assert(given.take(0) =~= Seq::empty());
    assert(rest@ =~= given.skip(0));
    while done < total
        invariant
            start == old(command)@,
            start_unix == crate::pre_exec::default_pre_exec(),
            given == settings@,
            total == given.len(),
            done <= total,
            rest@ == given.skip(done as int),
            all_kw_applied(start, start_unix, given.take(done as int)) == Result::<
                (CommandView, PreExecView),
                SubprocessError,
            >::Ok((command@, unix@)),
        decreases total - done,
    {
        let ghost setting = given[done as int];
        assert(rest@[0] == setting);
        let next = rest.remove(0);
        let applied = apply_process_kw(command, &mut unix, next);
        proof {
            assert(given.take(done + 1).drop_last() =~= given.take(done as int));
            assert(given.take(done + 1).last() == setting);
            assert(rest@ =~= given.skip(done + 1));
        }
        if let Err(error) = applied {
            proof {
                lemma_refusal_stays(start, start_unix, given, done + 1);
            }
            return Err(error);
        }
        done += 1;
    }
    assert(given.take(total as int) =~= given);
    Ok(ProcessSpawnConfig { text: None, unix })
}

/// The first text mode where there is one, else the second.
pub open spec fn own_or_keywords(
    own: Option<ProcessTextConfig>,
    from_keywords: Option<ProcessTextConfig>,
) -> Option<ProcessTextConfig> {
    if own is Some {
        own
    } else {
        from_keywords
    }
}

/// The text mode that the call itself asked for comes before one from the keywords.
pub fn effective_text_config(
    own: Option<ProcessTextConfig>,
    from_keywords: Option<ProcessTextConfig>,
) -> (config: Option<ProcessTextConfig>)
    ensures
        config == own_or_keywords(own, from_keywords),
{
    match own {
        Some(own) => Some(own),
        None => from_keywords,
    }
}

} // verus!
