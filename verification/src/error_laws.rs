//! What holds of the exceptions that the library's errors become.

use vstd::prelude::*;
use crate::connect::ConnectError;
use crate::executor::ExecutorError;
use crate::loop_core::LoopCoreError;
use crate::loop_run::RunError;
use crate::objects::{ExceptionClass, ObjectId};
use crate::process_transport::ProcessError;
use crate::py_loop::SignalError;
use crate::separators::{SeparatorError, SeparatorTypeError};
use crate::stream_reader::ReaderError;
use crate::stream_transport::TransportError;
use crate::subprocess::SubprocessError;
use crate::transport_start::FdOutOfRange;
use crate::write_buffer::LimitsError;

verus! {

/// What a loop, an executor or a run of a loop refuses is a `RuntimeError`. What a callback raised is
/// handed on as it is.
pub proof fn law_loop_refuses_with_runtime_errors(
    core: LoopCoreError,
    executor: ExecutorError,
    run: RunError,
    raised: ObjectId,
)
    ensures
        core.class() == ExceptionClass::RuntimeError,
        executor.class() == ExceptionClass::RuntimeError,
        RunError::Core(core).class() == Some(core.class()),
        RunError::Raised(raised).class() is None,
        run.class() is None ==> run is Raised,
        run.class() matches Some(class) ==> class == ExceptionClass::RuntimeError,
{
}

/// A signal handler that is set from the wrong thread is a `ValueError`. What the loop refuses stays
/// what the loop says, and so does a signal that is spoken for.
pub proof fn law_signals_refuse_by_the_thread(error: SignalError, core: LoopCoreError)
    ensures
        error.class() == ExceptionClass::ValueError <==> error is NotMainThread,
        error.class() != ExceptionClass::ValueError ==> error.class()
            == ExceptionClass::RuntimeError,
        SignalError::Loop(core).class() == core.class(),
{
}

/// An argument about TLS without TLS is a `ValueError`, and everything else that stops a connection
/// is a `RuntimeError`.
pub proof fn law_connections_refuse_by_the_argument(error: ConnectError)
    ensures
        error.class() == ExceptionClass::ValueError <==> error is HostnameWithoutTls
            || error is HandshakeTimeoutWithoutTls || error is ShutdownTimeoutWithoutTls,
        error.class() == ExceptionClass::RuntimeError <==> error is PathRequired
            || error is NoAddress || error is SocketOutOfRange,
{
}

/// A process that is over cannot be found. A loss that could not be handled is a `RuntimeError`.
pub proof fn law_ended_process_is_not_found(error: ProcessError)
    ensures
        error.class() == ExceptionClass::ProcessLookupError <==> error is NotRunning,
        error.class() == ExceptionClass::RuntimeError <==> error is PipeLossFailed,
{
}

/// A reader and the marks of a write buffer refuse values; separators refuse values too, and types
/// only where an object is not bytes-like.
pub proof fn law_streams_refuse_values(
    reader: ReaderError,
    limits: LimitsError,
    value: SeparatorError,
    kind: SeparatorTypeError,
)
    ensures
        reader.class() == ExceptionClass::ValueError,
        limits.class() == ExceptionClass::ValueError,
        value.class() == ExceptionClass::ValueError,
        kind.class() == ExceptionClass::TypeError,
        value.class() != kind.class(),
{
}

/// Only readiness, which a transport does not offer, is an `OSError`; what a transport cannot do in
/// its state, and a descriptor that does not fit, are `RuntimeError`s.
pub proof fn law_transports_refuse_by_their_state(error: TransportError, fd: FdOutOfRange)
    ensures
        error.class() == ExceptionClass::OSError <==> error is NoReadiness,
        error.class() == ExceptionClass::RuntimeError <==> !(error is NoReadiness),
        fd.class() == ExceptionClass::RuntimeError,
{
}

/// What is wrong with the arguments of a subprocess tells the class: an id of the wrong type is a
/// `TypeError`, a hook in the child is not implemented, the wrong entry and a stream for the errors
/// that is none are `RuntimeError`s, and the rest are `ValueError`s.
pub proof fn law_subprocesses_refuse_by_the_argument(error: SubprocessError)
    ensures
        error.class() == ExceptionClass::TypeError <==> error is IdType,
        error.class() == ExceptionClass::NotImplementedError <==> error is PreexecFn,
        error.class() == ExceptionClass::RuntimeError <==> error is ShellRequired
            || error is ShellForbidden || error is InvalidStderr,
        error.class() == ExceptionClass::ValueError <==> error is StdoutOnlyForStderr
            || error is TextModesDiffer || error is TextWithStreams || error is UmaskRange,
{
}

/// The loop says of each failure something of its own.
pub proof fn law_loop_failures_are_told_apart(error: LoopCoreError, other: LoopCoreError)
    ensures
        error.text() == other.text() <==> error == other,
{
    reveal_strlit("event loop is closed");
    reveal_strlit("event loop is already running");
    reveal_strlit("event loop is not running");
    reveal_strlit("event loop runtime channel is closed");
    reveal_strlit("failed to join loop runtime thread");
    assert("event loop is closed"@.len() == 20);
    assert("event loop is already running"@.len() == 29);
    assert("event loop is not running"@.len() == 25);
    assert("event loop runtime channel is closed"@.len() == 36);
    assert("failed to join loop runtime thread"@.len() == 34);
}

} // verus!
