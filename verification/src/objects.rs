//! Names for what lives outside the library.

use vstd::prelude::*;

verus! {

/// A Python object, named by the code that holds it.
pub type ObjectId = u64;

/// What a call into Python came to: it returned, or it raised the named exception.
pub type CallResult = Result<(), ObjectId>;

/// The class of an exception that the library raises.
#[derive(Clone, Copy, PartialEq, Eq, Debug, Structural)]
pub enum ExceptionClass {
    NotImplementedError,
    OSError,
    ProcessLookupError,
    RuntimeError,
    TypeError,
    ValueError,
}

/// What it comes to that a future refused to be settled.
pub open spec fn refusal_outcome(
    refusal: ObjectId,
    cancelled: Result<bool, ObjectId>,
) -> CallResult {
    match cancelled {
        Ok(true) => CallResult::Ok(()),
        Ok(false) => CallResult::Err(refusal),
        Err(raised) => CallResult::Err(raised),
    }
}

/// A refusal is forgiven exactly where the future was cancelled. Else it comes out as it was, unless
/// asking raised, which then comes out.
pub proof fn law_only_cancelled_futures_may_refuse(
    refusal: ObjectId,
    cancelled: Result<bool, ObjectId>,
    raised: ObjectId,
)
    ensures
        refusal_outcome(refusal, cancelled) is Ok <==> cancelled == Result::<bool, ObjectId>::Ok(
            true,
        ),
        refusal_outcome(refusal, Ok(false)) == CallResult::Err(refusal),
        refusal_outcome(refusal, Err(raised)) == CallResult::Err(raised),
{
}

/// A future refused to take its result or exception. That is no error where the future was
/// cancelled meanwhile; where it was not, or where asking raised, the caller sees the error.
pub fn ignore_cancelled(refusal: ObjectId, cancelled: Result<bool, ObjectId>) -> (settled: CallResult)
    ensures
        settled == refusal_outcome(refusal, cancelled),
{
    match cancelled {
        Ok(true) => Ok(()),
        Ok(false) => Err(refusal),
        Err(raised) => Err(raised),
    }
}

} // verus!
