//! What a stream reader answers, and when.

use vstd::prelude::*;
use crate::objects::ObjectId;
use crate::separators::shortest_match;
use crate::stream_reader::{
    after_pausing, completed, completion_view, fresh_reader, is_at_eof, pause_due,
    pausing_raised, resolved, resolved_until, settled_prefix, started, started_read,
    started_readexactly, with_bytes, with_end, with_exception, with_transport, with_waiter,
    Completion, KindView, PauseOutcome, Payload, PayloadView, PyFastStreamReader, ReadErrorView,
    ReadFunction, ReadStepView, ReaderError, ReaderView, Resolution, ResolutionView,
};

verus! {

/// The smaller of two numbers.
pub open spec fn least(a: nat, b: nat) -> nat {
    if a <= b {
        a
    } else {
        b
    }
}

/// `read(n)` hands out at most `n` bytes, and exactly as many as are there where that is fewer,
/// whether the stream ended or not. They come from the front; the others stay. It waits only for
/// the first byte of a stream that goes on, and it never fails.
pub proof fn law_read_hands_out_at_most_what_was_asked(v: ReaderView, n: nat)
    ensures
        ({
            let r = resolved(v, KindView::Any(n));
            &&& r.ready is None <==> v.unread.len() == 0 && !v.eof
            &&& r.ready matches Some(payload) ==> payload is Data
            &&& r.ready matches Some(PayloadView::Data(data)) ==> {
                &&& data.len() <= n
                &&& data.len() == least(n, v.unread.len())
                &&& data == v.unread.take(data.len() as int)
                &&& r.reader.unread == v.unread.skip(data.len() as int)
            }
            &&& r.ready is None ==> r.reader == v
        }),
{
}

/// A read of everything waits for the end of the stream, and then hands out all that is there.
pub proof fn law_read_of_everything_waits_for_the_end(v: ReaderView)
    ensures
        ({
            let r = resolved(v, KindView::All);
            &&& r.ready is Some <==> v.eof
            &&& r.ready matches Some(payload) ==> payload == PayloadView::Data(v.unread)
                && r.reader.unread.len() == 0
            &&& r.ready is None ==> r.reader == v
        }),
{
}

/// Which bytes a read took shows in what is left: `readexactly` takes all that it hands out, or all
/// that there was where the stream ended early, and nothing while it waits.
pub proof fn law_exact_read_takes_what_it_hands_out(v: ReaderView, n: nat)
    ensures
        ({
            let r = resolved(v, KindView::Exact(n));
            &&& v.unread.len() >= n <==> (r.ready is Some && r.ready.unwrap() is Data)
            &&& r.ready matches Some(PayloadView::Data(data)) ==> data.len() == n
                && r.reader.unread == v.unread.skip(n as int)
            &&& v.unread.len() < n && v.eof ==> r.reader.unread.len() == 0 && r.ready == Some(
                PayloadView::Failed(
                    ReadErrorView::IncompleteRead { partial: v.unread, expected: Some(n) },
                ),
            )
            &&& v.unread.len() < n && !v.eof ==> r.ready is None && r.reader == v
        }),
{
}

/// `readuntil` fails for its limit exactly where more than the limit stands before the separator,
/// or where so much cannot be part of one any more. It says how much that is, and takes nothing.
pub proof fn law_readuntil_heeds_the_limit(v: ReaderView, separators: Seq<Seq<u8>>)
    ensures
        ({
            let r = resolved_until(v, separators);
            let found = shortest_match(separators, v.unread);
            let settled = settled_prefix(separators, v.unread);
            &&& found matches Some((start, end)) ==> start > v.limit ==> r.ready == Some(
                PayloadView::Failed(
                    ReadErrorView::LimitOverrun { found: true, consumed: start as nat },
                ),
            ) && r.reader == v
            &&& found matches Some((start, end)) ==> start <= v.limit && 0 <= end
                <= v.unread.len() ==> r.ready == Some(PayloadView::Data(v.unread.take(end)))
                && r.reader.unread == v.unread.skip(end)
            &&& found is None && settled > v.limit ==> r.ready == Some(
                PayloadView::Failed(
                    ReadErrorView::LimitOverrun { found: false, consumed: settled },
                ),
            ) && r.reader == v
            &&& found is None && settled <= v.limit && v.eof ==> r.ready == Some(
                PayloadView::Failed(
                    ReadErrorView::IncompleteRead { partial: v.unread, expected: None },
                ),
            ) && r.reader.unread.len() == 0
            &&& found is None && settled <= v.limit && !v.eof ==> r.ready is None && r.reader == v
            &&& r == resolved(v, KindView::Until(separators))
        }),
{
}

/// What is settled leaves room for all but one byte of the longest separator.
pub proof fn law_settled_prefix_spares_the_longest_separator(
    separators: Seq<Seq<u8>>,
    unread: Seq<u8>,
)
    requires
        separators.len() > 0,
        separators.last().len() > 0,
    ensures
        settled_prefix(separators, unread) <= unread.len(),
        unread.len() < separators.last().len() ==> settled_prefix(separators, unread) == 0,
        unread.len() >= separators.last().len() ==> unread.len() - settled_prefix(
            separators,
            unread,
        ) == separators.last().len() - 1,
{
}

/// A transport that was paused is told to read on exactly when an answered read left no more than
/// the limit, and is told so once. The read at the end of the stream needs no more bytes.
pub proof fn law_transport_reads_on_once_there_is_room(v: ReaderView, kind: KindView)
    ensures
        ({
            let r = resolved(v, kind);
            &&& r.resume matches Some(transport) ==> v.transport == Some(transport) && v.paused
                && !r.reader.paused && r.reader.unread.len() <= v.limit
            &&& r.resume is None ==> r.reader.paused == v.paused
            &&& !(kind is All) && r.ready is Some && r.ready.unwrap() is Data && v.paused
                && v.transport is Some && r.reader.unread.len() <= v.limit ==> r.resume is Some
            &&& r.reader.transport == v.transport
            &&& r.reader.eof == v.eof
            &&& r.reader.limit == v.limit
            &&& r.reader.waiter == v.waiter
            &&& r.reader.exception == v.exception
            &&& r.reader.loop_obj == v.loop_obj
        }),
{
}

/// A transport has to be paused exactly when it reads and more than twice the limit is buffered.
pub proof fn law_transport_pauses_above_twice_the_limit(v: ReaderView)
    ensures
        pause_due(v) is Some <==> v.transport is Some && !v.paused && v.unread.len() > 2 * v.limit,
        pause_due(v) is Some ==> pause_due(v) == v.transport,
{
}

/// What a transport makes of the request to pause is remembered: it is paused, or it cannot be and
/// is let go of, or it raised and nothing changed. Only what it raised comes out.
pub proof fn law_pausing_is_remembered(v: ReaderView, outcome: PauseOutcome, raised: ObjectId)
    ensures
        outcome is Paused ==> after_pausing(v, outcome).paused && after_pausing(
            v,
            outcome,
        ).transport == v.transport,
        outcome is NotImplemented ==> after_pausing(v, outcome).transport is None && after_pausing(
            v,
            outcome,
        ).paused == v.paused,
        outcome is Raised ==> after_pausing(v, outcome) == v,
        after_pausing(v, outcome).unread == v.unread,
        after_pausing(v, outcome).waiter == v.waiter,
        after_pausing(v, outcome).eof == v.eof,
        after_pausing(v, outcome).exception == v.exception,
        pausing_raised(outcome) == Result::<(), ObjectId>::Err(raised) <==> outcome
            == PauseOutcome::Raised(raised),
{
}

/// A read that waits is answered through its own future, once, and then no longer waits. One that
/// is not answered goes on waiting, and nothing changes.
pub proof fn law_waiting_read_is_answered_once(v: ReaderView)
    ensures
        ({
            let (after, completion) = completed(v);
            &&& completion matches Some(answer) ==> v.waiter matches Some((future, _))
                && answer.future == future && after.waiter is None
            &&& completion is None ==> after == v
            &&& v.waiter is Some && v.exception is Some ==> completion is Some
            &&& v.waiter is Some && v.eof ==> completion is Some
        }),
{
}

/// A read that waited gets the answer that the same read would get now, and leaves the reader as
/// that read would.
pub proof fn law_waiting_read_is_answered_like_a_new_one(
    v: ReaderView,
    function: ReadFunction,
    future: ObjectId,
    kind: KindView,
)
    requires
        v.waiter is None,
    ensures
        ({
            let (after, completion) = completed(with_waiter(v, future, kind));
            let (new_after, step) = started(v, function, kind);
            &&& completion matches Some(answer) ==> step == (ReadStepView::Ready {
                resume: answer.resume,
                payload: answer.payload,
            }) && after == new_after && answer.future == future
            &&& completion is None ==> step is Park
        }),
{
}

/// A reading method is refused only while another read waits and this one cannot be answered
/// either. A read that has to wait does so for what it asked for, and no byte is taken meanwhile; a
/// transport that was paused is told to read on.
pub proof fn law_reads_wait_one_at_a_time(v: ReaderView, function: ReadFunction, kind: KindView)
    requires
        v.exception is None,
    ensures
        ({
            let (after, step) = started(v, function, kind);
            &&& step is Busy <==> v.waiter is Some && resolved(v, kind).ready is None
            &&& step matches ReadStepView::Busy(error) ==> after == v && error == ReaderError::Busy(
                function,
            )
            &&& step matches ReadStepView::Park { resume, kind: parked } ==> {
                &&& v.waiter is None
                &&& parked == kind
                &&& after.unread == v.unread
                &&& after.eof == v.eof
                &&& after.waiter is None
                &&& resume is Some <==> v.paused && v.transport is Some
                &&& resume is Some ==> resume == v.transport && !after.paused
                &&& resume is None ==> after == v
            }
            &&& step matches ReadStepView::Ready { payload, .. } ==> resolved(v, kind).ready
                == Some(payload)
        }),
{
}

/// What the number given to `read` means: none for zero, which asks for nothing and changes
/// nothing; everything for a negative one; and at most that many bytes else.
pub proof fn law_read_goes_by_its_number(v: ReaderView, n: int)
    requires
        v.exception is None,
    ensures
        n == 0 ==> started_read(v, n) == (
            v,
            ReadStepView::Ready { resume: None, payload: PayloadView::Data(Seq::empty()) },
        ),
        n < 0 ==> (started_read(v, n).1 matches ReadStepView::Ready { payload, .. } ==> v.eof
            && payload == PayloadView::Data(v.unread)),
        n < 0 && v.eof ==> started_read(v, n).1 is Ready,
        n > 0 ==> (started_read(v, n).1 matches ReadStepView::Ready { payload, .. }
            ==> payload matches PayloadView::Data(data) && data.len() <= n && data
            == v.unread.take(data.len() as int) && (data.len() == n || data.len()
            == v.unread.len())),
        n > 0 && v.unread.len() > 0 ==> started_read(v, n).1 is Ready,
        n > 0 && v.eof ==> started_read(v, n).1 is Ready,
        n > 0 ==> (started_read(v, n).1 matches ReadStepView::Park { kind, .. } ==> kind
            == KindView::Any(n as nat)),
        n < 0 ==> (started_read(v, n).1 matches ReadStepView::Park { kind, .. } ==> kind
            == KindView::All),
        started_read(v, n).1 matches ReadStepView::Busy(error) ==> error == ReaderError::Busy(
            ReadFunction::Read,
        ),
{
}

/// `readexactly(0)` asks for nothing; else exactly that many bytes come, or a read waits for them.
pub proof fn law_readexactly_goes_by_its_number(v: ReaderView, n: nat)
    requires
        v.exception is None,
    ensures
        n == 0 ==> started_readexactly(v, n) == (
            v,
            ReadStepView::Ready { resume: None, payload: PayloadView::Data(Seq::empty()) },
        ),
        n > 0 ==> (started_readexactly(v, n).1 matches ReadStepView::Ready { payload, .. }
            ==> match payload {
            PayloadView::Data(data) => data == v.unread.take(n as int) && v.unread.len() >= n,
            PayloadView::Failed(error) => v.eof && v.unread.len() < n && error == (
            ReadErrorView::IncompleteRead { partial: v.unread, expected: Some(n) }),
        }),
        n > 0 && v.unread.len() >= n ==> started_readexactly(v, n).1 is Ready,
        started_readexactly(v, n).1 matches ReadStepView::Park { kind, .. } ==> kind
            == KindView::Exact(n),
        started_readexactly(v, n).1 matches ReadStepView::Busy(error) ==> error
            == ReaderError::Busy(ReadFunction::ReadExactly),
{
}

/// A new reader is empty and open. What happens to one that nobody waits on is kept as it came:
/// bytes behind the others, the end of the stream, an exception, a transport.
pub proof fn law_reader_keeps_what_it_is_told(
    v: ReaderView,
    data: Seq<u8>,
    exception: ObjectId,
    loop_obj: ObjectId,
    limit: nat,
)
    requires
        v.waiter is None,
    ensures
        with_bytes(v, data).0 == (ReaderView { unread: v.unread + data, ..v }),
        with_bytes(v, data).1 is None,
        with_end(v).0.eof,
        with_end(v).0.unread == v.unread,
        with_end(v).0.exception == v.exception,
        with_end(v).1 is None,
        with_exception(v, exception).0.exception == Some(exception),
        with_exception(v, exception).0.unread == v.unread,
        with_exception(v, exception).0.eof == v.eof,
        with_exception(v, exception).1 is None,
        fresh_reader(loop_obj, limit).unread.len() == 0,
        !fresh_reader(loop_obj, limit).eof,
        !fresh_reader(loop_obj, limit).paused,
        fresh_reader(loop_obj, limit).exception is None,
        fresh_reader(loop_obj, limit).waiter is None,
        fresh_reader(loop_obj, limit).transport is None,
        fresh_reader(loop_obj, limit).limit == limit,
        fresh_reader(loop_obj, limit).loop_obj == loop_obj,
{
}

/// A transport that is attached is told to read on where the reader is paused and has room, and
/// then only. Whatever was there before is forgotten.
pub proof fn law_attached_transport_reads_where_there_is_room(
    v: ReaderView,
    transport: Option<ObjectId>,
)
    ensures
        with_transport(v, transport).0.transport == transport,
        with_transport(v, transport).0.unread == v.unread,
        with_transport(v, transport).0.eof == v.eof,
        with_transport(v, transport).0.waiter == v.waiter,
        with_transport(v, transport).0.exception == v.exception,
        with_transport(v, transport).1 is Some <==> transport is Some && v.paused
            && v.unread.len() <= v.limit,
        with_transport(v, transport).1 is Some ==> with_transport(v, transport).1 == transport
            && !with_transport(v, transport).0.paused,
        with_transport(v, transport).1 is None ==> with_transport(v, transport).0.paused
            == v.paused,
{
}

/// The stream was read to its end exactly when nothing more comes out of it: a read that asks for
/// bytes then gets none.
pub proof fn law_nothing_comes_after_the_end(v: ReaderView, n: nat)
    requires
        n > 0,
        v.exception is None,
    ensures
        is_at_eof(v) <==> started_read(v, n as int).1 == (ReadStepView::Ready {
            resume: started_read(v, n as int).1->Ready_resume,
            payload: PayloadView::Data(Seq::empty()),
        }),
{
    let taken = v.unread.take(least(n, v.unread.len()) as int);
    if v.unread.len() > 0 {
        assert(taken.len() > 0);
    } else {
        assert(taken =~= Seq::<u8>::empty());
    }
}

/// What the reader hands out is what the model says, and so is the reader that is left: an answer
/// where the model has one, the same bytes or the same failure, and nothing where it has none.
pub proof fn law_answers_are_those_of_the_model(
    resolution: Resolution,
    reader: ReaderView,
    model: ResolutionView,
)
    requires
        PyFastStreamReader::is_resolution(resolution, reader, model),
    ensures
        reader == model.reader,
        resolution.resume == model.resume,
        resolution.ready is Some <==> model.ready is Some,
        resolution.ready matches Some(Payload::Data(data)) ==> model.ready == Some(
            PayloadView::Data(data@),
        ),
        resolution.ready matches Some(Payload::Failed(error)) ==> model.ready == Some(
            PayloadView::Failed(error@),
        ),
{
}

/// A completion is there where the model has one, for the same future and with the same answer.
pub proof fn law_completions_are_those_of_the_model(completion: Option<Completion>)
    ensures
        completion_view(completion) is Some <==> completion is Some,
        completion matches Some(given) ==> (completion_view(completion) matches Some(seen)
            && seen.future == given.future && seen.resume == given.resume && seen.payload
            == given.payload@),
{
}

} // verus!
