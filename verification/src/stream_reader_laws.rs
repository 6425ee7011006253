//! What holds of a stream reader over any sequence of operations.

use vstd::prelude::*;
use crate::objects::ObjectId;
use crate::separators::{
    is_unseparated, law_search_picks_the_shortest_prefix, law_suffix_is_unseparated, separates,
    shortest_match,
};
use crate::stream_reader::{
    after_pausing, must_pause, resolved, resolved_until, settled_prefix, started, started_read,
    started_readexactly, surfaced, with_bytes, with_end, with_exception, with_transport,
    with_waiter, CompletionView, KindView, PauseOutcome, PayloadView, ReadErrorView,
    ReadFunction, ReadStepView, ReaderView,
};

verus! {

/// Something that happens to a reader.
pub enum ReaderOp {
    /// The transport hands bytes over.
    Feed(Seq<u8>),
    /// The transport announces the end of the stream.
    Eof,
    /// The transport announces that the stream broke.
    Break(ObjectId),
    /// A transport is attached or taken away.
    Attach(Option<ObjectId>),
    /// The transport was asked to pause, where it had to be.
    Pause(PauseOutcome),
    /// A reading method is called. If the read has to wait, it waits for `future`. A read of no
    /// bytes leaves the reader as it is, so it does not occur here.
    Read { function: ReadFunction, kind: KindView, future: ObjectId },
}

/// The bytes that leave the reader with a payload.
pub open spec fn payload_bytes(payload: PayloadView) -> Seq<u8> {
    match payload {
        PayloadView::Data(data) => data,
        PayloadView::Failed(ReadErrorView::IncompleteRead { partial, .. }) => partial,
        PayloadView::Failed(_) => Seq::empty(),
    }
}

pub open spec fn completion_bytes(completion: Option<CompletionView>) -> Seq<u8> {
    match completion {
        Some(completion) => payload_bytes(completion.payload),
        None => Seq::empty(),
    }
}

/// The bytes that an operation brings into the reader.
pub open spec fn taken_in(v: ReaderView, op: ReaderOp) -> Seq<u8> {
    match op {
        ReaderOp::Feed(data) => if v.eof {
            Seq::empty()
        } else {
            data
        },
        _ => Seq::empty(),
    }
}

/// The reader after an operation, and the bytes that left it.
pub open spec fn applied(v: ReaderView, op: ReaderOp) -> (ReaderView, Seq<u8>) {
    match op {
        ReaderOp::Feed(data) => if v.eof {
            (v, Seq::empty())
        } else {
            let (after, completion) = with_bytes(v, data);
            (after, completion_bytes(completion))
        },
        ReaderOp::Eof => {
            let (after, completion) = with_end(v);
            (after, completion_bytes(completion))
        },
        ReaderOp::Break(exception) => {
            let (after, completion) = with_exception(v, exception);
            (after, completion_bytes(completion))
        },
        ReaderOp::Attach(transport) => (with_transport(v, transport).0, Seq::empty()),
        ReaderOp::Pause(outcome) => if must_pause(v) {
            (after_pausing(v, outcome), Seq::empty())
        } else {
            (v, Seq::empty())
        },
        ReaderOp::Read { function, kind, future } => {
            let (after, step) = started(v, function, kind);
            match step {
                ReadStepView::Ready { payload, .. } => (after, payload_bytes(payload)),
                ReadStepView::Busy(_) => (after, Seq::empty()),
                ReadStepView::Park { .. } => (with_waiter(after, future, kind), Seq::empty()),
            }
        },
    }
}

/// The reader after a run of operations.
pub open spec fn after_run(v: ReaderView, ops: Seq<ReaderOp>) -> ReaderView
    decreases ops.len(),
{
    if ops.len() == 0 {
        v
    } else {
        applied(after_run(v, ops.drop_last()), ops.last()).0
    }
}

/// All that a run brought into the reader.
pub open spec fn all_taken_in(v: ReaderView, ops: Seq<ReaderOp>) -> Seq<u8>
    decreases ops.len(),
{
    if ops.len() == 0 {
        Seq::empty()
    } else {
        all_taken_in(v, ops.drop_last()) + taken_in(after_run(v, ops.drop_last()), ops.last())
    }
}

/// All that a run took out of the reader.
pub open spec fn all_handed_out(v: ReaderView, ops: Seq<ReaderOp>) -> Seq<u8>
    decreases ops.len(),
{
    if ops.len() == 0 {
        Seq::empty()
    } else {
        all_handed_out(v, ops.drop_last()) + applied(after_run(v, ops.drop_last()), ops.last()).1
    }
}

/// Whatever a read comes to, what it hands out and what stays behind are what was there.
proof fn lemma_resolution_splits_the_buffer(v: ReaderView, kind: KindView)
    ensures
        ({
            let r = resolved(v, kind);
            &&& match r.ready {
                Some(payload) => payload_bytes(payload) + r.reader.unread == v.unread,
                None => r.reader == v,
            }
            &&& exists|n: int| 0 <= n <= v.unread.len() && r.reader.unread == v.unread.skip(n)
            &&& r.reader.eof == v.eof
            &&& r.reader.exception == v.exception
            &&& r.reader.waiter == v.waiter
            &&& r.reader.limit == v.limit
            &&& r.reader.transport == v.transport
            &&& r.reader.paused ==> v.paused
        }),
{
    let r = resolved(v, kind);
    assert(v.unread.skip(0) =~= v.unread);
    assert(v.unread.skip(v.unread.len() as int) =~= Seq::<u8>::empty());
    match r.ready {
        Some(payload) => {
            assert(payload_bytes(payload) + r.reader.unread =~= v.unread);
            let n = payload_bytes(payload).len() as int;
            assert(r.reader.unread =~= v.unread.skip(n));
        },
        None => {},
    }
}

/// An operation neither loses nor makes up a byte, nor changes the order of any two.
pub proof fn law_operation_conserves_bytes(v: ReaderView, op: ReaderOp)
    ensures
        v.unread + taken_in(v, op) == applied(v, op).1 + applied(v, op).0.unread,
{
    let (after, out) = applied(v, op);
    match op {
        ReaderOp::Read { kind, .. } => {
            lemma_resolution_splits_the_buffer(v, kind);
        },
        ReaderOp::Feed(data) => {
            if let Some((_, kind)) = v.waiter {
                lemma_resolution_splits_the_buffer(
                    ReaderView { unread: v.unread + data, waiter: None, ..v },
                    kind,
                );
            }
        },
        ReaderOp::Eof => {
            if let Some((_, kind)) = v.waiter {
                lemma_resolution_splits_the_buffer(
                    ReaderView { eof: true, waiter: None, ..v },
                    kind,
                );
            }
        },
        _ => {},
    }
    assert(v.unread + taken_in(v, op) =~= out + after.unread);
}

/// Two splits in a row make one.
proof fn lemma_splits_compose(
    first: Seq<u8>,
    brought: Seq<u8>,
    out: Seq<u8>,
    mid: Seq<u8>,
    more: Seq<u8>,
    more_out: Seq<u8>,
    rest: Seq<u8>,
)
    requires
        first + brought == out + mid,
        mid + more == more_out + rest,
    ensures
        first + (brought + more) == (out + more_out) + rest,
{
    assert(first + (brought + more) =~= (first + brought) + more);
    assert((out + mid) + more =~= out + (mid + more));
    assert(out + (more_out + rest) =~= (out + more_out) + rest);
}

/// Over any run, what came in is what went out, followed by what is still buffered: reads hand out
/// the stream's bytes once each and in the order in which they came.
pub proof fn law_run_conserves_bytes(v: ReaderView, ops: Seq<ReaderOp>)
    ensures
        v.unread + all_taken_in(v, ops) == all_handed_out(v, ops) + after_run(v, ops).unread,
    decreases ops.len(),
{
    if ops.len() == 0 {
        assert(v.unread + all_taken_in(v, ops) =~= all_handed_out(v, ops) + v.unread);
    } else {
        let front = ops.drop_last();
        let mid = after_run(v, front);
        law_run_conserves_bytes(v, front);
        law_operation_conserves_bytes(mid, ops.last());
        lemma_splits_compose(
            v.unread,
            all_taken_in(v, front),
            all_handed_out(v, front),
            mid.unread,
            taken_in(mid, ops.last()),
            applied(mid, ops.last()).1,
            applied(mid, ops.last()).0.unread,
        );
    }
}

/// A stored exception wins over everything: whatever a read asks for, be it nothing, it ends in that
/// exception, and the reader stays as it is.
pub proof fn law_stored_exception_ends_every_read(
    v: ReaderView,
    n: int,
    exact: nat,
    separators: Seq<Seq<u8>>,
)
    requires
        v.exception is Some,
    ensures
        surfaced(v) == Some(
            ReadStepView::Ready {
                resume: None,
                payload: PayloadView::Failed(ReadErrorView::Stored(v.exception.unwrap())),
            },
        ),
        started_read(v, n) == (v, surfaced(v).unwrap()),
        started_readexactly(v, exact) == (v, surfaced(v).unwrap()),
        started(v, ReadFunction::ReadUntil, KindView::Until(separators)) == (
            v,
            surfaced(v).unwrap(),
        ),
{
}

/// A read that waits could not be answered: the stream neither ended nor broke, and what is
/// buffered is not enough.
pub open spec fn waits_for_a_reason(v: ReaderView) -> bool {
    match v.waiter {
        Some((_, kind)) => v.exception is None && !v.eof && resolved(
            ReaderView { waiter: None, ..v },
            kind,
        ).ready is None,
        None => true,
    }
}

/// At the end of the stream every read is answered.
pub proof fn law_end_of_stream_answers_every_read(v: ReaderView, kind: KindView)
    requires
        v.eof,
    ensures
        resolved(v, kind).ready is Some,
{
}

/// A read that waits still waits after other reads took bytes off the front.
proof fn lemma_fewer_bytes_answer_no_read(v: ReaderView, kind: KindView, n: int, paused: bool)
    requires
        resolved(v, kind).ready is None,
        0 <= n <= v.unread.len(),
    ensures
        resolved(ReaderView { unread: v.unread.skip(n), paused, ..v }, kind).ready is None,
{
    if let KindView::Until(separators) = kind {
        law_suffix_is_unseparated(separators, v.unread, n);
    }
}

/// No operation leaves a read waiting that could be answered.
pub proof fn law_no_read_waits_in_vain(v: ReaderView, op: ReaderOp)
    requires
        waits_for_a_reason(v),
    ensures
        waits_for_a_reason(applied(v, op).0),
{
    let after = applied(v, op).0;
    match op {
        ReaderOp::Read { function, kind, future } => {
            lemma_resolution_splits_the_buffer(v, kind);
            let r = resolved(v, kind);
            if v.exception is None && r.ready is Some {
                if let Some((_, waiting)) = v.waiter {
                    let n = choose|n: int|
                        0 <= n <= v.unread.len() && r.reader.unread == v.unread.skip(n);
                    lemma_fewer_bytes_answer_no_read(
                        ReaderView { waiter: None, ..v },
                        waiting,
                        n,
                        r.reader.paused,
                    );
                    assert(ReaderView { waiter: None, ..after } == (ReaderView {
                        unread: v.unread.skip(n),
                        paused: r.reader.paused,
                        waiter: None,
                        ..v
                    }));
                }
            } else if v.exception is None && v.waiter is None {
                lemma_fewer_bytes_answer_no_read(v, kind, 0, after.paused);
                assert(v.unread.skip(0) =~= v.unread);
                assert(ReaderView { waiter: None, ..after } == (ReaderView {
                    unread: v.unread.skip(0),
                    paused: after.paused,
                    ..v
                }));
            }
        },
        ReaderOp::Feed(data) => {
            if let Some((_, kind)) = v.waiter {
                lemma_resolution_splits_the_buffer(
                    ReaderView { unread: v.unread + data, waiter: None, ..v },
                    kind,
                );
            }
        },
        ReaderOp::Eof => {
            if let Some((_, kind)) = v.waiter {
                let free = ReaderView { eof: true, waiter: None, ..v };
                lemma_resolution_splits_the_buffer(free, kind);
                law_end_of_stream_answers_every_read(free, kind);
            }
        },
        ReaderOp::Break(_) => {},
        ReaderOp::Attach(transport) => {
            if let Some((_, kind)) = v.waiter {
                assert(resolved(ReaderView { waiter: None, ..after }, kind).ready is None);
            }
        },
        ReaderOp::Pause(_) => {
            if let Some((_, kind)) = v.waiter {
                assert(resolved(ReaderView { waiter: None, ..after }, kind).ready is None);
            }
        },
    }
}

/// A read that waits for any byte, or for no more bytes than the limit, never waits on a transport
/// that the reader keeps paused.
pub open spec fn waits_on_a_reading_transport(v: ReaderView) -> bool {
    match v.waiter {
        Some((_, KindView::Any(_))) => !(v.paused && v.transport is Some),
        Some((_, KindView::Exact(n))) => n <= v.limit ==> !(v.paused && v.transport is Some),
        _ => true,
    }
}

/// Backpressure never starves such a read.
pub proof fn law_backpressure_starves_no_small_read(v: ReaderView, op: ReaderOp)
    requires
        waits_for_a_reason(v),
        waits_on_a_reading_transport(v),
    ensures
        waits_on_a_reading_transport(applied(v, op).0),
{
    match op {
        ReaderOp::Read { kind, .. } => {
            lemma_resolution_splits_the_buffer(v, kind);
        },
        ReaderOp::Feed(data) => {
            if let Some((_, kind)) = v.waiter {
                lemma_resolution_splits_the_buffer(
                    ReaderView { unread: v.unread + data, waiter: None, ..v },
                    kind,
                );
            }
        },
        ReaderOp::Eof => {
            if let Some((_, kind)) = v.waiter {
                lemma_resolution_splits_the_buffer(
                    ReaderView { eof: true, waiter: None, ..v },
                    kind,
                );
            }
        },
        _ => {},
    }
}

/// Both hold after any run.
pub proof fn law_run_keeps_waiting_reads_sound(v: ReaderView, ops: Seq<ReaderOp>)
    requires
        waits_for_a_reason(v),
        waits_on_a_reading_transport(v),
    ensures
        waits_for_a_reason(after_run(v, ops)),
        waits_on_a_reading_transport(after_run(v, ops)),
    decreases ops.len(),
{
    if ops.len() > 0 {
        let front = ops.drop_last();
        law_run_keeps_waiting_reads_sound(v, front);
        law_no_read_waits_in_vain(after_run(v, front), ops.last());
        law_backpressure_starves_no_small_read(after_run(v, front), ops.last());
    }
}

/// Once a transport that has to be paused was asked to, the reader does not ask it again: it is
/// paused, or it is one that cannot be.
pub proof fn law_pausing_settles_backpressure(v: ReaderView, outcome: PauseOutcome)
    requires
        !(outcome is Raised),
    ensures
        !must_pause(applied(v, ReaderOp::Pause(outcome)).0),
{
}

/// `readexactly` hands out exactly what it was asked for, or says what was there instead.
pub proof fn law_readexactly_is_exact(v: ReaderView, n: nat)
    ensures
        match resolved(v, KindView::Exact(n)).ready {
            Some(PayloadView::Data(data)) => data.len() == n && data == v.unread.take(n as int),
            Some(PayloadView::Failed(error)) => v.eof && v.unread.len() < n && error
                == (ReadErrorView::IncompleteRead { partial: v.unread, expected: Some(n) }),
            None => !v.eof && v.unread.len() < n,
        },
{
}

/// `readuntil` hands out the shortest chunk that ends in a separator, and that chunk without its
/// separator fits the limit.
pub proof fn law_readuntil_ends_at_the_first_separator(
    v: ReaderView,
    separators: Seq<Seq<u8>>,
    data: Seq<u8>,
)
    requires
        resolved_until(v, separators).ready == Some(PayloadView::Data(data)),
    ensures
        data == v.unread.take(data.len() as int),
        exists|start: int|
            0 <= start <= v.limit && #[trigger] separates(separators, data, start, data.len() as int),
        forall|s: int, e: int| #[trigger]
            separates(separators, v.unread, s, e) ==> data.len() <= e,
{
    let (start, end) = shortest_match(separators, v.unread).unwrap();
    law_search_picks_the_shortest_prefix(separators, v.unread, start, end);
    assert(data =~= v.unread.take(end));
    assert(separates(separators, data, start, data.len() as int));
}

/// What `readuntil` skips as settled never comes to be part of a separator: a separator that a
/// longer stream brings ends behind it and starts no earlier.
pub proof fn law_settled_prefix_holds_no_separator_start(
    separators: Seq<Seq<u8>>,
    unread: Seq<u8>,
    more: Seq<u8>,
    start: int,
    end: int,
)
    requires
        separators.len() > 0,
        forall|i: int|
            0 <= i < separators.len() ==> (#[trigger] separators[i]).len() <= separators.last().len(),
        is_unseparated(separators, unread),
        separates(separators, unread + more, start, end),
    ensures
        start >= settled_prefix(separators, unread),
{
    let k = choose|k: int|
        0 <= k < separators.len() && crate::separators::occurs_at(
            unread + more,
            #[trigger] separators[k],
            start,
        ) && start + separators[k].len() == end;
    if end <= unread.len() {
        assert((unread + more).subrange(start, end) =~= unread.subrange(start, end));
        assert(crate::separators::occurs_at(unread, separators[k], start));
        assert(separates(separators, unread, start, end));
    }
}

} // verus!
