use rsloop::read_buffer::{ReadBuffer, COMPACT_THRESHOLD};
use rsloop::separators::{
    extract_separators, sort_by_len, SeparatorArgument, SeparatorError, SeparatorTypeError,
    Separators,
};
use rsloop::stream_protocol::{
    client_done, client_failed_message, connection_lost_message, native_stream_loop, ClientDone,
    settle_drain_waiter, ClientEnd, DrainStep, FutureCall, LostAction, LostEvent, MadeAction, MadeEvent,
    PyFastProtocolFactory, PyFastStreamProtocol, PyFastStreamWriter, StreamSource,
};
use rsloop::stream_reader::{
    limit_overrun_message, Completion, PauseOutcome, Payload, PyFastStreamReader, ReadError,
    ReadFunction, ReadStep, ReadWaitKind, ReaderError,
};

const LOOP: u64 = 1;
const TRANSPORT: u64 = 2;
const FUTURE: u64 = 3;

fn reader(limit: usize) -> PyFastStreamReader {
    match PyFastStreamReader::new_with_loop(LOOP, limit) {
        Ok(reader) => reader,
        Err(error) => panic!("{}", error.message()),
    }
}

fn separators(items: &[&[u8]]) -> Separators {
    let items: Vec<Vec<u8>> = items.iter().map(|item| item.to_vec()).collect();
    match Separators::new(items) {
        Ok(separators) => separators,
        Err(error) => panic!("{}", error.message()),
    }
}

fn ready_data(step: ReadStep) -> Vec<u8> {
    match step {
        ReadStep::Ready { payload: Payload::Data(data), .. } => data,
        _ => panic!("the read is not answered with data"),
    }
}

fn park(reader: &mut PyFastStreamReader, step: ReadStep) {
    match step {
        ReadStep::Park { kind, .. } => reader.park(FUTURE, kind),
        _ => panic!("the read does not wait"),
    }
}

fn completed(completion: Option<Completion>) -> (u64, Payload) {
    match completion {
        Some(completion) => (completion.future, completion.payload),
        None => panic!("no read was answered"),
    }
}

fn completed_data(completion: Option<Completion>) -> Vec<u8> {
    match completed(completion) {
        (FUTURE, Payload::Data(data)) => data,
        _ => panic!("the read is not answered with data"),
    }
}

fn fed(reader: &mut PyFastStreamReader, data: &[u8]) -> Option<Completion> {
    match reader.feed_data_internal(data) {
        Ok(fed) => {
            assert_eq!(fed.pause, reader.maybe_pause_transport());
            fed.completion
        }
        Err(error) => panic!("{}", error.message()),
    }
}

#[test]
fn buffer_appends_and_consumes() {
    let mut buffer = ReadBuffer::with_capacity(16);
    assert!(buffer.is_empty());
    buffer.extend(b"hello ");
    buffer.extend(b"");
    buffer.extend(b"world");
    assert_eq!(buffer.len(), 11);
    buffer.consume(6);
    assert_eq!(buffer.unread(), b"world");
    buffer.consume(100);
    assert!(buffer.is_empty());
    buffer.replace(b"again");
    assert_eq!(buffer.unread(), b"again");
    buffer.consume_all();
    assert_eq!(buffer.unread(), b"");
}

#[test]
fn buffer_keeps_its_bytes_when_it_moves_them() {
    let data: Vec<u8> = (0..3 * COMPACT_THRESHOLD).map(|i| (i % 251) as u8).collect();
    let mut buffer = ReadBuffer::with_capacity(0);
    buffer.extend(&data);
    for taken in 1..data.len() {
        buffer.consume(1);
        assert_eq!(buffer.unread(), &data[taken..]);
    }
}

#[test]
fn separators_are_taken_from_the_argument() {
    assert_eq!(extract_separators(SeparatorArgument::Default), Ok(vec![vec![b'\n']]));
    assert_eq!(
        extract_separators(SeparatorArgument::One(Some(b"ab".to_vec()))),
        Ok(vec![b"ab".to_vec()])
    );
    assert_eq!(extract_separators(SeparatorArgument::One(None)), Err(SeparatorTypeError));
    assert_eq!(
        extract_separators(SeparatorArgument::Many(vec![Some(b"a".to_vec()), Some(b"b".to_vec())])),
        Ok(vec![b"a".to_vec(), b"b".to_vec()])
    );
    assert_eq!(
        extract_separators(SeparatorArgument::Many(vec![Some(b"a".to_vec()), None])),
        Err(SeparatorTypeError)
    );
    assert_eq!(extract_separators(SeparatorArgument::Many(vec![])), Ok(vec![]));
    assert_eq!(
        SeparatorTypeError.message(),
        "separator must be bytes, bytearray, or a tuple of them"
    );
}

#[test]
fn separators_must_not_be_empty() {
    assert!(matches!(Separators::new(vec![]), Err(SeparatorError::NoElement)));
    assert!(matches!(
        Separators::new(vec![b"a".to_vec(), vec![]]),
        Err(SeparatorError::EmptyElement)
    ));
    assert_eq!(
        SeparatorError::NoElement.message(),
        "Separator should contain at least one element"
    );
    assert_eq!(
        SeparatorError::EmptyElement.message(),
        "Separator should be at least one-byte string"
    );
}

#[test]
fn separators_are_sorted_by_length_and_keep_their_order() {
    let sorted = sort_by_len(vec![
        b"ccc".to_vec(),
        b"b".to_vec(),
        b"aa".to_vec(),
        b"a".to_vec(),
        b"bb".to_vec(),
    ]);
    let expected: Vec<Vec<u8>> = vec![
        b"b".to_vec(),
        b"a".to_vec(),
        b"aa".to_vec(),
        b"bb".to_vec(),
        b"ccc".to_vec(),
    ];
    assert_eq!(sorted, expected);
    let made = separators(&[b"ccc", b"a"]);
    assert_eq!((made.min_len(), made.max_len()), (1, 3));
}

#[test]
fn search_finds_the_match_that_ends_first() {
    assert_eq!(separators(&[b"\r\n"]).find_shortest(b"one\r\ntwo\r\n"), Some((3, 5)));
    assert_eq!(separators(&[b"\r\n"]).find_shortest(b"one\r"), None);
    // The longer separator begins first, the shorter one ends first.
    assert_eq!(separators(&[b"abcd", b"c"]).find_shortest(b"xabcd"), Some((3, 4)));
    // Both end at the same place: the shorter separator wins.
    assert_eq!(separators(&[b"bcd", b"cd"]).find_shortest(b"abcd"), Some((2, 4)));
}

#[test]
fn read_takes_what_is_there() {
    let mut r = reader(100);
    assert!(fed(&mut r, b"abcdef").is_none());
    assert_eq!(ready_data(r.build_read_future(4)), b"abcd");
    assert_eq!(ready_data(r.build_read_future(4)), b"ef");
    assert_eq!(ready_data(r.build_read_future(0)), b"");
    let step = r.build_read_future(4);
    park(&mut r, step);
    assert_eq!(r.get_waiter(), Some(FUTURE));
    assert_eq!(completed_data(fed(&mut r, b"xyzuvw")), b"xyzu");
    assert_eq!(r.get_buffer(), b"vw");
    assert_eq!(r.get_waiter(), None);
}

#[test]
fn bytes_come_out_as_they_went_in() {
    let mut r = reader(64);
    let mut out: Vec<u8> = Vec::new();
    let data: Vec<u8> = (0..200u8).collect();
    for chunk in data.chunks(17) {
        assert!(fed(&mut r, chunk).is_none());
        out.extend(ready_data(r.build_read_future(5)));
        out.extend(ready_data(r.build_readexactly_future(3)));
    }
    assert!(r.feed_eof_internal().is_none());
    out.extend(ready_data(r.build_read_future(-1)));
    assert_eq!(out, data);
    assert!(r.at_eof());
}

#[test]
fn read_to_the_end_waits_for_the_end() {
    let mut r = reader(10);
    assert!(fed(&mut r, b"abc").is_none());
    let step = r.build_read_future(-1);
    park(&mut r, step);
    assert!(fed(&mut r, b"def").is_none());
    assert_eq!(completed_data(r.feed_eof_internal()), b"abcdef");
    assert!(r.at_eof());
    assert_eq!(ready_data(r.build_read_future(-1)), b"");
}

#[test]
fn readexactly_is_exact_or_fails() {
    let mut r = reader(10);
    assert!(fed(&mut r, b"ab").is_none());
    let step = r.build_readexactly_future(4);
    park(&mut r, step);
    assert!(fed(&mut r, b"c").is_none());
    assert_eq!(completed_data(fed(&mut r, b"def")), b"abcd");
    assert_eq!(ready_data(r.build_readexactly_future(0)), b"");
    let step = r.build_readexactly_future(7);
    park(&mut r, step);
    match completed(r.feed_eof_internal()) {
        (FUTURE, Payload::Failed(ReadError::IncompleteRead { partial, expected })) => {
            assert_eq!(partial, b"ef");
            assert_eq!(expected, Some(7));
        }
        _ => panic!("the read is not answered with what was there"),
    }
}

#[test]
fn readuntil_ends_at_the_first_separator() {
    let mut r = reader(100);
    assert!(fed(&mut r, b"one\ntwo\nthr").is_none());
    assert_eq!(ready_data(r.build_readuntil_future(separators(&[b"\n"]))), b"one\n");
    assert_eq!(ready_data(r.build_readuntil_future(separators(&[b"\n"]))), b"two\n");
    let step = r.build_readuntil_future(separators(&[b"\n"]));
    park(&mut r, step);
    assert!(fed(&mut r, b"ee").is_none());
    assert_eq!(completed_data(fed(&mut r, b"\nfour")), b"three\n");
    let step = r.build_readuntil_future(separators(&[b"\n"]));
    park(&mut r, step);
    match completed(r.feed_eof_internal()) {
        (FUTURE, Payload::Failed(ReadError::IncompleteRead { partial, expected })) => {
            assert_eq!(partial, b"four");
            assert_eq!(expected, None);
        }
        _ => panic!("the read is not answered with what was there"),
    }
}

#[test]
fn readuntil_respects_the_limit() {
    let mut r = reader(4);
    assert!(fed(&mut r, b"abcdef\n").is_none());
    match r.build_readuntil_future(separators(&[b"\n"])) {
        ReadStep::Ready {
            payload: Payload::Failed(ReadError::LimitOverrun { found, consumed }),
            ..
        } => {
            assert!(found);
            assert_eq!(consumed, 6);
        }
        _ => panic!("the chunk is too long"),
    }
    assert_eq!(r.get_buffer(), b"abcdef\n");
    r.set_buffer(b"abcdefgh");
    match r.build_readuntil_future(separators(&[b"\r\n"])) {
        ReadStep::Ready {
            payload: Payload::Failed(ReadError::LimitOverrun { found, consumed }),
            ..
        } => {
            assert!(!found);
            assert_eq!(consumed, 7);
        }
        _ => panic!("the chunk is too long"),
    }
    assert_eq!(
        limit_overrun_message(true),
        "Separator is found, but chunk is longer than limit"
    );
    assert_eq!(
        limit_overrun_message(false),
        "Separator is not found, and chunk exceed the limit"
    );
}

#[test]
fn one_read_waits_at_a_time() {
    let mut r = reader(10);
    let step = r.build_read_future(1);
    park(&mut r, step);
    assert!(matches!(
        r.build_read_future(1),
        ReadStep::Busy(ReaderError::Busy(ReadFunction::Read))
    ));
    assert!(matches!(
        r.build_readexactly_future(1),
        ReadStep::Busy(ReaderError::Busy(ReadFunction::ReadExactly))
    ));
    assert!(matches!(
        r.build_readuntil_future(separators(&[b"\n"])),
        ReadStep::Busy(ReaderError::Busy(ReadFunction::ReadUntil))
    ));
    assert_eq!(
        ReaderError::Busy(ReadFunction::Read).message(),
        "read() called while another coroutine is already waiting for incoming data"
    );
    assert_eq!(
        ReaderError::Busy(ReadFunction::ReadExactly).message(),
        "readexactly() called while another coroutine is already waiting for incoming data"
    );
    assert_eq!(
        ReaderError::Busy(ReadFunction::ReadUntil).message(),
        "readuntil() called while another coroutine is already waiting for incoming data"
    );
}

#[test]
fn reader_refuses_a_zero_limit_and_late_data() {
    assert!(matches!(
        PyFastStreamReader::new_with_loop(LOOP, 0),
        Err(ReaderError::BadLimit)
    ));
    assert_eq!(ReaderError::BadLimit.message(), "Limit cannot be <= 0");
    let mut r = reader(10);
    assert!(r.feed_eof_internal().is_none());
    assert!(r.get_eof());
    assert!(matches!(r.feed_data_internal(b"x"), Err(ReaderError::FeedAfterEof)));
    assert_eq!(ReaderError::FeedAfterEof.message(), "feed_data after feed_eof");
    assert!(matches!(r.feed_data_internal(b""), Err(ReaderError::FeedAfterEof)));
}

#[test]
fn an_exception_answers_the_read_that_waits() {
    let mut r = reader(10);
    let step = r.build_read_future(1);
    park(&mut r, step);
    match completed(r.set_exception_internal(77)) {
        (FUTURE, Payload::Failed(ReadError::Stored(77))) => {}
        _ => panic!("the exception does not come out"),
    }
    assert_eq!(r.get_exception_obj(), Some(77));
    assert!(matches!(
        r.build_read_future(1),
        ReadStep::Ready { payload: Payload::Failed(ReadError::Stored(77)), .. }
    ));
}

#[test]
fn a_stored_exception_wins_over_reads_of_nothing() {
    let mut r = reader(10);
    assert!(fed(&mut r, b"abc").is_none());
    assert!(r.set_exception_internal(77).is_none());
    for step in [
        r.build_read_future(0),
        r.build_readexactly_future(0),
        r.build_read_future(-1),
        r.build_readexactly_future(2),
        r.build_readuntil_future(separators(&[b"b"])),
    ] {
        assert!(matches!(
            step,
            ReadStep::Ready { resume: None, payload: Payload::Failed(ReadError::Stored(77)) }
        ));
    }
    assert_eq!(r.get_buffer(), b"abc");
}

#[test]
fn feeding_asks_for_the_pause() {
    let mut r = reader(4);
    r.set_transport_obj(Some(TRANSPORT));
    assert!(matches!(r.feed_data_internal(b"12345678"), Ok(fed) if fed.pause.is_none()));
    assert!(matches!(r.feed_data_internal(b"9"), Ok(fed) if fed.pause == Some(TRANSPORT)));
    // The read that waits takes its share first, so that nothing has to pause.
    let mut r = reader(4);
    r.set_transport_obj(Some(TRANSPORT));
    let step = r.build_readexactly_future(8);
    park(&mut r, step);
    match r.feed_data_internal(b"1234567890") {
        Ok(fed) => {
            assert_eq!(fed.pause, None);
            assert_eq!(completed_data(fed.completion), b"12345678");
        }
        Err(error) => panic!("{}", error.message()),
    }
}

#[test]
fn later_bytes_keep_a_match_that_came_as_early_as_it_could() {
    let seps = separators(&[b"cd", b"abcde"]);
    let stream = b"xabcdecd";
    for n in 0..=stream.len() {
        let expected = if n < 5 { None } else { Some((3, 5)) };
        assert_eq!(seps.find_shortest(&stream[..n]), expected);
    }
}

#[test]
fn a_full_reader_pauses_its_transport_until_there_is_room() {
    let mut r = reader(4);
    assert_eq!(r.set_transport_obj(Some(TRANSPORT)), None);
    assert!(fed(&mut r, b"12345678").is_none());
    assert_eq!(r.maybe_pause_transport(), None);
    assert!(fed(&mut r, b"9").is_none());
    assert_eq!(r.maybe_pause_transport(), Some(TRANSPORT));
    assert_eq!(r.pause_finished(PauseOutcome::Paused), Ok(()));
    assert!(r.get_paused());
    assert_eq!(r.maybe_pause_transport(), None);
    match r.build_readexactly_future(4) {
        ReadStep::Ready { resume: None, payload: Payload::Data(data) } => {
            assert_eq!(data, b"1234")
        }
        _ => panic!("five bytes are above the limit"),
    }
    match r.build_readexactly_future(1) {
        ReadStep::Ready { resume: Some(TRANSPORT), payload: Payload::Data(data) } => {
            assert_eq!(data, b"5")
        }
        _ => panic!("four bytes are room enough"),
    }
    assert!(!r.get_paused());
}

#[test]
fn a_transport_that_cannot_pause_is_forgotten() {
    let mut r = reader(1);
    r.set_transport_obj(Some(TRANSPORT));
    assert!(fed(&mut r, b"abc").is_none());
    assert_eq!(r.pause_finished(PauseOutcome::Raised(5)), Err(5));
    assert_eq!(r.get_transport(), Some(TRANSPORT));
    assert_eq!(r.pause_finished(PauseOutcome::NotImplemented), Ok(()));
    assert_eq!(r.get_transport(), None);
    assert_eq!(r.get_limit(), 1);
    assert_eq!(r.get_loop_obj(), LOOP);
}

#[test]
fn a_paused_transport_does_not_starve_a_small_read() {
    let mut r = reader(4);
    r.set_transport_obj(Some(TRANSPORT));
    assert!(fed(&mut r, b"123456789").is_none());
    assert_eq!(r.pause_finished(PauseOutcome::Paused), Ok(()));
    match r.build_readexactly_future(9) {
        ReadStep::Ready { resume: Some(TRANSPORT), payload: Payload::Data(data) } => {
            assert_eq!(data, b"123456789")
        }
        _ => panic!("what is buffered answers the read"),
    }
    let resolution = r.resolve_read(&ReadWaitKind::Exact(1));
    assert!(resolution.ready.is_none());
    assert!(resolution.resume.is_none());
}

#[test]
fn drain_waits_only_while_writing_is_paused() {
    let r = reader(10);
    let mut p = PyFastStreamProtocol::new_with_loop(LOOP, 10, None, 11, 12);
    let writer = PyFastStreamWriter { transport: TRANSPORT, protocol: 20, reader: 10 };
    assert_eq!(writer.drain(&r, &p), DrainStep::Ready(12));
    p.pause_writing();
    assert_eq!(writer.drain(&r, &p), DrainStep::Wait);
    assert_eq!(p.build_drain_future(Some(5)), DrainStep::Failed(5));
    p.push_drain_waiter(31);
    p.push_drain_waiter(32);
    p.push_drain_waiter(33);
    let mut run = p.resume_writing();
    assert_eq!(run.next(), Some(31));
    assert_eq!(run.answered(false), Some(FutureCall::SetNone(31)));
    assert_eq!(run.answered(true), None);
    assert_eq!(run.answered(false), Some(FutureCall::SetNone(33)));
    assert_eq!(run.next(), None);
    assert_eq!(writer.drain(&r, &p), DrainStep::Ready(12));
    assert_eq!(writer.wait_closed(&p), 11);
}

#[test]
fn a_lost_connection_fails_those_who_drain() {
    let mut p = PyFastStreamProtocol::new_with_loop(LOOP, 10, Some(9), 11, 12);
    p.pause_writing();
    p.push_drain_waiter(31);
    let lost = p.handle_connection_lost(Some(7));
    assert_eq!(lost.step(LostEvent::Begin), LostAction::TellReader(Some(7)));
    assert_eq!(lost.step(LostEvent::ReaderTold), LostAction::AskClosed(11));
    assert_eq!(
        lost.step(LostEvent::Closed(false)),
        LostAction::Settle(FutureCall::SetException(11, 7))
    );
    assert_eq!(lost.step(LostEvent::Closed(true)), LostAction::ResolveDrainWaiters(Some(7)));
    assert_eq!(lost.step(LostEvent::Settled), LostAction::ResolveDrainWaiters(Some(7)));
    let mut run = p.resolve_drain_waiters(Some(7));
    assert_eq!(run.answered(false), Some(FutureCall::SetException(31, 7)));
    assert_eq!(lost.step(LostEvent::DrainWaitersResolved), LostAction::Forget);
    p.forget_connection();
    assert_eq!((p.transport(), p.task()), (None, None));
    assert_eq!(lost.step(LostEvent::Forgotten), LostAction::Finish);
    assert_eq!(lost.step(LostEvent::Raised(3)), LostAction::Fail(3));
    assert_eq!(p.build_drain_future(None), DrainStep::ConnectionLost);
    assert_eq!(connection_lost_message(), "Connection lost");
}

#[test]
fn a_new_connection_calls_the_client() {
    let mut p = PyFastStreamProtocol::new_with_loop(LOOP, 10, Some(9), 11, 12);
    assert!(p.has_client_connected_cb());
    let made = p.handle_connection_made(TRANSPORT);
    assert_eq!(p.transport(), Some(TRANSPORT));
    assert_eq!(
        made.step(MadeEvent::Begin),
        MadeAction::AttachReader { reader: 10, transport: TRANSPORT }
    );
    assert_eq!(
        made.step(MadeEvent::ReaderAttached),
        MadeAction::CallClient { callback: 9, reader: 10 }
    );
    assert_eq!(made.step(MadeEvent::ClientReturned(40)), MadeAction::AskCoroutine(40));
    assert_eq!(made.step(MadeEvent::Coroutine(40, false)), MadeAction::Finish);
    assert_eq!(made.step(MadeEvent::Coroutine(40, true)), MadeAction::CreateTask(40));
    assert_eq!(
        made.step(MadeEvent::TaskCreated(41)),
        MadeAction::KeepTask { task: 41, transport: TRANSPORT }
    );
    p.set_task(41);
    assert_eq!(p.task(), Some(41));
    assert_eq!(made.step(MadeEvent::TaskKept), MadeAction::Finish);
    assert_eq!(made.step(MadeEvent::Raised(8)), MadeAction::Fail(8));
    let mut quiet = PyFastStreamProtocol::new_with_loop(LOOP, 10, None, 11, 12);
    let made = quiet.handle_connection_made(TRANSPORT);
    assert_eq!(made.step(MadeEvent::ReaderAttached), MadeAction::Finish);
    assert_eq!(quiet.reader_ref(), 10);
    assert_eq!(quiet.closed_future(), 11);
}

#[test]
fn a_client_that_ends_badly_closes_its_transport() {
    assert_eq!(client_done(ClientEnd::Returned), ClientDone::Nothing);
    assert_eq!(client_done(ClientEnd::Cancelled), ClientDone::CloseTransport);
    assert_eq!(client_done(ClientEnd::Raised(6)), ClientDone::ReportAndClose(6));
    assert_eq!(client_failed_message(), "Unhandled exception in client_connected_cb");
}

#[test]
fn streams_are_native_on_a_native_loop_without_tls() {
    assert_eq!(native_stream_loop(true, false), StreamSource::Native);
    assert_eq!(native_stream_loop(true, true), StreamSource::Asyncio);
    assert_eq!(native_stream_loop(false, false), StreamSource::Asyncio);
}

#[test]
fn the_factory_makes_reader_and_protocol() {
    let factory = PyFastProtocolFactory { loop_obj: LOOP, limit: 8, client_connected_cb: Some(9) };
    assert!(matches!(factory.make_reader(), Ok(made) if made.get_limit() == 8));
    let protocol = factory.make_protocol(10, 11, 12);
    assert!(protocol.has_client_connected_cb());
    assert_eq!(protocol.reader_ref(), 10);
    let broken = PyFastProtocolFactory { limit: 0, ..factory };
    assert!(matches!(broken.make_reader(), Err(ReaderError::BadLimit)));
}

#[test]
fn only_those_who_still_wait_are_settled() {
    assert_eq!(settle_drain_waiter(31, true, None), None);
    assert_eq!(settle_drain_waiter(31, true, Some(7)), None);
    assert_eq!(settle_drain_waiter(31, false, None), Some(FutureCall::SetNone(31)));
    assert_eq!(
        settle_drain_waiter(31, false, Some(7)),
        Some(FutureCall::SetException(31, 7))
    );
}
