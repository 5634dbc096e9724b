use logged_stream::ChannelLogger;
use logged_stream::DecimalFormatter;
use logged_stream::DefaultFilter;
use logged_stream::Failure;
use logged_stream::FailureKind;
use logged_stream::LoggedStream;
use logged_stream::LowercaseHexadecimalFormatter;
use logged_stream::MemoryStorageLogger;
use logged_stream::Progress;
use logged_stream::Record;
use logged_stream::RecordKind;
use logged_stream::RecordKindFilter;
use std::io::Cursor;
use std::io::Read;
use std::io::Write;

type Duplex = Cursor<Vec<u8>>;

fn memory_stream(
    kinds: &'static [RecordKind],
) -> LoggedStream<Duplex, LowercaseHexadecimalFormatter, RecordKindFilter, MemoryStorageLogger> {
    LoggedStream::new(
        Cursor::new(Vec::new()),
        LowercaseHexadecimalFormatter::new(Some(":")),
        RecordKindFilter::new(kinds),
        MemoryStorageLogger::new(10),
    )
}

fn open_stream() -> LoggedStream<Duplex, DecimalFormatter, DefaultFilter, MemoryStorageLogger> {
    LoggedStream::new(
        Cursor::new(Vec::new()),
        DecimalFormatter::new_default(),
        DefaultFilter,
        MemoryStorageLogger::new(10),
    )
}

fn failure(kind: FailureKind, description: &str) -> Failure {
    Failure { kind, description: String::from(description) }
}

fn held(records: std::collections::VecDeque<Record>) -> Vec<(RecordKind, String)> {
    records.into_iter().map(|record| (record.kind, record.message)).collect()
}

#[test]
fn write_through_a_write_filter_is_logged() {
    let mut stream = memory_stream(&[RecordKind::Write]);
    let buffer = [0x01, 0x02, 0x03, 0x04];
    let written = stream.inner_stream_mut().write(&buffer).unwrap();
    stream.observe_write(&buffer, &Ok(written));
    assert_eq!(written, 4);
    assert_eq!(
        held(stream.get_log_records()),
        vec![(RecordKind::Write, String::from("01:02:03:04"))]
    );
    assert_eq!(stream.inner_stream().get_ref(), &vec![0x01, 0x02, 0x03, 0x04]);
}

#[test]
fn write_through_a_read_filter_is_not_logged() {
    let mut stream = memory_stream(&[RecordKind::Read]);
    let buffer = [0x01, 0x02, 0x03, 0x04];
    let written = stream.inner_stream_mut().write(&buffer).unwrap();
    stream.observe_write(&buffer, &Ok(written));
    assert_eq!(written, 4);
    assert!(stream.get_log_records().is_empty());
    assert_eq!(stream.inner_stream().get_ref(), &vec![0x01, 0x02, 0x03, 0x04]);
}

#[test]
fn closing_sends_one_drop_record() {
    let mut stream = LoggedStream::new(
        Cursor::new(Vec::<u8>::new()),
        LowercaseHexadecimalFormatter::new_default(),
        DefaultFilter,
        ChannelLogger::new(),
    );
    let receiver = stream.take_receiver().unwrap();
    assert!(stream.take_receiver().is_none());
    _ = stream.close();
    let received: Vec<(RecordKind, String)> =
        receiver.try_iter().map(|record| (record.kind, record.message)).collect();
    assert_eq!(received, vec![(RecordKind::Drop, String::from("Deallocated."))]);
}

#[test]
fn closing_gives_the_parts_back() {
    let mut stream = memory_stream(&[RecordKind::Drop, RecordKind::Write]);
    stream.observe_write(&[7, 8], &Ok(1));
    let (inner, formatter, filter, logger) = stream.close();
    assert_eq!(inner.position(), 0);
    assert_eq!(
        held(logger.get_log_records()),
        vec![
            (RecordKind::Write, String::from("07")),
            (RecordKind::Drop, String::from("Deallocated."))
        ]
    );
    _ = (formatter, filter);
}

#[test]
fn closing_is_gated_by_the_filter() {
    let stream = memory_stream(&[RecordKind::Read]);
    let (_, _, _, logger) = stream.close();
    assert!(logger.get_log_records().is_empty());
}

#[test]
fn read_logs_the_bytes_read_only() {
    let mut stream = LoggedStream::new(
        Cursor::new(vec![10u8, 11, 12]),
        DecimalFormatter::new_default(),
        DefaultFilter,
        MemoryStorageLogger::new(10),
    );
    let mut buffer = [0u8; 8];
    let read = stream.inner_stream_mut().read(&mut buffer).unwrap();
    stream.observe_read(&buffer, &Ok(read));
    assert_eq!(read, 3);
    let read = stream.inner_stream_mut().read(&mut buffer).unwrap();
    stream.observe_read(&buffer, &Ok(read));
    assert_eq!(read, 0);
    assert_eq!(
        held(stream.get_log_records()),
        vec![(RecordKind::Read, String::from("10:11:12")), (RecordKind::Read, String::new())]
    );
}

#[test]
fn read_failure_is_logged_unless_it_would_block() {
    let mut stream = open_stream();
    stream.observe_read(&[], &Err(failure(FailureKind::WouldBlock, "try again")));
    assert!(stream.get_log_records().is_empty());
    stream.observe_read(&[], &Err(failure(FailureKind::Other, "connection reset")));
    stream.observe_read(&[], &Err(failure(FailureKind::WriteZero, "odd")));
    assert_eq!(
        held(stream.get_log_records()),
        vec![
            (RecordKind::Error, String::from("Error during read: connection reset")),
            (RecordKind::Error, String::from("Error during read: odd"))
        ]
    );
}

#[test]
fn write_failure_is_logged_unless_nothing_happened() {
    let mut stream = open_stream();
    stream.observe_write(&[1], &Err(failure(FailureKind::WouldBlock, "try again")));
    stream.observe_write(&[1], &Err(failure(FailureKind::WriteZero, "nothing written")));
    assert!(stream.get_log_records().is_empty());
    stream.observe_write(&[1], &Err(failure(FailureKind::Other, "broken pipe")));
    assert_eq!(
        held(stream.get_log_records()),
        vec![(RecordKind::Error, String::from("Error during write: broken pipe"))]
    );
}

#[test]
fn write_of_no_bytes_is_logged_with_an_empty_message() {
    let mut stream = open_stream();
    stream.observe_write(&[1, 2], &Ok(0));
    assert_eq!(held(stream.get_log_records()), vec![(RecordKind::Write, String::new())]);
}

#[test]
fn error_records_pass_the_filter_like_any_other() {
    let mut stream = memory_stream(&[RecordKind::Read]);
    stream.observe_read(&[], &Err(failure(FailureKind::Other, "reset")));
    assert!(stream.get_log_records().is_empty());
    let mut stream = memory_stream(&[RecordKind::Error]);
    stream.observe_read(&[], &Err(failure(FailureKind::Other, "reset")));
    assert_eq!(
        held(stream.get_log_records()),
        vec![(RecordKind::Error, String::from("Error during read: reset"))]
    );
}

#[test]
fn poll_read_logs_what_the_attempt_added() {
    let mut stream = open_stream();
    let filled = [1u8, 2, 3, 4, 5];
    stream.observe_poll_read(&filled, 2, &Progress::Ready(Ok(())));
    assert_eq!(held(stream.get_log_records()), vec![(RecordKind::Read, String::from("3:4:5"))]);
    stream.clear_log_records();
    stream.observe_poll_read(&filled, 0, &Progress::Ready(Ok(())));
    assert_eq!(
        held(stream.get_log_records()),
        vec![(RecordKind::Read, String::from("1:2:3:4:5"))]
    );
}

#[test]
fn poll_read_that_adds_nothing_or_is_pending_is_not_logged() {
    let mut stream = open_stream();
    let filled = [1u8, 2, 3];
    stream.observe_poll_read(&filled, 3, &Progress::Ready(Ok(())));
    stream.observe_poll_read(&filled, 1, &Progress::Pending);
    stream.observe_poll_read(&[], 0, &Progress::Ready(Ok(())));
    stream.observe_poll_read(
        &filled,
        1,
        &Progress::Ready(Err(failure(FailureKind::WouldBlock, "not yet"))),
    );
    assert!(stream.get_log_records().is_empty());
}

#[test]
fn poll_read_failure_is_logged() {
    let mut stream = open_stream();
    stream.observe_poll_read(&[9], 0, &Progress::Ready(Err(failure(FailureKind::Other, "eof"))));
    assert_eq!(
        held(stream.get_log_records()),
        vec![(RecordKind::Error, String::from("Error during async read: eof"))]
    );
}

#[test]
fn poll_write_logs_the_bytes_written() {
    let mut stream = open_stream();
    stream.observe_poll_write(&[1, 2, 3], &Progress::Pending);
    assert!(stream.get_log_records().is_empty());
    stream.observe_poll_write(&[1, 2, 3], &Progress::Ready(Ok(2)));
    stream.observe_poll_write(&[1, 2, 3], &Progress::Ready(Err(failure(FailureKind::Other, "x"))));
    stream.observe_poll_write(
        &[1, 2, 3],
        &Progress::Ready(Err(failure(FailureKind::WouldBlock, "y"))),
    );
    stream.observe_poll_write(
        &[1, 2, 3],
        &Progress::Ready(Err(failure(FailureKind::WriteZero, "z"))),
    );
    assert_eq!(
        held(stream.get_log_records()),
        vec![
            (RecordKind::Write, String::from("1:2")),
            (RecordKind::Error, String::from("Error during async write: x"))
        ]
    );
}

#[test]
fn shutdown_is_always_recorded() {
    let mut stream = open_stream();
    stream.observe_shutdown();
    stream.observe_shutdown();
    assert_eq!(
        held(stream.get_log_records()),
        vec![
            (RecordKind::Shutdown, String::from("Writer shutdown request.")),
            (RecordKind::Shutdown, String::from("Writer shutdown request."))
        ]
    );
    let mut stream = memory_stream(&[RecordKind::Write]);
    stream.observe_shutdown();
    assert!(stream.get_log_records().is_empty());
}

#[test]
fn records_arrive_in_call_order() {
    let mut stream = LoggedStream::new(
        (),
        DecimalFormatter::new(Some(" ")),
        DefaultFilter,
        ChannelLogger::new(),
    );
    stream.observe_write(&[1, 2], &Ok(2));
    stream.observe_read(&[3], &Ok(1));
    stream.observe_shutdown();
    let receiver = stream.take_receiver_unchecked();
    _ = stream.close();
    let received: Vec<(RecordKind, String)> =
        receiver.try_iter().map(|record| (record.kind, record.message)).collect();
    assert_eq!(
        received,
        vec![
            (RecordKind::Write, String::from("1 2")),
            (RecordKind::Read, String::from("3")),
            (RecordKind::Shutdown, String::from("Writer shutdown request.")),
            (RecordKind::Drop, String::from("Deallocated."))
        ]
    );
}

#[test]
fn submit_is_gated_by_the_filter() {
    let mut stream = memory_stream(&[RecordKind::Open]);
    stream.submit(Record::new(RecordKind::Open, String::from("hello")));
    stream.submit(Record::new(RecordKind::Read, String::from("01")));
    assert_eq!(held(stream.get_log_records()), vec![(RecordKind::Open, String::from("hello"))]);
}

#[test]
fn stream_prints_its_parts() {
    let stream = LoggedStream::new(
        7u8,
        DecimalFormatter::new_default(),
        DefaultFilter,
        MemoryStorageLogger::new(1),
    );
    let text = format!("{stream:?}");
    assert!(text.starts_with("LoggedStream { inner_stream: 7, formatter: DecimalFormatter"));
    assert!(text.contains("filter: DefaultFilter"));
    assert!(text.contains("logger: MemoryStorageLogger"));
}
