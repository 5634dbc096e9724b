use logged_stream::logger::compose_file_line;
use logged_stream::logger::file_line;
use logged_stream::ChannelLogger;
use logged_stream::ConsoleLogger;
use logged_stream::InvalidLevel;
use logged_stream::Level;
use logged_stream::Logger;
use logged_stream::MemoryStorageLogger;
use logged_stream::Record;
use logged_stream::RecordKind;
use logged_stream::Timestamp;

fn assert_unpin<T: Unpin>() {}

#[test]
fn logger_test_unpin() {
    assert_unpin::<ConsoleLogger>();
    assert_unpin::<ChannelLogger>();
    assert_unpin::<MemoryStorageLogger>();
}

#[test]
fn logger_test_trait_object_safety() {
    let console = ConsoleLogger::new_unchecked("debug");
    let mut memory: Box<MemoryStorageLogger> = Box::new(MemoryStorageLogger::new(100));
    let mut channel: Box<ChannelLogger> = Box::new(ChannelLogger::new());

    let record = Record::new(RecordKind::Open, String::from("test log record"));

    // Assert that the methods are dispatchable behind a box.
    _ = console.emission(&record.clone());
    memory.log(record.clone());
    channel.log(record);
}

fn assert_logger<T: Logger>() {}

#[test]
fn logger_test_box() {
    assert_logger::<MemoryStorageLogger>();
    assert_logger::<ChannelLogger>();
    assert_logger::<Box<MemoryStorageLogger>>();
    assert_logger::<Box<ChannelLogger>>();
}

fn assert_send<T: Send>() {}

#[test]
fn logger_test_send() {
    assert_send::<ConsoleLogger>();
    assert_send::<MemoryStorageLogger>();
    assert_send::<ChannelLogger>();

    assert_send::<Box<ConsoleLogger>>();
    assert_send::<Box<MemoryStorageLogger>>();
    assert_send::<Box<ChannelLogger>>();
}

fn numbered(number: usize) -> Record {
    Record::new(RecordKind::Read, format!("record {number}"))
}

fn messages(logger: &MemoryStorageLogger) -> Vec<String> {
    logger.get_log_records().into_iter().map(|record| record.message).collect()
}

#[test]
fn memory_logger_keeps_arrival_order() {
    let mut logger = MemoryStorageLogger::new(3);
    assert!(messages(&logger).is_empty());
    logger.log(numbered(0));
    logger.log(numbered(1));
    assert_eq!(messages(&logger), vec!["record 0", "record 1"]);
    logger.log(numbered(2));
    assert_eq!(messages(&logger), vec!["record 0", "record 1", "record 2"]);
}

#[test]
fn memory_logger_keeps_the_most_recent() {
    for capacity in 1..6usize {
        for extra in 1..5usize {
            let mut logger = MemoryStorageLogger::new(capacity);
            for number in 0..capacity + extra {
                logger.log(numbered(number));
            }
            let expected: Vec<String> =
                (extra..capacity + extra).map(|number| format!("record {number}")).collect();
            assert_eq!(messages(&logger), expected);
        }
    }
}

#[test]
fn memory_logger_evicts_one_record_per_call() {
    let mut logger = MemoryStorageLogger::new(2);
    logger.log(numbered(0));
    logger.log(numbered(1));
    logger.log(numbered(2));
    assert_eq!(messages(&logger), vec!["record 1", "record 2"]);
    logger.log(numbered(3));
    assert_eq!(messages(&logger), vec!["record 2", "record 3"]);
}

#[test]
fn memory_logger_of_capacity_zero_stays_empty() {
    let mut logger = MemoryStorageLogger::new(0);
    logger.log(numbered(0));
    assert!(logger.get_log_records().is_empty());
    logger.log(numbered(1));
    assert!(logger.get_log_records().is_empty());
}

#[test]
fn memory_logger_hands_out_a_copy() {
    let mut logger = MemoryStorageLogger::new(4);
    logger.log(numbered(0));
    let mut snapshot = logger.get_log_records();
    snapshot.clear();
    logger.log(numbered(1));
    assert_eq!(messages(&logger), vec!["record 0", "record 1"]);
}

#[test]
fn memory_logger_clears() {
    let mut logger = MemoryStorageLogger::new(2);
    logger.log(numbered(0));
    logger.log(numbered(1));
    logger.clear_log_records();
    assert!(logger.get_log_records().is_empty());
    logger.log(numbered(2));
    logger.log(numbered(3));
    logger.log(numbered(4));
    assert_eq!(messages(&logger), vec!["record 3", "record 4"]);
}

#[test]
fn memory_logger_clone_holds_the_same_records() {
    let mut logger = MemoryStorageLogger::new(2);
    logger.log(numbered(0));
    let mut copy = logger.clone();
    assert_eq!(messages(&copy), vec!["record 0"]);
    copy.log(numbered(1));
    copy.log(numbered(2));
    assert_eq!(messages(&copy), vec!["record 1", "record 2"]);
    assert_eq!(messages(&logger), vec!["record 0"]);
}

#[test]
fn channel_receiver_is_taken_once() {
    let mut logger = ChannelLogger::new();
    assert!(logger.take_receiver().is_some());
    assert!(logger.take_receiver().is_none());
    assert!(logger.take_receiver().is_none());
    let mut logger = ChannelLogger::default();
    _ = logger.take_receiver_unchecked();
    assert!(logger.take_receiver().is_none());
}

#[test]
fn channel_buffers_records_sent_before_the_receiver_is_taken() {
    let mut logger = ChannelLogger::new();
    logger.log(numbered(0));
    logger.log(numbered(1));
    let receiver = logger.take_receiver().unwrap();
    logger.log(numbered(2));
    let received: Vec<String> = receiver.try_iter().map(|record| record.message).collect();
    assert_eq!(received, vec!["record 0", "record 1", "record 2"]);
}

#[test]
fn channel_logger_survives_a_dropped_receiver() {
    let mut logger = ChannelLogger::new();
    drop(logger.take_receiver_unchecked());
    logger.log(numbered(0));
    logger.log(numbered(1));
}

#[test]
fn console_level_is_parsed_in_any_case() {
    let record = numbered(0);
    assert_eq!(ConsoleLogger::new("error").unwrap().emission(&record).0, Level::Error);
    assert_eq!(ConsoleLogger::new("warn").unwrap().emission(&record).0, Level::Warn);
    assert_eq!(ConsoleLogger::new("info").unwrap().emission(&record).0, Level::Info);
    assert_eq!(ConsoleLogger::new("debug").unwrap().emission(&record).0, Level::Debug);
    assert_eq!(ConsoleLogger::new("trace").unwrap().emission(&record).0, Level::Trace);
    assert_eq!(ConsoleLogger::new("DEBUG").unwrap().emission(&record).0, Level::Debug);
    assert_eq!(ConsoleLogger::new("Trace").unwrap().emission(&record).0, Level::Trace);
    assert_eq!(ConsoleLogger::new_unchecked("wArN").emission(&record).0, Level::Warn);
}

#[test]
fn console_level_that_names_none_is_an_error() {
    assert_eq!(ConsoleLogger::new("loud").err(), Some(InvalidLevel));
    assert_eq!(ConsoleLogger::new("").err(), Some(InvalidLevel));
    assert_eq!(ConsoleLogger::new("off").err(), Some(InvalidLevel));
    assert_eq!(ConsoleLogger::new("debug ").err(), Some(InvalidLevel));
    assert_eq!(ConsoleLogger::new("débug").err(), Some(InvalidLevel));
}

#[test]
fn invalid_level_says_what_went_wrong() {
    assert_eq!(
        InvalidLevel.to_string(),
        "attempted to convert a string that doesn't match an existing log level"
    );
}

#[test]
fn console_logger_clone_keeps_the_level() {
    let logger = ConsoleLogger::new("trace").unwrap();
    assert_eq!(logger.clone().level_for(RecordKind::Read), Level::Trace);
}

#[test]
fn console_emits_errors_at_error_level() {
    let logger = ConsoleLogger::new("debug").unwrap();
    let error = Record::new(RecordKind::Error, String::from("Error during read: gone"));
    let (level, line) = logger.emission(&error);
    assert_eq!(level, Level::Error);
    assert_eq!(line, "! Error during read: gone");
    assert_eq!(logger.level_for(RecordKind::Error), Level::Error);
    for kind in [
        RecordKind::Open,
        RecordKind::Read,
        RecordKind::Write,
        RecordKind::Shutdown,
        RecordKind::Drop,
    ] {
        assert_eq!(logger.level_for(kind), Level::Debug);
    }
}

#[test]
fn console_line_is_glyph_space_message() {
    let logger = ConsoleLogger::new("info").unwrap();
    let written = Record::new(RecordKind::Write, String::from("01:02:03"));
    assert_eq!(logger.emission(&written), (Level::Info, String::from("> 01:02:03")));
    let empty = Record::new(RecordKind::Read, String::new());
    assert_eq!(logger.emission(&empty).1, "< ");
}

#[test]
fn file_line_holds_instant_glyph_and_message() {
    let time = Timestamp { seconds: 1_431_648_000, nanoseconds: 0 };
    let record = Record::at(RecordKind::Read, String::from("0a:0b"), time);
    assert_eq!(file_line(&record).unwrap(), "[2015-05-15T00:00:00+00:00] < 0a:0b");
    let time = Timestamp { seconds: 0, nanoseconds: 26_490_000 };
    let record = Record::at(RecordKind::Drop, String::from("Deallocated."), time);
    assert_eq!(file_line(&record).unwrap(), "[1970-01-01T00:00:00.026490+00:00] x Deallocated.");
}

#[test]
fn file_line_needs_a_calendar_date() {
    let time = Timestamp { seconds: i64::MAX, nanoseconds: 0 };
    let record = Record::at(RecordKind::Read, String::new(), time);
    assert_eq!(file_line(&record), None);
    let record = Record::new(RecordKind::Read, String::new());
    assert!(file_line(&record).is_some());
}

#[test]
fn composed_file_line_brackets_the_instant() {
    let record = Record::new(RecordKind::Error, String::from("lost"));
    assert_eq!(compose_file_line("then", &record), "[then] ! lost");
    assert_eq!(compose_file_line("", &record), "[] ! lost");
}
