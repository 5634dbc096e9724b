//! The sinks that take the records a filter has let through: a bounded
//! window in memory, a channel, and the text that the console and the file
//! sink print.

use crate::record::glyph_of;
use crate::record::Record;
use crate::record::RecordKind;
use crate::record::RecordView;
use crate::record::Timestamp;
use std::collections::VecDeque;
use std::str::FromStr;
use std::sync::mpsc::Receiver;
use std::sync::mpsc::Sender;
use vstd::prelude::*;

verus! {

/// A sink for records. `log` takes the record for good and never fails its
/// caller; what it does to the sink is the relation `consumed`.
pub trait Logger: Send + 'static {
    /// Whether `after` is a state in which `log` may leave a sink that was
    /// in the state `self` and was given `record`. A sink that says nothing
    /// of itself allows every state.
    open spec fn consumed(&self, record: RecordView, after: &Self) -> bool {
        true
    }

    fn log(&mut self, record: Record)
        ensures
            old(self).consumed(record@, final(self)),
    ;
}

impl<L: Logger> Logger for Box<L> {
    open spec fn consumed(&self, record: RecordView, after: &Self) -> bool {
        (**self).consumed(record, &**after)
    }

    fn log(&mut self, record: Record) {
        (**self).log(record)
    }
}

/// What a sequence of records holds, record by record.
pub open spec fn views_of(records: Seq<Record>) -> Seq<RecordView> {
    Seq::new(records.len(), |i: int| records[i]@)
}

/// What a bounded window holds once `record` has arrived: the record joins at
/// the tail, and where that makes the window longer than `max_length` the
/// oldest record leaves.
pub open spec fn window_after(held: Seq<RecordView>, record: RecordView, max_length: nat) -> Seq<
    RecordView,
> {
    let grown = held.push(record);
    if grown.len() > max_length {
        grown.skip(1)
    } else {
        grown
    }
}

/// What a bounded window holds once all of `arrivals` have arrived in order.
pub open spec fn window_after_all(
    held: Seq<RecordView>,
    arrivals: Seq<RecordView>,
    max_length: nat,
) -> Seq<RecordView>
    decreases arrivals.len(),
{
    if arrivals.len() == 0 {
        held
    } else {
        window_after(
            window_after_all(held, arrivals.drop_last(), max_length),
            arrivals.last(),
            max_length,
        )
    }
}

/// The last `count` records of `records` in their order, or all of them
/// where there are no more than `count`.
pub open spec fn most_recent(records: Seq<RecordView>, count: nat) -> Seq<RecordView> {
    if records.len() <= count {
        records
    } else {
        records.skip(records.len() - count)
    }
}

/// A window that is within its bound holds, after any number of arrivals,
/// the most recent records of everything it has held and been given, in
/// arrival order, and as many of them as the bound allows.
pub proof fn lemma_window_keeps_most_recent(
    held: Seq<RecordView>,
    arrivals: Seq<RecordView>,
    max_length: nat,
)
    requires
        held.len() <= max_length,
    ensures
        window_after_all(held, arrivals, max_length) == most_recent(held + arrivals, max_length),
    decreases arrivals.len(),
{
    if arrivals.len() == 0 {
        assert(held + arrivals =~= held);
    } else {
        let earlier = arrivals.drop_last();
        lemma_window_keeps_most_recent(held, earlier, max_length);
        assert(held + arrivals =~= (held + earlier).push(arrivals.last()));
        assert(window_after_all(held, arrivals, max_length) =~= most_recent(
            held + arrivals,
            max_length,
        ));
    }
}

/// A window of bound `max_length` that starts empty and is given more than
/// `max_length` records holds exactly `max_length` of them: the ones that
/// arrived last, in arrival order.
pub proof fn lemma_overfull_window(arrivals: Seq<RecordView>, max_length: nat)
    requires
        arrivals.len() > max_length,
    ensures
        window_after_all(Seq::empty(), arrivals, max_length).len() == max_length,
        window_after_all(Seq::empty(), arrivals, max_length) == arrivals.skip(
            arrivals.len() - max_length,
        ),
{
    lemma_window_keeps_most_recent(Seq::empty(), arrivals, max_length);
    assert(Seq::<RecordView>::empty() + arrivals =~= arrivals);
}

/// The sink that keeps the most recent records in memory, up to a bound.
#[derive(Debug)]
pub struct MemoryStorageLogger {
    storage: VecDeque<Record>,
    max_length: usize,
}

impl MemoryStorageLogger {
    /// The sink holds no more records than its bound allows. A new sink does,
    /// and no operation breaks it.
    pub open spec fn within_bound(&self) -> bool {
        self.records().len() <= self.max_length()
    }

    /// The records held, oldest first.
    pub closed spec fn records(&self) -> Seq<RecordView> {
        views_of(self.storage@)
    }

    /// The largest number of records the sink holds.
    pub closed spec fn max_length(&self) -> nat {
        self.max_length as nat
    }

    /// An empty sink that holds at most `max_length` records.
    pub fn new(max_length: usize) -> (logger: Self)
        ensures
            logger.records() == Seq::<RecordView>::empty(),
            logger.max_length() == max_length,
            logger.within_bound(),
    {
        let logger = Self { storage: VecDeque::new(), max_length };
        assert(logger.records() =~= Seq::<RecordView>::empty());
        logger
    }

    /// A copy of the records held, oldest first.
    pub fn get_log_records(&self) -> (records: VecDeque<Record>)
        ensures
            views_of(records@) == self.records(),
            self.within_bound() ==> records@.len() <= self.max_length(),
    {
        let mut records: VecDeque<Record> = VecDeque::new();
        let mut i: usize = 0;
        while i < self.storage.len()
            invariant
                0 <= i <= self.storage.len(),
                records@.len() == i,
                forall|j: int| 0 <= j < i ==> records@[j]@ == self.storage@[j]@,
            decreases self.storage.len() - i,
        {
            let copy = self.storage[i].clone();
            records.push_back(copy);
            i += 1;
        }
        assert(views_of(records@) =~= views_of(self.storage@));
        records
    }

    /// Forgets the records held; the bound stays.
    pub fn clear_log_records(&mut self)
        ensures
            final(self).records() == Seq::<RecordView>::empty(),
            final(self).max_length() == old(self).max_length(),
            final(self).within_bound(),
    {
        self.storage.clear();
        assert(self.records() =~= Seq::<RecordView>::empty());
    }
}

impl Clone for MemoryStorageLogger {
    fn clone(&self) -> (copy: Self)
        ensures
            copy.records() == self.records(),
            copy.max_length() == self.max_length(),
            copy.within_bound() == self.within_bound(),
    {
        let storage = self.get_log_records();
        assert(storage@.len() == views_of(storage@).len());
        Self { storage, max_length: self.max_length }
    }
}

impl Logger for MemoryStorageLogger {
    open spec fn consumed(&self, record: RecordView, after: &Self) -> bool {
        &&& after.max_length() == self.max_length()
        &&& after.records() == window_after(self.records(), record, self.max_length())
        &&& self.within_bound() ==> after.within_bound()
    }

    fn log(&mut self, record: Record) {
        self.storage.push_back(record);
        if self.storage.len() > self.max_length {
            let _ = self.storage.pop_front();
        }
        assert(self.records() =~= window_after(
            old(self).records(),
            record@,
            old(self).max_length(),
        ));
    }
}

/// `std::sync::mpsc::Sender`, the sending half of a channel, as a value
/// that is only passed along.
#[verifier::external_type_specification]
#[verifier::external_body]
#[verifier::reject_recursive_types(T)]
pub struct ExSender<T>(Sender<T>);

/// `std::sync::mpsc::Receiver`, the receiving half of a channel, as a value
/// that is only passed along.
#[verifier::external_type_specification]
#[verifier::external_body]
#[verifier::reject_recursive_types(T)]
pub struct ExReceiver<T>(Receiver<T>);

/// `std::sync::mpsc::channel`: a fresh unbounded queue, as its sending and
/// its receiving half.
#[verifier::external_body]
fn open_channel() -> (halves: (Sender<Record>, Receiver<Record>)) {
    std::sync::mpsc::channel()
}

/// `Sender::send`: hands the record to the queue without blocking. Where the
/// receiving half is gone the record is lost and the call still returns.
#[verifier::external_body]
fn send_record(sender: &Sender<Record>, record: Record) {
    let _ = sender.send(record);
}

/// The sink that sends each record down a channel. The receiving half can be
/// taken out once.
#[derive(Debug)]
pub struct ChannelLogger {
    sender: Sender<Record>,
    receiver: Option<Receiver<Record>>,
}

impl ChannelLogger {
    /// Whether the receiving half is still with the sink.
    pub closed spec fn has_receiver(&self) -> bool {
        self.receiver is Some
    }

    /// A sink on a fresh channel, with the receiving half still in it.
    pub fn new() -> (logger: Self)
        ensures
            logger.has_receiver(),
    {
        let (sender, receiver) = open_channel();
        Self { sender, receiver: Some(receiver) }
    }

    /// The receiving half, the first time; nothing after that.
    #[inline]
    pub fn take_receiver(&mut self) -> (receiver: Option<Receiver<Record>>)
        ensures
            receiver is Some <==> old(self).has_receiver(),
            !final(self).has_receiver(),
    {
        self.receiver.take()
    }

    /// The receiving half, which must not have been taken before.
    pub fn take_receiver_unchecked(&mut self) -> (receiver: Receiver<Record>)
        requires
            old(self).has_receiver(),
        ensures
            !final(self).has_receiver(),
    {
        self.take_receiver().unwrap()
    }
}

impl Default for ChannelLogger {
    fn default() -> (logger: Self)
        ensures
            logger.has_receiver(),
    {
        Self::new()
    }
}

impl Logger for ChannelLogger {
    open spec fn consumed(&self, record: RecordView, after: &Self) -> bool {
        after.has_receiver() == self.has_receiver()
    }

    fn log(&mut self, record: Record) {
        send_record(&self.sender, record);
    }
}

/// How loudly the console sink speaks.
#[derive(Debug, Copy, Clone, PartialEq, Eq, Hash, Structural)]
pub enum Level {
    Error,
    Warn,
    Info,
    Debug,
    Trace,
}

/// A level name that names no level.
#[derive(Debug, Copy, Clone, PartialEq, Eq, Structural)]
pub struct InvalidLevel;

impl InvalidLevel {
    /// What went wrong, in words.
    pub fn to_string(&self) -> (text: String)
        ensures
            text@ == "attempted to convert a string that doesn't match an existing log level"@,
    {
        "attempted to convert a string that doesn't match an existing log level".to_owned()
    }
}

/// The lower-case form of an ASCII letter; any other character is itself.
pub open spec fn ascii_lower(ch: char) -> char {
    if 'A' <= ch <= 'Z' {
        ((ch as int) + 32) as char
    } else {
        ch
    }
}

/// Whether two texts are the same but for the case of their ASCII letters.
pub open spec fn same_ignoring_ascii_case(left: Seq<char>, right: Seq<char>) -> bool {
    &&& left.len() == right.len()
    &&& forall|i: int| 0 <= i < left.len() ==> ascii_lower(left[i]) == ascii_lower(right[i])
}

/// The level that a name stands for, in whatever case it is written.
pub open spec fn level_named(name: Seq<char>) -> Option<Level> {
    if same_ignoring_ascii_case(name, "error"@) {
        Some(Level::Error)
    } else if same_ignoring_ascii_case(name, "warn"@) {
        Some(Level::Warn)
    } else if same_ignoring_ascii_case(name, "info"@) {
        Some(Level::Info)
    } else if same_ignoring_ascii_case(name, "debug"@) {
        Some(Level::Debug)
    } else if same_ignoring_ascii_case(name, "trace"@) {
        Some(Level::Trace)
    } else {
        None
    }
}

/// `log::ParseLevelError`, the error of `log::Level::from_str`, as a value
/// that is only passed along.
#[verifier::external_type_specification]
#[verifier::external_body]
pub struct ExParseLevelError(log::ParseLevelError);

/// `log::Level::from_str`: compares the name with ERROR, WARN, INFO, DEBUG
/// and TRACE, ignoring the case of ASCII letters, and gives the level whose
/// name it is, or an error where it is none of them.
#[verifier::external_body]
fn parse_level(name: &str) -> (parsed: Result<Level, log::ParseLevelError>)
    ensures
        match parsed {
            Ok(level) => level_named(name@) == Some(level),
            Err(_) => level_named(name@) is None,
        },
{
    match log::Level::from_str(name) {
        Ok(log::Level::Error) => Ok(Level::Error),
        Ok(log::Level::Warn) => Ok(Level::Warn),
        Ok(log::Level::Info) => Ok(Level::Info),
        Ok(log::Level::Debug) => Ok(Level::Debug),
        Ok(log::Level::Trace) => Ok(Level::Trace),
        Err(error) => Err(error),
    }
}

/// The line that stands for a record on the console: the kind's glyph, a
/// space, and the message.
pub open spec fn console_line(record: RecordView) -> Seq<char> {
    seq![glyph_of(record.kind), ' '] + record.message
}

/// The console sink's configuration: the level at which it speaks.
#[derive(Debug)]
pub struct ConsoleLogger {
    level: Level,
}

impl Clone for ConsoleLogger {
    fn clone(&self) -> (copy: Self)
        ensures
            copy.level() == self.level(),
    {
        Self { level: self.level }
    }
}

impl ConsoleLogger {
    /// The level the sink was configured with.
    pub closed spec fn level(&self) -> Level {
        self.level
    }

    /// A console sink at the level that `level` names, or an error where it
    /// names none.
    pub fn new(level: &str) -> (made: Result<Self, InvalidLevel>)
        ensures
            match made {
                Ok(logger) => level_named(level@) == Some(logger.level()),
                Err(_) => level_named(level@) is None,
            },
    {
        match parse_level(level) {
            Ok(level) => Ok(Self { level }),
            Err(_) => Err(InvalidLevel),
        }
    }

    /// A console sink at the level that `level` names, which must be the
    /// name of a level.
    pub fn new_unchecked(level: &str) -> (logger: Self)
        requires
            level_named(level@) is Some,
        ensures
            level_named(level@) == Some(logger.level()),
    {
        Self::new(level).unwrap()
    }

    /// The level at which a record of the given kind is emitted: errors
    /// always at the error level, everything else at the configured one.
    pub fn level_for(&self, kind: RecordKind) -> (level: Level)
        ensures
            level == if kind == RecordKind::Error {
                Level::Error
            } else {
                self.level()
            },
    {
        match kind {
            RecordKind::Error => Level::Error,
            _ => self.level,
        }
    }

    /// What the sink emits for a record: the level, and the line.
    pub fn emission(&self, record: &Record) -> (emitted: (Level, String))
        ensures
            emitted.0 == if record.kind == RecordKind::Error {
                Level::Error
            } else {
                self.level()
            },
            emitted.1@ == console_line(record@),
    {
        let mut line = record.kind.to_string();
        line.push(' ');
        line.append(record.message.as_str());
        assert(line@ =~= console_line(record@));
        (self.level_for(record.kind), line)
    }
}

/// The text of an instant in ISO 8601 with the offset `+00:00`, or nothing
/// for an instant outside the years the calendar covers.
pub uninterp spec fn iso8601_text(seconds: int, nanoseconds: int) -> Option<Seq<char>>;

/// `chrono::DateTime::from_timestamp`, then `DateTime::format` with `%+`,
/// written out: the instant as the calendar prints it, or nothing where
/// `from_timestamp` has no date for the two numbers. The text depends on the
/// two numbers alone.
#[verifier::external_body]
fn timestamp_text(time: Timestamp) -> (text: Option<String>)
    ensures
        match text {
            Some(text) => iso8601_text(time.seconds as int, time.nanoseconds as int) == Some(
                text@,
            ),
            None => iso8601_text(time.seconds as int, time.nanoseconds as int) is None,
        },
{
    match chrono::DateTime::from_timestamp(time.seconds, time.nanoseconds) {
        Some(instant) => Some(instant.format("%+").to_string()),
        None => None,
    }
}

/// The line that stands for a record in a file, given the text of its
/// instant: the instant in square brackets, then the console line.
pub open spec fn file_line_text(instant: Seq<char>, record: RecordView) -> Seq<char> {
    seq!['['] + instant + seq![']', ' '] + console_line(record)
}

/// Puts a file line together from the text of the record's instant.
pub fn compose_file_line(instant: &str, record: &Record) -> (line: String)
    ensures
        line@ == file_line_text(instant@, record@),
{
    let mut line = String::new();
    line.push('[');
    line.append(instant);
    line.push(']');
    line.push(' ');
    line.append(record.kind.to_string().as_str());
    line.push(' ');
    line.append(record.message.as_str());
    assert(line@ =~= file_line_text(instant@, record@));
    line
}

/// The line that the file sink writes for a record, or nothing where the
/// record's instant has no calendar date.
pub fn file_line(record: &Record) -> (line: Option<String>)
    ensures
        match iso8601_text(record.time.seconds as int, record.time.nanoseconds as int) {
            Some(instant) => line is Some && line.unwrap()@ == file_line_text(instant, record@),
            None => line is None,
        },
{
    match timestamp_text(record.time) {
        Some(instant) => Some(compose_file_line(instant.as_str(), record)),
        None => None,
    }
}

} // verus!
