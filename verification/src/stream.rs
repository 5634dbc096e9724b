//! The decorator: it keeps a stream together with a formatter, a filter and
//! a logger, and turns the outcome of every operation on the stream into a
//! record. It only watches: the operation itself is the caller's, and its
//! result is never touched.

use crate::buffer_formatter::buffer_text;
use crate::buffer_formatter::lemma_joined_text_is_buffer_text;
use crate::buffer_formatter::BufferFormatter;
use crate::filter::RecordFilter;
use crate::logger::ChannelLogger;
use crate::logger::Logger;
use crate::logger::MemoryStorageLogger;
use crate::logger::views_of;
use crate::record::Record;
use crate::record::RecordKind;
use crate::record::RecordView;
use crate::record::Timestamp;
use std::collections::VecDeque;
use std::sync::mpsc::Receiver;
use vstd::prelude::*;
use vstd::slice::slice_subrange;

verus! {

/// The class of a failed operation, as far as the decorator tells failures
/// apart.
#[derive(Debug, Copy, Clone, PartialEq, Eq, Hash, Structural)]
pub enum FailureKind {
    /// The operation would have had to wait: nothing happened.
    WouldBlock,
    /// A write could not hand over a single byte.
    WriteZero,
    /// Any other failure.
    Other,
}

/// A failed operation: its class, and the text that describes it.
#[derive(Debug)]
pub struct Failure {
    pub kind: FailureKind,
    pub description: String,
}

/// How far a single attempt of a non-blocking operation got.
#[derive(Debug)]
pub enum Progress<T> {
    /// The attempt finished, well or badly.
    Ready(Result<T, Failure>),
    /// The attempt could not finish yet.
    Pending,
}

/// What the decorator has to say about an outcome, before the clock is read.
pub struct Event {
    pub kind: RecordKind,
    pub message: Seq<char>,
}

/// The record that an event becomes at a given instant.
pub open spec fn stamped(event: Event, time: Timestamp) -> RecordView {
    RecordView { kind: event.kind, message: event.message, time }
}

/// The event for a failure: none for one that would have had to wait, none
/// for a write of zero bytes where those are passed over, and otherwise an
/// error whose message is the prefix and the failure's description.
pub open spec fn failure_event(prefix: Seq<char>, failure: Failure, pass_write_zero: bool) -> Option<
    Event,
> {
    if failure.kind == FailureKind::WouldBlock || (pass_write_zero && failure.kind
        == FailureKind::WriteZero) {
        None
    } else {
        Some(Event { kind: RecordKind::Error, message: prefix + failure.description@ })
    }
}

/// The event for a finished read into `buffer`.
pub open spec fn read_event<F: BufferFormatter>(
    formatter: &F,
    buffer: Seq<u8>,
    result: Result<usize, Failure>,
) -> Option<Event> {
    match result {
        Ok(length) => Some(
            Event {
                kind: RecordKind::Read,
                message: buffer_text(formatter, buffer.take(length as int)),
            },
        ),
        Err(failure) => failure_event("Error during read: "@, failure, false),
    }
}

/// The event for a finished write from `buffer`.
pub open spec fn write_event<F: BufferFormatter>(
    formatter: &F,
    buffer: Seq<u8>,
    result: Result<usize, Failure>,
) -> Option<Event> {
    match result {
        Ok(length) => Some(
            Event {
                kind: RecordKind::Write,
                message: buffer_text(formatter, buffer.take(length as int)),
            },
        ),
        Err(failure) => failure_event("Error during write: "@, failure, true),
    }
}

/// The event for one attempt of a non-blocking read, where `filled` is the
/// filled part of the buffer after the attempt and `length_before` its
/// length before: none while the attempt is pending, none where it added
/// no byte, and otherwise a read of the bytes it added.
pub open spec fn poll_read_event<F: BufferFormatter>(
    formatter: &F,
    filled: Seq<u8>,
    length_before: usize,
    progress: Progress<()>,
) -> Option<Event> {
    match progress {
        Progress::Pending => None,
        Progress::Ready(Ok(_)) => if filled.len() == length_before {
            None
        } else {
            Some(
                Event {
                    kind: RecordKind::Read,
                    message: buffer_text(formatter, filled.skip(length_before as int)),
                },
            )
        },
        Progress::Ready(Err(failure)) => failure_event(
            "Error during async read: "@,
            failure,
            false,
        ),
    }
}

/// The event for one attempt of a non-blocking write from `buffer`.
pub open spec fn poll_write_event<F: BufferFormatter>(
    formatter: &F,
    buffer: Seq<u8>,
    progress: Progress<usize>,
) -> Option<Event> {
    match progress {
        Progress::Pending => None,
        Progress::Ready(result) => match result {
            Ok(length) => Some(
                Event {
                    kind: RecordKind::Write,
                    message: buffer_text(formatter, buffer.take(length as int)),
                },
            ),
            Err(failure) => failure_event("Error during async write: "@, failure, true),
        },
    }
}

/// The event for a request to shut the writing side down.
pub open spec fn shutdown_event() -> Event {
    Event { kind: RecordKind::Shutdown, message: "Writer shutdown request."@ }
}

/// The event for the end of the decorator's life.
pub open spec fn drop_event() -> Event {
    Event { kind: RecordKind::Drop, message: "Deallocated."@ }
}

/// The message of an error record.
fn failure_message(prefix: &str, failure: &Failure) -> (message: String)
    ensures
        message@ == prefix@ + failure.description@,
{
    let mut message = prefix.to_owned();
    message.append(failure.description.as_str());
    message
}

/// Whether a failure is passed over in silence.
fn is_transient(failure: &Failure, pass_write_zero: bool) -> (transient: bool)
    ensures
        transient == (failure_event(Seq::empty(), *failure, pass_write_zero) is None),
{
    match failure.kind {
        FailureKind::WouldBlock => true,
        FailureKind::WriteZero => pass_write_zero,
        FailureKind::Other => false,
    }
}

/// A stream together with the three strategies that watch it.
#[derive(Debug)]
pub struct LoggedStream<
    S: 'static,
    Formatter: 'static,
    Filter: RecordFilter + 'static,
    L: Logger + 'static,
> {
    inner_stream: S,
    formatter: Formatter,
    filter: Filter,
    logger: L,
}

impl<S: 'static, Formatter: 'static, Filter: RecordFilter + 'static, L: Logger + 'static>
    LoggedStream<S, Formatter, Filter, L> {
    /// The wrapped stream.
    pub closed spec fn stream(&self) -> S {
        self.inner_stream
    }

    /// The formatter that renders payload bytes.
    pub closed spec fn formatter(&self) -> Formatter {
        self.formatter
    }

    /// The filter that gates the records.
    pub closed spec fn filter(&self) -> Filter {
        self.filter
    }

    /// The logger that takes the records the filter lets through.
    pub closed spec fn logger(&self) -> L {
        self.logger
    }

    /// Whether `after` is `self` once `record` has been offered: the logger
    /// has consumed it where the filter accepts it and is untouched where
    /// it does not; stream, formatter and filter are as they were.
    pub open spec fn offered(&self, record: RecordView, after: &Self) -> bool {
        &&& after.stream() == self.stream()
        &&& after.formatter() == self.formatter()
        &&& after.filter() == self.filter()
        &&& if self.filter().accepts(record) {
            self.logger().consumed(record, &after.logger())
        } else {
            after.logger() == self.logger()
        }
    }

    /// Whether `after` is `self` once an outcome has been observed: with no
    /// event nothing changes, and with one the record it becomes at some
    /// instant has been offered.
    pub open spec fn observed(&self, event: Option<Event>, after: &Self) -> bool {
        match event {
            None => *after == *self,
            Some(event) => exists|time: Timestamp|
                self.offered(#[trigger] stamped(event, time), after),
        }
    }

    /// A decorator around `stream` with the given strategies.
    pub fn new(stream: S, formatter: Formatter, filter: Filter, logger: L) -> (logged: Self)
        ensures
            logged.stream() == stream,
            logged.formatter() == formatter,
            logged.filter() == filter,
            logged.logger() == logger,
    {
        Self { inner_stream: stream, formatter, filter, logger }
    }

    /// The wrapped stream, to read its state.
    pub fn inner_stream(&self) -> (stream: &S)
        ensures
            *stream == self.stream(),
    {
        &self.inner_stream
    }

    /// The wrapped stream, to operate on it. The strategies stay as they
    /// are whatever is done to the stream.
    pub fn inner_stream_mut(&mut self) -> (stream: &mut S)
        ensures
            *stream == old(self).stream(),
            final(self).stream() == *final(stream),
            final(self).formatter() == old(self).formatter(),
            final(self).filter() == old(self).filter(),
            final(self).logger() == old(self).logger(),
    {
        &mut self.inner_stream
    }

    /// Offers a record to the filter and, where it is accepted, hands it to
    /// the logger.
    pub fn submit(&mut self, record: Record)
        ensures
            old(self).offered(record@, final(self)),
    {
        if self.filter.check(&record) {
            self.logger.log(record);
        }
    }

    /// Stamps an event with the current time and offers the record.
    fn record(&mut self, kind: RecordKind, message: String)
        ensures
            old(self).observed(Some(Event { kind, message: message@ }), final(self)),
    {
        let record = Record::new(kind, message);
        assert(record@ == stamped(Event { kind, message: message@ }, record.time));
        self.submit(record);
    }

    /// Records that the writing side was asked to shut down. This is done
    /// whatever became of the request.
    pub fn observe_shutdown(&mut self)
        ensures
            old(self).observed(Some(shutdown_event()), final(self)),
    {
        self.record(RecordKind::Shutdown, "Writer shutdown request.".to_owned());
    }

    /// Ends the decorator's life: records the end and gives the parts back.
    pub fn close(self) -> (parts: (S, Formatter, Filter, L))
        ensures
            parts.0 == self.stream(),
            parts.1 == self.formatter(),
            parts.2 == self.filter(),
            exists|time: Timestamp|
                {
                    let record = #[trigger] stamped(drop_event(), time);
                    if self.filter().accepts(record) {
                        self.logger().consumed(record, &parts.3)
                    } else {
                        parts.3 == self.logger()
                    }
                },
    {
        let mut closing = self;
        closing.record(RecordKind::Drop, "Deallocated.".to_owned());
        let Self { inner_stream, formatter, filter, logger } = closing;
        (inner_stream, formatter, filter, logger)
    }
}

impl<
    S: 'static,
    Formatter: BufferFormatter + 'static,
    Filter: RecordFilter + 'static,
    L: Logger + 'static,
> LoggedStream<S, Formatter, Filter, L> {
    /// Renders the bytes of `buffer` from `from` up to `to`.
    fn render(&self, buffer: &[u8], from: usize, to: usize) -> (text: String)
        requires
            from <= to <= buffer.len(),
        ensures
            text@ == buffer_text(&self.formatter(), buffer@.subrange(from as int, to as int)),
    {
        let text = self.formatter.format_buffer(slice_subrange(buffer, from, to));
        proof {
            lemma_joined_text_is_buffer_text(
                &self.formatter,
                buffer@.subrange(from as int, to as int),
                |byte: u8| self.formatter.byte_text(byte),
            );
        }
        text
    }

    /// Records the outcome of a read into `buffer`: the bytes read, or the
    /// failure unless the read would have had to wait.
    pub fn observe_read(&mut self, buffer: &[u8], result: &Result<usize, Failure>)
        requires
            result matches Ok(length) ==> length <= buffer.len(),
        ensures
            old(self).observed(
                read_event(&old(self).formatter(), buffer@, *result),
                final(self),
            ),
    {
        match result {
            Ok(length) => {
                let message = self.render(buffer, 0, *length);
                self.record(RecordKind::Read, message);
            },
            Err(failure) => {
                if !is_transient(failure, false) {
                    self.record(RecordKind::Error, failure_message("Error during read: ", failure));
                }
            },
        }
    }

    /// Records the outcome of a write from `buffer`: the bytes written, or
    /// the failure unless the write would have had to wait or could hand
    /// over nothing.
    pub fn observe_write(&mut self, buffer: &[u8], result: &Result<usize, Failure>)
        requires
            result matches Ok(length) ==> length <= buffer.len(),
        ensures
            old(self).observed(
                write_event(&old(self).formatter(), buffer@, *result),
                final(self),
            ),
    {
        match result {
            Ok(length) => {
                let message = self.render(buffer, 0, *length);
                self.record(RecordKind::Write, message);
            },
            Err(failure) => {
                if !is_transient(failure, true) {
                    self.record(
                        RecordKind::Error,
                        failure_message("Error during write: ", failure),
                    );
                }
            },
        }
    }

    /// Records the outcome of one attempt of a non-blocking read. `filled`
    /// is the filled part of the buffer after the attempt, `length_before`
    /// its length before the attempt.
    pub fn observe_poll_read(
        &mut self,
        filled: &[u8],
        length_before: usize,
        progress: &Progress<()>,
    )
        requires
            length_before <= filled.len(),
        ensures
            old(self).observed(
                poll_read_event(&old(self).formatter(), filled@, length_before, *progress),
                final(self),
            ),
    {
        match progress {
            Progress::Pending => {},
            Progress::Ready(Ok(_)) => {
                let added = filled.len() - length_before;
                if added != 0 {
                    let message = self.render(filled, length_before, filled.len());
                    self.record(RecordKind::Read, message);
                }
            },
            Progress::Ready(Err(failure)) => {
                if !is_transient(failure, false) {
                    self.record(
                        RecordKind::Error,
                        failure_message("Error during async read: ", failure),
                    );
                }
            },
        }
    }

    /// Records the outcome of one attempt of a non-blocking write from
    /// `buffer`.
    pub fn observe_poll_write(&mut self, buffer: &[u8], progress: &Progress<usize>)
        requires
            progress matches Progress::Ready(Ok(length)) ==> length <= buffer.len(),
        ensures
            old(self).observed(
                poll_write_event(&old(self).formatter(), buffer@, *progress),
                final(self),
            ),
    {
        match progress {
            Progress::Pending => {},
            Progress::Ready(Ok(length)) => {
                let message = self.render(buffer, 0, *length);
                self.record(RecordKind::Write, message);
            },
            Progress::Ready(Err(failure)) => {
                if !is_transient(failure, true) {
                    self.record(
                        RecordKind::Error,
                        failure_message("Error during async write: ", failure),
                    );
                }
            },
        }
    }
}

impl<S: 'static, Formatter: 'static, Filter: RecordFilter + 'static> LoggedStream<
    S,
    Formatter,
    Filter,
    MemoryStorageLogger,
> {
    /// A copy of the records the logger holds, oldest first.
    pub fn get_log_records(&self) -> (records: VecDeque<Record>)
        ensures
            views_of(records@) == self.logger().records(),
    {
        self.logger.get_log_records()
    }

    /// Forgets the records the logger holds.
    pub fn clear_log_records(&mut self)
        ensures
            final(self).logger().records() == Seq::<RecordView>::empty(),
            final(self).logger().max_length() == old(self).logger().max_length(),
            final(self).logger().within_bound(),
            final(self).stream() == old(self).stream(),
            final(self).formatter() == old(self).formatter(),
            final(self).filter() == old(self).filter(),
    {
        self.logger.clear_log_records()
    }
}

impl<S: 'static, Formatter: 'static, Filter: RecordFilter + 'static> LoggedStream<
    S,
    Formatter,
    Filter,
    ChannelLogger,
> {
    /// The receiving half of the logger's channel, the first time; nothing
    /// after that.
    pub fn take_receiver(&mut self) -> (receiver: Option<Receiver<Record>>)
        ensures
            receiver is Some <==> old(self).logger().has_receiver(),
            !final(self).logger().has_receiver(),
            final(self).stream() == old(self).stream(),
            final(self).formatter() == old(self).formatter(),
            final(self).filter() == old(self).filter(),
    {
        self.logger.take_receiver()
    }

    /// The receiving half of the logger's channel, which must not have been
    /// taken before.
    pub fn take_receiver_unchecked(&mut self) -> (receiver: Receiver<Record>)
        requires
            old(self).logger().has_receiver(),
        ensures
            !final(self).logger().has_receiver(),
            final(self).stream() == old(self).stream(),
            final(self).formatter() == old(self).formatter(),
            final(self).filter() == old(self).filter(),
    {
        self.logger.take_receiver_unchecked()
    }
}

} // verus!
