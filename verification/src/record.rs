//! The event model: what kind of event was observed, the text that describes
//! it, and when it was captured.

use vstd::prelude::*;
use vstd::std_specs::convert::FromSpecImpl;

verus! {

/// The category of an observed event.
#[derive(Debug, Copy, Clone, PartialEq, Eq, Hash, Structural)]
pub enum RecordKind {
    Open,
    Read,
    Write,
    Error,
    Shutdown,
    Drop,
}

/// The single character that stands for a kind wherever a record is printed.
pub open spec fn glyph_of(kind: RecordKind) -> char {
    match kind {
        RecordKind::Open => '+',
        RecordKind::Read => '<',
        RecordKind::Write => '>',
        RecordKind::Error => '!',
        RecordKind::Shutdown => '-',
        RecordKind::Drop => 'x',
    }
}

impl From<RecordKind> for char {
    fn from(kind: RecordKind) -> (glyph: char) {
        match kind {
            RecordKind::Open => '+',
            RecordKind::Read => '<',
            RecordKind::Write => '>',
            RecordKind::Error => '!',
            RecordKind::Shutdown => '-',
            RecordKind::Drop => 'x',
        }
    }
}

impl FromSpecImpl<RecordKind> for char {
    open spec fn obeys_from_spec() -> bool {
        true
    }

    open spec fn from_spec(kind: RecordKind) -> char {
        glyph_of(kind)
    }
}

impl RecordKind {
    /// The kind's glyph as a one-character string.
    pub fn to_string(&self) -> (text: String)
        ensures
            text@ == seq![glyph_of(*self)],
    {
        let mut text = String::new();
        text.push(char::from(*self));
        assert(text@ =~= seq![glyph_of(*self)]);
        text
    }
}

/// A capture instant: whole seconds since the Unix epoch, and the nanoseconds
/// into that second.
#[derive(Debug, Copy, Clone, PartialEq, Eq, Hash, Structural)]
pub struct Timestamp {
    pub seconds: i64,
    pub nanoseconds: u32,
}

/// Reads the wall clock through `chrono::Utc::now` and keeps the instant as
/// the two numbers `DateTime::timestamp` and
/// `DateTime::timestamp_subsec_nanos` give for it. Nothing is claimed of the
/// value: it depends on when the call is made.
#[verifier::external_body]
fn clock_now() -> Timestamp {
    let now = chrono::Utc::now();
    Timestamp { seconds: now.timestamp(), nanoseconds: now.timestamp_subsec_nanos() }
}

/// One observed event.
#[derive(Debug, PartialEq, Eq, Hash)]
pub struct Record {
    pub kind: RecordKind,
    pub message: String,
    pub time: Timestamp,
}

/// What a record holds, with the message as a sequence of characters.
pub struct RecordView {
    pub kind: RecordKind,
    pub message: Seq<char>,
    pub time: Timestamp,
}

impl View for Record {
    type V = RecordView;

    open spec fn view(&self) -> RecordView {
        RecordView { kind: self.kind, message: self.message@, time: self.time }
    }
}

impl Clone for Record {
    fn clone(&self) -> (copy: Record)
        ensures
            copy@ == self@,
    {
        Record { kind: self.kind, message: self.message.clone(), time: self.time }
    }
}

impl Record {
    /// A record of the given kind and message, stamped with the current time.
    pub fn new(kind: RecordKind, message: String) -> (record: Record)
        ensures
            record.kind == kind,
            record.message@ == message@,
    {
        Record::at(kind, message, clock_now())
    }

    /// A record of the given kind and message, captured at the given instant.
    pub fn at(kind: RecordKind, message: String, time: Timestamp) -> (record: Record)
        ensures
            record@ == (RecordView { kind, message: message@, time }),
    {
        Record { kind, message, time }
    }
}

} // verus!
