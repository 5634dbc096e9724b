//! A transparent observer for byte streams: every read and write is turned
//! into a record, rendered by a formatter, gated by a filter and handed to a
//! logger, while the wrapped operation's result stays untouched.

pub mod buffer_formatter;
pub mod filter;
pub mod logger;
pub mod record;
pub mod stream;
pub mod text;

pub use buffer_formatter::BinaryFormatter;
pub use buffer_formatter::BufferFormatter;
pub use buffer_formatter::DecimalFormatter;
pub use buffer_formatter::LowercaseHexadecimalFormatter;
pub use buffer_formatter::OctalFormatter;
pub use buffer_formatter::UppercaseHexadecimalFormatter;
pub use filter::AllFilter;
pub use filter::AnyFilter;
pub use filter::DefaultFilter;
pub use filter::RecordFilter;
pub use filter::RecordKindFilter;
pub use logger::ChannelLogger;
pub use logger::ConsoleLogger;
pub use logger::InvalidLevel;
pub use logger::Level;
pub use logger::Logger;
pub use logger::MemoryStorageLogger;
pub use record::Record;
pub use record::RecordKind;
pub use record::RecordView;
pub use record::Timestamp;
pub use stream::Failure;
pub use stream::FailureKind;
pub use stream::LoggedStream;
pub use stream::Progress;
