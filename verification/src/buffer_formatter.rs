//! Strategies that render a byte buffer as text: each byte through a fixed
//! rule, the results joined by a separator.

use crate::text::decimal_numeral;
use crate::text::free_of;
use crate::text::join;
use crate::text::lemma_join_push;
use crate::text::lemma_join_token_count;
use crate::text::padded_numeral;
use crate::text::push_decimal_numeral;
use crate::text::push_padded_numeral;
use crate::text::token_count;
use vstd::prelude::*;

verus! {

/// The separator used where none is provided.
pub open spec fn default_separator() -> Seq<char> {
    seq![':']
}

fn owned_separator(provided: Option<String>) -> (separator: String)
    ensures
        separator@ == match provided {
            Some(text) => text@,
            None => default_separator(),
        },
{
    match provided {
        Some(separator) => separator,
        None => {
            proof {
                reveal_strlit(":");
            }
            let separator = ":".to_owned();
            assert(separator@ =~= default_separator());
            separator
        },
    }
}

fn borrowed_separator(provided: Option<&str>) -> (separator: String)
    ensures
        separator@ == match provided {
            Some(text) => text@,
            None => default_separator(),
        },
{
    match provided {
        Some(separator) => owned_separator(Some(separator.to_owned())),
        None => owned_separator(None),
    }
}

/// The text of each byte of `bytes` under the rule `byte_text`, in order.
pub open spec fn byte_texts(bytes: Seq<u8>, byte_text: spec_fn(u8) -> Seq<char>) -> Seq<Seq<char>> {
    Seq::new(bytes.len(), |i: int| byte_text(bytes[i]))
}

/// The texts of the bytes under the rule `byte_text`, joined by `separator`.
pub open spec fn joined_text(
    bytes: Seq<u8>,
    byte_text: spec_fn(u8) -> Seq<char>,
    separator: Seq<char>,
) -> Seq<char> {
    join(byte_texts(bytes, byte_text), separator)
}

/// A way to render bytes as text. `get_separator` and `format_byte` are for
/// an implementation to define; `format_buffer` follows from them.
pub trait BufferFormatter: Send + 'static {
    /// The separator placed between the texts of neighbouring bytes. An
    /// implementation says what it is.
    open spec fn separator_text(&self) -> Seq<char> {
        arbitrary()
    }

    /// The text of one byte. An implementation says what it is.
    open spec fn byte_text(&self, byte: u8) -> Seq<char> {
        arbitrary()
    }

    fn get_separator(&self) -> (separator: &str)
        ensures
            separator@ == self.separator_text(),
    ;

    fn format_byte(&self, byte: &u8) -> (text: String)
        ensures
            text@ == self.byte_text(*byte),
    ;

    fn format_buffer(&self, buffer: &[u8]) -> (text: String)
        ensures
            text@ == joined_text(buffer@, |byte: u8| self.byte_text(byte), self.separator_text()),
    {
        let mut text = String::new();
        let mut i: usize = 0;
        while i < buffer.len()
            invariant
                0 <= i <= buffer.len(),
                text@ == joined_text(
                    buffer@.take(i as int),
                    |byte: u8| self.byte_text(byte),
                    self.separator_text(),
                ),
            decreases buffer.len() - i,
        {
            let part = self.format_byte(&buffer[i]);
            proof {
                let rule = |byte: u8| self.byte_text(byte);
                let before = byte_texts(buffer@.take(i as int), rule);
                assert(byte_texts(buffer@.take(i + 1), rule) =~= before.push(part@));
                lemma_join_push(before, part@, self.separator_text());
            }
            if i > 0 {
                text.append(self.get_separator());
            }
            text.append(part.as_str());
            i += 1;
        }
        assert(buffer@.take(buffer.len() as int) =~= buffer@);
        text
    }
}

impl BufferFormatter for Box<dyn BufferFormatter> {
    open spec fn separator_text(&self) -> Seq<char> {
        (**self).separator_text()
    }

    open spec fn byte_text(&self, byte: u8) -> Seq<char> {
        (**self).byte_text(byte)
    }

    #[inline]
    fn get_separator(&self) -> (separator: &str) {
        (**self).get_separator()
    }

    #[inline]
    fn format_byte(&self, byte: &u8) -> (text: String) {
        (**self).format_byte(byte)
    }
}

/// The text of a whole buffer under `formatter`: the bytes' texts joined by
/// the formatter's separator.
pub open spec fn buffer_text<F: BufferFormatter + ?Sized>(formatter: &F, bytes: Seq<u8>) -> Seq<
    char,
> {
    joined_text(bytes, |byte: u8| formatter.byte_text(byte), formatter.separator_text())
}

/// The text that `format_buffer` promises is the buffer's text, whichever
/// way the per-byte rule is written down.
pub proof fn lemma_joined_text_is_buffer_text<F: BufferFormatter + ?Sized>(
    formatter: &F,
    bytes: Seq<u8>,
    byte_text: spec_fn(u8) -> Seq<char>,
)
    requires
        forall|byte: u8| #[trigger] byte_text(byte) == formatter.byte_text(byte),
    ensures
        joined_text(bytes, byte_text, formatter.separator_text()) == buffer_text(formatter, bytes),
{
    assert(byte_texts(bytes, byte_text) =~= byte_texts(
        bytes,
        |byte: u8| formatter.byte_text(byte),
    ));
}

/// An empty buffer renders as the empty text, and a buffer of one byte as
/// that byte's text, without any separator.
pub proof fn lemma_buffer_text_small<F: BufferFormatter + ?Sized>(formatter: &F, byte: u8)
    ensures
        buffer_text(formatter, Seq::<u8>::empty()) == Seq::<char>::empty(),
        buffer_text(formatter, seq![byte]) == formatter.byte_text(byte),
{
    let rule = |byte: u8| formatter.byte_text(byte);
    assert(byte_texts(Seq::<u8>::empty(), rule).len() == 0);
    assert(byte_texts(seq![byte], rule).len() == 1);
    assert(byte_texts(seq![byte], rule)[0] == formatter.byte_text(byte));
}

/// Where the separator is not empty and shares no character with the text of
/// any byte, the text of a non-empty buffer falls into as many
/// separator-delimited tokens as the buffer has bytes.
pub proof fn lemma_buffer_text_token_count<F: BufferFormatter + ?Sized>(
    formatter: &F,
    bytes: Seq<u8>,
)
    requires
        bytes.len() > 0,
        formatter.separator_text().len() > 0,
        forall|byte: u8| free_of(#[trigger] formatter.byte_text(byte), formatter.separator_text()),
    ensures
        token_count(buffer_text(formatter, bytes), formatter.separator_text()) == bytes.len(),
{
    let parts = byte_texts(bytes, |byte: u8| formatter.byte_text(byte));
    assert forall|i: int| 0 <= i < parts.len() implies free_of(
        #[trigger] parts[i],
        formatter.separator_text(),
    ) by {
        assert(parts[i] == formatter.byte_text(bytes[i]));
    }
    lemma_join_token_count(parts, formatter.separator_text());
}

/// A byte in decimal, without leading zeros: 57 is "57", 7 is "7".
pub open spec fn decimal_text(byte: u8) -> Seq<char> {
    decimal_numeral(byte as nat)
}

/// Renders each byte as its decimal numeral, without leading zeros.
#[derive(Debug)]
pub struct DecimalFormatter {
    separator: String,
}

impl DecimalFormatter {
    /// A formatter with the provided separator, or with `:` where none is
    /// provided.
    pub fn new(provided_separator: Option<&str>) -> (formatter: Self)
        ensures
            formatter.separator_text() == match provided_separator {
                Some(text) => text@,
                None => default_separator(),
            },
    {
        Self { separator: borrowed_separator(provided_separator) }
    }

    /// A formatter with the provided separator, or with `:` where none is
    /// provided.
    pub fn new_owned(provided_separator: Option<String>) -> (formatter: Self)
        ensures
            formatter.separator_text() == match provided_separator {
                Some(text) => text@,
                None => default_separator(),
            },
    {
        Self { separator: owned_separator(provided_separator) }
    }

    /// A formatter with the separator `:`.
    pub fn new_default() -> (formatter: Self)
        ensures
            formatter.separator_text() == default_separator(),
    {
        Self::new_owned(None)
    }
}

impl BufferFormatter for DecimalFormatter {
    closed spec fn separator_text(&self) -> Seq<char> {
        self.separator@
    }

    open spec fn byte_text(&self, byte: u8) -> Seq<char> {
        decimal_text(byte)
    }

    #[inline]
    fn get_separator(&self) -> (separator: &str) {
        self.separator.as_str()
    }

    #[inline]
    fn format_byte(&self, byte: &u8) -> (text: String) {
        let mut text = String::new();
        push_decimal_numeral(&mut text, *byte);
        assert(Seq::<char>::empty() + decimal_text(*byte) =~= decimal_text(*byte));
        text
    }
}

impl BufferFormatter for Box<DecimalFormatter> {
    open spec fn separator_text(&self) -> Seq<char> {
        (**self).separator_text()
    }

    open spec fn byte_text(&self, byte: u8) -> Seq<char> {
        (**self).byte_text(byte)
    }

    #[inline]
    fn get_separator(&self) -> (separator: &str) {
        (**self).get_separator()
    }

    #[inline]
    fn format_byte(&self, byte: &u8) -> (text: String) {
        (**self).format_byte(byte)
    }
}

impl Clone for DecimalFormatter {
    fn clone(&self) -> (copy: Self)
        ensures
            copy.separator_text() == self.separator_text(),
    {
        Self { separator: self.separator.clone() }
    }
}

impl Default for DecimalFormatter {
    fn default() -> (formatter: Self)
        ensures
            formatter.separator_text() == default_separator(),
    {
        Self::new_default()
    }
}

/// A byte as three octal digits: 57 is "071".
pub open spec fn octal_text(byte: u8) -> Seq<char> {
    padded_numeral(byte as nat, 8, 3, false)
}

/// Renders each byte as three octal digits.
#[derive(Debug)]
pub struct OctalFormatter {
    separator: String,
}

impl OctalFormatter {
    /// A formatter with the provided separator, or with `:` where none is
    /// provided.
    pub fn new(provided_separator: Option<&str>) -> (formatter: Self)
        ensures
            formatter.separator_text() == match provided_separator {
                Some(text) => text@,
                None => default_separator(),
            },
    {
        Self { separator: borrowed_separator(provided_separator) }
    }

    /// A formatter with the provided separator, or with `:` where none is
    /// provided.
    pub fn new_owned(provided_separator: Option<String>) -> (formatter: Self)
        ensures
            formatter.separator_text() == match provided_separator {
                Some(text) => text@,
                None => default_separator(),
            },
    {
        Self { separator: owned_separator(provided_separator) }
    }

    /// A formatter with the separator `:`.
    pub fn new_default() -> (formatter: Self)
        ensures
            formatter.separator_text() == default_separator(),
    {
        Self::new_owned(None)
    }
}

impl BufferFormatter for OctalFormatter {
    closed spec fn separator_text(&self) -> Seq<char> {
        self.separator@
    }

    open spec fn byte_text(&self, byte: u8) -> Seq<char> {
        octal_text(byte)
    }

    #[inline]
    fn get_separator(&self) -> (separator: &str) {
        self.separator.as_str()
    }

    #[inline]
    fn format_byte(&self, byte: &u8) -> (text: String) {
        let mut text = String::new();
        push_padded_numeral(&mut text, *byte, 8, 3, false);
        assert(Seq::<char>::empty() + octal_text(*byte) =~= octal_text(*byte));
        text
    }
}

impl BufferFormatter for Box<OctalFormatter> {
    open spec fn separator_text(&self) -> Seq<char> {
        (**self).separator_text()
    }

    open spec fn byte_text(&self, byte: u8) -> Seq<char> {
        (**self).byte_text(byte)
    }

    #[inline]
    fn get_separator(&self) -> (separator: &str) {
        (**self).get_separator()
    }

    #[inline]
    fn format_byte(&self, byte: &u8) -> (text: String) {
        (**self).format_byte(byte)
    }
}

impl Clone for OctalFormatter {
    fn clone(&self) -> (copy: Self)
        ensures
            copy.separator_text() == self.separator_text(),
    {
        Self { separator: self.separator.clone() }
    }
}

impl Default for OctalFormatter {
    fn default() -> (formatter: Self)
        ensures
            formatter.separator_text() == default_separator(),
    {
        Self::new_default()
    }
}

/// A byte as two hexadecimal digits with upper-case letters: 171 is "AB".
pub open spec fn uppercase_hexadecimal_text(byte: u8) -> Seq<char> {
    padded_numeral(byte as nat, 16, 2, true)
}

/// Renders each byte as two hexadecimal digits, letters in upper case.
#[derive(Debug)]
pub struct UppercaseHexadecimalFormatter {
    separator: String,
}

impl UppercaseHexadecimalFormatter {
    /// A formatter with the provided separator, or with `:` where none is
    /// provided.
    pub fn new(provided_separator: Option<&str>) -> (formatter: Self)
        ensures
            formatter.separator_text() == match provided_separator {
                Some(text) => text@,
                None => default_separator(),
            },
    {
        Self { separator: borrowed_separator(provided_separator) }
    }

    /// A formatter with the provided separator, or with `:` where none is
    /// provided.
    pub fn new_owned(provided_separator: Option<String>) -> (formatter: Self)
        ensures
            formatter.separator_text() == match provided_separator {
                Some(text) => text@,
                None => default_separator(),
            },
    {
        Self { separator: owned_separator(provided_separator) }
    }

    /// A formatter with the separator `:`.
    pub fn new_default() -> (formatter: Self)
        ensures
            formatter.separator_text() == default_separator(),
    {
        Self::new_owned(None)
    }
}

impl BufferFormatter for UppercaseHexadecimalFormatter {
    closed spec fn separator_text(&self) -> Seq<char> {
        self.separator@
    }

    open spec fn byte_text(&self, byte: u8) -> Seq<char> {
        uppercase_hexadecimal_text(byte)
    }

    #[inline]
    fn get_separator(&self) -> (separator: &str) {
        self.separator.as_str()
    }

    #[inline]
    fn format_byte(&self, byte: &u8) -> (text: String) {
        let mut text = String::new();
        push_padded_numeral(&mut text, *byte, 16, 2, true);
        assert(Seq::<char>::empty() + uppercase_hexadecimal_text(*byte) =~= uppercase_hexadecimal_text(*byte));
        text
    }
}

impl BufferFormatter for Box<UppercaseHexadecimalFormatter> {
    open spec fn separator_text(&self) -> Seq<char> {
        (**self).separator_text()
    }

    open spec fn byte_text(&self, byte: u8) -> Seq<char> {
        (**self).byte_text(byte)
    }

    #[inline]
    fn get_separator(&self) -> (separator: &str) {
        (**self).get_separator()
    }

    #[inline]
    fn format_byte(&self, byte: &u8) -> (text: String) {
        (**self).format_byte(byte)
    }
}

impl Clone for UppercaseHexadecimalFormatter {
    fn clone(&self) -> (copy: Self)
        ensures
            copy.separator_text() == self.separator_text(),
    {
        Self { separator: self.separator.clone() }
    }
}

impl Default for UppercaseHexadecimalFormatter {
    fn default() -> (formatter: Self)
        ensures
            formatter.separator_text() == default_separator(),
    {
        Self::new_default()
    }
}

/// A byte as two hexadecimal digits with lower-case letters: 171 is "ab".
pub open spec fn lowercase_hexadecimal_text(byte: u8) -> Seq<char> {
    padded_numeral(byte as nat, 16, 2, false)
}

/// Renders each byte as two hexadecimal digits, letters in lower case.
#[derive(Debug)]
pub struct LowercaseHexadecimalFormatter {
    separator: String,
}

impl LowercaseHexadecimalFormatter {
    /// A formatter with the provided separator, or with `:` where none is
    /// provided.
    pub fn new(provided_separator: Option<&str>) -> (formatter: Self)
        ensures
            formatter.separator_text() == match provided_separator {
                Some(text) => text@,
                None => default_separator(),
            },
    {
        Self { separator: borrowed_separator(provided_separator) }
    }

    /// A formatter with the provided separator, or with `:` where none is
    /// provided.
    pub fn new_owned(provided_separator: Option<String>) -> (formatter: Self)
        ensures
            formatter.separator_text() == match provided_separator {
                Some(text) => text@,
                None => default_separator(),
            },
    {
        Self { separator: owned_separator(provided_separator) }
    }

    /// A formatter with the separator `:`.
    pub fn new_default() -> (formatter: Self)
        ensures
            formatter.separator_text() == default_separator(),
    {
        Self::new_owned(None)
    }
}

impl BufferFormatter for LowercaseHexadecimalFormatter {
    closed spec fn separator_text(&self) -> Seq<char> {
        self.separator@
    }

    open spec fn byte_text(&self, byte: u8) -> Seq<char> {
        lowercase_hexadecimal_text(byte)
    }

    #[inline]
    fn get_separator(&self) -> (separator: &str) {
        self.separator.as_str()
    }

    #[inline]
    fn format_byte(&self, byte: &u8) -> (text: String) {
        let mut text = String::new();
        push_padded_numeral(&mut text, *byte, 16, 2, false);
        assert(Seq::<char>::empty() + lowercase_hexadecimal_text(*byte) =~= lowercase_hexadecimal_text(*byte));
        text
    }
}

impl BufferFormatter for Box<LowercaseHexadecimalFormatter> {
    open spec fn separator_text(&self) -> Seq<char> {
        (**self).separator_text()
    }

    open spec fn byte_text(&self, byte: u8) -> Seq<char> {
        (**self).byte_text(byte)
    }

    #[inline]
    fn get_separator(&self) -> (separator: &str) {
        (**self).get_separator()
    }

    #[inline]
    fn format_byte(&self, byte: &u8) -> (text: String) {
        (**self).format_byte(byte)
    }
}

impl Clone for LowercaseHexadecimalFormatter {
    fn clone(&self) -> (copy: Self)
        ensures
            copy.separator_text() == self.separator_text(),
    {
        Self { separator: self.separator.clone() }
    }
}

impl Default for LowercaseHexadecimalFormatter {
    fn default() -> (formatter: Self)
        ensures
            formatter.separator_text() == default_separator(),
    {
        Self::new_default()
    }
}

/// A byte as eight binary digits: 57 is "00111001".
pub open spec fn binary_text(byte: u8) -> Seq<char> {
    padded_numeral(byte as nat, 2, 8, false)
}

/// Renders each byte as eight binary digits.
#[derive(Debug)]
pub struct BinaryFormatter {
    separator: String,
}

impl BinaryFormatter {
    /// A formatter with the provided separator, or with `:` where none is
    /// provided.
    pub fn new(provided_separator: Option<&str>) -> (formatter: Self)
        ensures
            formatter.separator_text() == match provided_separator {
                Some(text) => text@,
                None => default_separator(),
            },
    {
        Self { separator: borrowed_separator(provided_separator) }
    }

    /// A formatter with the provided separator, or with `:` where none is
    /// provided.
    pub fn new_owned(provided_separator: Option<String>) -> (formatter: Self)
        ensures
            formatter.separator_text() == match provided_separator {
                Some(text) => text@,
                None => default_separator(),
            },
    {
        Self { separator: owned_separator(provided_separator) }
    }

    /// A formatter with the separator `:`.
    pub fn new_default() -> (formatter: Self)
        ensures
            formatter.separator_text() == default_separator(),
    {
        Self::new_owned(None)
    }
}

impl BufferFormatter for BinaryFormatter {
    closed spec fn separator_text(&self) -> Seq<char> {
        self.separator@
    }

    open spec fn byte_text(&self, byte: u8) -> Seq<char> {
        binary_text(byte)
    }

    #[inline]
    fn get_separator(&self) -> (separator: &str) {
        self.separator.as_str()
    }

    #[inline]
    fn format_byte(&self, byte: &u8) -> (text: String) {
        let mut text = String::new();
        push_padded_numeral(&mut text, *byte, 2, 8, false);
        assert(Seq::<char>::empty() + binary_text(*byte) =~= binary_text(*byte));
        text
    }
}

impl BufferFormatter for Box<BinaryFormatter> {
    open spec fn separator_text(&self) -> Seq<char> {
        (**self).separator_text()
    }

    open spec fn byte_text(&self, byte: u8) -> Seq<char> {
        (**self).byte_text(byte)
    }

    #[inline]
    fn get_separator(&self) -> (separator: &str) {
        (**self).get_separator()
    }

    #[inline]
    fn format_byte(&self, byte: &u8) -> (text: String) {
        (**self).format_byte(byte)
    }
}

impl Clone for BinaryFormatter {
    fn clone(&self) -> (copy: Self)
        ensures
            copy.separator_text() == self.separator_text(),
    {
        Self { separator: self.separator.clone() }
    }
}

impl Default for BinaryFormatter {
    fn default() -> (formatter: Self)
        ensures
            formatter.separator_text() == default_separator(),
    {
        Self::new_default()
    }
}

} // verus!
