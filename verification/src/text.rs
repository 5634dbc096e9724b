//! Sequences of characters: joining parts with a separator, counting the
//! tokens a separator delimits, and writing numbers in a given base.

use vstd::prelude::*;

verus! {

/// `String::push` appends the given character to the end of the string.
pub assume_specification[ String::push ](s: &mut String, ch: char)
    ensures
        final(s)@ == old(s)@.push(ch),
;

/// The parts in order, with the separator between each two neighbours and
/// nowhere else.
pub open spec fn join(parts: Seq<Seq<char>>, separator: Seq<char>) -> Seq<char>
    decreases parts.len(),
{
    if parts.len() == 0 {
        Seq::empty()
    } else if parts.len() == 1 {
        parts[0]
    } else {
        parts[0] + separator + join(parts.skip(1), separator)
    }
}

/// How many tokens `text` falls into when it is cut at every occurrence of
/// `separator`, found from the left and without overlap. A text that holds
/// no separator is one token.
pub open spec fn token_count(text: Seq<char>, separator: Seq<char>) -> nat
    decreases text.len(),
{
    if separator.len() == 0 || text.len() < separator.len() {
        1
    } else if text.take(separator.len() as int) == separator {
        1 + token_count(text.skip(separator.len() as int), separator)
    } else {
        token_count(text.skip(1), separator)
    }
}

/// No character of `separator` occurs in `text`.
pub open spec fn free_of(text: Seq<char>, separator: Seq<char>) -> bool {
    forall|i: int, j: int|
        0 <= i < text.len() && 0 <= j < separator.len() ==> text[i] != separator[j]
}

/// Joining one more part appends the separator and the part, or the part
/// alone when it is the first.
pub proof fn lemma_join_push(parts: Seq<Seq<char>>, last: Seq<char>, separator: Seq<char>)
    ensures
        join(parts.push(last), separator) == if parts.len() == 0 {
            last
        } else {
            join(parts, separator) + separator + last
        },
    decreases parts.len(),
{
    let all = parts.push(last);
    if parts.len() == 0 {
        assert(all[0] == last);
    } else if parts.len() == 1 {
        assert(all.skip(1) =~= seq![last]);
        assert(join(all.skip(1), separator) == last);
        assert(all[0] == parts[0]);
    } else {
        assert(all.skip(1) =~= parts.skip(1).push(last));
        lemma_join_push(parts.skip(1), last, separator);
        assert(all[0] == parts[0]);
        assert(parts[0] + separator + (join(parts.skip(1), separator) + separator + last)
            =~= (parts[0] + separator + join(parts.skip(1), separator)) + separator + last);
    }
}

/// A token that holds no character of the separator, followed by the
/// separator and more text, counts for one token more than what follows.
pub proof fn lemma_token_then_separator(
    token: Seq<char>,
    rest: Seq<char>,
    separator: Seq<char>,
)
    requires
        separator.len() > 0,
        free_of(token, separator),
    ensures
        token_count(token + separator + rest, separator) == 1 + token_count(rest, separator),
    decreases token.len(),
{
    let text = token + separator + rest;
    let n = separator.len() as int;
    if token.len() == 0 {
        assert(text.take(n) =~= separator);
        assert(text.skip(n) =~= rest);
    } else {
        assert(text.take(n)[0] == token[0]);
        assert(text.take(n) != separator);
        assert(text.skip(1) =~= token.skip(1) + separator + rest);
        lemma_token_then_separator(token.skip(1), rest, separator);
    }
}

/// A text that holds no character of the separator is a single token.
pub proof fn lemma_single_token(token: Seq<char>, separator: Seq<char>)
    requires
        free_of(token, separator),
    ensures
        token_count(token, separator) == 1,
    decreases token.len(),
{
    let n = separator.len() as int;
    if separator.len() == 0 || token.len() < separator.len() {
    } else {
        assert(token.take(n)[0] == token[0]);
        assert(token.take(n) != separator);
        lemma_single_token(token.skip(1), separator);
    }
}

/// Joined parts that all avoid the separator's characters fall into as many
/// tokens as there are parts.
pub proof fn lemma_join_token_count(parts: Seq<Seq<char>>, separator: Seq<char>)
    requires
        parts.len() > 0,
        separator.len() > 0,
        forall|i: int| 0 <= i < parts.len() ==> free_of(#[trigger] parts[i], separator),
    ensures
        token_count(join(parts, separator), separator) == parts.len(),
    decreases parts.len(),
{
    if parts.len() == 1 {
        lemma_single_token(parts[0], separator);
    } else {
        let rest = parts.skip(1);
        assert forall|i: int| 0 <= i < rest.len() implies free_of(
            #[trigger] rest[i],
            separator,
        ) by {
            assert(rest[i] == parts[i + 1]);
        }
        lemma_join_token_count(rest, separator);
        lemma_token_then_separator(parts[0], join(rest, separator), separator);
    }
}

/// The character for a digit below sixteen, with letters for ten to fifteen
/// in the chosen case.
pub open spec fn digit_of(digit: int, upper: bool) -> char {
    if digit < 10 {
        ('0' as int + digit) as char
    } else if upper {
        ('A' as int + digit - 10) as char
    } else {
        ('a' as int + digit - 10) as char
    }
}

/// The numeral of `value` in the given base with exactly `width` digits,
/// most significant first: higher digits are cut off, missing ones are zero.
pub open spec fn padded_numeral(value: nat, base: nat, width: nat, upper: bool) -> Seq<char>
    decreases width,
{
    if width == 0 || base == 0 {
        Seq::empty()
    } else {
        padded_numeral(value / base, base, (width - 1) as nat, upper).push(
            digit_of((value % base) as int, upper),
        )
    }
}

/// The decimal numeral of `value` without leading zeros.
pub open spec fn decimal_numeral(value: nat) -> Seq<char>
    decreases value,
{
    if value < 10 {
        seq![digit_of(value as int, false)]
    } else {
        decimal_numeral(value / 10).push(digit_of((value % 10) as int, false))
    }
}

/// The character for one digit.
pub fn digit_char(digit: u8, upper: bool) -> (ch: char)
    requires
        digit < 16,
    ensures
        ch == digit_of(digit as int, upper),
{
    match digit {
        0 => '0',
        1 => '1',
        2 => '2',
        3 => '3',
        4 => '4',
        5 => '5',
        6 => '6',
        7 => '7',
        8 => '8',
        9 => '9',
        10 => if upper { 'A' } else { 'a' },
        11 => if upper { 'B' } else { 'b' },
        12 => if upper { 'C' } else { 'c' },
        13 => if upper { 'D' } else { 'd' },
        14 => if upper { 'E' } else { 'e' },
        _ => if upper { 'F' } else { 'f' },
    }
}

/// Appends the fixed-width numeral of `value` to `out`.
pub fn push_padded_numeral(out: &mut String, value: u8, base: u8, width: u8, upper: bool)
    requires
        2 <= base <= 16,
    ensures
        final(out)@ == old(out)@ + padded_numeral(value as nat, base as nat, width as nat, upper),
    decreases width,
{
    if width > 0 {
        push_padded_numeral(out, value / base, base, width - 1, upper);
        out.push(digit_char(value % base, upper));
        assert(out@ =~= old(out)@ + padded_numeral(
            value as nat,
            base as nat,
            width as nat,
            upper,
        ));
    } else {
        assert(old(out)@ + Seq::<char>::empty() =~= old(out)@);
    }
}

/// Appends the decimal numeral of `value` to `out`.
pub fn push_decimal_numeral(out: &mut String, value: u8)
    ensures
        final(out)@ == old(out)@ + decimal_numeral(value as nat),
    decreases value,
{
    if value >= 10 {
        push_decimal_numeral(out, value / 10);
    }
    out.push(digit_char(value % 10, false));
    assert(out@ =~= old(out)@ + decimal_numeral(value as nat));
}

} // verus!
