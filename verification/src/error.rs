//! The error adapter: turns the driver's error slot into a tagged result.
//!
//! The driver reports a failure by filling an error slot, and the message of
//! the error is read through an accessor of its own. Here that pair of
//! nullable references is a value with three cases, [`ErrorSlot`], and the
//! adapter decides what it means for the caller.

use vstd::prelude::*;

verus! {

/// What a driver call left in its error slot, read out before any further
/// call is made.
///
/// A slot is handed to the adapter by value, so it cannot be consulted for a
/// second call.
#[derive(Debug)]
pub enum ErrorSlot {
    /// The slot is still null: the call succeeded.
    Clear,
    /// The slot holds an error whose message consists of these bytes.
    Message(Vec<u8>),
    /// The slot holds an error whose message could not be read.
    Unreadable,
}

/// `std::string::String::push` appends the character to the end of the
/// string and leaves what was there before it unchanged.
pub assume_specification[ String::push ](s: &mut String, ch: char)
    ensures
        final(s)@ == old(s)@.push(ch),
;

/// The hexadecimal digit, in lower case, of a value below sixteen.
pub open spec fn hex_digit(nibble: u8) -> char {
    "0123456789abcdef"@[nibble as int]
}

/// How one byte of a driver message is written.
///
/// Printable ASCII stands for itself, except for the backslash and the two
/// quotes, which get a backslash in front. Tab, line feed and carriage return
/// are written `\t`, `\n` and `\r`. Every other byte is written `\x` followed
/// by its two hexadecimal digits.
pub open spec fn escape_byte(byte: u8) -> Seq<char> {
    if byte == 0x09 {
        seq!['\\', 't']
    } else if byte == 0x0a {
        seq!['\\', 'n']
    } else if byte == 0x0d {
        seq!['\\', 'r']
    } else if byte == 0x22 || byte == 0x27 || byte == 0x5c {
        seq!['\\', byte as char]
    } else if 0x20 <= byte <= 0x7e {
        seq![byte as char]
    } else {
        seq!['\\', 'x', hex_digit(byte / 16), hex_digit(byte % 16)]
    }
}

/// The bytes of a driver message, each written by [`escape_byte`], in order.
pub open spec fn escape(bytes: Seq<u8>) -> Seq<char> {
    bytes.map_values(|byte: u8| escape_byte(byte)).flatten()
}

/// A message that grows by one byte grows by what that byte is written as.
pub proof fn lemma_escape_push(bytes: Seq<u8>, byte: u8)
    ensures
        escape(bytes.push(byte)) == escape(bytes) + escape_byte(byte),
{
    let written = bytes.map_values(|byte: u8| escape_byte(byte));
    assert(bytes.push(byte).map_values(|byte: u8| escape_byte(byte)) == written.push(
        escape_byte(byte),
    ));
    written.lemma_flatten_push(escape_byte(byte));
}

/// The text under which a driver message is reported: the escaped message
/// between double quotes.
pub open spec fn quoted(bytes: Seq<u8>) -> Seq<char> {
    seq!['"'] + escape(bytes) + seq!['"']
}

/// The text reported for an error whose message could not be read, and for a
/// failure that the driver did not report as one.
pub open spec fn fallback_text() -> Seq<char> {
    "unknown driver error"@
}

/// What a call that returned `value` and left `slot` behind comes to: the
/// value where the slot is clear, the slot's text as the failure otherwise.
pub open spec fn outcome<T>(value: T, slot: ErrorSlot) -> Result<T, Seq<char>> {
    match slot.failure() {
        None => Ok(value),
        Some(text) => Err(text),
    }
}

/// A result with its failure message read as a sequence of characters.
pub open spec fn shown<T>(result: Result<T, String>) -> Result<T, Seq<char>> {
    match result {
        Ok(value) => Ok(value),
        Err(message) => Err(message@),
    }
}

impl ErrorSlot {
    /// The text of the failure that this slot reports, or `None` where it
    /// reports none.
    pub open spec fn failure(self) -> Option<Seq<char>> {
        match self {
            ErrorSlot::Clear => None,
            ErrorSlot::Message(bytes) => Some(quoted(bytes@)),
            ErrorSlot::Unreadable => Some(fallback_text()),
        }
    }

    /// Passes `value` on where the slot is clear, and fails with the slot's
    /// text otherwise.
    pub fn check<T>(self, value: T) -> (result: Result<T, String>)
        ensures
            shown(result) == outcome(value, self),
    {
        match self {
            ErrorSlot::Clear => Ok(value),
            ErrorSlot::Message(bytes) => Err(get_error(bytes.as_slice())),
            ErrorSlot::Unreadable => Err(fallback()),
        }
    }
}

/// The text of a failure whose message could not be read.
pub fn fallback() -> (text: String)
    ensures
        text@ == fallback_text(),
{
    "unknown driver error".to_owned()
}

/// Writes a driver message as the text of a failure.
pub fn get_error(message: &[u8]) -> (text: String)
    ensures
        text@ == quoted(message@),
{
    let mut text = String::new();
    text.push('"');
    let mut done: usize = 0;
    while done < message.len()
        invariant
            done <= message.len(),
            text@ == seq!['"'] + escape(message@.take(done as int)),
        decreases message.len() - done,
    {
        push_escaped(&mut text, message[done]);
        proof {
            assert(message@.take(done + 1) == message@.take(done as int).push(message@[done as int]));
            lemma_escape_push(message@.take(done as int), message@[done as int]);
        }
        done += 1;
    }
    assert(message@.take(done as int) == message@);
    text.push('"');
    text
}

fn push_escaped(text: &mut String, byte: u8)
    ensures
        final(text)@ == old(text)@ + escape_byte(byte),
{
    if byte == 0x09 {
        text.push('\\');
        text.push('t');
    } else if byte == 0x0a {
        text.push('\\');
        text.push('n');
    } else if byte == 0x0d {
        text.push('\\');
        text.push('r');
    } else if byte == 0x22 || byte == 0x27 || byte == 0x5c {
        text.push('\\');
        text.push(byte as char);
    } else if 0x20 <= byte && byte <= 0x7e {
        text.push(byte as char);
    } else {
        text.push('\\');
        text.push('x');
        push_hex_digit(text, byte / 16);
        push_hex_digit(text, byte % 16);
    }
}

fn push_hex_digit(text: &mut String, nibble: u8)
    requires
        nibble < 16,
    ensures
        final(text)@ == old(text)@.push(hex_digit(nibble)),
{
    proof {
        reveal_strlit("0123456789abcdef");
    }
    text.push("0123456789abcdef".get_char(nibble as usize));
}

/// An error that the driver raised never reads as nothing. Its text is the
/// driver's message between quotes where the message could be read, however
/// short the message is, and the fallback text where it could not; and a call
/// that left such an error behind fails with that text, whatever it returned.
pub proof fn lemma_raised_error_has_text<T>(slot: ErrorSlot, value: T)
    requires
        !(slot is Clear),
    ensures
        slot.failure() is Some,
        slot.failure()->Some_0.len() > 0,
        slot matches ErrorSlot::Message(bytes) ==> slot.failure() == Some(quoted(bytes@)),
        slot is Unreadable ==> slot.failure() == Some(fallback_text()),
        outcome(value, slot) == Err::<T, Seq<char>>(slot.failure()->Some_0),
{
    reveal_strlit("unknown driver error");
}

} // verus!
