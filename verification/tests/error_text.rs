//! The error adapter and the text of a failure.

use libsweep::error::{fallback, get_error};
use libsweep::ErrorSlot;

#[test]
fn clear_slot_passes_the_value_on() {
    assert_eq!(ErrorSlot::Clear.check(42), Ok(42));
    assert_eq!(ErrorSlot::Clear.check(()), Ok(()));
}

#[test]
fn raised_slot_fails_with_the_quoted_message() {
    let slot = ErrorSlot::Message(b"Device not found".to_vec());
    assert_eq!(slot.check(42), Err(String::from("\"Device not found\"")));
}

#[test]
fn unreadable_slot_fails_with_the_fallback() {
    assert_eq!(ErrorSlot::Unreadable.check(42), Err(String::from("unknown driver error")));
    assert_eq!(fallback(), "unknown driver error");
}

#[test]
fn empty_message_is_still_a_text() {
    assert_eq!(get_error(b""), "\"\"");
    let result = ErrorSlot::Message(Vec::new()).check(0);
    assert_eq!(result, Err(String::from("\"\"")));
    assert!(!result.unwrap_err().is_empty());
}

#[test]
fn plain_message_is_quoted() {
    assert_eq!(get_error(b"Unable to open serial port"), "\"Unable to open serial port\"");
    assert_eq!(get_error(b" ~"), "\" ~\"");
}

#[test]
fn control_characters_are_escaped() {
    assert_eq!(get_error(b"a\tb\nc\rd"), "\"a\\tb\\nc\\rd\"");
    assert_eq!(get_error(&[0x00, 0x01, 0x1f, 0x7f]), "\"\\x00\\x01\\x1f\\x7f\"");
}

#[test]
fn quotes_and_backslash_are_escaped() {
    assert_eq!(get_error(b"say \"hi\""), "\"say \\\"hi\\\"\"");
    assert_eq!(get_error(b"it's"), "\"it\\'s\"");
    assert_eq!(get_error(b"C:\\dev"), "\"C:\\\\dev\"");
}

#[test]
fn bytes_beyond_ascii_are_written_in_hexadecimal() {
    assert_eq!(get_error(&[0x80, 0x9d, 0xab, 0xff]), "\"\\x80\\x9d\\xab\\xff\"");
    assert_eq!(get_error("é".as_bytes()), "\"\\xc3\\xa9\"");
}

#[test]
fn escaping_keeps_the_order_of_the_bytes() {
    assert_eq!(get_error(b"\n1\\2\xfe3"), "\"\\n1\\\\2\\xfe3\"");
}

#[test]
fn every_byte_is_written_as_its_ascii_escape() {
    for byte in 0..=u8::MAX {
        let message = [byte];
        assert_eq!(get_error(&message), format!("\"{}\"", message.escape_ascii()));
    }
    let message = b"Failed to open \"/dev/ttyUSB0\": No such file or directory (os error 2)\n";
    assert_eq!(get_error(message), format!("\"{}\"", message.escape_ascii()));
}
