//! What goes over the radio: a status as one compact JSON object, its fields
//! in a fixed order.

use crate::calendar::{CalendarInfo, DisplayStatus, Status};
use crate::text::{decimal_text, digit_char, push_decimal};
use vstd::prelude::*;
use vstd::string::StringExecFns;

verus! {

/// The character that writes the hexadecimal digit `d` in lower case.
pub open spec fn hex_char(d: int) -> char {
    if d < 10 {
        digit_char(d)
    } else if d == 10 {
        'a'
    } else if d == 11 {
        'b'
    } else if d == 12 {
        'c'
    } else if d == 13 {
        'd'
    } else if d == 14 {
        'e'
    } else {
        'f'
    }
}

/// What stands for `c` inside a JSON string literal: the quote and the
/// backslash behind a backslash, a control character by its short escape
/// where it has one and as `\u00` and two hexadecimal digits where it has
/// none, and every other character as it is.
pub open spec fn escaped_char(c: char) -> Seq<char> {
    if c == '"' {
        seq!['\\', '"']
    } else if c == '\\' {
        seq!['\\', '\\']
    } else if c == '\u{8}' {
        seq!['\\', 'b']
    } else if c == '\t' {
        seq!['\\', 't']
    } else if c == '\n' {
        seq!['\\', 'n']
    } else if c == '\u{c}' {
        seq!['\\', 'f']
    } else if c == '\r' {
        seq!['\\', 'r']
    } else if (c as int) < 0x20 {
        seq!['\\', 'u', '0', '0', hex_char((c as int) / 16), hex_char((c as int) % 16)]
    } else {
        seq![c]
    }
}

/// `text` with each character as [`escaped_char`] writes it.
pub open spec fn escaped_text(text: Seq<char>) -> Seq<char>
    decreases text.len(),
{
    if text.len() == 0 {
        Seq::empty()
    } else {
        escaped_text(text.drop_last()) + escaped_char(text.last())
    }
}

/// `text` as a JSON string literal: escaped, between quotes.
pub open spec fn json_quoted(text: Seq<char>) -> Seq<char> {
    seq!['"'] + escaped_text(text) + seq!['"']
}

/// Has `serde_json::to_string` write `text` as a JSON string literal.
///
/// Trusted: the result is [`json_quoted`] of `text`. serde_json writes the
/// opening quote, then the text with the bytes below 0x20, the quote and the
/// backslash replaced as its escape table says and all other bytes copied,
/// then the closing quote. It writes into a vector, which never refuses a
/// write, so the error case, for which the empty text would stand, does not
/// arise.
#[verifier::external_body]
fn json_quote(text: &str) -> (out: String)
    ensures
        out@ == json_quoted(text@),
{
    serde_json::to_string(text).unwrap_or_default()
}

/// The word that the display knows a status by.
pub open spec fn status_word(status: Status) -> Seq<char> {
    match status {
        Status::Busy => "Busy"@,
        Status::Free => "Free"@,
        Status::Focus => "Focus"@,
    }
}

/// The text sent for `shown`: `status`, `start_time` as hour and minute,
/// `duration` in five-minute slots and `label`, in this order and without
/// white space.
pub open spec fn wire_text(shown: DisplayStatus) -> Seq<char> {
    "{\"status\":\""@ + status_word(shown.status) + "\",\"start_time\":["@ + decimal_text(
        shown.start_hour as nat,
    ) + ","@ + decimal_text(shown.start_minute as nat) + "],\"duration\":"@ + decimal_text(
        shown.duration_slots as nat,
    ) + ",\"label\":"@ + json_quoted(shown.label) + "}"@
}

impl Status {
    pub fn word(&self) -> (word: &'static str)
        ensures
            word@ == status_word(*self),
    {
        match self {
            Status::Busy => "Busy",
            Status::Free => "Free",
            Status::Focus => "Focus",
        }
    }
}

impl CalendarInfo {
    /// The status as the display reads it; its UTF-8 bytes are the payload of
    /// a write.
    pub fn to_json(&self) -> (text: String)
        ensures
            text@ == wire_text(self@),
    {
        let mut text = String::from_str("{\"status\":\"");
        text.append(self.status.word());
        text.append("\",\"start_time\":[");
        push_decimal(&mut text, self.start_time[0]);
        text.append(",");
        push_decimal(&mut text, self.start_time[1]);
        text.append("],\"duration\":");
        push_decimal(&mut text, self.duration);
        text.append(",\"label\":");
        let label = json_quote(self.label.as_str());
        text.append(label.as_str());
        text.append("}");
        text
    }
}

} // verus!
