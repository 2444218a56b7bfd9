//! Text of the startup crash report written by the panic hook.

use vstd::prelude::*;

use crate::text::{decimal, push_decimal};

verus! {

pub const UNKNOWN_PAYLOAD: &'static str = "<non-string panic payload>";
pub const UNKNOWN_LOCATION: &'static str = "<unknown>";

/// `file:line:column` of a panic location.
pub fn location_text(file: &str, line: u32, column: u32) -> (r: String)
    ensures
        r@ == file@ + ":"@ + decimal(line as nat) + ":"@ + decimal(column as nat),
{
    let mut r = file.to_owned();
    r.append(":");
    push_decimal(&mut r, line as u64);
    r.append(":");
    push_decimal(&mut r, column as u64);
    r
}

/// The panic message: the payload text when it is a string, a placeholder
/// otherwise.
pub fn payload_text(payload: Option<&str>) -> (r: String)
    ensures
        r@ == match payload {
            Some(p) => p@,
            None => UNKNOWN_PAYLOAD@,
        },
{
    match payload {
        Some(p) => p.to_owned(),
        None => UNKNOWN_PAYLOAD.to_owned(),
    }
}

/// The crash report: timestamp, message, location (or a placeholder) and
/// backtrace, followed by a blank line.
pub fn panic_report(timestamp: &str, message: &str, location: Option<&str>, backtrace: &str) -> (r:
    String)
    ensures
        r@ == "["@ + timestamp@ + "] PANIC: "@ + message@ + "\nLocation: "@ + match location {
            Some(l) => l@,
            None => UNKNOWN_LOCATION@,
        } + "\nBacktrace:\n"@ + backtrace@ + "\n\n"@,
{
    let mut r = "[".to_owned();
    r.append(timestamp);
    r.append("] PANIC: ");
    r.append(message);
    r.append("\nLocation: ");
    match location {
        Some(l) => r.append(l),
        None => r.append(UNKNOWN_LOCATION),
    }
    r.append("\nBacktrace:\n");
    r.append(backtrace);
    r.append("\n\n");
    r
}

} // verus!
