use vstd::prelude::*;

use crate::report::{decimal, push_decimal};

verus! {

/// The lowercase form of a text, as Rust's standard library computes it.
pub uninterp spec fn lower_of(s: Seq<char>) -> Seq<char>;

/// Relies on `str::to_lowercase`: its result depends on the characters of
/// the text alone.
#[verifier::external_body]
fn lowercase(s: &str) -> (r: String)
    ensures
        r@ == lower_of(s@),
{
    s.to_lowercase()
}

/// The header written before each diagnostic message: two blank-line
/// breaks, the time in whole seconds since the Unix epoch, then a newline.
pub open spec fn timestamp_text(secs: nat) -> Seq<char> {
    "\n\nTIME SINCE UNIX EPOCH (Seconds u64): "@ + decimal(secs) + "\n"@
}

/// A diagnostic message line: `[Debug][severity][type] message`.
pub open spec fn debug_line_text(severity: Seq<char>, kind: Seq<char>, message: Seq<char>) -> Seq<
    char,
> {
    "[Debug]["@ + severity + "]["@ + kind + "] "@ + message
}

/// The header that precedes a diagnostic message logged `secs` seconds
/// after the Unix epoch.
pub fn timestamp_header(secs: u64) -> (r: String)
    ensures
        r@ == timestamp_text(secs as nat),
{
    let mut s = String::from_str("\n\nTIME SINCE UNIX EPOCH (Seconds u64): ");
    push_decimal(&mut s, secs);
    s.append("\n");
    s
}

/// The line of a diagnostic message whose severity and type names are
/// already in the form they are to appear in; `message` is the message text
/// as it is to appear, quotes included.
pub fn compose_debug_line(severity: &str, kind: &str, message: &str) -> (r: String)
    ensures
        r@ == debug_line_text(severity@, kind@, message@),
{
    let mut s = String::from_str("[Debug][");
    s.append(severity);
    s.append("][");
    s.append(kind);
    s.append("] ");
    s.append(message);
    s
}

/// The line of a diagnostic message, with the severity and type names
/// lowered in case.
pub fn debug_line(severity_name: &str, kind_name: &str, message: &str) -> (r: String)
    ensures
        r@ == debug_line_text(lower_of(severity_name@), lower_of(kind_name@), message@),
{
    let severity = lowercase(severity_name);
    let kind = lowercase(kind_name);
    compose_debug_line(severity.as_str(), kind.as_str(), message)
}

} // verus!
