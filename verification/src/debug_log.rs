//! Text of the optional file-based debug log.
//!
//! Opening the log file, the clock and the writes themselves belong to the
//! caller; this module states what each log line holds.
use crate::frame::{decimal_digits, latin1};
use vstd::prelude::*;
use vstd::string::StringExecFns;

verus! {

/// The line appended for message `msg` at `timestamp_ms` milliseconds since
/// the Unix epoch: `[<timestamp>] <msg>` and a newline.
pub open spec fn log_line(timestamp_ms: nat, msg: Seq<char>) -> Seq<char> {
    "["@ + latin1(decimal_digits(timestamp_ms)) + "] "@ + msg + "\n"@
}

/// The message written first when a log file is opened at `path`.
pub open spec fn log_banner(path: Seq<char>) -> Seq<char> {
    "=== copilot-sdk debug log: "@ + path + " ==="@
}

/// Appends the decimal representation of `n`.
fn push_decimal_text(s: &mut String, n: u128)
    ensures
        final(s)@ == old(s)@ + latin1(decimal_digits(n as nat)),
    decreases n,
{
    if n >= 10 {
        push_decimal_text(s, n / 10);
    }
    let digit = (48 + n % 10) as u8;
    s.push(digit as char);
    proof {
        let d = decimal_digits(n as nat);
        if n >= 10 {
            assert(d == decimal_digits((n / 10) as nat).push(digit));
            assert(latin1(d) =~= latin1(decimal_digits((n / 10) as nat)).push(digit as char));
        } else {
            assert(d == seq![digit]);
            assert(latin1(d) =~= seq![digit as char]);
        }
        assert(final(s)@ =~= old(s)@ + latin1(d));
    }
}

/// The line to append for `msg` at `timestamp_ms` milliseconds since the
/// Unix epoch.
pub fn format_log_line(timestamp_ms: u128, msg: &str) -> (line: String)
    ensures
        line@ == log_line(timestamp_ms as nat, msg@),
{
    let mut line = String::from_str("[");
    push_decimal_text(&mut line, timestamp_ms);
    line.append("] ");
    line.append(msg);
    line.append("\n");
    line
}

/// The message written first when a log file is opened at `path`.
pub fn format_log_banner(path: &str) -> (banner: String)
    ensures
        banner@ == log_banner(path@),
{
    let mut banner = String::from_str("=== copilot-sdk debug log: ");
    banner.append(path);
    banner.append(" ===");
    banner
}

} // verus!
