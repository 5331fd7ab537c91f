//! Status-line text: the inline informational lines that interleave with raw
//! device output.
//!
//! Every status line is produced as one complete string, carriage return and
//! line feed included, so the I/O layer can emit it whole before returning
//! to raw pass-through.

use vstd::prelude::*;
use vstd::string::StringExecFns;

verus! {

/// An informational line as the session frames it: a fresh line, the message
/// between starred fences, and a closing line break.
pub open spec fn info_line_spec(msg: Seq<char>) -> Seq<char> {
    "\r\n*** "@ + msg + " ***\r\n"@
}

/// Frames one message as a complete informational status line.
pub fn info_line(msg: &str) -> (r: String)
    ensures
        r@ == info_line_spec(msg@),
{
    let mut s = String::from_str("\r\n*** ");
    s.append(msg);
    s.append(" ***\r\n");
    s
}

/// The decimal digit character for one value.
pub open spec fn digit_char(d: nat) -> char
    recommends
        d < 10,
{
    if d == 0 {
        '0'
    } else if d == 1 {
        '1'
    } else if d == 2 {
        '2'
    } else if d == 3 {
        '3'
    } else if d == 4 {
        '4'
    } else if d == 5 {
        '5'
    } else if d == 6 {
        '6'
    } else if d == 7 {
        '7'
    } else if d == 8 {
        '8'
    } else {
        '9'
    }
}

/// The decimal rendering of a number, most significant digit first, with no
/// leading zeros (a lone zero renders as itself).
pub open spec fn decimal_chars(n: nat) -> Seq<char>
    decreases n,
{
    if n < 10 {
        seq![digit_char(n)]
    } else {
        decimal_chars(n / 10) + seq![digit_char(n % 10)]
    }
}

fn digit_str(d: u32) -> (r: &'static str)
    requires
        d < 10,
    ensures
        r@ == seq![digit_char(d as nat)],
{
    proof {
        reveal_strlit("0");
        reveal_strlit("1");
        reveal_strlit("2");
        reveal_strlit("3");
        reveal_strlit("4");
        reveal_strlit("5");
        reveal_strlit("6");
        reveal_strlit("7");
        reveal_strlit("8");
        reveal_strlit("9");
    }
    let r = if d == 0 {
        "0"
    } else if d == 1 {
        "1"
    } else if d == 2 {
        "2"
    } else if d == 3 {
        "3"
    } else if d == 4 {
        "4"
    } else if d == 5 {
        "5"
    } else if d == 6 {
        "6"
    } else if d == 7 {
        "7"
    } else if d == 8 {
        "8"
    } else {
        "9"
    };
    proof {
        assert(r@ =~= seq![digit_char(d as nat)]);
    }
    r
}

/// Renders a number in decimal.
pub fn decimal_string(n: u32) -> (r: String)
    ensures
        r@ == decimal_chars(n as nat),
    decreases n,
{
    if n < 10 {
        String::from_str(digit_str(n))
    } else {
        let mut s = decimal_string(n / 10);
        s.append(digit_str(n % 10));
        s
    }
}

/// The status line reporting a newly applied baud rate.
pub open spec fn baud_status_spec(rate: u32) -> Seq<char> {
    info_line_spec("Baud rate: "@ + decimal_chars(rate as nat))
}

/// Builds the status line that reports a newly applied baud rate.
pub fn baud_status_line(rate: u32) -> (r: String)
    ensures
        r@ == baud_status_spec(rate),
{
    let mut msg = String::from_str("Baud rate: ");
    let digits = decimal_string(rate);
    msg.append(digits.as_str());
    info_line(msg.as_str())
}

/// The help text: a fresh line followed by one framed line per command.
pub open spec fn help_text_spec() -> Seq<char> {
    "\r\n"@ + info_line_spec("Available commands - All prefixed by C-a"@) + info_line_spec(
        "C-u: Increase baudrate"@,
    ) + info_line_spec("C-d: Decrease baudrate"@) + info_line_spec(
        "C-x: Print characters below X as <HEX>"@,
    ) + info_line_spec("C-h: Show commands (this)"@) + info_line_spec("C-q: Quit rscom"@)
}

/// Builds the whole help text as one string.
pub fn help_text() -> (r: String)
    ensures
        r@ == help_text_spec(),
{
    let mut s = String::from_str("\r\n");
    let l1 = info_line("Available commands - All prefixed by C-a");
    s.append(l1.as_str());
    let l2 = info_line("C-u: Increase baudrate");
    s.append(l2.as_str());
    let l3 = info_line("C-d: Decrease baudrate");
    s.append(l3.as_str());
    let l4 = info_line("C-x: Print characters below X as <HEX>");
    s.append(l4.as_str());
    let l5 = info_line("C-h: Show commands (this)");
    s.append(l5.as_str());
    let l6 = info_line("C-q: Quit rscom");
    s.append(l6.as_str());
    proof {
        assert(s@ =~= help_text_spec());
    }
    s
}

/// The prompt shown on entering hex-threshold entry.
pub fn hex_prompt() -> (r: &'static str)
    ensures
        r@ == "\r\n*** Type Hex value - Finish with enter: "@,
{
    "\r\n*** Type Hex value - Finish with enter: "
}

/// The status line reporting a rejected hex-threshold entry.
pub fn hex_error_line() -> (r: String)
    ensures
        r@ == info_line_spec("Invalid hex value - threshold unchanged"@),
{
    info_line("Invalid hex value - threshold unchanged")
}

} // verus!
