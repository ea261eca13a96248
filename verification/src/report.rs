//! The messages for what goes wrong while frames are decoded and drawn.

use vstd::prelude::*;

verus! {

/// The character of a decimal digit.
pub open spec fn digit_char(d: nat) -> char {
    if d == 0 {
        '0'
    } else if d == 1 {
        '1'
    } else if d == 2 {
        '2'
    } else if d == 3 {
        '3'
    } else if d == 4 {
        '4'
    } else if d == 5 {
        '5'
    } else if d == 6 {
        '6'
    } else if d == 7 {
        '7'
    } else if d == 8 {
        '8'
    } else {
        '9'
    }
}

/// The decimal digits of `n` as characters, without leading zeros.
pub open spec fn decimal_text(n: nat) -> Seq<char>
    decreases n,
{
    if n < 10 {
        seq![digit_char(n)]
    } else {
        decimal_text(n / 10).push(digit_char(n % 10))
    }
}

/// How a frame is named in a message: a single frame by the media file
/// itself, one of several by its index, their count and the file.
pub open spec fn frame_label_text(index: nat, count: nat, file: Seq<char>) -> Seq<char> {
    if count == 1 {
        file
    } else {
        "frame "@ + decimal_text(index) + "/"@ + decimal_text(count) + " of "@ + file
    }
}

/// The message for a frame that cannot be decoded.
pub open spec fn decode_failure_text(index: nat, count: nat, file: Seq<char>, cause: Seq<char>) -> Seq<char> {
    "Unable to decode "@ + frame_label_text(index, count, file) + ": "@ + cause
}

/// The message for a cell that cannot be written out.
pub open spec fn flush_failure_text(x: nat, y: nat, cause: Seq<char>) -> Seq<char> {
    "\nFailed to print image at ("@ + decimal_text(x) + ", "@ + decimal_text(y) + "): "@ + cause
}

fn digit_text(d: u64) -> (text: &'static str)
    requires
        d < 10,
    ensures
        text@ == seq![digit_char(d as nat)],
{
    proof {
        reveal_strlit("0");
        reveal_strlit("1");
        reveal_strlit("2");
        reveal_strlit("3");
        reveal_strlit("4");
        reveal_strlit("5");
        reveal_strlit("6");
        reveal_strlit("7");
        reveal_strlit("8");
        reveal_strlit("9");
    }
    let text = if d == 0 {
        "0"
    } else if d == 1 {
        "1"
    } else if d == 2 {
        "2"
    } else if d == 3 {
        "3"
    } else if d == 4 {
        "4"
    } else if d == 5 {
        "5"
    } else if d == 6 {
        "6"
    } else if d == 7 {
        "7"
    } else if d == 8 {
        "8"
    } else {
        "9"
    };
    assert(text@ =~= seq![digit_char(d as nat)]);
    text
}

/// Appends the decimal digits of `n` to `out`.
pub fn push_number(out: &mut String, n: u64)
    ensures
        final(out)@ == old(out)@ + decimal_text(n as nat),
    decreases n,
{
    if n >= 10 {
        push_number(out, n / 10);
    }
    out.append(digit_text(n % 10));
    assert(out@ =~= old(out)@ + decimal_text(n as nat));
}

/// How frame `index` of `count` frames of `file` is named in a message.
pub fn frame_label(index: usize, count: usize, file: &str) -> (label: String)
    ensures
        label@ == frame_label_text(index as nat, count as nat, file@),
{
    if count == 1 {
        String::from_str(file)
    } else {
        let mut label = String::from_str("frame ");
        push_number(&mut label, index as u64);
        label.append("/");
        push_number(&mut label, count as u64);
        label.append(" of ");
        label.append(file);
        label
    }
}

/// The message for frame `index` of `count` frames of `file` that cannot be
/// decoded, for the reason given.
pub fn decode_failure(index: usize, count: usize, file: &str, cause: &str) -> (message: String)
    ensures
        message@ == decode_failure_text(index as nat, count as nat, file@, cause@),
{
    let mut message = String::from_str("Unable to decode ");
    let label = frame_label(index, count, file);
    message.append(label.as_str());
    message.append(": ");
    message.append(cause);
    message
}

/// The message for the cell at `(x, y)` that cannot be written out, for the
/// reason given.
pub fn flush_failure(x: u32, y: u32, cause: &str) -> (message: String)
    ensures
        message@ == flush_failure_text(x as nat, y as nat, cause@),
{
    let mut message = String::from_str("\nFailed to print image at (");
    push_number(&mut message, x as u64);
    message.append(", ");
    push_number(&mut message, y as u64);
    message.append("): ");
    message.append(cause);
    message
}

} // verus!
