//! Terminal text: decimal numbers and cursor movements, as bytes.

use crossterm::cursor::{MoveDown, MoveTo, MoveToColumn, MoveUp};
use crossterm::Command;
use vstd::prelude::*;

verus! {

/// The escape byte that opens every control sequence.
pub const ESCAPE: u8 = 0x1b;

/// The bracket that follows the escape byte.
pub const BRACKET: u8 = 0x5b;

/// The separator between the parameters of a control sequence.
pub const SEMICOLON: u8 = 0x3b;

/// The digit zero.
pub const ZERO: u8 = 0x30;

/// The decimal digits of `n`, most significant first, without leading zeros.
pub open spec fn decimal(n: nat) -> Seq<u8>
    decreases n,
{
    if n < 10 {
        seq![(ZERO + n) as u8]
    } else {
        decimal(n / 10).push((ZERO + n % 10) as u8)
    }
}

/// A control sequence with one parameter.
pub open spec fn control(parameter: Seq<u8>, command: u8) -> Seq<u8> {
    seq![ESCAPE, BRACKET] + parameter + seq![command]
}

/// The sequence that moves the cursor up by `lines`.
pub open spec fn up_text(lines: u16) -> Seq<u8> {
    control(decimal(lines as nat), 0x41)
}

/// The sequence that moves the cursor down by `lines`.
pub open spec fn down_text(lines: u16) -> Seq<u8> {
    control(decimal(lines as nat), 0x42)
}

/// The sequence that moves the cursor to `column`, counted from zero.
pub open spec fn column_text(column: u16) -> Seq<u8> {
    control(decimal((column + 1) as nat), 0x47)
}

/// The sequence that moves the cursor to `column` of `row`, both counted from zero.
pub open spec fn position_text(column: u16, row: u16) -> Seq<u8> {
    control(decimal((row + 1) as nat) + seq![SEMICOLON] + decimal((column + 1) as nat), 0x48)
}

/// The sequence that ends a row of cells: one line down, then to the first column.
pub open spec fn line_break_text() -> Seq<u8> {
    down_text(1) + column_text(0)
}

/// The sequence that returns to the top left of a drawing region of `rows` lines.
pub open spec fn rewind_text(rows: u16) -> Seq<u8> {
    column_text(0) + up_text(rows)
}

/// Appends the decimal digits of `n` to `out`.
pub fn push_decimal(out: &mut Vec<u8>, n: u32)
    ensures
        final(out)@ == old(out)@ + decimal(n as nat),
    decreases n,
{
    if n >= 10 {
        push_decimal(out, n / 10);
    }
    let digit: u8 = (n % 10) as u8;
    out.push(ZERO + digit);
    proof {
        if n >= 10 {
            assert(final(out)@ =~= old(out)@ + decimal(n as nat));
        } else {
            assert(final(out)@ =~= old(out)@ + decimal(n as nat));
        }
    }
}

/// Appends every byte of `more` to `out`.
pub fn push_all(out: &mut Vec<u8>, more: &Vec<u8>)
    ensures
        final(out)@ == old(out)@ + more@,
{
    let mut i: usize = 0;
    while i < more.len()
        invariant
            i <= more.len(),
            out@ == old(out)@ + more@.subrange(0, i as int),
        decreases more.len() - i,
    {
        out.push(more[i]);
        i = i + 1;
        assert(out@ =~= old(out)@ + more@.subrange(0, i as int));
    }
    assert(more@.subrange(0, more.len() as int) =~= more@);
}

/// Writes crossterm's `MoveUp` in its ANSI form: escape, bracket, the count
/// in decimal, `A`.
#[verifier::external_body]
fn move_up(lines: u16) -> (text: Vec<u8>)
    ensures
        text@ == up_text(lines),
{
    let mut text = String::new();
    let _ = MoveUp(lines).write_ansi(&mut text);
    text.into_bytes()
}

/// Writes crossterm's `MoveDown` in its ANSI form: escape, bracket, the count
/// in decimal, `B`.
#[verifier::external_body]
fn move_down(lines: u16) -> (text: Vec<u8>)
    ensures
        text@ == down_text(lines),
{
    let mut text = String::new();
    let _ = MoveDown(lines).write_ansi(&mut text);
    text.into_bytes()
}

/// Writes crossterm's `MoveToColumn` in its ANSI form: escape, bracket, the
/// column plus one in decimal, `G`. The last column is left out, for which
/// the crate's increment overflows.
#[verifier::external_body]
fn move_to_column(column: u16) -> (text: Vec<u8>)
    requires
        column < u16::MAX,
    ensures
        text@ == column_text(column),
{
    let mut text = String::new();
    let _ = MoveToColumn(column).write_ansi(&mut text);
    text.into_bytes()
}

/// Writes crossterm's `MoveTo` in its ANSI form: escape, bracket, the row
/// plus one, a semicolon, the column plus one, `H`. The last row and column
/// are left out, for which the crate's increments overflow.
#[verifier::external_body]
fn move_to(column: u16, row: u16) -> (text: Vec<u8>)
    requires
        column < u16::MAX,
        row < u16::MAX,
    ensures
        text@ == position_text(column, row),
{
    let mut text = String::new();
    let _ = MoveTo(column, row).write_ansi(&mut text);
    text.into_bytes()
}

/// The bytes that end a row of cells.
pub fn line_break() -> (text: Vec<u8>)
    ensures
        text@ == line_break_text(),
{
    let mut text = move_down(1);
    let column = move_to_column(0);
    push_all(&mut text, &column);
    text
}

/// The bytes that return the cursor to the top left of a drawing region of
/// `rows` lines, from the line below it.
pub fn rewind(rows: u16) -> (text: Vec<u8>)
    ensures
        text@ == rewind_text(rows),
{
    let mut text = move_to_column(0);
    let up = move_up(rows);
    push_all(&mut text, &up);
    text
}

/// The bytes that return the cursor to the top left of a freshly reserved
/// drawing region of `rows` lines; the count wraps at sixteen bits.
pub fn region_rewind(rows: u32) -> (text: Vec<u8>)
    ensures
        text@ == rewind_text((rows % 0x1_0000) as u16),
{
    rewind((rows % 0x1_0000) as u16)
}

/// The bytes that put the cursor at `column` of `row`, or nothing where the
/// terminal cannot address that position.
pub fn reposition(column: u16, row: u16) -> (text: Vec<u8>)
    ensures
        column < u16::MAX && row < u16::MAX ==> text@ == position_text(column, row),
        !(column < u16::MAX && row < u16::MAX) ==> text@ == Seq::<u8>::empty(),
{
    if column < u16::MAX && row < u16::MAX {
        move_to(column, row)
    } else {
        Vec::new()
    }
}

} // verus!
