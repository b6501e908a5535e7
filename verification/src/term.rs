//! The control sequences that the screens send to the terminal.

use crate::style::reset_text;
use crate::text::{append_repeated, append_str, decimal, repeated};
use vstd::prelude::*;

verus! {

/// The sequence that clears the whole screen: escape, `[2J`.
pub open spec fn clear_text() -> Seq<char> {
    seq!['\x1b', '[', '2', 'J']
}

/// The sequence that moves the cursor to column `col` of row `row`, both
/// counted from one: escape, `[`, the row, `;`, the column, `H`.
pub open spec fn goto_text(col: u16, row: u16) -> Seq<char> {
    seq!['\x1b', '['] + decimal(row as nat) + seq![';'] + decimal(col as nat) + seq!['H']
}

/// The sequence that ends every graphic rendition: escape, `[m`.
pub open spec fn style_reset_text() -> Seq<char> {
    seq!['\x1b', '[', 'm']
}

/// `termion::clear::All`, formatted. termion writes the control sequence
/// introducer followed by `2J`.
#[verifier::external_body]
pub(crate) fn clear_all() -> (s: String)
    ensures
        s@ == clear_text(),
{
    format!("{}", termion::clear::All)
}

/// `termion::cursor::Goto`, formatted. termion writes the introducer, the
/// second field (the row), a semicolon, the first field (the column) and `H`,
/// both numbers in decimal. In a debug build it refuses the position (0, 0),
/// which is left out here.
#[verifier::external_body]
pub(crate) fn goto(col: u16, row: u16) -> (s: String)
    requires
        col != 0 || row != 0,
    ensures
        s@ == goto_text(col, row),
{
    format!("{}", termion::cursor::Goto(col, row))
}

/// `termion::style::Reset`, formatted. termion writes the introducer
/// followed by `m`.
#[verifier::external_body]
pub(crate) fn style_reset() -> (s: String)
    ensures
        s@ == style_reset_text(),
{
    format!("{}", termion::style::Reset)
}

/// The largest row or column that a control sequence can address.
pub const MAX_COORDINATE: usize = 0xffff;

/// A row or column as the terminal is told it: positions beyond the largest
/// that can be addressed are that largest one.
pub open spec fn coordinate(n: int) -> u16 {
    if n >= 0xffff {
        0xffffu16
    } else if n < 0 {
        0u16
    } else {
        n as u16
    }
}

/// The row or column `a + b + c`, as the terminal is told it.
pub fn position(a: usize, b: usize, c: usize) -> (at: u16)
    ensures
        at == coordinate(a + b + c),
{
    let a_part: u32 = if a > MAX_COORDINATE {
        0xffff
    } else {
        a as u32
    };
    let b_part: u32 = if b > MAX_COORDINATE {
        0xffff
    } else {
        b as u32
    };
    let c_part: u32 = if c > MAX_COORDINATE {
        0xffff
    } else {
        c as u32
    };
    let sum: u32 = a_part + b_part + c_part;
    if sum > 0xffff {
        0xffff
    } else {
        sum as u16
    }
}

/// Appends to `out` the sequence that clears the screen and the one that
/// puts the cursor in the top left corner.
pub fn append_clear(out: &mut Vec<char>)
    ensures
        final(out)@ == old(out)@ + clear_text() + goto_text(1, 1),
{
    let clear = clear_all();
    append_str(out, clear.as_str());
    append_goto(out, 1, 1);
}

/// Appends to `out` the sequence that moves the cursor to column `col` of
/// row `row`.
pub fn append_goto(out: &mut Vec<char>, col: u16, row: u16)
    requires
        col != 0 || row != 0,
    ensures
        final(out)@ == old(out)@ + goto_text(col, row),
{
    let code = goto(col, row);
    append_str(out, code.as_str());
}

/// Appends to `out` the sequence that ends every graphic rendition.
pub fn append_style_reset(out: &mut Vec<char>)
    ensures
        final(out)@ == old(out)@ + style_reset_text(),
{
    let code = style_reset();
    append_str(out, code.as_str());
}

/// A rule across the screen: `width` box-drawing dashes in dark grey.
pub open spec fn rule_text(width: usize) -> Seq<char> {
    "\x1b[38;5;235m"@ + repeated('\u{2500}', width as nat) + reset_text()
}

/// Appends a rule of `width` dashes to `out`.
pub fn append_rule(out: &mut Vec<char>, width: usize)
    ensures
        final(out)@ == old(out)@ + rule_text(width),
{
    append_str(out, "\x1b[38;5;235m");
    append_repeated(out, '\u{2500}', width);
    out.push('\x1b');
    out.push('[');
    out.push('0');
    out.push('m');
    assert(out@ =~= old(out)@ + rule_text(width));
}

/// The column at which a text of `text_width` characters, with an icon and
/// a space before it, starts so that it stands in the middle of a screen
/// `width` columns wide: half the width less half of the text's width and
/// two, and zero where that would be negative.
pub open spec fn centre_offset(width: usize, text_width: usize) -> nat {
    let half = width as nat / 2;
    let text_half = (text_width as nat + 2) / 2;
    if half >= text_half {
        (half - text_half) as nat
    } else {
        0
    }
}

/// The column at which a centred text starts.
pub fn centre(width: usize, text_width: usize) -> (offset: usize)
    ensures
        offset == centre_offset(width, text_width),
{
    let half: usize = width / 2;
    let text_half: usize = text_width / 2 + 1;
    if half >= text_half {
        half - text_half
    } else {
        0
    }
}

} // verus!
