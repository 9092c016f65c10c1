//! A hex/ASCII dump of a byte buffer, sixteen bytes to the line.
//!
//! Each line holds the offset of its first byte as at least eight upper-case
//! hex digits and a space; sixteen cells of a space and two hex digits, blank
//! where the buffer has ended; two spaces; and between two bars one
//! character for each byte of the line, the byte itself where it is
//! printable ASCII and a dot where it is not. The dump is ASCII text, given
//! as bytes.

use vstd::prelude::*;

verus! {

/// Bytes shown on one line.
pub const BYTES_PER_LINE: usize = 16;

/// Fewest digits of the offset at the start of a line.
pub const OFFSET_WIDTH: usize = 8;

/// The upper-case hex digit for a value below sixteen.
pub open spec fn hex_digit(d: int) -> u8
    recommends
        0 <= d < 16,
{
    if d < 10 {
        (0x30 + d) as u8
    } else {
        (0x41 + d - 10) as u8
    }
}

/// `n` in upper-case hex, padded with zeros on the left to `width` digits.
pub open spec fn hex_number(n: nat, width: nat) -> Seq<u8>
    decreases n, width,
{
    if n < 16 && width <= 1 {
        seq![hex_digit(n as int)]
    } else {
        hex_number(n / 16, if width > 0 { (width - 1) as nat } else { 0 }) + seq![
            hex_digit((n % 16) as int),
        ]
    }
}

/// The character that stands for a byte in the text column.
pub open spec fn shown(b: u8) -> u8 {
    if 0x20 <= b <= 0x7E {
        b
    } else {
        0x2E
    }
}

/// The hex cell for position `at` of `buf`: blank behind the buffer's end.
pub open spec fn hex_cell(buf: Seq<u8>, at: int) -> Seq<u8> {
    if 0 <= at < buf.len() {
        seq![0x20u8, hex_digit(buf[at] as int / 16), hex_digit(buf[at] as int % 16)]
    } else {
        seq![0x20u8, 0x20u8, 0x20u8]
    }
}

/// The first `count` hex cells of the line that starts at `pos`.
pub open spec fn hex_cells(buf: Seq<u8>, pos: int, count: nat) -> Seq<u8>
    decreases count,
{
    if count == 0 {
        Seq::empty()
    } else {
        hex_cells(buf, pos, (count - 1) as nat) + hex_cell(buf, pos + count - 1)
    }
}

/// The text cell for position `at` of `buf`: nothing behind the buffer's end.
pub open spec fn text_cell(buf: Seq<u8>, at: int) -> Seq<u8> {
    if 0 <= at < buf.len() {
        seq![shown(buf[at])]
    } else {
        Seq::empty()
    }
}

/// The first `count` text cells of the line that starts at `pos`.
pub open spec fn text_cells(buf: Seq<u8>, pos: int, count: nat) -> Seq<u8>
    decreases count,
{
    if count == 0 {
        Seq::empty()
    } else {
        text_cells(buf, pos, (count - 1) as nat) + text_cell(buf, pos + count - 1)
    }
}

/// The line of the dump that starts at position `pos` of `buf`.
pub open spec fn dump_line(buf: Seq<u8>, pos: nat) -> Seq<u8> {
    hex_number(pos, OFFSET_WIDTH as nat) + seq![0x20u8] + hex_cells(
        buf,
        pos as int,
        BYTES_PER_LINE as nat,
    ) + seq![0x20u8, 0x20u8, 0x7Cu8] + text_cells(buf, pos as int, BYTES_PER_LINE as nat)
        + seq![0x7Cu8, 0x0Au8]
}

/// The number of lines in the dump of a buffer of `len` bytes.
pub open spec fn line_count(len: nat) -> nat {
    len / 16 + if len % 16 == 0 { 0nat } else { 1nat }
}

/// The first `lines` lines of the dump of `buf`.
pub open spec fn dump_lines(buf: Seq<u8>, lines: nat) -> Seq<u8>
    decreases lines,
{
    if lines == 0 {
        Seq::empty()
    } else {
        dump_lines(buf, (lines - 1) as nat) + dump_line(buf, ((lines - 1) * 16) as nat)
    }
}

/// The whole dump of `buf`.
pub open spec fn dump(buf: Seq<u8>) -> Seq<u8> {
    dump_lines(buf, line_count(buf.len()))
}

/// The upper-case hex digit for `d`.
fn hex_digit_of(d: u8) -> (c: u8)
    requires
        d < 16,
    ensures
        c == hex_digit(d as int),
{
    if d < 10 {
        0x30 + d
    } else {
        0x41 + (d - 10)
    }
}

/// Appends `n` in upper-case hex, zero-padded to `width` digits.
fn push_hex_number(out: &mut Vec<u8>, n: usize, width: usize)
    ensures
        final(out)@ == old(out)@ + hex_number(n as nat, width as nat),
    decreases n, width,
{
    if n >= 16 || width > 1 {
        let rest: usize = if width > 0 { width - 1 } else { 0 };
        push_hex_number(out, n / 16, rest);
    }
    out.push(hex_digit_of((n % 16) as u8));
    assert(out@ =~= old(out)@ + hex_number(n as nat, width as nat));
}

/// Appends the sixteen hex cells of the line that starts at `pos`.
fn push_hex_cells(out: &mut Vec<u8>, buf: &[u8], pos: usize)
    requires
        pos < buf@.len(),
    ensures
        final(out)@ == old(out)@ + hex_cells(buf@, pos as int, BYTES_PER_LINE as nat),
{
    let len: usize = buf.len();
    let present: usize = len - pos;
    let mut i: usize = 0;
    while i < BYTES_PER_LINE
        invariant
            i <= BYTES_PER_LINE,
            pos < buf@.len(),
            len == buf@.len(),
            present == len - pos,
            out@ == old(out)@ + hex_cells(buf@, pos as int, i as nat),
        decreases BYTES_PER_LINE - i,
    {
        let ghost before = out@;
        if i < present {
            let b: u8 = buf[pos + i];
            out.push(0x20);
            out.push(hex_digit_of(b / 16));
            out.push(hex_digit_of(b % 16));
        } else {
            out.push(0x20);
            out.push(0x20);
            out.push(0x20);
        }
        assert(out@ =~= before + hex_cell(buf@, pos + i));
        i += 1;
        assert(out@ =~= old(out)@ + hex_cells(buf@, pos as int, i as nat));
    }
}

/// Appends the text column of the line that starts at `pos`.
fn push_text_cells(out: &mut Vec<u8>, buf: &[u8], pos: usize)
    requires
        pos < buf@.len(),
    ensures
        final(out)@ == old(out)@ + text_cells(buf@, pos as int, BYTES_PER_LINE as nat),
{
    let len: usize = buf.len();
    let present: usize = len - pos;
    let mut i: usize = 0;
    while i < BYTES_PER_LINE
        invariant
            i <= BYTES_PER_LINE,
            pos < buf@.len(),
            len == buf@.len(),
            present == len - pos,
            out@ == old(out)@ + text_cells(buf@, pos as int, i as nat),
        decreases BYTES_PER_LINE - i,
    {
        let ghost before = out@;
        if i < present {
            let b: u8 = buf[pos + i];
            if b >= 0x20 && b <= 0x7E {
                out.push(b);
            } else {
                out.push(0x2E);
            }
        }
        assert(out@ =~= before + text_cell(buf@, pos + i));
        i += 1;
        assert(out@ =~= old(out)@ + text_cells(buf@, pos as int, i as nat));
    }
}

/// Appends to `out` the line of the dump of `buf` that starts at `pos`.
pub fn push_dump_line(out: &mut Vec<u8>, buf: &[u8], pos: usize)
    requires
        pos < buf@.len(),
    ensures
        final(out)@ == old(out)@ + dump_line(buf@, pos as nat),
{
    push_hex_number(out, pos, OFFSET_WIDTH);
    out.push(0x20);
    push_hex_cells(out, buf, pos);
    out.push(0x20);
    out.push(0x20);
    out.push(0x7C);
    push_text_cells(out, buf, pos);
    out.push(0x7C);
    out.push(0x0A);
    assert(out@ =~= old(out)@ + dump_line(buf@, pos as nat));
}

/// The hex/ASCII dump of `buf`: one line for every sixteen bytes begun, and
/// nothing for an empty buffer.
pub fn hexdump(buf: &[u8]) -> (text: Vec<u8>)
    ensures
        text@ == dump(buf@),
{
    let mut text: Vec<u8> = Vec::new();
    let len: usize = buf.len();
    let lines: usize = len / 16 + if len % 16 == 0 { 0 } else { 1 };
    let mut line: usize = 0;
    while line < lines
        invariant
            line <= lines,
            len == buf@.len(),
            lines == line_count(len as nat),
            text@ == dump_lines(buf@, line as nat),
        decreases lines - line,
    {
        push_dump_line(&mut text, buf, line * 16);
        line += 1;
    }
    text
}

/// A byte that can stand in a dump: printable ASCII or a line feed.
pub open spec fn is_text_byte(b: u8) -> bool {
    b == 0x0A || 0x20 <= b <= 0x7E
}

/// Every byte of `s` can stand in a dump.
pub open spec fn is_text(s: Seq<u8>) -> bool {
    forall|i: int| 0 <= i < s.len() ==> is_text_byte(#[trigger] s[i])
}

/// The digits of a number are text.
proof fn lemma_hex_number_is_text(n: nat, width: nat)
    ensures
        is_text(hex_number(n, width)),
    decreases n, width,
{
    if !(n < 16 && width <= 1) {
        lemma_hex_number_is_text(n / 16, if width > 0 { (width - 1) as nat } else { 0 });
    }
}

/// Hex cells are text.
proof fn lemma_hex_cells_are_text(buf: Seq<u8>, pos: int, count: nat)
    ensures
        is_text(hex_cells(buf, pos, count)),
    decreases count,
{
    if count > 0 {
        lemma_hex_cells_are_text(buf, pos, (count - 1) as nat);
        assert(is_text(hex_cell(buf, pos + count - 1)));
    }
}

/// Text cells are text.
proof fn lemma_text_cells_are_text(buf: Seq<u8>, pos: int, count: nat)
    ensures
        is_text(text_cells(buf, pos, count)),
    decreases count,
{
    if count > 0 {
        lemma_text_cells_are_text(buf, pos, (count - 1) as nat);
        assert(is_text(text_cell(buf, pos + count - 1)));
    }
}

/// Any number of lines of a dump is text.
proof fn lemma_dump_lines_are_text(buf: Seq<u8>, lines: nat)
    ensures
        is_text(dump_lines(buf, lines)),
    decreases lines,
{
    if lines > 0 {
        let pos = ((lines - 1) * 16) as nat;
        lemma_dump_lines_are_text(buf, (lines - 1) as nat);
        lemma_hex_number_is_text(pos, OFFSET_WIDTH as nat);
        lemma_hex_cells_are_text(buf, pos as int, BYTES_PER_LINE as nat);
        lemma_text_cells_are_text(buf, pos as int, BYTES_PER_LINE as nat);
        assert(is_text(dump_line(buf, pos)));
    }
}

/// A dump is plain text whatever the buffer holds: each of its bytes is
/// printable ASCII or a line feed.
pub proof fn lemma_dump_is_text(buf: Seq<u8>)
    ensures
        is_text(dump(buf)),
{
    lemma_dump_lines_are_text(buf, line_count(buf.len()));
}

} // verus!
