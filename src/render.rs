//! The scroll window: clamping the upper mark and drawing the visible lines.
use vstd::prelude::*;

use crate::line_numbers::LineNumbers;
use crate::text::{push_char, push_str};
use crate::wrap::views;

verus! {

/// The upper mark after clamping: `0` when everything fits on screen,
/// else at most `num_lines - rows`.
pub open spec fn clamp_spec(upper_mark: nat, rows: nat, num_lines: nat) -> nat {
    if num_lines <= rows {
        0
    } else if upper_mark > num_lines - rows {
        (num_lines - rows) as nat
    } else {
        upper_mark
    }
}

/// Clamps `upper_mark` so that the window starting there is full whenever
/// there is enough text, and never passes the end.
pub fn clamp_upper_mark(upper_mark: usize, rows: usize, num_lines: usize) -> (r: usize)
    ensures
        r == clamp_spec(upper_mark as nat, rows as nat, num_lines as nat),
{
    if num_lines <= rows {
        0
    } else if upper_mark > num_lines - rows {
        num_lines - rows
    } else {
        upper_mark
    }
}

/// Clamping twice gives what clamping once gives.
pub proof fn law_clamp_idempotent(upper_mark: nat, rows: nat, num_lines: nat)
    ensures
        clamp_spec(clamp_spec(upper_mark, rows, num_lines), rows, num_lines)
            == clamp_spec(upper_mark, rows, num_lines),
        num_lines > rows ==> clamp_spec(upper_mark, rows, num_lines) + rows <= num_lines,
        num_lines <= rows ==> clamp_spec(upper_mark, rows, num_lines) == 0,
{
}

/// The decimal digit for `d < 10`.
pub open spec fn digit(d: nat) -> char {
    if d == 0 { '0' }
    else if d == 1 { '1' }
    else if d == 2 { '2' }
    else if d == 3 { '3' }
    else if d == 4 { '4' }
    else if d == 5 { '5' }
    else if d == 6 { '6' }
    else if d == 7 { '7' }
    else if d == 8 { '8' }
    else { '9' }
}

/// The decimal notation of `n`, without leading zeros.
pub open spec fn decimal(n: nat) -> Seq<char>
    decreases n,
{
    if n < 10 {
        seq![digit(n)]
    } else {
        decimal(n / 10).push(digit(n % 10))
    }
}

/// `k` spaces.
pub open spec fn spaces(k: nat) -> Seq<char> {
    Seq::new(k, |i: int| ' ')
}

/// `n` in decimal, with spaces on the left up to `width` characters.
pub open spec fn padded(n: nat, width: nat) -> Seq<char> {
    let d = decimal(n);
    if d.len() >= width {
        d
    } else {
        spaces((width - d.len()) as nat) + d
    }
}

/// One drawn line: a carriage return, the number `index + 1` padded to
/// `width` and `". "` when numbers are on, the text, and a newline.
pub open spec fn render_line(text: Seq<char>, index: nat, width: nat, numbered: bool) -> Seq<char> {
    let prefix = if numbered {
        padded(index + 1, width) + seq!['.', ' ']
    } else {
        Seq::<char>::empty()
    };
    seq!['\r'] + prefix + text + seq!['\n']
}

/// The lines `start .. start + count` drawn one after another.
pub open spec fn render_range(lines: Seq<Seq<char>>, start: nat, count: nat, width: nat, numbered: bool) -> Seq<char>
    decreases count,
{
    if count == 0 {
        Seq::empty()
    } else {
        render_range(lines, start, (count - 1) as nat, width, numbered)
            + render_line(lines[start + count - 1], (start + count - 1) as nat, width, numbered)
    }
}

/// How many lines a window of `rows` starting at `upper_mark` shows.
pub open spec fn visible_count(upper_mark: nat, rows: nat, num_lines: nat) -> nat {
    if upper_mark >= num_lines {
        0
    } else if rows < num_lines - upper_mark {
        rows
    } else {
        (num_lines - upper_mark) as nat
    }
}

/// What is drawn for `lines` on `rows` rows from the (already clamped)
/// `upper_mark`; numbers are padded to the width of the largest one.
pub open spec fn render_window(lines: Seq<Seq<char>>, rows: nat, upper_mark: nat, numbered: bool) -> Seq<char> {
    render_range(
        lines,
        upper_mark,
        visible_count(upper_mark, rows, lines.len()),
        decimal(lines.len()).len(),
        numbered,
    )
}

pub proof fn lemma_decimal_len_mono(a: nat, b: nat)
    requires
        a <= b,
    ensures
        decimal(a).len() <= decimal(b).len(),
        decimal(a).len() >= 1,
    decreases b,
{
    if b >= 10 {
        if a >= 10 {
            lemma_decimal_len_mono(a / 10, b / 10);
        } else {
            lemma_decimal_len_mono(b / 10, b / 10);
        }
    }
}

/// Every number of a document of `num_lines` lines is drawn in exactly as
/// many characters as `num_lines` has digits; a document of 110 lines gets
/// numbers of 3 characters.
pub proof fn law_number_padding(n: nat, num_lines: nat)
    requires
        1 <= n <= num_lines,
    ensures
        padded(n, decimal(num_lines).len()).len() == decimal(num_lines).len(),
        decimal(110).len() == 3,
{
    lemma_decimal_len_mono(n, num_lines);
    assert(decimal(1) == seq![digit(1)]);
    assert(decimal(11) == decimal(1).push(digit(1)));
    assert(decimal(110) == decimal(11).push(digit(0)));
}

/// The character of a digit `d < 10`.
fn digit_char(d: usize) -> (c: char)
    requires
        d < 10,
    ensures
        c == digit(d as nat),
{
    if d == 0 { '0' }
    else if d == 1 { '1' }
    else if d == 2 { '2' }
    else if d == 3 { '3' }
    else if d == 4 { '4' }
    else if d == 5 { '5' }
    else if d == 6 { '6' }
    else if d == 7 { '7' }
    else if d == 8 { '8' }
    else { '9' }
}

/// Appends the decimal notation of `n`.
pub fn push_decimal(out: &mut String, n: usize)
    ensures
        final(out)@ == old(out)@ + decimal(n as nat),
    decreases n,
{
    if n >= 10 {
        push_decimal(out, n / 10);
    }
    push_char(out, digit_char(n % 10));
    assert(final(out)@ =~= old(out)@ + decimal(n as nat)) by {
        if n < 10 {
            assert(n % 10 == n);
        }
    }
}

/// The number of decimal digits of `n`.
pub fn digit_count(n: usize) -> (r: usize)
    ensures
        r == decimal(n as nat).len(),
    decreases n,
{
    if n < 10 {
        1
    } else {
        let k = digit_count(n / 10);
        proof { lemma_decimal_len_mono(n as nat / 10, n as nat); }
        proof { lemma_decimal_len_le(n as nat / 10); }
        k + 1
    }
}

pub proof fn lemma_decimal_len_le(n: nat)
    requires
        n >= 1,
    ensures
        decimal(n).len() <= n,
    decreases n,
{
    if n >= 10 {
        lemma_decimal_len_le(n / 10);
    }
}

/// Appends `n` in decimal padded with spaces on the left to `width`.
fn push_padded(out: &mut String, n: usize, width: usize)
    ensures
        final(out)@ == old(out)@ + padded(n as nat, width as nat),
{
    let d = digit_count(n);
    let mut k: usize = d;
    let ghost start = out@;
    while k < width
        invariant
            d == decimal(n as nat).len(),
            d <= k,
            k <= width || k == d,
            out@ == start + spaces((k - d) as nat),
        decreases width - k,
    {
        push_char(out, ' ');
        assert(out@ =~= start + spaces((k + 1 - d) as nat));
        k += 1;
    }
    push_decimal(out, n);
    assert(out@ =~= start + padded(n as nat, width as nat)) by {
        if d >= width {
            assert(spaces(0) =~= Seq::<char>::empty());
        }
    }
}

/// Clamps `upper_mark` (see [`clamp_upper_mark`]) and appends to `out` the
/// visible window of `lines`: each line after a carriage return, numbered
/// when `line_numbers` is on, and followed by a newline.
pub fn write_lines(
    out: &mut String,
    lines: &Vec<String>,
    rows: usize,
    upper_mark: &mut usize,
    line_numbers: LineNumbers,
)
    ensures
        *final(upper_mark) == clamp_spec(*old(upper_mark) as nat, rows as nat, lines@.len()),
        final(out)@ == old(out)@ + render_window(
            views(lines@),
            rows as nat,
            *final(upper_mark) as nat,
            line_numbers.spec_is_on(),
        ),
{
    let n = lines.len();
    let um = clamp_upper_mark(*upper_mark, rows, n);
    *upper_mark = um;
    let numbered = line_numbers.is_on();
    let width = digit_count(n);
    let count: usize = if um >= n {
        0
    } else if rows < n - um {
        rows
    } else {
        n - um
    };
    let ghost start = out@;
    let ghost ls = views(lines@);
    let mut i: usize = 0;
    while i < count
        invariant
            n == lines@.len(),
            ls == views(lines@),
            count == visible_count(um as nat, rows as nat, n as nat),
            um + count <= n,
            i <= count,
            width == decimal(n as nat).len(),
            out@ == start + render_range(ls, um as nat, i as nat, width as nat, numbered),
        decreases count - i,
    {
        let idx = um + i;
        push_char(out, '\r');
        if numbered {
            push_padded(out, idx + 1, width);
            push_char(out, '.');
            push_char(out, ' ');
        }
        push_str(out, lines[idx].as_str());
        push_char(out, '\n');
        assert(ls[idx as int] == lines@[idx as int]@);
        assert(out@ =~= start + render_range(ls, um as nat, (i + 1) as nat, width as nat, numbered));
        i += 1;
    }
}

} // verus!
