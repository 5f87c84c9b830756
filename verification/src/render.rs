//! Drawing the board as text.

use crate::grid::{Cell, Grid};
use vstd::prelude::*;

verus! {

/// The character that stands for the square `(x, y)`: a blank for an empty
/// square, `X` for food, `O` for the snake, and for a wall `-` in the first
/// and the last row and `|` elsewhere.
pub open spec fn glyph(screen: &Grid, x: int, y: int) -> char {
    match screen.at(x, y) {
        Cell::Empty => ' ',
        Cell::Food => 'X',
        Cell::Body => 'O',
        Cell::Wall => if y == 0 || y == screen.height() - 1 {
            '-'
        } else {
            '|'
        },
    }
}

/// Row `y` from left to right, ended by a carriage return and a line feed.
pub open spec fn row_text(screen: &Grid, y: int) -> Seq<char> {
    Seq::new(screen.width() as nat, |x: int| glyph(screen, x, y)) + seq!['\r', '\n']
}

/// The rows `0, .., rows_end - 1`, one after the other.
pub open spec fn rows_text(screen: &Grid, rows_end: int) -> Seq<char>
    decreases rows_end,
{
    if rows_end <= 0 {
        Seq::empty()
    } else {
        rows_text(screen, rows_end - 1) + row_text(screen, rows_end - 1)
    }
}

/// The whole board, row by row from the top.
pub open spec fn frame_text(screen: &Grid) -> Seq<char> {
    rows_text(screen, screen.height() as int)
}

/// The character that stands for the square `(x, y)`.
pub fn cell_glyph(screen: &Grid, x: usize, y: usize) -> (c: char)
    requires
        screen.wf(),
        screen.in_bounds(x as int, y as int),
    ensures
        c == glyph(screen, x as int, y as int),
{
    match screen.get(x, y) {
        Cell::Empty => ' ',
        Cell::Food => 'X',
        Cell::Body => 'O',
        Cell::Wall => if y == 0 || y == screen.height() - 1 {
            '-'
        } else {
            '|'
        },
    }
}

/// Draws the board as text: every row from the top, each from left to
/// right and ended by a carriage return and a line feed.  The board is only
/// read.
pub fn print_screen(screen: &Grid) -> (frame: Vec<char>)
    requires
        screen.wf(),
    ensures
        frame@ == frame_text(screen),
{
    let mut frame: Vec<char> = Vec::new();
    let mut y: usize = 0;
    while y < screen.height()
        invariant
            screen.wf(),
            y <= screen.height(),
            frame@ == rows_text(screen, y as int),
        decreases screen.height() - y,
    {
        let ghost above = frame@;
        let mut x: usize = 0;
        while x < screen.width()
            invariant
                screen.wf(),
                y < screen.height(),
                x <= screen.width(),
                frame@ == above + Seq::new(x as nat, |i: int| glyph(screen, i, y as int)),
            decreases screen.width() - x,
        {
            let c = cell_glyph(screen, x, y);
            frame.push(c);
            x += 1;
        }
        frame.push('\r');
        frame.push('\n');
        y += 1;
    }
    frame
}

/// The character for the digit `d`.
pub open spec fn digit(d: int) -> char {
    if d == 0 {
        '0'
    } else if d == 1 {
        '1'
    } else if d == 2 {
        '2'
    } else if d == 3 {
        '3'
    } else if d == 4 {
        '4'
    } else if d == 5 {
        '5'
    } else if d == 6 {
        '6'
    } else if d == 7 {
        '7'
    } else if d == 8 {
        '8'
    } else {
        '9'
    }
}

/// `n` written in base ten, without leading zeros.
pub open spec fn decimal(n: nat) -> Seq<char>
    decreases n,
{
    if n < 10 {
        seq![digit(n as int)]
    } else {
        decimal(n / 10) + seq![digit((n % 10) as int)]
    }
}

/// The status line: the word `Length`, a colon, a blank, the snake's length
/// in base ten, and a line end.
pub open spec fn status_text(length: nat) -> Seq<char> {
    seq!['L', 'e', 'n', 'g', 't', 'h', ':', ' '] + decimal(length) + seq!['\r', '\n']
}

fn digit_char(d: usize) -> (c: char)
    requires
        d < 10,
    ensures
        c == digit(d as int),
{
    if d == 0 {
        '0'
    } else if d == 1 {
        '1'
    } else if d == 2 {
        '2'
    } else if d == 3 {
        '3'
    } else if d == 4 {
        '4'
    } else if d == 5 {
        '5'
    } else if d == 6 {
        '6'
    } else if d == 7 {
        '7'
    } else if d == 8 {
        '8'
    } else {
        '9'
    }
}

/// Writes `n` in base ten.
pub fn decimal_digits(n: usize) -> (text: Vec<char>)
    ensures
        text@ == decimal(n as nat),
{
    let mut text: Vec<char> = Vec::new();
    text.push(digit_char(n % 10));
    let mut rest: usize = n / 10;
    while rest > 0
        invariant
            decimal(n as nat) == (if rest > 0 {
                decimal(rest as nat)
            } else {
                Seq::empty()
            }) + text@,
        decreases rest,
    {
        let ghost low = text@;
        text.insert(0, digit_char(rest % 10));
        rest = rest / 10;
    }
    text
}

/// Draws a frame: the board as [`print_screen`] draws it, and below it the
/// status line with the snake's length.
pub fn render(screen: &Grid, length: usize) -> (frame: Vec<char>)
    requires
        screen.wf(),
    ensures
        frame@ == frame_text(screen) + status_text(length as nat),
{
    let mut frame = print_screen(screen);
    let ghost board = frame@;
    frame.push('L');
    frame.push('e');
    frame.push('n');
    frame.push('g');
    frame.push('t');
    frame.push('h');
    frame.push(':');
    frame.push(' ');
    let digits = decimal_digits(length);
    let mut i: usize = 0;
    while i < digits.len()
        invariant
            i <= digits.len(),
            frame@ == board + seq!['L', 'e', 'n', 'g', 't', 'h', ':', ' '] + digits@.take(i as int),
        decreases digits.len() - i,
    {
        frame.push(digits[i]);
        i += 1;
    }
    frame.push('\r');
    frame.push('\n');
    frame
}

} // verus!
