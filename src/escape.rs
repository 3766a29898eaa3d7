//! The control sequences that a frame is drawn with.

use vstd::prelude::*;

use crate::color::{Color, NamedColor};
use crate::decimal::decimal_chars;

verus! {

/// `ESC [ row ; col H`: put the cursor at one-based `(col, row)`.
pub open spec fn goto_seq(col: nat, row: nat) -> Seq<char> {
    seq!['\x1b', '['] + decimal_chars(row) + seq![';'] + decimal_chars(col) + seq!['H']
}

/// `ESC [ 38 ; 5 ; i m`: foreground from the 256-colour palette.
pub open spec fn fg_indexed_seq(i: nat) -> Seq<char> {
    seq!['\x1b', '[', '3', '8', ';', '5', ';'] + decimal_chars(i) + seq!['m']
}

/// `ESC [ 38 ; 2 ; r ; g ; b m`: true-colour foreground.
pub open spec fn fg_rgb_seq(r: nat, g: nat, b: nat) -> Seq<char> {
    seq!['\x1b', '[', '3', '8', ';', '2', ';'] + decimal_chars(r) + seq![';'] + decimal_chars(g)
        + seq![';'] + decimal_chars(b) + seq!['m']
}

/// `ESC [ 2 J`: clear the whole screen.
pub open spec fn clear_all_seq() -> Seq<char> {
    seq!['\x1b', '[', '2', 'J']
}

/// The palette entry a named colour is drawn with: the default
/// foreground is bright white, the default background black, and dim
/// colours are drawn as the plain ones.
pub open spec fn palette(n: NamedColor) -> u8 {
    match n {
        NamedColor::Black | NamedColor::DimBlack | NamedColor::Background => 0,
        NamedColor::Red | NamedColor::DimRed => 1,
        NamedColor::Green | NamedColor::DimGreen => 2,
        NamedColor::Yellow | NamedColor::DimYellow => 3,
        NamedColor::Blue | NamedColor::DimBlue => 4,
        NamedColor::Magenta | NamedColor::DimMagenta => 5,
        NamedColor::Cyan | NamedColor::DimCyan => 6,
        NamedColor::White | NamedColor::DimWhite | NamedColor::DimForeground => 7,
        NamedColor::BrightBlack => 8,
        NamedColor::BrightRed => 9,
        NamedColor::BrightGreen => 10,
        NamedColor::BrightYellow => 11,
        NamedColor::BrightBlue => 12,
        NamedColor::BrightMagenta => 13,
        NamedColor::BrightCyan => 14,
        NamedColor::BrightWhite
        | NamedColor::Foreground
        | NamedColor::BrightForeground
        | NamedColor::Cursor => 15,
    }
}

/// The sequence that sets the foreground to `c`.
pub open spec fn fg_seq(c: Color) -> Seq<char> {
    match c {
        Color::Named(n) => fg_indexed_seq(palette(n) as nat),
        Color::Indexed(i) => fg_indexed_seq(i as nat),
        Color::Spec(rgb) => fg_rgb_seq(rgb.r as nat, rgb.g as nat, rgb.b as nat),
    }
}

/// Relies on termion's `From<Goto> for String`: `ESC [`, the row, `;`,
/// the column, `H`, both numbers in decimal.
#[verifier::external_body]
fn goto_chars(col: u16, row: u16) -> (r: Vec<char>)
    ensures
        r@ == goto_seq(col as nat, row as nat),
{
    String::from(termion::cursor::Goto(col, row)).chars().collect()
}

/// Relies on termion's `AnsiValue::fg_string`: `ESC [ 38 ; 5 ;`, the index
/// in decimal, `m`.
#[verifier::external_body]
fn fg_indexed_chars(i: u8) -> (r: Vec<char>)
    ensures
        r@ == fg_indexed_seq(i as nat),
{
    termion::color::AnsiValue(i).fg_string().chars().collect()
}

/// Relies on termion's `Rgb::fg_string`: `ESC [ 38 ; 2 ;`, then red, green
/// and blue in decimal separated by `;`, then `m`.
#[verifier::external_body]
fn fg_rgb_chars(r: u8, g: u8, b: u8) -> (out: Vec<char>)
    ensures
        out@ == fg_rgb_seq(r as nat, g as nat, b as nat),
{
    termion::color::Rgb(r, g, b).fg_string().chars().collect()
}

/// Relies on termion's `clear::All`, whose text is `ESC [ 2 J`.
#[verifier::external_body]
fn clear_all_chars() -> (r: Vec<char>)
    ensures
        r@ == clear_all_seq(),
{
    let s: &str = termion::clear::All.as_ref();
    s.chars().collect()
}

/// Appends the sequence that clears the whole screen.
pub fn push_clear_all(out: &mut Vec<char>)
    ensures
        final(out)@ == old(out)@ + clear_all_seq(),
{
    let mut s = clear_all_chars();
    out.append(&mut s);
}

/// The palette entry of a named colour.
pub fn palette_index(n: NamedColor) -> (r: u8)
    ensures
        r == palette(n),
{
    match n {
        NamedColor::Black | NamedColor::DimBlack | NamedColor::Background => 0,
        NamedColor::Red | NamedColor::DimRed => 1,
        NamedColor::Green | NamedColor::DimGreen => 2,
        NamedColor::Yellow | NamedColor::DimYellow => 3,
        NamedColor::Blue | NamedColor::DimBlue => 4,
        NamedColor::Magenta | NamedColor::DimMagenta => 5,
        NamedColor::Cyan | NamedColor::DimCyan => 6,
        NamedColor::White | NamedColor::DimWhite | NamedColor::DimForeground => 7,
        NamedColor::BrightBlack => 8,
        NamedColor::BrightRed => 9,
        NamedColor::BrightGreen => 10,
        NamedColor::BrightYellow => 11,
        NamedColor::BrightBlue => 12,
        NamedColor::BrightMagenta => 13,
        NamedColor::BrightCyan => 14,
        NamedColor::BrightWhite
        | NamedColor::Foreground
        | NamedColor::BrightForeground
        | NamedColor::Cursor => 15,
    }
}

/// Appends the sequence that puts the cursor at one-based `(col, row)`.
pub fn push_goto(out: &mut Vec<char>, col: u16, row: u16)
    ensures
        final(out)@ == old(out)@ + goto_seq(col as nat, row as nat),
{
    let mut s = goto_chars(col, row);
    out.append(&mut s);
}

/// Appends the sequence that sets the foreground to `c`.
pub fn push_fg(out: &mut Vec<char>, c: Color)
    ensures
        final(out)@ == old(out)@ + fg_seq(c),
{
    let mut s = match c {
        Color::Named(n) => fg_indexed_chars(palette_index(n)),
        Color::Indexed(i) => fg_indexed_chars(i),
        Color::Spec(rgb) => fg_rgb_chars(rgb.r, rgb.g, rgb.b),
    };
    out.append(&mut s);
}

} // verus!
