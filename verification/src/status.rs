//! The content of a record's status file: the child's exit code rendered as
//! a decimal number followed by a newline, and the line the status query
//! prints back for it.

use vstd::prelude::*;
use crate::text::push_char;
use crate::text::trim;
use crate::text::trimmed;
use crate::text::is_space_char;

verus! {

/// The character for a single decimal digit.
pub open spec fn digit_char(d: int) -> char {
    if d == 0 {
        '0'
    } else if d == 1 {
        '1'
    } else if d == 2 {
        '2'
    } else if d == 3 {
        '3'
    } else if d == 4 {
        '4'
    } else if d == 5 {
        '5'
    } else if d == 6 {
        '6'
    } else if d == 7 {
        '7'
    } else if d == 8 {
        '8'
    } else {
        '9'
    }
}

/// The decimal rendering, without leading zeros, of a number an exit code
/// can take.
pub open spec fn dec_rep(n: int) -> Seq<char> {
    if n < 10 {
        seq![digit_char(n)]
    } else if n < 100 {
        seq![digit_char(n / 10), digit_char(n % 10)]
    } else {
        seq![digit_char(n / 100), digit_char((n / 10) % 10), digit_char(n % 10)]
    }
}

/// The exit code a record stores for a finished child process: the code
/// itself when the process exited with one in the 0 to 255 range, and 255
/// when no well-defined code is available (the process was terminated by a
/// signal).
pub open spec fn stored_exit_code(code: Option<i32>) -> int {
    match code {
        Some(c) => if 0 <= c <= 255 {
            c as int
        } else {
            255
        },
        None => 255,
    }
}

/// Maps a child's reported exit code to the one its record stores.
pub fn recorded_exit_code(code: Option<i32>) -> (r: u8)
    ensures
        r as int == stored_exit_code(code),
{
    match code {
        Some(c) => if 0 <= c && c <= 255 {
            c as u8
        } else {
            255
        },
        None => 255,
    }
}

/// The character for a single decimal digit.
fn digit(d: u8) -> (c: char)
    requires
        d < 10,
    ensures
        c == digit_char(d as int),
{
    if d == 0 {
        '0'
    } else if d == 1 {
        '1'
    } else if d == 2 {
        '2'
    } else if d == 3 {
        '3'
    } else if d == 4 {
        '4'
    } else if d == 5 {
        '5'
    } else if d == 6 {
        '6'
    } else if d == 7 {
        '7'
    } else if d == 8 {
        '8'
    } else {
        '9'
    }
}

/// Returns the full content of a record's status file for an exit code:
/// the code in decimal followed by a newline.
pub fn status_content(code: u8) -> (r: String)
    ensures
        r@ == dec_rep(code as int).push('\n'),
{
    let mut r = String::new();
    if code >= 100 {
        push_char(&mut r, digit(code / 100));
        push_char(&mut r, digit((code / 10) % 10));
        push_char(&mut r, digit(code % 10));
    } else if code >= 10 {
        push_char(&mut r, digit(code / 10));
        push_char(&mut r, digit(code % 10));
    } else {
        push_char(&mut r, digit(code));
    }
    push_char(&mut r, '\n');
    proof {
        assert(r@ =~= dec_rep(code as int).push('\n'));
    }
    r
}

/// Returns the line the status query prints for a status file's content:
/// the content trimmed of surrounding whitespace, with a newline appended.
pub fn status_message(content: &str) -> (r: String)
    ensures
        r@ == trimmed(content@).push('\n'),
{
    let mut r = trim(content);
    push_char(&mut r, '\n');
    r
}

/// No decimal digit is a whitespace character.
proof fn lemma_digit_not_space(d: int)
    ensures
        !is_space_char(digit_char(d)),
{
}

/// After recording an exit code, the status query prints back exactly the
/// stored content: the decimal code followed by one newline. Rendering the
/// code, trimming the result, and appending a newline round-trips.
pub proof fn lemma_status_roundtrip(code: u8)
    ensures
        trimmed(dec_rep(code as int).push('\n')).push('\n') == dec_rep(code as int).push('\n'),
{
    let d = dec_rep(code as int);
    let s = d.push('\n');
    lemma_digit_not_space(code as int);
    lemma_digit_not_space(code as int / 10);
    lemma_digit_not_space(code as int / 100);
    lemma_digit_not_space((code as int / 10) % 10);
    lemma_digit_not_space(code as int % 10);
    crate::text::lemma_trim_front_subrange(s, 0);
    assert(s.subrange(0, s.len() as int) =~= s);
    crate::text::lemma_trim_back_subrange(s, d.len() as int);
    assert(s.subrange(0, d.len() as int) =~= d);
}

} // verus!
