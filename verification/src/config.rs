//! What the program is configured with: the window's title and default
//! size, the default speed, and the checks that a size or a number given as
//! text has to pass.

use crate::BLOCK_SIZE;
use vstd::prelude::*;
use vstd::string::*;

verus! {

pub const WINDOW_TITLE: &'static str = "Conway's Game of Life";

pub const DEFAULT_WINDOW_HEIGHT: u32 = 480;

pub const DEFAULT_WINDOW_WIDTH: u32 = 640;

/// Generations per second.
pub const DEFAULT_SPEED: u64 = 2;

/// `c` is one of the digits `0` to `9`.
pub open spec fn is_digit(c: char) -> bool {
    48 <= c as u32 <= 57
}

/// The number that a string of digits writes in base ten.
pub open spec fn digits_value(digits: Seq<char>) -> nat
    decreases digits.len(),
{
    if digits.len() == 0 {
        0
    } else {
        digits_value(digits.drop_last()) * 10 + (digits.last() as u32 - 48) as nat
    }
}

/// The number that `text` writes, if it writes one that a `u32` can hold:
/// digits only, at least one, after at most one `+` in front.
pub open spec fn decimal_u32(text: Seq<char>) -> Option<u32> {
    let digits = if text.len() > 0 && text[0] == '+' {
        text.subrange(1, text.len() as int)
    } else {
        text
    };
    if digits.len() > 0 && (forall|i: int| 0 <= i < digits.len() ==> is_digit(#[trigger] digits[i]))
        && digits_value(digits) <= u32::MAX {
        Some(digits_value(digits) as u32)
    } else {
        None
    }
}

/// `text` writes a size that is made of whole cells.
pub open spec fn valid_size(text: Seq<char>) -> bool {
    decimal_u32(text) matches Some(val) && val as int % BLOCK_SIZE as int == 0
}

/// `str::parse::<u32>`: the number that `text` writes in base ten, or `None`
/// where the standard library reports an error. It takes digits only, at
/// least one, after at most one `+` in front, and refuses a number that
/// does not fit.
#[verifier::external_body]
fn parse_u32(text: &str) -> (number: Option<u32>)
    ensures
        number == decimal_u32(text@),
{
    match text.parse::<u32>() {
        Ok(val) => Some(val),
        Err(_) => None,
    }
}

/// Accepts `valstr` if it writes a width or a height that the grid can be
/// made for: a number that is a multiple of [`BLOCK_SIZE`]. Otherwise the
/// error says what was given and what is expected.
pub fn is_valid_width_or_height(valstr: String) -> (checked: Result<(), String>)
    ensures
        checked is Ok <==> valid_size(valstr@),
        checked matches Err(complaint) ==> complaint@ == valstr@
            + " is not a valid size (must be positive and divisible by 10"@,
{
    if let Some(val) = parse_u32(valstr.as_str()) {
        if val % BLOCK_SIZE as u32 == 0 {
            return Ok(());
        }
    }
    // The complaint names the block size by its digits.
    assert(BLOCK_SIZE == 10);
    Err(valstr.concat(" is not a valid size (must be positive and divisible by 10"))
}

/// Accepts `valstr` if it writes a number. Otherwise the error says what
/// was given.
pub fn is_positive(valstr: String) -> (checked: Result<(), String>)
    ensures
        checked is Ok <==> decimal_u32(valstr@) is Some,
        checked matches Err(complaint) ==> complaint@ == valstr@
            + " is not a valid number (must be positive)"@,
{
    if parse_u32(valstr.as_str()).is_some() {
        Ok(())
    } else {
        Err(valstr.concat(" is not a valid number (must be positive)"))
    }
}

/// The title of the window while the simulation runs, and while it is
/// paused.
pub fn window_title(paused: bool) -> (title: String)
    ensures
        title@ == if paused {
            WINDOW_TITLE@ + " (paused)"@
        } else {
            WINDOW_TITLE@
        },
{
    let title = String::from_str(WINDOW_TITLE);
    if paused {
        title.concat(" (paused)")
    } else {
        title
    }
}

} // verus!
