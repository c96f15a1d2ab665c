//! Pure parsing and validation of operator input.
//!
//! Each line of text the operator supplies is validated here as a plain
//! function from bytes to a result, so the retry loops around the I/O
//! channel carry no logic of their own: they prompt again on any error and
//! never advance the game on invalid input.

use vstd::prelude::*;

use crate::board::Index;
use crate::board::Position;
use crate::error::GameError;

verus! {

/// Whether a byte is an ASCII decimal digit.
pub open spec fn is_digit(b: u8) -> bool {
    48 <= b <= 57
}

/// Whether every byte of the line is an ASCII decimal digit.
pub open spec fn all_digits(s: Seq<u8>) -> bool {
    forall|i: int| 0 <= i < s.len() ==> is_digit(#[trigger] s[i])
}

/// The numeric value of one ASCII decimal digit.
pub open spec fn digit_value(b: u8) -> nat {
    (b - 48) as nat
}

/// The number that a sequence of ASCII decimal digits denotes, most
/// significant digit first.
pub open spec fn digits_value(s: Seq<u8>) -> nat
    decreases s.len(),
{
    if s.len() == 0 {
        0
    } else {
        digits_value(s.drop_last()) * 10 + digit_value(s.last())
    }
}

/// Whether a line is a well-formed decimal number that fits in `usize`:
/// non-empty, digits only, and no larger than `usize::MAX`.
pub open spec fn parses_to_usize(s: Seq<u8>) -> bool {
    s.len() > 0 && all_digits(s) && digits_value(s) <= usize::MAX
}

/// Extending a digit string can only grow the number it denotes: the value
/// of a prefix never exceeds the value of the whole.
pub proof fn lemma_digits_value_take_le(s: Seq<u8>, i: int)
    requires
        0 <= i <= s.len(),
    ensures
        digits_value(s.take(i)) <= digits_value(s),
    decreases s.len() - i,
{
    if i == s.len() {
        assert(s.take(i) =~= s);
    } else {
        assert(s.take(i + 1).drop_last() =~= s.take(i));
        assert(s.take(i + 1).last() == s[i]);
        assert(digits_value(s.take(i + 1)) == digits_value(s.take(i)) * 10 + digit_value(s[i]));
        lemma_digits_value_take_le(s, i + 1);
    }
}

/// Validates one player-name line: after trimming, a name must be
/// non-empty.
pub fn name_is_valid(name: &str) -> (ok: bool)
    ensures
        ok <==> name@.len() > 0,
{
    !name.is_empty()
}

/// Parses a trimmed line as an unsigned decimal number. Succeeds exactly
/// when the line is non-empty, holds digits only, and denotes a number that
/// fits in `usize`; every failure is `MalformedInput`.
pub fn parse_usize(bytes: &[u8]) -> (r: Result<usize, GameError>)
    ensures
        r is Ok <==> parses_to_usize(bytes@),
        r is Ok ==> r->Ok_0 == digits_value(bytes@),
        r is Err ==> r->Err_0 is MalformedInput,
{
    if bytes.len() == 0 {
        return Err(GameError::MalformedInput);
    }
    let mut value: usize = 0;
    let mut i: usize = 0;
    while i < bytes.len()
        invariant
            i <= bytes@.len(),
            all_digits(bytes@.take(i as int)),
            value == digits_value(bytes@.take(i as int)),
        decreases bytes@.len() - i,
    {
        let b = bytes[i];
        if b < 48 || b > 57 {
            return Err(GameError::MalformedInput);
        }
        let digit = (b - 48) as usize;
        proof {
            assert(bytes@.take(i as int + 1).drop_last() =~= bytes@.take(i as int));
            assert(bytes@.take(i as int + 1).last() == bytes@[i as int]);
        }
        let shifted = match value.checked_mul(10) {
            Some(v) => v,
            None => {
                proof {
                    lemma_digits_value_take_le(bytes@, i as int + 1);
                }
                return Err(GameError::MalformedInput);
            },
        };
        let next = match shifted.checked_add(digit) {
            Some(v) => v,
            None => {
                proof {
                    lemma_digits_value_take_le(bytes@, i as int + 1);
                }
                return Err(GameError::MalformedInput);
            },
        };
        value = next;
        i = i + 1;
    }
    proof {
        assert(bytes@.take(i as int) =~= bytes@);
    }
    Ok(value)
}

/// Parses a trimmed line as a positive board size. Succeeds exactly when
/// the line denotes a decimal number in `[1, usize::MAX]`; a zero is
/// rejected like any other malformed input, by prompting again.
pub fn parse_board_size(bytes: &[u8]) -> (r: Result<usize, GameError>)
    ensures
        r is Ok <==> parses_to_usize(bytes@) && digits_value(bytes@) > 0,
        r is Ok ==> r->Ok_0 == digits_value(bytes@),
        r is Err ==> r->Err_0 is MalformedInput,
{
    let value = match parse_usize(bytes) {
        Ok(v) => v,
        Err(e) => {
            return Err(e);
        },
    };
    if value == 0 {
        return Err(GameError::MalformedInput);
    }
    Ok(value)
}

/// Parses a trimmed line as a positive ship count. Succeeds exactly when
/// the line denotes a decimal number in `[1, u32::MAX]`.
pub fn parse_ship_count(bytes: &[u8]) -> (r: Result<u32, GameError>)
    ensures
        r is Ok <==> parses_to_usize(bytes@) && 0 < digits_value(bytes@) <= u32::MAX,
        r is Ok ==> r->Ok_0 == digits_value(bytes@),
        r is Err ==> r->Err_0 is MalformedInput,
{
    let value = match parse_usize(bytes) {
        Ok(v) => v,
        Err(e) => {
            return Err(e);
        },
    };
    if value == 0 {
        return Err(GameError::MalformedInput);
    }
    if value > u32::MAX as usize {
        return Err(GameError::MalformedInput);
    }
    Ok(value as u32)
}

/// Parses a trimmed line as one coordinate, validated against the board
/// size. A line that is not a well-formed number is `MalformedInput`; a
/// number at or beyond the board size is `OutOfBounds`.
pub fn parse_index(bytes: &[u8], board_size: usize) -> (r: Result<Index, GameError>)
    ensures
        r is Ok <==> parses_to_usize(bytes@) && digits_value(bytes@) < board_size,
        r is Ok ==> r->Ok_0@ == digits_value(bytes@),
        !parses_to_usize(bytes@) ==> r is Err && r->Err_0 is MalformedInput,
        parses_to_usize(bytes@) && digits_value(bytes@) >= board_size ==> r is Err && r->Err_0
            is OutOfBounds,
{
    let value = match parse_usize(bytes) {
        Ok(v) => v,
        Err(e) => {
            return Err(e);
        },
    };
    Index::new(value, board_size)
}

/// Parses two trimmed lines as an attack or placement position, both
/// coordinates validated against the same board size. The row line is
/// validated first: its error is reported before the column line is
/// considered.
pub fn parse_position(row_bytes: &[u8], col_bytes: &[u8], board_size: usize) -> (r: Result<
    Position,
    GameError,
>)
    ensures
        r is Ok <==> parses_to_usize(row_bytes@) && digits_value(row_bytes@) < board_size
            && parses_to_usize(col_bytes@) && digits_value(col_bytes@) < board_size,
        r is Ok ==> r->Ok_0.0@ == digits_value(row_bytes@) && r->Ok_0.1@ == digits_value(
            col_bytes@,
        ),
        r is Err ==> (r->Err_0 is MalformedInput || r->Err_0 is OutOfBounds),
{
    let row = match parse_index(row_bytes, board_size) {
        Ok(i) => i,
        Err(e) => {
            return Err(e);
        },
    };
    let col = match parse_index(col_bytes, board_size) {
        Ok(i) => i,
        Err(e) => {
            return Err(e);
        },
    };
    Ok(Position(row, col))
}

} // verus!
