//! Shared length checks and the text they produce.

use vstd::prelude::*;

use crate::error_types::ValidationError;

verus! {

/// The decimal digits, indexed by their value.
pub open spec fn digits() -> Seq<char> {
    seq!['0', '1', '2', '3', '4', '5', '6', '7', '8', '9']
}

/// The decimal text of a natural number, without leading zeros.
pub open spec fn decimal_text(n: nat) -> Seq<char>
    decreases n,
{
    if n < 10 {
        seq![digits()[n as int]]
    } else {
        decimal_text(n / 10).push(digits()[(n % 10) as int])
    }
}

/// The decimal text of an integer, with a leading `-` when it is negative.
pub open spec fn signed_decimal_text(n: int) -> Seq<char> {
    if n < 0 {
        seq!['-'] + decimal_text((-n) as nat)
    } else {
        decimal_text(n as nat)
    }
}

/// The message of a failed length check against `max_len`.
pub open spec fn length_message(max_len: int) -> Seq<char> {
    "Must be between 1 and "@ + signed_decimal_text(max_len) + " chars"@
}

/// Whether a text holds at least one and at most `max_len` characters.
pub open spec fn within_length(s: Seq<char>, max_len: int) -> bool {
    1 <= s.len() <= max_len
}

fn digit_str(d: u64) -> (r: &'static str)
    requires
        d < 10,
    ensures
        r@ == seq![digits()[d as int]],
{
    proof {
        reveal_strlit("0");
        reveal_strlit("1");
        reveal_strlit("2");
        reveal_strlit("3");
        reveal_strlit("4");
        reveal_strlit("5");
        reveal_strlit("6");
        reveal_strlit("7");
        reveal_strlit("8");
        reveal_strlit("9");
    }
    let r = match d {
        0 => "0",
        1 => "1",
        2 => "2",
        3 => "3",
        4 => "4",
        5 => "5",
        6 => "6",
        7 => "7",
        8 => "8",
        _ => "9",
    };
    assert(r@ =~= seq![digits()[d as int]]);
    r
}

/// The decimal text of `n`.
pub fn decimal(n: u64) -> (r: String)
    ensures
        r@ == decimal_text(n as nat),
    decreases n,
{
    if n < 10 {
        String::from_str(digit_str(n))
    } else {
        let head = decimal(n / 10);
        let r = head.concat(digit_str(n % 10));
        assert(r@ =~= decimal_text(n as nat));
        r
    }
}

/// The decimal text of `n`, with a leading `-` when it is negative.
pub fn signed_decimal(n: i64) -> (r: String)
    ensures
        r@ == signed_decimal_text(n as int),
{
    if n < 0 {
        let magnitude: u64 = (0i128 - n as i128) as u64;
        let digits_text = decimal(magnitude);
        let r = String::from_str("-").concat(digits_text.as_str());
        proof {
            reveal_strlit("-");
        }
        assert(r@ =~= signed_decimal_text(n as int));
        r
    } else {
        decimal(n as u64)
    }
}

/// Checks that `input` holds between 1 and `max_len` characters.
pub fn check_not_empty_and_length_less_than(input: &str, max_len: i64) -> (r: Result<(), ValidationError>)
    ensures
        r is Ok <==> within_length(input@, max_len as int),
        r matches Err(e) ==> e@ == length_message(max_len as int),
{
    let len = input.unicode_len();
    if len == 0 || len as i128 > max_len as i128 {
        let message = String::from_str("Must be between 1 and ")
            .concat(signed_decimal(max_len).as_str())
            .concat(" chars");
        Err(ValidationError::new(message))
    } else {
        Ok(())
    }
}

} // verus!
