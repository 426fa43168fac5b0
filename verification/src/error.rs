//! The two ways a simulation can fail, and their human-readable messages.

use vstd::prelude::*;
use vstd::string::StringExecFns;

verus! {

/// Why a simulation call failed.
#[derive(Clone, Copy, PartialEq, Eq, Debug)]
pub enum RoverError {
    /// A character of the command string is not one of `f`, `b`, `l`, `r`.
    /// `ch` is the leftmost such character.
    Parse { ch: char },
    /// A translation would have put the rover on the obstacle at `(x, y)`.
    Collision { x: u8, y: u8 },
}

/// Relies on `String::push`: appends the given character to the end of the
/// string.
pub assume_specification[ String::push ](s: &mut String, ch: char)
    ensures
        final(s)@ == old(s)@.push(ch),
;

/// The decimal digit character for `d`; only digits 0 through 9 are named.
pub open spec fn digit_char(d: int) -> char {
    if d == 0 {
        '0'
    } else if d == 1 {
        '1'
    } else if d == 2 {
        '2'
    } else if d == 3 {
        '3'
    } else if d == 4 {
        '4'
    } else if d == 5 {
        '5'
    } else if d == 6 {
        '6'
    } else if d == 7 {
        '7'
    } else if d == 8 {
        '8'
    } else {
        '9'
    }
}

/// The decimal digits of `n`, most significant first, with no leading zeros.
pub open spec fn dec_chars(n: int) -> Seq<char>
    decreases n,
{
    if n < 10 {
        seq![digit_char(n)]
    } else {
        dec_chars(n / 10).push(digit_char(n % 10))
    }
}

/// The full message text of an error: the offending character followed by
/// ` cannot be parsed`, or `Collision with obstacle in ` followed by the
/// obstacle's coordinates as `x,y`.
pub open spec fn message_view(e: RoverError) -> Seq<char> {
    match e {
        RoverError::Parse { ch } => seq![ch] + " cannot be parsed"@,
        RoverError::Collision { x, y } => "Collision with obstacle in "@ + dec_chars(
            x as int,
        ) + ","@ + dec_chars(y as int),
    }
}

/// The character for the decimal digit `d`.
fn digit_to_char(d: u8) -> (c: char)
    requires
        d < 10,
    ensures
        c == digit_char(d as int),
{
    if d == 0 {
        '0'
    } else if d == 1 {
        '1'
    } else if d == 2 {
        '2'
    } else if d == 3 {
        '3'
    } else if d == 4 {
        '4'
    } else if d == 5 {
        '5'
    } else if d == 6 {
        '6'
    } else if d == 7 {
        '7'
    } else if d == 8 {
        '8'
    } else {
        '9'
    }
}

/// Appends the decimal digits of `n` to `s`.
fn push_decimal(s: &mut String, n: u8)
    ensures
        final(s)@ == old(s)@ + dec_chars(n as int),
{
    if n >= 100 {
        let tens: u8 = n / 10;
        s.push(digit_to_char(tens / 10));
        s.push(digit_to_char(tens % 10));
        s.push(digit_to_char(n % 10));
        proof {
            let ni = n as int;
            assert(dec_chars(ni / 10 / 10) == seq![digit_char(ni / 10 / 10)]);
            assert(dec_chars(ni / 10) == dec_chars(ni / 10 / 10).push(digit_char(ni / 10 % 10)));
            assert(dec_chars(ni) == dec_chars(ni / 10).push(digit_char(ni % 10)));
            assert(s@ =~= old(s)@ + dec_chars(n as int));
        }
    } else if n >= 10 {
        s.push(digit_to_char(n / 10));
        s.push(digit_to_char(n % 10));
        proof {
            let ni = n as int;
            assert(dec_chars(ni / 10) == seq![digit_char(ni / 10)]);
            assert(dec_chars(ni) == dec_chars(ni / 10).push(digit_char(ni % 10)));
            assert(s@ =~= old(s)@ + dec_chars(n as int));
        }
    } else {
        s.push(digit_to_char(n));
        proof {
            assert(s@ =~= old(s)@ + dec_chars(n as int));
        }
    }
}

impl RoverError {
    /// The human-readable message for this error, naming the offending
    /// character or the obstacle's coordinates.
    pub fn message(&self) -> (r: String)
        ensures
            r@ == message_view(*self),
    {
        match self {
            RoverError::Parse { ch } => {
                let mut s = String::new();
                s.push(*ch);
                s.append(" cannot be parsed");
                proof {
                    assert(s@ =~= message_view(*self));
                }
                s
            },
            RoverError::Collision { x, y } => {
                let mut s = String::from_str("Collision with obstacle in ");
                push_decimal(&mut s, *x);
                s.append(",");
                push_decimal(&mut s, *y);
                proof {
                    assert(s@ =~= message_view(*self));
                }
                s
            },
        }
    }
}

} // verus!
