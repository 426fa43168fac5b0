//! Parsing a command string into the rover's discrete commands.

use crate::error::RoverError;
use vstd::prelude::*;
use vstd::string::StrSliceExecFns;

verus! {

/// A single instruction for the rover, parsed from one character.
#[derive(Clone, Copy, PartialEq, Eq, Debug)]
pub enum Command {
    Forward,
    Backward,
    Left,
    Right,
}

/// The command a character stands for: `f`, `b`, `l` or `r`. Every other
/// character, whitespace included, stands for none.
pub open spec fn command_of(c: char) -> Option<Command> {
    if c == 'f' {
        Some(Command::Forward)
    } else if c == 'b' {
        Some(Command::Backward)
    } else if c == 'l' {
        Some(Command::Left)
    } else if c == 'r' {
        Some(Command::Right)
    } else {
        None
    }
}

/// The position of the leftmost character that stands for no command, if any.
pub open spec fn first_invalid(s: Seq<char>) -> Option<int>
    decreases s.len(),
{
    if s.len() == 0 {
        None
    } else if command_of(s[0]) is None {
        Some(0int)
    } else {
        match first_invalid(s.drop_first()) {
            None => None,
            Some(i) => Some(i + 1),
        }
    }
}

/// The commands of a string whose characters are all valid, in input order.
pub open spec fn commands_of(s: Seq<char>) -> Seq<Command> {
    Seq::new(s.len(), |i: int| command_of(s[i])->0)
}

/// A string whose characters are all valid has no first invalid position.
proof fn lemma_first_invalid_none(s: Seq<char>)
    requires
        forall|j: int| 0 <= j < s.len() ==> command_of(s[j]) is Some,
    ensures
        first_invalid(s) is None,
    decreases s.len(),
{
    if s.len() > 0 {
        assert forall|j: int| 0 <= j < s.drop_first().len() implies command_of(
            s.drop_first()[j],
        ) is Some by {
            assert(s.drop_first()[j] == s[j + 1]);
        }
        lemma_first_invalid_none(s.drop_first());
    }
}

/// If the character at `k` is invalid and every character before it is
/// valid, then `k` is the first invalid position.
proof fn lemma_first_invalid_at(s: Seq<char>, k: int)
    requires
        0 <= k < s.len(),
        command_of(s[k]) is None,
        forall|j: int| 0 <= j < k ==> command_of(s[j]) is Some,
    ensures
        first_invalid(s) == Some(k),
    decreases s.len(),
{
    if k > 0 {
        assert(s.drop_first()[k - 1] == s[k]);
        assert forall|j: int| 0 <= j < k - 1 implies command_of(s.drop_first()[j]) is Some by {
            assert(s.drop_first()[j] == s[j + 1]);
        }
        lemma_first_invalid_at(s.drop_first(), k - 1);
    }
}

/// Parses a command string into the commands it spells, in input order, one
/// command per character. On the leftmost character that spells no command,
/// parsing stops at once and the error names that character.
pub fn parse_commands(commands: &str) -> (res: Result<Vec<Command>, RoverError>)
    ensures
        (match first_invalid(commands@) {
            None => res matches Ok(v) && v@ == commands_of(commands@),
            Some(i) => res == Err::<Vec<Command>, RoverError>(
                RoverError::Parse { ch: commands@[i] },
            ),
        }),
{
    let n = commands.unicode_len();
    let mut result: Vec<Command> = Vec::new();
    let mut k: usize = 0;
    while k < n
        invariant
            n == commands@.len(),
            0 <= k <= n,
            result@.len() == k,
            forall|j: int| 0 <= j < k ==> command_of(commands@[j]) is Some,
            forall|j: int| 0 <= j < k ==> result@[j] == command_of(commands@[j])->0,
        decreases n - k,
    {
        let c = commands.get_char(k);
        if c == 'f' {
            result.push(Command::Forward);
        } else if c == 'b' {
            result.push(Command::Backward);
        } else if c == 'l' {
            result.push(Command::Left);
        } else if c == 'r' {
            result.push(Command::Right);
        } else {
            proof {
                lemma_first_invalid_at(commands@, k as int);
            }
            return Err(RoverError::Parse { ch: c });
        }
        k = k + 1;
    }
    proof {
        lemma_first_invalid_none(commands@);
        assert(result@ =~= commands_of(commands@));
    }
    Ok(result)
}

} // verus!
