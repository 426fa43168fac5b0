//! Applying commands to the rover and running a whole simulation.

use crate::command::commands_of;
use crate::command::first_invalid;
use crate::command::parse_commands;
use crate::command::Command;
use crate::error::RoverError;
use crate::rover::left_of;
use crate::rover::right_of;
use crate::rover::wrap_dec;
use crate::rover::wrap_inc;
use crate::rover::Direction;
use crate::rover::Position;
use crate::rover::Rover;
use vstd::prelude::*;

verus! {

/// The candidate state after one command, before any collision check.
/// Forward moves one step along the heading, Backward one step against it,
/// both with wraparound; Left and Right turn in place.
pub open spec fn apply_command(r: Rover, c: Command) -> Rover {
    match c {
        Command::Forward => (match r.direction {
            Direction::East => (Rover {
                position: (wrap_inc(r.position.0), r.position.1),
                direction: r.direction,
            }),
            Direction::West => (Rover {
                position: (wrap_dec(r.position.0), r.position.1),
                direction: r.direction,
            }),
            Direction::North => (Rover {
                position: (r.position.0, wrap_inc(r.position.1)),
                direction: r.direction,
            }),
            Direction::South => (Rover {
                position: (r.position.0, wrap_dec(r.position.1)),
                direction: r.direction,
            }),
        }),
        Command::Backward => (match r.direction {
            Direction::East => (Rover {
                position: (wrap_dec(r.position.0), r.position.1),
                direction: r.direction,
            }),
            Direction::West => (Rover {
                position: (wrap_inc(r.position.0), r.position.1),
                direction: r.direction,
            }),
            Direction::North => (Rover {
                position: (r.position.0, wrap_dec(r.position.1)),
                direction: r.direction,
            }),
            Direction::South => (Rover {
                position: (r.position.0, wrap_inc(r.position.1)),
                direction: r.direction,
            }),
        }),
        Command::Left => (Rover { position: r.position, direction: left_of(r.direction) }),
        Command::Right => (Rover { position: r.position, direction: right_of(r.direction) }),
    }
}

/// Whether a command moves the rover rather than turning it in place. Only
/// a translation can collide: a turn never changes the position.
pub open spec fn is_translation(c: Command) -> bool {
    c is Forward || c is Backward
}

/// The outcome of one command against the obstacle set: a turn always
/// succeeds; a translation whose target square holds an obstacle fails with
/// the unchanged old state and an error naming that obstacle.
pub open spec fn step_result(r: Rover, c: Command, obstacles: Seq<Position>) -> Result<
    Rover,
    (Rover, RoverError),
> {
    let next = apply_command(r, c);
    if is_translation(c) && obstacles.contains(next.position) {
        Err((r, RoverError::Collision { x: next.position.0, y: next.position.1 }))
    } else {
        Ok(next)
    }
}

/// The outcome of a command sequence applied left to right, stopping at the
/// first collision with the state just before the failing command.
pub open spec fn run_commands(r: Rover, cmds: Seq<Command>, obstacles: Seq<Position>) -> Result<
    Rover,
    (Rover, RoverError),
>
    decreases cmds.len(),
{
    if cmds.len() == 0 {
        Ok(r)
    } else {
        match step_result(r, cmds[0], obstacles) {
            Ok(next) => run_commands(next, cmds.drop_first(), obstacles),
            Err(e) => Err(e),
        }
    }
}

/// Whether `p` is one of the obstacle positions.
fn find_obstacle(obstacles: &Vec<Position>, p: Position) -> (hit: bool)
    ensures
        hit == obstacles@.contains(p),
{
    let mut k: usize = 0;
    while k < obstacles.len()
        invariant
            0 <= k <= obstacles@.len(),
            forall|j: int| 0 <= j < k ==> obstacles@[j] != p,
        decreases obstacles@.len() - k,
    {
        let q = obstacles[k];
        if q.0 == p.0 && q.1 == p.1 {
            return true;
        }
        k = k + 1;
    }
    false
}

/// Applies one command to the rover. A turn always succeeds; a translation
/// succeeds unless the target square holds an obstacle, in which case the
/// rover stays where it was and the error names the obstacle's coordinates.
pub fn compute_command(rover: &Rover, command: Command, obstacles: &Vec<Position>) -> (res: Result<
    Rover,
    (Rover, RoverError),
>)
    ensures
        res == step_result(*rover, command, obstacles@),
{
    let result = match command {
        Command::Forward => (match rover.direction {
            Direction::East => rover.update_x_position(rover.position.0.wrapping_add(1)),
            Direction::West => rover.update_x_position(rover.position.0.wrapping_sub(1)),
            Direction::North => rover.update_y_position(rover.position.1.wrapping_add(1)),
            Direction::South => rover.update_y_position(rover.position.1.wrapping_sub(1)),
        }),
        Command::Backward => (match rover.direction {
            Direction::East => rover.update_x_position(rover.position.0.wrapping_sub(1)),
            Direction::West => rover.update_x_position(rover.position.0.wrapping_add(1)),
            Direction::North => rover.update_y_position(rover.position.1.wrapping_sub(1)),
            Direction::South => rover.update_y_position(rover.position.1.wrapping_add(1)),
        }),
        Command::Left => (match rover.direction {
            Direction::East => rover.update_direction(Direction::North),
            Direction::West => rover.update_direction(Direction::South),
            Direction::North => rover.update_direction(Direction::West),
            Direction::South => rover.update_direction(Direction::East),
        }),
        Command::Right => (match rover.direction {
            Direction::East => rover.update_direction(Direction::South),
            Direction::West => rover.update_direction(Direction::North),
            Direction::North => rover.update_direction(Direction::East),
            Direction::South => rover.update_direction(Direction::West),
        }),
    };
    let translated = match command {
        Command::Forward | Command::Backward => true,
        Command::Left | Command::Right => false,
    };
    if translated && find_obstacle(obstacles, result.position) {
        Err((*rover, RoverError::Collision { x: result.position.0, y: result.position.1 }))
    } else {
        Ok(result)
    }
}

/// Runs the whole simulation. A parse error aborts it before any movement
/// and returns the initial rover untouched; a collision aborts the rest of
/// the sequence and returns the state just before the failing command; on
/// full success the final state is returned.
pub fn mars_rover(rover: &Rover, commands: &str, obstacles: &Vec<Position>) -> (res: Result<
    Rover,
    (Rover, RoverError),
>)
    ensures
        (match first_invalid(commands@) {
            Some(i) => res == Err::<Rover, (Rover, RoverError)>(
                (*rover, RoverError::Parse { ch: commands@[i] }),
            ),
            None => res == run_commands(*rover, commands_of(commands@), obstacles@),
        }),
{
    let cmds = match parse_commands(commands) {
        Ok(cmds) => cmds,
        Err(e) => {
            return Err((*rover, e));
        },
    };
    let mut current: Rover = *rover;
    let mut k: usize = 0;
    proof {
        assert(cmds@.skip(0) =~= cmds@);
    }
    while k < cmds.len()
        invariant
            cmds@ == commands_of(commands@),
            first_invalid(commands@) is None,
            0 <= k <= cmds@.len(),
            run_commands(*rover, cmds@, obstacles@) == run_commands(
                current,
                cmds@.skip(k as int),
                obstacles@,
            ),
        decreases cmds@.len() - k,
    {
        proof {
            assert(cmds@.skip(k as int)[0] == cmds@[k as int]);
            assert(cmds@.skip(k as int).drop_first() =~= cmds@.skip(k as int + 1));
        }
        let cmd = cmds[k];
        match compute_command(&current, cmd, obstacles) {
            Ok(next) => {
                current = next;
            },
            Err(e) => {
                return Err(e);
            },
        }
        k = k + 1;
    }
    proof {
        assert(cmds@.skip(cmds@.len() as int) =~= Seq::<Command>::empty());
    }
    Ok(current)
}

} // verus!
