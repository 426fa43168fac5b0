//! General laws of the simulation, stated over its mathematical model.

use crate::command::commands_of;
use crate::command::first_invalid;
use crate::command::Command;
use crate::error::RoverError;
use crate::rover::Position;
use crate::rover::Rover;
use crate::simulate::apply_command;
use crate::simulate::run_commands;
use crate::simulate::step_result;
use vstd::prelude::*;

verus! {

/// Simulating an empty command string leaves any rover unchanged and
/// succeeds, whatever the obstacles: parsing yields no commands, and no
/// command is applied.
pub proof fn lemma_empty_command_string(r: Rover, s: Seq<char>, obstacles: Seq<Position>)
    requires
        s.len() == 0,
    ensures
        first_invalid(s) is None,
        run_commands(r, commands_of(s), obstacles) == Ok::<Rover, (Rover, RoverError)>(r),
{
    assert(commands_of(s).len() == 0);
}

/// A simulation that starts off every obstacle and succeeds never ends on
/// one: every translation is checked before its new state is kept, and a
/// turn stays on the same square.
pub proof fn lemma_success_avoids_obstacles(
    r: Rover,
    cmds: Seq<Command>,
    obstacles: Seq<Position>,
    end: Rover,
)
    requires
        !obstacles.contains(r.position),
        run_commands(r, cmds, obstacles) == Ok::<Rover, (Rover, RoverError)>(end),
    ensures
        !obstacles.contains(end.position),
    decreases cmds.len(),
{
    if cmds.len() > 0 {
        match step_result(r, cmds[0], obstacles) {
            Ok(next) => {
                lemma_success_avoids_obstacles(next, cmds.drop_first(), obstacles, end);
            },
            Err(_) => {
            },
        }
    }
}

/// Moving forward and then backward over an empty obstacle set returns any
/// rover to its starting position with its heading unchanged.
pub proof fn lemma_forward_then_backward(r: Rover)
    ensures
        run_commands(r, seq![Command::Forward, Command::Backward], Seq::<Position>::empty())
            == Ok::<Rover, (Rover, RoverError)>(r),
{
    let obs = Seq::<Position>::empty();
    let cmds = seq![Command::Forward, Command::Backward];
    let r1 = apply_command(r, Command::Forward);
    let r2 = apply_command(r1, Command::Backward);
    assert(cmds.drop_first() =~= seq![Command::Backward]);
    assert(seq![Command::Backward].drop_first() =~= Seq::<Command>::empty());
    assert(run_commands(r, cmds, obs) == run_commands(r1, seq![Command::Backward], obs));
    assert(run_commands(r1, seq![Command::Backward], obs) == run_commands(
        r2,
        Seq::<Command>::empty(),
        obs,
    ));
    assert(r2 == r);
}

/// Four left turns over an empty obstacle set return any rover to its
/// original heading without moving it.
pub proof fn lemma_four_lefts(r: Rover)
    ensures
        run_commands(
            r,
            seq![Command::Left, Command::Left, Command::Left, Command::Left],
            Seq::<Position>::empty(),
        ) == Ok::<Rover, (Rover, RoverError)>(r),
{
    let obs = Seq::<Position>::empty();
    let c = Command::Left;
    let cmds = seq![c, c, c, c];
    let r1 = apply_command(r, c);
    let r2 = apply_command(r1, c);
    let r3 = apply_command(r2, c);
    let r4 = apply_command(r3, c);
    assert(cmds.drop_first() =~= seq![c, c, c]);
    assert(seq![c, c, c].drop_first() =~= seq![c, c]);
    assert(seq![c, c].drop_first() =~= seq![c]);
    assert(seq![c].drop_first() =~= Seq::<Command>::empty());
    assert(run_commands(r, cmds, obs) == run_commands(r1, seq![c, c, c], obs));
    assert(run_commands(r1, seq![c, c, c], obs) == run_commands(r2, seq![c, c], obs));
    assert(run_commands(r2, seq![c, c], obs) == run_commands(r3, seq![c], obs));
    assert(run_commands(r3, seq![c], obs) == run_commands(r4, Seq::<Command>::empty(), obs));
    assert(r4 == r);
}

/// Four right turns over an empty obstacle set return any rover to its
/// original heading without moving it.
pub proof fn lemma_four_rights(r: Rover)
    ensures
        run_commands(
            r,
            seq![Command::Right, Command::Right, Command::Right, Command::Right],
            Seq::<Position>::empty(),
        ) == Ok::<Rover, (Rover, RoverError)>(r),
{
    let obs = Seq::<Position>::empty();
    let c = Command::Right;
    let cmds = seq![c, c, c, c];
    let r1 = apply_command(r, c);
    let r2 = apply_command(r1, c);
    let r3 = apply_command(r2, c);
    let r4 = apply_command(r3, c);
    assert(cmds.drop_first() =~= seq![c, c, c]);
    assert(seq![c, c, c].drop_first() =~= seq![c, c]);
    assert(seq![c, c].drop_first() =~= seq![c]);
    assert(seq![c].drop_first() =~= Seq::<Command>::empty());
    assert(run_commands(r, cmds, obs) == run_commands(r1, seq![c, c, c], obs));
    assert(run_commands(r1, seq![c, c, c], obs) == run_commands(r2, seq![c, c], obs));
    assert(run_commands(r2, seq![c, c], obs) == run_commands(r3, seq![c], obs));
    assert(run_commands(r3, seq![c], obs) == run_commands(r4, Seq::<Command>::empty(), obs));
    assert(r4 == r);
}

} // verus!
