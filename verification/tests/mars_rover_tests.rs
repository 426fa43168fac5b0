use mars_rover::compute_command;
use mars_rover::mars_rover;
use mars_rover::parse_commands;
use mars_rover::Command;
use mars_rover::Command::Backward;
use mars_rover::Command::Forward;
use mars_rover::Command::Left;
use mars_rover::Command::Right;
use mars_rover::Direction;
use mars_rover::Rover;
use mars_rover::RoverError;

#[test]
fn mars_rover_should_accept_commands() {
    let rover = Rover::new((0, 0), Direction::North);
    assert!(mars_rover(&rover, "fffllfrb", &vec![]).is_ok());
    assert!(mars_rover(&rover, "", &vec![]).is_ok());
}

#[test]
fn mars_rover_should_accept_single_forward_command() {
    let rover = Rover::new((0, 0), Direction::East);
    assert_eq!(
        mars_rover(&rover, "f", &vec![]),
        Ok(Rover::new((1, 0), Direction::East))
    )
}

#[test]
fn mars_rover_should_accept_multiples_forward_command() {
    let rover = Rover::new((0, 0), Direction::East);
    assert_eq!(
        mars_rover(&rover, "fffff", &vec![]),
        Ok(Rover::new((5, 0), Direction::East))
    )
}

#[test]
fn mars_rover_should_accept_single_backward_command() {
    let rover = Rover::new((5, 0), Direction::East);
    assert_eq!(
        mars_rover(&rover, "b", &vec![]),
        Ok(Rover::new((4, 0), Direction::East))
    )
}

#[test]
fn mars_rover_should_accept_multiples_backward_command() {
    let rover = Rover::new((5, 0), Direction::East);
    assert_eq!(
        mars_rover(&rover, "bbbbb", &vec![]),
        Ok(Rover::new((0, 0), Direction::East))
    )
}

#[test]
fn parse_command_should_success_parsing_empty_commands() {
    assert_eq!(parse_commands(""), Ok(vec![]));
}

#[test]
fn parse_command_should_parse_command() {
    assert_eq!(parse_commands("f"), Ok(vec![Forward]));
    assert_eq!(parse_commands("ffff"), Ok(vec![Forward, Forward, Forward, Forward]));
    assert_eq!(
        parse_commands("f ").unwrap_err().message(),
        "  cannot be parsed".to_string()
    );
    assert_eq!(
        parse_commands(" f").unwrap_err().message(),
        "  cannot be parsed".to_string()
    );

    assert_eq!(parse_commands("b"), Ok(vec![Backward]));
    assert_eq!(parse_commands("bbbb"), Ok(vec![Backward, Backward, Backward, Backward]));
    assert_eq!(
        parse_commands("b ").unwrap_err().message(),
        "  cannot be parsed".to_string()
    );
    assert_eq!(
        parse_commands(" b").unwrap_err().message(),
        "  cannot be parsed".to_string()
    );

    assert_eq!(parse_commands("l"), Ok(vec![Left]));
    assert_eq!(parse_commands("llll"), Ok(vec![Left, Left, Left, Left]));
    assert_eq!(
        parse_commands("l ").unwrap_err().message(),
        "  cannot be parsed".to_string()
    );
    assert_eq!(
        parse_commands(" l").unwrap_err().message(),
        "  cannot be parsed".to_string()
    );

    assert_eq!(parse_commands("r"), Ok(vec![Right]));
    assert_eq!(parse_commands("rrrr"), Ok(vec![Right, Right, Right, Right]));
    assert_eq!(
        parse_commands("r ").unwrap_err().message(),
        "  cannot be parsed".to_string()
    );
    assert_eq!(
        parse_commands(" r").unwrap_err().message(),
        "  cannot be parsed".to_string()
    );

    assert_eq!(parse_commands("lfrb"), Ok(vec![Left, Forward, Right, Backward]));

    assert_eq!(
        parse_commands("a").unwrap_err().message(),
        "a cannot be parsed".to_string()
    );
    assert_eq!(
        parse_commands("alfrb").unwrap_err().message(),
        "a cannot be parsed".to_string()
    );
    assert_eq!(
        parse_commands("lfarb").unwrap_err().message(),
        "a cannot be parsed".to_string()
    );
    assert_eq!(
        parse_commands("lfrba").unwrap_err().message(),
        "a cannot be parsed".to_string()
    );
}

#[test]
fn compute_command_should_update_position() {
    let rover = Rover::new((0, 0), Direction::East);
    assert_eq!(
        compute_command(&rover, Command::Forward, &vec![]),
        Ok(Rover::new((1, 0), Direction::East))
    );
    let rover = Rover::new((1, 0), Direction::East);
    assert_eq!(
        compute_command(&rover, Command::Backward, &vec![]),
        Ok(Rover::new((0, 0), Direction::East))
    );

    let rover = Rover::new((0, 0), Direction::North);
    assert_eq!(
        compute_command(&rover, Command::Forward, &vec![]),
        Ok(Rover::new((0, 1), Direction::North))
    );
    let rover = Rover::new((0, 1), Direction::North);
    assert_eq!(
        compute_command(&rover, Command::Backward, &vec![]),
        Ok(Rover::new((0, 0), Direction::North))
    );

    let rover = Rover::new((1, 0), Direction::West);
    assert_eq!(
        compute_command(&rover, Command::Forward, &vec![]),
        Ok(Rover::new((0, 0), Direction::West))
    );
    let rover = Rover::new((1, 0), Direction::West);
    assert_eq!(
        compute_command(&rover, Command::Backward, &vec![]),
        Ok(Rover::new((2, 0), Direction::West))
    );

    let rover = Rover::new((0, 1), Direction::South);
    assert_eq!(
        compute_command(&rover, Command::Forward, &vec![]),
        Ok(Rover::new((0, 0), Direction::South))
    );
    let rover = Rover::new((0, 1), Direction::South);
    assert_eq!(
        compute_command(&rover, Command::Backward, &vec![]),
        Ok(Rover::new((0, 2), Direction::South))
    );
}

#[test]
fn compute_command_should_update_direction() {
    let rover = Rover::new((0, 0), Direction::East);
    assert_eq!(
        compute_command(&rover, Command::Left, &vec![]),
        Ok(Rover::new((0, 0), Direction::North))
    );
    let rover = Rover::new((0, 0), Direction::East);
    assert_eq!(
        compute_command(&rover, Command::Right, &vec![]),
        Ok(Rover::new((0, 0), Direction::South))
    );

    let rover = Rover::new((0, 0), Direction::North);
    assert_eq!(
        compute_command(&rover, Command::Left, &vec![]),
        Ok(Rover::new((0, 0), Direction::West))
    );
    let rover = Rover::new((0, 0), Direction::North);
    assert_eq!(
        compute_command(&rover, Command::Right, &vec![]),
        Ok(Rover::new((0, 0), Direction::East))
    );

    let rover = Rover::new((0, 0), Direction::West);
    assert_eq!(
        compute_command(&rover, Command::Left, &vec![]),
        Ok(Rover::new((0, 0), Direction::South))
    );
    let rover = Rover::new((0, 0), Direction::West);
    assert_eq!(
        compute_command(&rover, Command::Right, &vec![]),
        Ok(Rover::new((0, 0), Direction::North))
    );

    let rover = Rover::new((0, 0), Direction::South);
    assert_eq!(
        compute_command(&rover, Command::Left, &vec![]),
        Ok(Rover::new((0, 0), Direction::East))
    );
    let rover = Rover::new((0, 0), Direction::South);
    assert_eq!(
        compute_command(&rover, Command::Right, &vec![]),
        Ok(Rover::new((0, 0), Direction::West))
    );
}

#[test]
fn mars_rover_should_accept_command_with_lefts_and_rights() {
    let rover = Rover::new((0, 0), Direction::East);
    assert_eq!(
        mars_rover(&rover, "lfrfrbl", &vec![]),
        Ok(Rover::new((1, 2), Direction::East))
    )
}

#[test]
fn compute_command_should_warp_at_the_endf_of_the_world() {
    let rover = Rover::new((255, 0), Direction::East);
    assert_eq!(
        compute_command(&rover, Command::Forward, &vec![]),
        Ok(Rover::new((0, 0), Direction::East))
    );
    let rover = Rover::new((0, 0), Direction::East);
    assert_eq!(
        compute_command(&rover, Command::Backward, &vec![]),
        Ok(Rover::new((255, 0), Direction::East))
    );

    let rover = Rover::new((0, 255), Direction::North);
    assert_eq!(
        compute_command(&rover, Command::Forward, &vec![]),
        Ok(Rover::new((0, 0), Direction::North))
    );
    let rover = Rover::new((0, 0), Direction::North);
    assert_eq!(
        compute_command(&rover, Command::Backward, &vec![]),
        Ok(Rover::new((0, 255), Direction::North))
    );

    let rover = Rover::new((0, 0), Direction::West);
    assert_eq!(
        compute_command(&rover, Command::Forward, &vec![]),
        Ok(Rover::new((255, 0), Direction::West))
    );
    let rover = Rover::new((255, 0), Direction::West);
    assert_eq!(
        compute_command(&rover, Command::Backward, &vec![]),
        Ok(Rover::new((0, 0), Direction::West))
    );

    let rover = Rover::new((0, 0), Direction::South);
    assert_eq!(
        compute_command(&rover, Command::Forward, &vec![]),
        Ok(Rover::new((0, 255), Direction::South))
    );
    let rover = Rover::new((0, 255), Direction::South);
    assert_eq!(
        compute_command(&rover, Command::Backward, &vec![]),
        Ok(Rover::new((0, 0), Direction::South))
    );
}

#[test]
fn compute_command_should_failed_if_connecting_to_an_obstacle() {
    let rover = Rover::new((0, 0), Direction::East);
    let res = compute_command(&rover, Command::Forward, &vec![(1, 0)]);
    match res {
        Err((r, e)) => {
            assert_eq!(r, rover);
            assert_eq!(e.message(), "Collision with obstacle in 1,0".to_string());
        }
        Ok(_) => panic!("expected a collision"),
    }
    let rover = Rover::new((255, 0), Direction::East);
    let res = compute_command(&rover, Command::Forward, &vec![(0, 0)]);
    match res {
        Err((r, e)) => {
            assert_eq!(r, rover);
            assert_eq!(e.message(), "Collision with obstacle in 0,0".to_string());
        }
        Ok(_) => panic!("expected a collision"),
    }
}

#[test]
fn mars_rover_should_move_to_the_last_possible_step_before_collision() {
    let rover = Rover::new((0, 0), Direction::East);
    let res = mars_rover(&rover, "lfrfrbl", &vec![(1, 2)]);
    match res {
        Err((r, e)) => {
            assert_eq!(r, Rover::new((1, 1), Direction::South));
            assert_eq!(e.message(), "Collision with obstacle in 1,2".to_string());
        }
        Ok(_) => panic!("expected a collision"),
    }
}
