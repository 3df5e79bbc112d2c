use snake::cells::CellSet;
use snake::player::Player;
use snake::segment::{Rotation, SnakeBodyPart, SpriteType};
use snake::utils::{Direction, Rectangle, Vec2D};

fn cells_of(player: &Player) -> Vec<Vec2D> {
    player.body.iter().map(|part| part.position).collect()
}

fn row(from: i32, to: i32, y: i32) -> Vec<Vec2D> {
    let mut cells = Vec::new();
    let mut x = from;
    while x >= to {
        cells.push(Vec2D::new(x, y));
        x -= 1;
    }
    cells
}

/// A snake of four segments coiled in a square, about to step onto the
/// cell of its own tail.
fn coiled() -> Player {
    let mut player = Player {
        direction: Direction::Down,
        wanted_direction: None,
        body: vec![
            SnakeBodyPart::new_head_with_orientation(0, 0, Some(Direction::Left)),
            SnakeBodyPart::new_with_orientation(
                1,
                0,
                Some(Direction::Left),
                Some(Direction::Up),
            ),
            SnakeBodyPart::new_with_orientation(
                1,
                1,
                Some(Direction::Up),
                Some(Direction::Right),
            ),
            SnakeBodyPart::new_tail_with_orientation(0, 1, Some(Direction::Right)),
        ],
        body_positions: CellSet::new(),
    };
    player.recompute_body_positions();
    player
}

#[test]
fn a_new_snake_has_the_starting_layout() {
    let player = Player::new();
    assert_eq!(player.direction, Direction::Right);
    assert_eq!(player.wanted_direction, None);
    assert_eq!(cells_of(&player), row(6, 0, 5));
    assert!(player.body[0].is_head);
    assert!(player.body[6].is_tail);
    assert_eq!(player.body[0].orientation, (None, Some(Direction::Right)));
    assert_eq!(player.body[3].orientation, (Some(Direction::Right), Some(Direction::Right)));
    assert_eq!(player.body[6].orientation, (Some(Direction::Right), None));
    for (i, part) in player.body.iter().enumerate() {
        assert_eq!(part.is_head, i == 0);
        assert_eq!(part.is_tail, i == 6);
        assert!(!part.is_big);
    }
}

#[test]
fn a_new_snake_occupies_the_cells_of_its_body() {
    let player = Player::new();
    assert_eq!(player.body_positions.len(), 7);
    for cell in row(6, 0, 5).iter() {
        assert!(player.body_positions.contains(cell));
    }
    assert!(!player.body_positions.contains(&Vec2D::new(7, 5)));
}

#[test]
fn default_position_is_seven_segments_in_a_row() {
    let body = Player::default_position();
    assert_eq!(body.len(), 7);
    assert_eq!(body[0], SnakeBodyPart::new_head_with_orientation(6, 5, Some(Direction::Right)));
    assert_eq!(
        body[1],
        SnakeBodyPart::new_with_orientation(5, 5, Some(Direction::Right), Some(Direction::Right))
    );
    assert_eq!(body[6], SnakeBodyPart::new_tail_with_orientation(0, 5, Some(Direction::Right)));
}

#[test]
fn reset_restores_the_starting_layout() {
    let mut player = Player::new();
    player.set_direction(Direction::Up);
    player.apply_wanted_direction();
    player.move_forward();
    player.eat();
    player.set_direction(Direction::Left);
    player.reset();
    assert_eq!(player.direction, Direction::Right);
    assert_eq!(player.wanted_direction, None);
    assert_eq!(cells_of(&player), row(6, 0, 5));
    assert_eq!(player.body, Player::default_position());
    assert_eq!(player.body_positions.len(), player.body.len());
    assert!(!player.body_positions.contains(&Vec2D::new(6, 4)));
}

#[test]
fn a_move_shifts_every_segment_one_place() {
    let mut player = Player::new();
    player.move_forward();
    assert_eq!(cells_of(&player), row(7, 1, 5));
    assert_eq!(player.body.len(), 7);
    assert_eq!(player.body[0].orientation, (None, Some(Direction::Right)));
    assert_eq!(player.body[1].orientation, (Some(Direction::Right), Some(Direction::Right)));
    assert_eq!(player.body[6].orientation, (Some(Direction::Right), None));
    assert!(player.body[0].is_head && player.body[6].is_tail);
    assert_eq!(player.direction, Direction::Right);
}

#[test]
fn a_move_takes_the_cell_ahead_and_leaves_the_tail_cell() {
    let mut player = Player::new();
    player.move_forward();
    assert_eq!(player.body_positions.len(), player.body.len());
    assert!(player.body_positions.contains(&Vec2D::new(7, 5)));
    assert!(!player.body_positions.contains(&Vec2D::new(0, 5)));
}

#[test]
fn occupied_cells_match_segments_after_every_move() {
    let mut player = Player::new();
    let turns = [
        Direction::Up,
        Direction::Up,
        Direction::Left,
        Direction::Left,
        Direction::Down,
        Direction::Right,
        Direction::Right,
        Direction::Right,
        Direction::Up,
    ];
    let area = Rectangle::new(0, 0, 20, 20);
    for turn in turns.iter() {
        player.set_direction(*turn);
        player.apply_wanted_direction();
        if player.can_move(&area) {
            player.move_forward();
            player.eat();
        }
        assert_eq!(player.body_positions.len(), player.body.len());
        for part in player.body.iter() {
            assert!(player.body_positions.contains(&part.position));
            assert!(part.get_sprite_and_rotation().is_ok());
        }
    }
}

#[test]
fn a_turn_bends_the_segment_behind_the_head() {
    let mut player = Player::new();
    player.set_direction(Direction::Up);
    player.apply_wanted_direction();
    player.move_forward();
    assert_eq!(player.body[0].position, Vec2D::new(6, 4));
    assert_eq!(player.body[0].orientation, (None, Some(Direction::Up)));
    assert_eq!(player.body[1].position, Vec2D::new(6, 5));
    assert_eq!(player.body[1].orientation, (Some(Direction::Up), Some(Direction::Right)));
    assert_eq!(
        player.body[0].get_sprite_and_rotation(),
        Ok((SpriteType::Head, Rotation::Zero))
    );
    assert_eq!(
        player.body[1].get_sprite_and_rotation(),
        Ok((SpriteType::Left, Rotation::Zero))
    );
}

#[test]
fn a_bend_travels_down_the_body_to_the_tail() {
    let mut player = Player::new();
    player.set_direction(Direction::Down);
    player.apply_wanted_direction();
    for _ in 0..6 {
        player.move_forward();
    }
    assert_eq!(player.body[6].position, Vec2D::new(6, 5));
    assert_eq!(player.body[6].orientation, (Some(Direction::Down), None));
    assert_eq!(
        player.body[6].get_sprite_and_rotation(),
        Ok((SpriteType::Tail, Rotation::Half))
    );
    assert_eq!(player.body[5].orientation, (Some(Direction::Down), Some(Direction::Down)));
}

#[test]
fn eat_marks_the_head_and_nothing_else() {
    let mut player = Player::new();
    let before = cells_of(&player);
    player.eat();
    assert!(player.body[0].is_big);
    assert_eq!(player.body.len(), 7);
    assert_eq!(cells_of(&player), before);
    assert_eq!(player.body_positions.len(), 7);
    for part in player.body.iter().skip(1) {
        assert!(!part.is_big);
    }
}

#[test]
fn the_mark_moves_one_segment_towards_the_tail_with_each_move() {
    let mut player = Player::new();
    player.eat();
    for moves in 1..7 {
        player.move_forward();
        assert_eq!(player.body.len(), 7);
        for (i, part) in player.body.iter().enumerate() {
            assert_eq!(part.is_big, i == moves);
        }
    }
}

#[test]
fn the_snake_grows_on_the_move_after_the_mark_reached_the_tail() {
    let mut player = Player::new();
    player.eat();
    for _ in 0..6 {
        player.move_forward();
        assert_eq!(player.body.len(), 7);
    }
    assert!(player.body[6].is_big);
    assert_eq!(player.body[6].position, Vec2D::new(6, 5));
    player.move_forward();
    assert_eq!(player.body.len(), 8);
    assert_eq!(player.body_positions.len(), 8);
    assert_eq!(cells_of(&player), row(13, 6, 5));
    assert!(player.body[7].is_tail && !player.body[7].is_head && !player.body[7].is_big);
    assert!(!player.body[6].is_tail);
    assert_eq!(player.body[7].orientation, (Some(Direction::Right), None));
    assert_eq!(player.body[6].orientation, (Some(Direction::Right), Some(Direction::Right)));
    for part in player.body.iter() {
        assert!(!part.is_big);
    }
    player.move_forward();
    assert_eq!(player.body.len(), 8);
}

#[test]
fn a_marked_tail_grows_on_the_very_next_move() {
    let mut player = Player::new();
    player.body[6].is_big = true;
    player.eat();
    assert_eq!(player.body.len(), 7);
    player.move_forward();
    assert_eq!(player.body.len(), 8);
    assert_eq!(player.body[7].position, Vec2D::new(0, 5));
    assert_eq!(player.body[6].position, Vec2D::new(1, 5));
    assert!(player.body_positions.contains(&Vec2D::new(0, 5)));
}

#[test]
fn a_snake_of_two_grows_and_keeps_its_sprites() {
    let mut player = Player {
        direction: Direction::Up,
        wanted_direction: None,
        body: vec![
            SnakeBodyPart::new_head_with_orientation(3, 3, Some(Direction::Up)),
            SnakeBodyPart::new_tail_with_orientation(3, 4, Some(Direction::Up)),
        ],
        body_positions: CellSet::new(),
    };
    player.recompute_body_positions();
    player.move_forward();
    assert_eq!(cells_of(&player), vec![Vec2D::new(3, 2), Vec2D::new(3, 3)]);
    assert_eq!(player.body[1].orientation, (Some(Direction::Up), None));
    player.eat();
    player.move_forward();
    assert_eq!(player.body.len(), 2);
    assert!(player.body[1].is_big);
    player.set_direction(Direction::Left);
    player.apply_wanted_direction();
    player.move_forward();
    assert_eq!(
        cells_of(&player),
        vec![Vec2D::new(2, 1), Vec2D::new(3, 1), Vec2D::new(3, 2)]
    );
    assert_eq!(player.body[1].orientation, (Some(Direction::Left), Some(Direction::Up)));
    assert!(!player.body[1].is_tail && player.body[2].is_tail);
    assert_eq!(player.body[2].orientation, (Some(Direction::Up), None));
    assert_eq!(player.body_positions.len(), 3);
    for part in player.body.iter() {
        assert!(part.get_sprite_and_rotation().is_ok());
    }
}

#[test]
fn a_turn_straight_back_is_not_taken_up() {
    let mut player = Player::new();
    player.set_direction(Direction::Left);
    assert_eq!(player.wanted_direction, None);
    player.set_direction(Direction::Up);
    player.set_direction(Direction::Left);
    assert_eq!(player.wanted_direction, Some(Direction::Up));
    assert_eq!(player.direction, Direction::Right);
}

#[test]
fn the_three_other_turns_are_taken_up() {
    for requested in [Direction::Up, Direction::Down, Direction::Right].iter() {
        let mut player = Player::new();
        player.set_direction(*requested);
        assert_eq!(player.wanted_direction, Some(*requested));
        assert_eq!(player.direction, Direction::Right);
        assert_eq!(cells_of(&player), row(6, 0, 5));
    }
}

#[test]
fn the_last_turn_asked_for_wins() {
    let mut player = Player::new();
    player.set_direction(Direction::Up);
    player.set_direction(Direction::Down);
    assert_eq!(player.wanted_direction, Some(Direction::Down));
    player.apply_wanted_direction();
    assert_eq!(player.direction, Direction::Down);
}

#[test]
fn a_turn_taken_is_no_longer_asked_for() {
    let mut player = Player::new();
    player.set_direction(Direction::Up);
    player.apply_wanted_direction();
    assert_eq!(player.direction, Direction::Up);
    assert_eq!(player.wanted_direction, None);
    player.apply_wanted_direction();
    assert_eq!(player.direction, Direction::Up);
}

#[test]
fn a_turn_straight_back_that_got_in_anyway_is_not_taken() {
    let mut player = Player::new();
    player.wanted_direction = Some(Direction::Left);
    player.apply_wanted_direction();
    assert_eq!(player.direction, Direction::Right);
    assert_eq!(player.wanted_direction, Some(Direction::Left));
}

#[test]
fn can_move_into_a_free_cell_of_the_area() {
    let player = Player::new();
    assert!(player.can_move(&Rectangle::new(0, 0, 8, 8)));
    assert!(player.can_move(&Rectangle::new(0, 0, 7, 8)));
}

#[test]
fn cannot_move_out_of_the_area() {
    let player = Player::new();
    assert!(!player.can_move(&Rectangle::new(0, 0, 6, 8)));
    let mut up = Player::new();
    up.set_direction(Direction::Up);
    up.apply_wanted_direction();
    assert!(!up.can_move(&Rectangle::new(0, 5, 8, 8)));
    assert!(up.can_move(&Rectangle::new(0, 4, 8, 8)));
}

#[test]
fn cannot_move_past_the_largest_coordinate() {
    let mut player = Player {
        direction: Direction::Right,
        wanted_direction: None,
        body: vec![
            SnakeBodyPart::new_head_with_orientation(i32::MAX, 0, Some(Direction::Right)),
            SnakeBodyPart::new_tail_with_orientation(i32::MAX - 1, 0, Some(Direction::Right)),
        ],
        body_positions: CellSet::new(),
    };
    player.recompute_body_positions();
    assert!(!player.can_move(&Rectangle::new(i32::MIN, i32::MIN, i32::MAX, i32::MAX)));
}

#[test]
fn cannot_move_into_its_own_body() {
    let mut player = Player::new();
    player.set_direction(Direction::Up);
    player.apply_wanted_direction();
    player.move_forward();
    player.set_direction(Direction::Left);
    player.apply_wanted_direction();
    player.move_forward();
    player.set_direction(Direction::Down);
    player.apply_wanted_direction();
    assert_eq!(player.body[0].position, Vec2D::new(5, 4));
    assert!(!player.can_move(&Rectangle::new(0, 0, 8, 8)));
}

#[test]
fn cannot_move_onto_the_cell_that_the_tail_is_about_to_leave() {
    let player = coiled();
    assert_eq!(player.body[3].position, Vec2D::new(0, 1));
    assert!(!player.body[3].is_big);
    assert!(!player.can_move(&Rectangle::new(0, 0, 8, 8)));
}

#[test]
fn a_move_onto_the_cell_that_the_tail_leaves_keeps_that_cell_occupied() {
    let mut player = coiled();
    player.move_forward();
    assert_eq!(
        cells_of(&player),
        vec![Vec2D::new(0, 1), Vec2D::new(0, 0), Vec2D::new(1, 0), Vec2D::new(1, 1)]
    );
    assert_eq!(player.body_positions.len(), 4);
    assert!(player.body_positions.contains(&Vec2D::new(0, 1)));
}

#[test]
fn recompute_body_positions_follows_the_body() {
    let mut player = Player::new();
    player.body[0].position = Vec2D::new(9, 9);
    player.recompute_body_positions();
    assert!(player.body_positions.contains(&Vec2D::new(9, 9)));
    assert!(!player.body_positions.contains(&Vec2D::new(6, 5)));
    assert_eq!(player.body_positions.len(), 7);
}

#[test]
fn recompute_body_positions_counts_a_shared_cell_once() {
    let mut player = Player::new();
    player.body[0].position = Vec2D::new(5, 5);
    player.recompute_body_positions();
    assert_eq!(player.body_positions.len(), 6);
}
