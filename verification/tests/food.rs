use snake::cells::CellSet;
use snake::food::{first_free_cell, spawn_food, take_if_free, BoardFull, MAX_DRAWS};
use snake::utils::{Rectangle, Vec2D};

fn occupied(cells: &[(i32, i32)]) -> CellSet {
    let mut set = CellSet::new();
    for (x, y) in cells.iter() {
        set.insert(Vec2D::new(*x, *y));
    }
    set
}

#[test]
fn spawn_reports_a_full_board_of_one_cell() {
    let area = Rectangle::new(0, 0, 0, 0);
    assert_eq!(spawn_food(&area, &occupied(&[(0, 0)])), Err(BoardFull));
}

#[test]
fn spawn_reports_a_full_board_of_many_cells() {
    let area = Rectangle::new(0, 0, 2, 1);
    let all = occupied(&[(0, 0), (1, 0), (2, 0), (0, 1), (1, 1), (2, 1)]);
    assert_eq!(spawn_food(&area, &all), Err(BoardFull));
}

#[test]
fn spawn_reports_an_area_without_cells_as_full() {
    let area = Rectangle::new(0, 0, -1, -1);
    assert_eq!(spawn_food(&area, &CellSet::new()), Err(BoardFull));
}

#[test]
fn spawn_takes_the_only_cell_of_an_empty_board() {
    let area = Rectangle::new(0, 0, 0, 0);
    for _ in 0..50 {
        assert_eq!(spawn_food(&area, &CellSet::new()), Ok(Vec2D::new(0, 0)));
    }
}

#[test]
fn spawn_takes_the_only_cell_away_from_the_origin() {
    let area = Rectangle::new(-4, 7, -4, 7);
    for _ in 0..50 {
        assert_eq!(spawn_food(&area, &CellSet::new()), Ok(Vec2D::new(-4, 7)));
    }
}

#[test]
fn spawn_finds_the_last_free_cell() {
    let area = Rectangle::new(0, 0, 2, 2);
    let all_but_one = occupied(&[(0, 0), (1, 0), (2, 0), (0, 1), (1, 1), (2, 1), (0, 2), (1, 2)]);
    for _ in 0..50 {
        assert_eq!(spawn_food(&area, &all_but_one), Ok(Vec2D::new(2, 2)));
    }
}

#[test]
fn spawn_stays_in_the_area_and_off_the_snake() {
    let area = Rectangle::new(0, 0, 3, 3);
    let snake = occupied(&[(0, 0), (1, 0), (2, 0), (3, 0), (3, 1), (3, 2), (3, 3), (9, 9)]);
    for _ in 0..500 {
        let cell = spawn_food(&area, &snake).unwrap();
        assert!(area.contains(&cell));
        assert!(!snake.contains(&cell));
    }
}

#[test]
fn spawn_reaches_every_free_cell() {
    let area = Rectangle::new(0, 0, 1, 1);
    let snake = occupied(&[(0, 0)]);
    let mut seen = CellSet::new();
    for _ in 0..2000 {
        seen.insert(spawn_food(&area, &snake).unwrap());
    }
    assert_eq!(seen.len(), 3);
    assert!(seen.contains(&Vec2D::new(1, 0)));
    assert!(seen.contains(&Vec2D::new(0, 1)));
    assert!(seen.contains(&Vec2D::new(1, 1)));
}

#[test]
fn spawn_ignores_occupied_cells_outside_the_area() {
    let area = Rectangle::new(0, 0, 0, 0);
    assert_eq!(spawn_food(&area, &occupied(&[(1, 0), (0, 1), (-1, -1)])), Ok(Vec2D::new(0, 0)));
}

#[test]
fn first_free_cell_reads_row_by_row() {
    let area = Rectangle::new(0, 0, 2, 2);
    assert_eq!(first_free_cell(&area, &CellSet::new()), Some(Vec2D::new(0, 0)));
    assert_eq!(first_free_cell(&area, &occupied(&[(0, 0)])), Some(Vec2D::new(1, 0)));
    assert_eq!(
        first_free_cell(&area, &occupied(&[(0, 0), (1, 0), (2, 0)])),
        Some(Vec2D::new(0, 1))
    );
    assert_eq!(
        first_free_cell(&area, &occupied(&[(0, 0), (1, 0), (2, 0), (0, 1), (2, 1)])),
        Some(Vec2D::new(1, 1))
    );
}

#[test]
fn first_free_cell_finds_none_on_a_full_board() {
    let area = Rectangle::new(3, 3, 4, 3);
    assert_eq!(first_free_cell(&area, &occupied(&[(3, 3), (4, 3)])), None);
    assert_eq!(first_free_cell(&Rectangle::new(1, 1, 0, 0), &CellSet::new()), None);
}

#[test]
fn first_free_cell_at_the_far_corner_of_the_plane() {
    let area = Rectangle::new(i32::MAX - 1, i32::MAX, i32::MAX, i32::MAX);
    assert_eq!(
        first_free_cell(&area, &occupied(&[(i32::MAX - 1, i32::MAX)])),
        Some(Vec2D::new(i32::MAX, i32::MAX))
    );
    assert_eq!(
        first_free_cell(&area, &occupied(&[(i32::MAX - 1, i32::MAX), (i32::MAX, i32::MAX)])),
        None
    );
}

#[test]
fn a_draw_is_taken_unless_it_is_occupied() {
    let snake = occupied(&[(1, 1), (2, 1)]);
    assert_eq!(take_if_free(&snake, Vec2D::new(1, 1)), None);
    assert_eq!(take_if_free(&snake, Vec2D::new(2, 1)), None);
    assert_eq!(take_if_free(&snake, Vec2D::new(1, 2)), Some(Vec2D::new(1, 2)));
    assert_eq!(take_if_free(&CellSet::new(), Vec2D::new(-3, 0)), Some(Vec2D::new(-3, 0)));
}

#[test]
fn draws_are_limited() {
    assert_eq!(MAX_DRAWS, 1024);
}
