use snake::cells::CellSet;
use snake::utils::Vec2D;

#[test]
fn cell_set_starts_empty() {
    let set = CellSet::new();
    assert_eq!(set.len(), 0);
    assert!(set.is_empty());
    assert!(!set.contains(&Vec2D::new(0, 0)));
}

#[test]
fn cell_set_insert_says_whether_the_cell_was_new() {
    let mut set = CellSet::new();
    assert!(set.insert(Vec2D::new(2, 3)));
    assert!(!set.insert(Vec2D::new(2, 3)));
    assert_eq!(set.len(), 1);
    assert!(set.contains(&Vec2D::new(2, 3)));
    assert!(!set.is_empty());
}

#[test]
fn cell_set_tells_a_cell_from_its_mirror() {
    let mut set = CellSet::new();
    set.insert(Vec2D::new(2, 3));
    assert!(!set.contains(&Vec2D::new(3, 2)));
    assert!(!set.contains(&Vec2D::new(-2, 3)));
    assert!(!set.contains(&Vec2D::new(2, -3)));
}

#[test]
fn cell_set_remove_says_whether_the_cell_was_there() {
    let mut set = CellSet::new();
    set.insert(Vec2D::new(1, 1));
    set.insert(Vec2D::new(1, 2));
    assert!(set.remove(&Vec2D::new(1, 1)));
    assert!(!set.remove(&Vec2D::new(1, 1)));
    assert_eq!(set.len(), 1);
    assert!(!set.contains(&Vec2D::new(1, 1)));
    assert!(set.contains(&Vec2D::new(1, 2)));
}

#[test]
fn cell_set_clear_empties_it() {
    let mut set = CellSet::new();
    set.insert(Vec2D::new(1, 1));
    set.insert(Vec2D::new(-1, -1));
    set.clear();
    assert_eq!(set.len(), 0);
    assert!(set.is_empty());
    assert!(!set.contains(&Vec2D::new(1, 1)));
}

#[test]
fn cell_set_holds_the_corners_of_the_plane_apart() {
    let corners = [
        Vec2D::new(i32::MIN, i32::MIN),
        Vec2D::new(i32::MIN, i32::MAX),
        Vec2D::new(i32::MAX, i32::MIN),
        Vec2D::new(i32::MAX, i32::MAX),
        Vec2D::new(0, 0),
        Vec2D::new(-1, 0),
        Vec2D::new(0, -1),
        Vec2D::new(-1, -1),
    ];
    let mut set = CellSet::new();
    for corner in corners.iter() {
        assert!(set.insert(*corner));
    }
    assert_eq!(set.len(), corners.len());
    for corner in corners.iter() {
        assert!(set.contains(corner));
    }
    assert!(set.remove(&Vec2D::new(i32::MIN, i32::MAX)));
    assert!(!set.contains(&Vec2D::new(i32::MIN, i32::MAX)));
    assert!(set.contains(&Vec2D::new(i32::MAX, i32::MIN)));
    assert_eq!(set.len(), corners.len() - 1);
}
