//! The snake: its body, the cells it occupies and the operations by
//! which it turns, moves and eats.

use crate::cells::CellSet;
use crate::model::{
    lemma_eat_keeps_whole, lemma_move_keeps_whole, lemma_occupied_len, lemma_start_whole,
    moved_body, moved_cells, followed, grows, positions, start_body, Snake,
};
use crate::segment::SnakeBodyPart;
use crate::utils::{Direction, Rectangle, Vec2D};
use vstd::prelude::*;

verus! {

/// The snake.
#[derive(Debug)]
pub struct Player {
    /// The way the next move goes.
    pub direction: Direction,
    /// The turn that was asked for and is not yet taken.
    pub wanted_direction: Option<Direction>,
    /// The segments, head first.
    pub body: Vec<SnakeBodyPart>,
    /// The cells that the body stands on.
    pub body_positions: CellSet,
}

impl View for Player {
    type V = Snake;

    open spec fn view(&self) -> Snake {
        Snake {
            direction: self.direction,
            wanted_direction: self.wanted_direction,
            body: self.body@,
            occupied: self.body_positions@,
        }
    }
}

impl Player {
    /// The snake as a game starts with it, whole and settled.
    pub fn new() -> (player: Player)
        ensures
            player@ == Snake::start(),
            player@.wf(),
            player@.settled(),
    {
        let mut player = Player {
            direction: Direction::Right,
            wanted_direction: None,
            body: Player::default_position(),
            body_positions: CellSet::new(),
        };
        player.recompute_body_positions();
        proof {
            lemma_start_whole();
        }
        player
    }

    /// Puts the snake back to the state a game starts with.
    pub fn reset(&mut self)
        ensures
            final(self)@ == Snake::start(),
            final(self)@.wf(),
            final(self)@.settled(),
            final(self)@.occupied.len() == final(self)@.body.len(),
    {
        self.direction = Direction::Right;
        self.wanted_direction = None;
        self.body = Player::default_position();
        self.recompute_body_positions();
        proof {
            lemma_start_whole();
            lemma_occupied_len(self@);
        }
    }

    /// Whether the next move is allowed in `playing_area`.
    pub fn can_move(&self, playing_area: &Rectangle) -> (allowed: bool)
        requires
            self@.body.len() > 0,
        ensures
            allowed == self@.can_move(*playing_area),
            allowed ==> self@.body[0].position.step_fits(self@.direction),
    {
        let head = self.body[0].position;
        let step = self.direction.unit();
        let x: i64 = head.x as i64 + step.x as i64;
        let y: i64 = head.y as i64 + step.y as i64;
        if x < playing_area.min.x as i64 || x > playing_area.max.x as i64 || y
            < playing_area.min.y as i64 || y > playing_area.max.y as i64 {
            return false;
        }
        let dest = Vec2D::new(x as i32, y as i32);
        !self.body_positions.contains(&dest)
    }

    /// Moves the snake one cell in its direction.
    ///
    /// Asks for a body of two segments or more and a cell ahead whose
    /// coordinates an `i32` can hold. Whether the cell ahead is free is
    /// not looked at: `can_move` tells. From a whole snake and a free cell
    /// ahead the snake comes out whole and settled, with as many occupied
    /// cells as segments.
    pub fn move_forward(&mut self)
        requires
            old(self)@.can_step(),
        ensures
            final(self)@ == old(self)@.moved(),
            old(self)@.wf() && !old(self)@.occupied.contains(old(self)@.destination()) ==> {
                &&& final(self)@.wf()
                &&& final(self)@.settled()
                &&& final(self)@.occupied.len() == final(self)@.body.len()
            },
    {
        let ghost before = self.body@;
        let ghost occupied = self.body_positions@;
        let direction = self.direction;
        let dest = self.body[0].position + direction.unit();
        let ghost after = moved_body(before, direction, dest);
        let n = self.body.len();
        let mut i: usize = n;
        while i > 0
            invariant
                n == before.len(),
                n >= 2,
                i <= n,
                direction == old(self).direction,
                self.direction == old(self).direction,
                self.wanted_direction == old(self).wanted_direction,
                dest == old(self)@.destination(),
                after == moved_body(before, direction, dest),
                self.body@.len() == if i < n && grows(before) {
                    n + 1
                } else {
                    n as int
                },
                forall|j: int| 0 <= j < i ==> self.body@[j] == before[j],
                forall|j: int|
                    0 < j < n && i <= j ==> #[trigger] self.body@[j] == if i == 0 {
                        after[j]
                    } else {
                        followed(before, j)
                    },
                i == 0 ==> self.body@[0] == after[0],
                i < n && grows(before) ==> self.body@[n as int] == after[n as int],
                self.body_positions@ == if i == n {
                    occupied
                } else if i > 0 {
                    if grows(before) {
                        occupied
                    } else {
                        occupied.remove(before.last().position)
                    }
                } else {
                    moved_cells(before, occupied, dest)
                },
            decreases i,
        {
            i -= 1;
            if i == self.body.len() - 1 {
                let tail = self.body[i];
                let front = self.body[i - 1];
                let mut part = tail;
                if tail.is_big {
                    let mut new_tail = SnakeBodyPart::new_tail(tail.position.x, tail.position.y);
                    new_tail.orientation = tail.orientation;
                    self.body.push(new_tail);

                    part.is_tail = false;
                    part.orientation = front.orientation;
                } else {
                    self.body_positions.remove(&tail.position);

                    part.orientation = (front.orientation.0, None);
                }
                part.position = front.position;
                part.is_big = front.is_big;
                self.body.set(i, part);
            } else if i == 0 {
                let mut head = self.body[i];
                head.position = dest;
                head.is_big = false;
                head.orientation = (None, Some(direction));
                self.body.set(i, head);

                let mut neck = self.body[i + 1];
                neck.orientation = (Some(direction), neck.orientation.1);
                self.body.set(i + 1, neck);

                self.body_positions.insert(dest);
            } else {
                let front = self.body[i - 1];
                let mut part = self.body[i];
                part.position = front.position;
                part.orientation = front.orientation;
                part.is_big = front.is_big;
                self.body.set(i, part);
            }
        }
        proof {
            assert(self.body@ =~= after);
            if old(self)@.wf() && !occupied.contains(dest) {
                lemma_move_keeps_whole(old(self)@);
            }
        }
    }

    /// Fills the occupied set anew from the body.
    pub fn recompute_body_positions(&mut self)
        ensures
            final(self)@ == (Snake {
                occupied: positions(old(self)@.body).to_set(),
                ..old(self)@
            }),
    {
        self.body_positions.clear();
        let ghost cells = positions(self.body@);
        let mut i: usize = 0;
        assert(cells.take(0).to_set() =~= Set::<Vec2D>::empty());
        while i < self.body.len()
            invariant
                i <= self.body@.len(),
                self.body@ == old(self).body@,
                self.direction == old(self).direction,
                self.wanted_direction == old(self).wanted_direction,
                cells == positions(self.body@),
                self.body_positions@ == cells.take(i as int).to_set(),
            decreases self.body@.len() - i,
        {
            let position = self.body[i].position;
            self.body_positions.insert(position);
            proof {
                assert(cells.take(i + 1) =~= cells.take(i as int).push(position));
                cells.take(i as int).lemma_push_to_set_commute(position);
            }
            i += 1;
        }
        assert(cells.take(i as int) =~= cells);
    }

    /// Marks the head as holding food. The body grows when the mark has
    /// travelled to the tail, not now.
    pub fn eat(&mut self)
        requires
            old(self)@.body.len() > 0,
        ensures
            final(self)@ == old(self)@.eaten(),
            old(self)@.wf() ==> final(self)@.wf(),
    {
        let mut head = self.body[0];
        head.is_big = true;
        self.body.set(0, head);
        proof {
            if old(self)@.wf() {
                lemma_eat_keeps_whole(old(self)@);
            }
        }
    }

    /// Asks for a turn to `requested`.
    pub fn set_direction(&mut self, requested: Direction)
        ensures
            final(self)@ == old(self)@.asked(requested),
    {
        if requested != self.direction.opposite() {
            self.wanted_direction = Some(requested);
        }
    }

    /// Takes the turn that was asked for, if there is one and it does not
    /// point straight back.
    pub fn apply_wanted_direction(&mut self)
        ensures
            final(self)@ == old(self)@.turned(),
            old(self)@.wf() && old(self)@.settled() ==> final(self)@.wf(),
    {
        if let Some(direction) = self.wanted_direction {
            if direction != self.direction.opposite() {
                self.direction = direction;
                self.wanted_direction = None;
            }
        }
    }

    /// The body a game starts with.
    pub fn default_position() -> (body: Vec<SnakeBodyPart>)
        ensures
            body@ == start_body(),
    {
        let body = vec![
            SnakeBodyPart::new_head_with_orientation(6, 5, Some(Direction::Right)),
            SnakeBodyPart::new_with_orientation(
                5,
                5,
                Some(Direction::Right),
                Some(Direction::Right),
            ),
            SnakeBodyPart::new_with_orientation(
                4,
                5,
                Some(Direction::Right),
                Some(Direction::Right),
            ),
            SnakeBodyPart::new_with_orientation(
                3,
                5,
                Some(Direction::Right),
                Some(Direction::Right),
            ),
            SnakeBodyPart::new_with_orientation(
                2,
                5,
                Some(Direction::Right),
                Some(Direction::Right),
            ),
            SnakeBodyPart::new_with_orientation(
                1,
                5,
                Some(Direction::Right),
                Some(Direction::Right),
            ),
            SnakeBodyPart::new_tail_with_orientation(0, 5, Some(Direction::Right)),
        ];
        assert(body@ =~= start_body());
        body
    }
}

} // verus!
