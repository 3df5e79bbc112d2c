//! The snake as a mathematical value, and the rules of the game as
//! functions on it. The executable types are specified against these.

use crate::segment::SnakeBodyPart;
use crate::utils::{Direction, Rectangle, Vec2D};
use vstd::prelude::*;

verus! {

/// The cells that the segments of `body` stand on, head first.
pub open spec fn positions(body: Seq<SnakeBodyPart>) -> Seq<Vec2D> {
    body.map_values(|part: SnakeBodyPart| part.position)
}

/// The first segment, and no other, is marked as head; the last, and no
/// other, as tail.
pub open spec fn roles_in_order(body: Seq<SnakeBodyPart>) -> bool {
    forall|i: int|
        0 <= i < body.len() ==> {
            &&& (#[trigger] body[i]).is_head == (i == 0)
            &&& body[i].is_tail == (i == body.len() - 1)
        }
}

/// Every segment has a sprite.
pub open spec fn drawable(body: Seq<SnakeBodyPart>) -> bool {
    forall|i: int| 0 <= i < body.len() ==> (#[trigger] body[i]).sprite() is Some
}

/// The body a game starts with: seven segments in the row `y = 5`, the
/// head at `x = 6` and the tail at `x = 0`, all facing right.
pub open spec fn start_body() -> Seq<SnakeBodyPart> {
    Seq::new(
        7,
        |i: int|
            SnakeBodyPart {
                is_head: i == 0,
                is_tail: i == 6,
                is_big: false,
                position: Vec2D { x: (6 - i) as i32, y: 5 },
                orientation: (
                    if i == 0 {
                        None
                    } else {
                        Some(Direction::Right)
                    },
                    if i == 6 {
                        None
                    } else {
                        Some(Direction::Right)
                    },
                ),
            },
    )
}

/// Whether the next move lengthens `body`: the mark of food eaten has
/// reached the tail.
pub open spec fn grows(body: Seq<SnakeBodyPart>) -> bool {
    body.last().is_big
}

/// Segment `i` of `body`, behind the head, after it has followed the
/// segment in front: it takes that segment's cell, mark and orientation
/// and keeps its own role. A tail that stays the tail has no direction
/// of its own; a tail that the body grows behind is the tail no more.
pub open spec fn followed(body: Seq<SnakeBodyPart>, i: int) -> SnakeBodyPart
    recommends
        0 < i < body.len(),
{
    let last = body.len() - 1;
    SnakeBodyPart {
        is_head: body[i].is_head,
        is_tail: body[i].is_tail && !(i == last && grows(body)),
        is_big: body[i - 1].is_big,
        position: body[i - 1].position,
        orientation: (
            body[i - 1].orientation.0,
            if i == last && !grows(body) {
                None
            } else {
                body[i - 1].orientation.1
            },
        ),
    }
}

/// The body after one move in `direction` that takes the head to
/// `destination`.
///
/// The head stands on `destination`, unmarked, facing `direction`. Every
/// other segment has followed the one in front, and the segment behind
/// the head looks towards `direction`. Where the tail was marked, a new
/// unmarked tail stands on the cell that the old tail stood on, with the
/// old tail's orientation; otherwise that cell is left.
pub open spec fn moved_body(
    body: Seq<SnakeBodyPart>,
    direction: Direction,
    destination: Vec2D,
) -> Seq<SnakeBodyPart>
    recommends
        body.len() >= 2,
{
    let n = body.len() as int;
    Seq::new(
        if grows(body) {
            body.len() + 1
        } else {
            body.len()
        },
        |i: int|
            if i == 0 {
                SnakeBodyPart {
                    is_big: false,
                    position: destination,
                    orientation: (None, Some(direction)),
                    ..body[0]
                }
            } else if i == 1 {
                SnakeBodyPart {
                    orientation: (Some(direction), followed(body, 1).orientation.1),
                    ..followed(body, 1)
                }
            } else if i < n {
                followed(body, i)
            } else {
                SnakeBodyPart {
                    is_head: false,
                    is_tail: true,
                    is_big: false,
                    position: body[n - 1].position,
                    orientation: body[n - 1].orientation,
                }
            },
    )
}

/// The occupied cells after one move to `destination`: the cell of the
/// tail is given up unless the body grows, then `destination` is taken.
pub open spec fn moved_cells(
    body: Seq<SnakeBodyPart>,
    occupied: Set<Vec2D>,
    destination: Vec2D,
) -> Set<Vec2D>
    recommends
        body.len() >= 2,
{
    if grows(body) {
        occupied.insert(destination)
    } else {
        occupied.remove(body.last().position).insert(destination)
    }
}

/// No segment of `body` is marked as holding food.
pub open spec fn unmarked(body: Seq<SnakeBodyPart>) -> bool {
    forall|i: int| 0 <= i < body.len() ==> !(#[trigger] body[i]).is_big
}

/// Segment `at` of `body` is marked as holding food, and no other.
pub open spec fn marked_only_at(body: Seq<SnakeBodyPart>, at: int) -> bool {
    forall|i: int| 0 <= i < body.len() ==> (#[trigger] body[i]).is_big == (i == at)
}

/// What a player stands for: the direction of the next move, the turn
/// asked for, the segments head first, and the set of occupied cells.
pub struct Snake {
    pub direction: Direction,
    pub wanted_direction: Option<Direction>,
    pub body: Seq<SnakeBodyPart>,
    pub occupied: Set<Vec2D>,
}

impl Snake {
    /// The snake that a game starts with.
    pub open spec fn start() -> Snake {
        Snake {
            direction: Direction::Right,
            wanted_direction: None,
            body: start_body(),
            occupied: positions(start_body()).to_set(),
        }
    }

    /// The direction of the head's last move.
    pub open spec fn heading(self) -> Option<Direction> {
        self.body[0].orientation.1
    }

    /// Whether a move can be computed at all: there are a head and a
    /// tail, and the cell ahead has coordinates that an `i32` can hold.
    pub open spec fn can_step(self) -> bool {
        &&& self.body.len() >= 2
        &&& self.body[0].position.step_fits(self.direction)
    }

    /// The cell that the next move takes the head to.
    pub open spec fn destination(self) -> Vec2D
        recommends
            self.body.len() > 0,
            self.body[0].position.step_fits(self.direction),
    {
        self.body[0].position.stepped(self.direction)
    }

    /// The snake is whole: it has a head and a tail in their places, every
    /// segment has a sprite, no two segments share a cell, the occupied
    /// set holds exactly the cells of the body, and the next move does not
    /// lead back into the neck.
    pub open spec fn wf(self) -> bool {
        &&& self.body.len() >= 2
        &&& roles_in_order(self.body)
        &&& drawable(self.body)
        &&& self.heading() matches Some(h) && self.direction != h.opposite()
        &&& positions(self.body).no_duplicates()
        &&& self.occupied == positions(self.body).to_set()
    }

    /// The snake faces the way it last moved: no turn has been taken
    /// since.
    pub open spec fn settled(self) -> bool {
        self.heading() == Some(self.direction)
    }

    /// Whether the next move is allowed in `area`: the cell ahead of the
    /// head lies in it and is not occupied. The whole body counts, the
    /// tail's cell too, though the move may vacate it.
    pub open spec fn can_move(self, area: Rectangle) -> bool
        recommends
            self.body.len() > 0,
    {
        &&& area.covers(
            self.body[0].position.x + self.direction.dx(),
            self.body[0].position.y + self.direction.dy(),
        )
        &&& !self.occupied.contains(self.destination())
    }

    /// The snake after one move in its direction.
    pub open spec fn moved(self) -> Snake
        recommends
            self.can_step(),
    {
        Snake {
            body: moved_body(self.body, self.direction, self.destination()),
            occupied: moved_cells(self.body, self.occupied, self.destination()),
            ..self
        }
    }

    /// The snake after `moves` moves in its direction.
    pub open spec fn moved_times(self, moves: nat) -> Snake
        decreases moves,
    {
        if moves == 0 {
            self
        } else {
            self.moved_times((moves - 1) as nat).moved()
        }
    }

    /// The snake after it has eaten: the head is marked, nothing else
    /// changes.
    pub open spec fn eaten(self) -> Snake
        recommends
            self.body.len() > 0,
    {
        Snake { body: self.body.update(0, SnakeBodyPart { is_big: true, ..self.body[0] }), ..self }
    }

    /// The snake after a turn to `requested` was asked for. A turn
    /// straight back is not taken up and leaves an earlier request
    /// standing; any other replaces it.
    pub open spec fn asked(self, requested: Direction) -> Snake {
        if requested == self.direction.opposite() {
            self
        } else {
            Snake { wanted_direction: Some(requested), ..self }
        }
    }

    /// The snake after the turn asked for is taken: it faces the way
    /// asked for and nothing is asked for any more. Where nothing was
    /// asked for, or a turn straight back, it is unchanged.
    pub open spec fn turned(self) -> Snake {
        match self.wanted_direction {
            Some(wanted) if wanted != self.direction.opposite() => Snake {
                direction: wanted,
                wanted_direction: None,
                ..self
            },
            _ => self,
        }
    }
}

/// The snake that a game starts with is whole and settled.
pub proof fn lemma_start_whole()
    ensures
        Snake::start().wf(),
        Snake::start().settled(),
        Snake::start().body.len() == 7,
{
}

/// In a whole snake there are as many occupied cells as segments.
pub proof fn lemma_occupied_len(snake: Snake)
    requires
        snake.wf(),
    ensures
        snake.occupied.finite(),
        snake.occupied.len() == snake.body.len(),
{
    positions(snake.body).unique_seq_to_set();
    vstd::seq_lib::seq_to_set_is_finite(positions(snake.body));
}

/// A whole snake has a sprite for every segment.
pub proof fn lemma_whole_is_drawable(snake: Snake, i: int)
    requires
        snake.wf(),
        0 <= i < snake.body.len(),
    ensures
        snake.body[i].sprite() is Some,
{
}

/// A move to a free cell keeps the snake whole, leaves it settled, and
/// leaves as many occupied cells as segments.
pub proof fn lemma_move_keeps_whole(snake: Snake)
    requires
        snake.wf(),
        !snake.occupied.contains(snake.destination()),
    ensures
        snake.moved().wf(),
        snake.moved().settled(),
        snake.moved().occupied.len() == snake.moved().body.len(),
{
    let body = snake.body;
    let dest = snake.destination();
    let after = snake.moved().body;
    let n = body.len() as int;
    let cells = positions(body);
    let moved = positions(after);
    assert forall|i: int| 0 <= i < after.len() implies (#[trigger] after[i]).sprite() is Some by {
        if 0 < i < n {
            assert(body[i - 1].sprite() is Some);
            assert(body[i].sprite() is Some);
        } else {
            assert(body[0].sprite() is Some);
            assert(body[n - 1].sprite() is Some);
        }
    }
    assert forall|i: int| 0 < i < moved.len() implies #[trigger] moved[i] == cells[i - 1] by {}
    assert forall|i: int, j: int| 0 <= i < j < moved.len() implies moved[i] != moved[j] by {
        if i == 0 {
            assert(cells.contains(cells[j - 1]));
        } else {
            assert(cells[i - 1] != cells[j - 1]);
        }
    }
    assert(moved.to_set() =~= moved_cells(body, cells.to_set(), dest)) by {
        assert forall|c: Vec2D| moved.to_set().contains(c) implies moved_cells(
            body,
            cells.to_set(),
            dest,
        ).contains(c) by {
            let i = choose|i: int| 0 <= i < moved.len() && moved[i] == c;
            if i > 0 {
                assert(cells.contains(cells[i - 1]));
                if !grows(body) {
                    assert(cells[i - 1] != cells[n - 1]);
                }
            }
        }
        assert forall|c: Vec2D|
            moved_cells(body, cells.to_set(), dest).contains(c) implies moved.to_set().contains(
            c,
        ) by {
            if c == dest {
                assert(moved[0] == c);
            } else {
                let i = choose|i: int| 0 <= i < cells.len() && cells[i] == c;
                assert(moved[i + 1] == c);
            }
        }
    }
    lemma_occupied_len(snake.moved());
}

/// Eating keeps the snake whole and changes neither its length, nor its
/// cells, nor whether it is settled.
pub proof fn lemma_eat_keeps_whole(snake: Snake)
    requires
        snake.wf(),
    ensures
        snake.eaten().wf(),
        snake.eaten().settled() == snake.settled(),
        snake.eaten().body.len() == snake.body.len(),
        positions(snake.eaten().body) == positions(snake.body),
{
    assert(positions(snake.eaten().body) =~= positions(snake.body));
}

/// A settled whole snake stays whole when it takes the turn asked for.
pub proof fn lemma_turn_keeps_whole(snake: Snake)
    requires
        snake.wf(),
        snake.settled(),
    ensures
        snake.turned().wf(),
{
}

/// A move lengthens the body by one segment where the tail is marked, and
/// by none where it is not.
pub proof fn lemma_move_len(snake: Snake)
    ensures
        snake.moved().body.len() == snake.body.len() + if grows(snake.body) {
            1int
        } else {
            0int
        },
{
}

/// A move carries every mark one segment towards the tail: the head is
/// left unmarked, each segment behind it has the mark of the one that was
/// in front, and a new tail is unmarked.
pub proof fn lemma_marks_travel(snake: Snake, i: int)
    requires
        snake.body.len() >= 2,
        0 <= i < snake.moved().body.len(),
    ensures
        snake.moved().body[i].is_big == (0 < i < snake.body.len() && snake.body[i - 1].is_big),
{
}

/// Eating does not change the number of segments. Where the tail is
/// marked, the move that follows adds one.
pub proof fn lemma_meal_at_marked_tail(snake: Snake)
    requires
        snake.body.len() >= 2,
        grows(snake.body),
    ensures
        snake.eaten().body.len() == snake.body.len(),
        snake.eaten().moved().body.len() == snake.body.len() + 1,
{
}

/// A meal lengthens the snake by one segment, on the move after its mark
/// has reached the tail.
///
/// A snake of `n` unmarked segments that eats has, after fewer than `n`
/// moves, still `n` segments, of which the one as many places behind the
/// head as there were moves is marked and no other. After `n` moves it
/// has `n + 1` segments, all unmarked.
pub proof fn lemma_meal_travels(snake: Snake, moves: nat)
    requires
        snake.body.len() >= 2,
        unmarked(snake.body),
        moves <= snake.body.len(),
    ensures
        moves < snake.body.len() ==> {
            &&& snake.eaten().moved_times(moves).body.len() == snake.body.len()
            &&& marked_only_at(snake.eaten().moved_times(moves).body, moves as int)
        },
        moves == snake.body.len() ==> {
            &&& snake.eaten().moved_times(moves).body.len() == snake.body.len() + 1
            &&& unmarked(snake.eaten().moved_times(moves).body)
        },
    decreases moves,
{
    if moves > 0 {
        lemma_meal_travels(snake, (moves - 1) as nat);
        let before = snake.eaten().moved_times((moves - 1) as nat);
        assert(snake.eaten().moved_times(moves) == before.moved());
        assert(before.body.last().is_big == (moves == snake.body.len()));
    }
}

/// Asking for a turn straight back changes nothing. Each of the three
/// other directions becomes the turn asked for, and nothing else changes.
pub proof fn lemma_only_reversal_refused(snake: Snake, requested: Direction)
    ensures
        requested == snake.direction.opposite() ==> snake.asked(requested) == snake,
        requested != snake.direction.opposite() ==> snake.asked(requested) == (Snake {
            wanted_direction: Some(requested),
            ..snake
        }),
        snake.asked(requested).direction == snake.direction,
        snake.asked(requested).body == snake.body,
        snake.asked(requested).occupied == snake.occupied,
{
}

/// A snake cannot move exactly when the cell ahead lies outside the area
/// or is occupied.
pub proof fn lemma_barred_way(snake: Snake, area: Rectangle)
    requires
        snake.body.len() > 0,
    ensures
        !snake.can_move(area) <==> {
            ||| !area.covers(
                snake.body[0].position.x + snake.direction.dx(),
                snake.body[0].position.y + snake.direction.dy(),
            )
            ||| snake.occupied.contains(snake.destination())
        },
        snake.can_move(area) ==> snake.body[0].position.step_fits(snake.direction)
            && area.spec_contains(&snake.destination()),
{
}

} // verus!
