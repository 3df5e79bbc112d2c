//! The game: a snake, the food and the clock, driven once per frame.

use crate::constants::MOVE_DELAY;
use crate::food::{board_full, is_free, spawn_food};
use crate::model::{
    lemma_eat_keeps_whole, lemma_move_keeps_whole, lemma_start_whole, lemma_turn_keeps_whole,
    Snake,
};
use crate::player::Player;
use crate::utils::{Direction, Rectangle, Vec2D};
use vstd::prelude::*;

verus! {

/// Whether a game is being played or has ended.
#[derive(Debug, PartialEq, Eq, Clone, Copy, Structural)]
pub enum GameState {
    Playing,
    GameOver,
}

impl GameState {
    /// A game starts in play.
    pub fn default() -> (state: GameState)
        ensures
            state == GameState::Playing,
    {
        GameState::Playing
    }
}

/// The keys held down during one frame.
#[derive(Debug, Clone, Copy)]
pub struct Input {
    pub up: bool,
    pub down: bool,
    pub left: bool,
    pub right: bool,
    /// The key that starts a new game once one is over.
    pub restart: bool,
}

/// What one frame did to the game.
#[derive(Debug, PartialEq, Eq, Clone, Copy, Structural)]
pub enum Outcome {
    /// The time for the next move has not come.
    Waiting,
    /// The snake moved one cell.
    Moved,
    /// The snake moved onto the food and ate it; new food is out.
    Ate,
    /// The way was barred by a wall or by the snake itself: the game is
    /// over.
    Collided,
    /// There is no free cell left for food: the game is over, and won.
    BoardFull,
    /// The game is over and no new one was asked for.
    Idle,
    /// A new game has begun.
    Restarted,
}

/// The playing area of a game.
pub struct SnakeGameConf {
    pub playing_area: Rectangle,
}

impl SnakeGameConf {
    /// A playing area of `width` columns and `height` rows whose first
    /// cell is the origin. Both are at least 1 and small enough for the
    /// last cell to have `i32` coordinates.
    pub fn new(width: u32, height: u32) -> (conf: SnakeGameConf)
        requires
            1 <= width <= 0x8000_0000,
            1 <= height <= 0x8000_0000,
        ensures
            conf.playing_area.min == (Vec2D { x: 0, y: 0 }),
            conf.playing_area.max == (Vec2D { x: (width - 1) as i32, y: (height - 1) as i32 }),
            conf.playing_area.wf(),
            conf.playing_area.columns() == width,
            conf.playing_area.rows() == height,
    {
        SnakeGameConf {
            playing_area: Rectangle::new(0, 0, (width - 1) as i32, (height - 1) as i32),
        }
    }
}

/// The time on the clock after `elapsed` more microseconds, held at the
/// largest value that the clock can show.
pub open spec fn accumulated(last_time: u64, elapsed: u64) -> u64 {
    if last_time + elapsed > u64::MAX {
        u64::MAX
    } else {
        (last_time + elapsed) as u64
    }
}

/// What a game stands for.
pub struct Game {
    pub snake: Snake,
    pub area: Rectangle,
    /// Microseconds gone by since the last move was due.
    pub last_time: u64,
    pub state: GameState,
    pub food: Option<Vec2D>,
}

impl Game {
    /// The snake is whole, it is settled while the game is in play, and
    /// the food, where there is any, lies on no cell of the snake.
    pub open spec fn wf(self) -> bool {
        &&& self.snake.wf()
        &&& self.state is Playing ==> self.snake.settled()
        &&& self.food matches Some(cell) ==> !self.snake.occupied.contains(cell)
    }

    /// A new game in `area`.
    pub open spec fn start(area: Rectangle) -> Game {
        Game {
            snake: Snake::start(),
            area,
            last_time: 0,
            state: GameState::Playing,
            food: None,
        }
    }

    /// The game after the keys of `input` have asked for their turns, in
    /// the order up, down, left, right: of several keys held down the
    /// last one that does not point straight back has its way.
    pub open spec fn steered(self, input: Input) -> Game {
        let up = if input.up {
            self.snake.asked(Direction::Up)
        } else {
            self.snake
        };
        let down = if input.down {
            up.asked(Direction::Down)
        } else {
            up
        };
        let left = if input.left {
            down.asked(Direction::Left)
        } else {
            down
        };
        let right = if input.right {
            left.asked(Direction::Right)
        } else {
            left
        };
        Game { snake: right, ..self }
    }

    /// One frame of a game in play, but for the drawing of food.
    ///
    /// The keys ask for their turns and the clock runs on by `elapsed`.
    /// While it shows no more than `MOVE_DELAY` nothing else happens.
    /// Else `MOVE_DELAY` is taken off it, once, and the snake takes the
    /// turn asked for. If it cannot move then, the game is over. If it
    /// can, it moves, and where the head comes to lie on the food it eats
    /// and the food is gone.
    pub open spec fn advanced(self, input: Input, elapsed: u64) -> (Game, Outcome) {
        let steered = self.steered(input).snake;
        let total = accumulated(self.last_time, elapsed);
        if total <= MOVE_DELAY {
            (Game { snake: steered, last_time: total, ..self }, Outcome::Waiting)
        } else {
            let rest = (total - MOVE_DELAY) as u64;
            let turned = steered.turned();
            if !turned.can_move(self.area) {
                (
                    Game { snake: turned, last_time: rest, state: GameState::GameOver, ..self },
                    Outcome::Collided,
                )
            } else if self.food == Some(turned.destination()) {
                (
                    Game { snake: turned.moved().eaten(), last_time: rest, food: None, ..self },
                    Outcome::Ate,
                )
            } else {
                (Game { snake: turned.moved(), last_time: rest, ..self }, Outcome::Moved)
            }
        }
    }

    /// `after` is what a game may come to when new food is looked for:
    /// where every cell of the area is occupied no food is out and the
    /// game is over, else food lies on a free cell of the area. Nothing
    /// else changes.
    pub open spec fn fed(self, after: Game) -> bool {
        if board_full(self.area, self.snake.occupied) {
            after == (Game { state: GameState::GameOver, food: None, ..self })
        } else {
            &&& after.food matches Some(cell)
            &&& is_free(self.area, self.snake.occupied, cell)
            &&& after == (Game { food: after.food, ..self })
        }
    }

    /// What looking for new food is reported as: `BoardFull` where every
    /// cell of the area is occupied, else `Ate`.
    pub open spec fn meal_outcome(self) -> Outcome {
        if board_full(self.area, self.snake.occupied) {
            Outcome::BoardFull
        } else {
            Outcome::Ate
        }
    }

    /// `after` and `outcome` are what one frame may make of a game in play
    /// that has food out: the frame goes as `advanced` says, and where the
    /// food was eaten new food is looked for.
    pub open spec fn played_with_food(
        self,
        input: Input,
        elapsed: u64,
        after: Game,
        outcome: Outcome,
    ) -> bool {
        let (next, result) = self.advanced(input, elapsed);
        if result is Ate {
            next.fed(after) && outcome == next.meal_outcome()
        } else {
            after == next && outcome == result
        }
    }

    /// `after` and `outcome` are what one frame may make of a game in
    /// play. Where no food is out it is looked for first: if there is no
    /// free cell the game is over at once, else the frame goes on with
    /// food on some free cell.
    pub open spec fn played(self, input: Input, elapsed: u64, after: Game, outcome: Outcome) -> bool {
        if self.food is Some {
            self.played_with_food(input, elapsed, after, outcome)
        } else if board_full(self.area, self.snake.occupied) {
            self.fed(after) && outcome == Outcome::BoardFull
        } else {
            exists|cell: Vec2D|
                {
                    &&& #[trigger] is_free(self.area, self.snake.occupied, cell)
                    &&& (Game { food: Some(cell), ..self }).played_with_food(
                        input,
                        elapsed,
                        after,
                        outcome,
                    )
                }
        }
    }

    /// The game after one frame once it is over: a new game where the
    /// restart key is down, else the same.
    pub open spec fn restarted(self, input: Input) -> (Game, Outcome) {
        if input.restart {
            (Game::start(self.area), Outcome::Restarted)
        } else {
            (self, Outcome::Idle)
        }
    }
}

/// The game.
pub struct SnakeGame {
    player: Player,
    conf: SnakeGameConf,
    last_time: u64,
    state: GameState,
    food: Option<Vec2D>,
}

impl View for SnakeGame {
    type V = Game;

    closed spec fn view(&self) -> Game {
        Game {
            snake: self.player@,
            area: self.conf.playing_area,
            last_time: self.last_time,
            state: self.state,
            food: self.food,
        }
    }
}

impl SnakeGame {
    /// A new game in the playing area of `conf`: the snake at its start,
    /// no food out yet, the clock at zero.
    pub fn new(conf: SnakeGameConf) -> (game: SnakeGame)
        ensures
            game@ == Game::start(conf.playing_area),
            game@.wf(),
    {
        SnakeGame {
            player: Player::new(),
            conf,
            last_time: 0,
            state: GameState::default(),
            food: None,
        }
    }

    /// The snake.
    pub fn player(&self) -> (player: &Player)
        ensures
            player@ == self@.snake,
    {
        &self.player
    }

    /// The playing area.
    pub fn playing_area(&self) -> (area: &Rectangle)
        ensures
            *area == self@.area,
    {
        &self.conf.playing_area
    }

    /// Whether the game is in play or over.
    pub fn state(&self) -> (state: GameState)
        ensures
            state == self@.state,
    {
        self.state
    }

    /// The cell that the food lies on, if any is out.
    pub fn food(&self) -> (food: Option<Vec2D>)
        ensures
            food == self@.food,
    {
        self.food
    }

    /// Microseconds gone by since the last move was due.
    pub fn last_time(&self) -> (micros: u64)
        ensures
            micros == self@.last_time,
    {
        self.last_time
    }

    /// Puts the food on `cell`, unless the snake occupies it. Says whether
    /// the food was put there.
    pub fn place_food(&mut self, cell: Vec2D) -> (placed: bool)
        ensures
            placed == !old(self)@.snake.occupied.contains(cell),
            final(self)@ == if placed {
                Game { food: Some(cell), ..old(self)@ }
            } else {
                old(self)@
            },
            old(self)@.wf() ==> final(self)@.wf(),
    {
        if self.player.body_positions.contains(&cell) {
            false
        } else {
            self.food = Some(cell);
            true
        }
    }

    /// One frame: of play while the game is in play, of waiting for the
    /// restart key once it is over. A game in play needs a snake with a
    /// head and a tail. A well-formed game stays well-formed.
    pub fn update(&mut self, input: &Input, elapsed: u64) -> (outcome: Outcome)
        requires
            old(self)@.state is Playing ==> old(self)@.snake.body.len() >= 2,
        ensures
            old(self)@.wf() ==> final(self)@.wf(),
            match old(self)@.state {
                GameState::Playing => old(self)@.played(*input, elapsed, final(self)@, outcome),
                GameState::GameOver => (final(self)@, outcome) == old(self)@.restarted(*input),
            },
    {
        match self.state {
            GameState::GameOver => self.update_game_over(input),
            GameState::Playing => self.update_playing(input, elapsed),
        }
    }

    /// Takes up the turns that the keys of `input` ask for.
    pub fn handle_input(&mut self, input: &Input)
        ensures
            final(self)@ == old(self)@.steered(*input),
            old(self)@.wf() ==> final(self)@.wf(),
    {
        if input.up {
            self.player.set_direction(Direction::Up);
        }
        if input.down {
            self.player.set_direction(Direction::Down);
        }
        if input.left {
            self.player.set_direction(Direction::Left);
        }
        if input.right {
            self.player.set_direction(Direction::Right);
        }
    }

    /// One frame of a game in play. It needs a snake with a head and a
    /// tail. A well-formed game that is in play stays well-formed.
    pub fn update_playing(&mut self, input: &Input, elapsed: u64) -> (outcome: Outcome)
        requires
            old(self)@.snake.body.len() >= 2,
        ensures
            old(self)@.played(*input, elapsed, final(self)@, outcome),
            old(self)@.wf() && old(self)@.state is Playing ==> final(self)@.wf(),
    {
        if self.food.is_none() {
            if !self.generate_food() {
                return Outcome::BoardFull;
            }
        }
        let ghost start = self@;
        self.handle_input(input);

        self.last_time = self.last_time.saturating_add(elapsed);

        let outcome = if self.last_time > MOVE_DELAY {
            self.last_time -= MOVE_DELAY;

            self.player.apply_wanted_direction();

            if self.player.can_move(&self.conf.playing_area) {
                self.player.move_forward();
                if self.food == Some(self.player.body[0].position) {
                    self.player.eat();
                    self.food = None;
                    if self.generate_food() {
                        Outcome::Ate
                    } else {
                        Outcome::BoardFull
                    }
                } else {
                    Outcome::Moved
                }
            } else {
                self.state = GameState::GameOver;
                Outcome::Collided
            }
        } else {
            Outcome::Waiting
        };
        proof {
            assert(start.played_with_food(*input, elapsed, self@, outcome));
            if old(self)@.food is None {
                assert(is_free(old(self)@.area, old(self)@.snake.occupied, start.food->0));
            }
            if old(self)@.wf() && old(self)@.state is Playing {
                lemma_play_keeps_wf(old(self)@, *input, elapsed, self@, outcome);
            }
        }
        outcome
    }

    /// One frame of a game that is over: the restart key begins a new
    /// game, with the snake at its start, no food out and the clock at
    /// zero.
    pub fn update_game_over(&mut self, input: &Input) -> (outcome: Outcome)
        ensures
            (final(self)@, outcome) == old(self)@.restarted(*input),
            old(self)@.wf() || input.restart ==> final(self)@.wf(),
    {
        if input.restart {
            self.state = GameState::Playing;
            self.player.reset();
            self.last_time = 0;
            self.food = None;
            Outcome::Restarted
        } else {
            Outcome::Idle
        }
    }

    /// Looks for a free cell and puts new food on it. Where there is
    /// none, no food is out and the game is over. Says whether food was
    /// put out.
    pub fn generate_food(&mut self) -> (found: bool)
        ensures
            found == !board_full(old(self)@.area, old(self)@.snake.occupied),
            old(self)@.fed(final(self)@),
            old(self)@.wf() ==> final(self)@.wf(),
    {
        match spawn_food(&self.conf.playing_area, &self.player.body_positions) {
            Ok(food_position) => {
                self.food = Some(food_position);
                true
            },
            Err(_) => {
                self.food = None;
                self.state = GameState::GameOver;
                false
            },
        }
    }
}

/// Whatever a frame makes of a well-formed game in play, the game stays
/// well-formed: the snake whole, and the food on no cell of the snake.
pub proof fn lemma_play_keeps_wf(
    game: Game,
    input: Input,
    elapsed: u64,
    after: Game,
    outcome: Outcome,
)
    requires
        game.wf(),
        game.state is Playing,
        game.played(input, elapsed, after, outcome),
    ensures
        after.wf(),
        after.food matches Some(cell) ==> !after.snake.occupied.contains(cell),
{
    if game.food is Some {
        lemma_food_play_keeps_wf(game, input, elapsed, after, outcome);
    } else if !board_full(game.area, game.snake.occupied) {
        let cell = choose|cell: Vec2D|
            {
                &&& #[trigger] is_free(game.area, game.snake.occupied, cell)
                &&& (Game { food: Some(cell), ..game }).played_with_food(
                    input,
                    elapsed,
                    after,
                    outcome,
                )
            };
        lemma_food_play_keeps_wf(Game { food: Some(cell), ..game }, input, elapsed, after, outcome);
    }
}

proof fn lemma_food_play_keeps_wf(
    game: Game,
    input: Input,
    elapsed: u64,
    after: Game,
    outcome: Outcome,
)
    requires
        game.wf(),
        game.state is Playing,
        game.played_with_food(input, elapsed, after, outcome),
    ensures
        after.wf(),
{
    let steered = game.steered(input).snake;
    if accumulated(game.last_time, elapsed) > MOVE_DELAY {
        lemma_turn_keeps_whole(steered);
        let turned = steered.turned();
        if turned.can_move(game.area) {
            lemma_move_keeps_whole(turned);
            lemma_eat_keeps_whole(turned.moved());
        }
    }
}

/// When a move is due and the way is barred, by the edge of the area or
/// by the snake itself, the game is over and the snake has not moved.
pub proof fn lemma_barred_way_ends_game(game: Game, input: Input, elapsed: u64)
    requires
        accumulated(game.last_time, elapsed) > MOVE_DELAY,
        !game.steered(input).snake.turned().can_move(game.area),
    ensures
        game.advanced(input, elapsed).0.state is GameOver,
        game.advanced(input, elapsed).1 is Collided,
        game.advanced(input, elapsed).0.snake.body == game.snake.body,
        game.advanced(input, elapsed).0.snake.occupied == game.snake.occupied,
{
}

/// A new game is well-formed, and so is a game that was started anew.
pub proof fn lemma_start_wf(area: Rectangle)
    ensures
        Game::start(area).wf(),
{
    lemma_start_whole();
}

} // verus!
