//! The simulation: the game's whole state as one value, the step that one
//! tick performs on it, and the scheduler that turns elapsed time into ticks.

use vstd::prelude::*;
use vstd::arithmetic::div_mod::lemma_fundamental_div_mod_converse;
use std::collections::VecDeque;
use rand::rngs::ThreadRng;
use crate::screen::{
    clear_screen, cleared, find_empty_position, free_at, has_free_cell, is_screen,
    lemma_free_cell_is_unoccupied, new_screen, on_grid, render_screen, stamped, template,
};
use crate::snake::{
    calculate_next_head_position, hits_wall, in_interior, next_x, next_y, opposite, steer,
    steered, tick_duration, tick_duration_of,
};
use crate::input::{decoded, known_after, InputEvent};
use crate::types::{Direction, GameState, Position};

verus! {

/// The game: the snake with its head in front, the food, the heading, the
/// state, the time not yet simulated (nanoseconds) and the grid buffer.
pub struct Game {
    pub snake: VecDeque<Position>,
    pub food: Position,
    pub heading: Direction,
    pub state: GameState,
    pub lag: u64,
    pub screen: Vec<u8>,
}

/// What a `Game` holds, as mathematical values.
pub struct GameView {
    pub snake: Seq<Position>,
    pub food: Position,
    pub heading: Direction,
    pub state: GameState,
    pub lag: u64,
    pub screen: Seq<u8>,
}

impl View for Game {
    type V = GameView;

    open spec fn view(&self) -> GameView {
        GameView {
            snake: self.snake@,
            food: self.food,
            heading: self.heading,
            state: self.state,
            lag: self.lag,
            screen: self.screen@,
        }
    }
}

impl GameView {
    /// A game is well formed if the snake has a head, the snake and the food
    /// lie on the grid, and the buffer has the grid's size.
    pub open spec fn wf(self) -> bool {
        &&& self.snake.len() >= 1
        &&& forall|k: int| 0 <= k < self.snake.len() ==> on_grid(#[trigger] self.snake[k])
        &&& on_grid(self.food)
        &&& is_screen(self.screen)
    }

    /// Whether the head lies on the food.
    pub open spec fn eats(self) -> bool {
        self.snake[0] == self.food
    }

    /// The snake once the tick's growth is done: where the head lies on the
    /// food, the tail cell is there twice.
    pub open spec fn grown(self) -> Seq<Position> {
        if self.eats() {
            self.snake.push(self.snake.last())
        } else {
            self.snake
        }
    }

    /// Whether the tick stops at the wall.
    pub open spec fn blocked(self) -> bool {
        hits_wall(self.snake[0], self.heading)
    }

    /// The cell that the head moves to, where it is not blocked.
    pub open spec fn next_head(self) -> Position {
        Position {
            x: next_x(self.snake[0], self.heading) as usize,
            y: next_y(self.snake[0], self.heading) as usize,
        }
    }

    /// The snake after one tick of an active game. A collision leaves the
    /// grown snake where it is. Otherwise the new head comes to the front and
    /// the last cell leaves, which on growth is the doubled tail cell.
    pub open spec fn snake_after_tick(self) -> Seq<Position> {
        let body = self.grown();
        if bites_itself(body) || self.blocked() {
            body
        } else {
            seq![self.next_head()] + body.drop_last()
        }
    }

    /// The state after one tick of an active game.
    pub open spec fn state_after_tick(self) -> GameState {
        if bites_itself(self.grown()) {
            GameState::OVER
        } else if self.blocked() {
            GameState::PAUSED
        } else {
            GameState::ACTIVE
        }
    }

    /// The buffer in which a new place for the food is sought: wiped, then
    /// stamped with the grown snake and the food that is being eaten.
    pub open spec fn screen_when_eating(self) -> Seq<u8> {
        stamped(cleared(self.screen), self.grown(), self.food)
    }

    /// The same game with another lag.
    pub open spec fn with_lag(self, lag: u64) -> GameView {
        GameView { lag, ..self }
    }

    /// The game after a direction request or a control signal. A request
    /// goes through the reversal guard; a signal becomes the state, unless
    /// the game is over, which it then stays.
    pub open spec fn after_input(self, input: Result<Direction, GameState>) -> GameView {
        match input {
            Ok(requested) => GameView { heading: steered(self.heading, requested), ..self },
            Err(signal) => if self.state == GameState::OVER {
                self
            } else {
                GameView { state: signal, ..self }
            },
        }
    }

    /// The game after what the input queue handed over, if it held anything.
    pub open spec fn after_polled(self, input: Option<Result<Direction, GameState>>) -> GameView {
        match input {
            Some(message) => self.after_input(message),
            None => self,
        }
    }
}

/// Whether the head of `body` lies on another of its segments.
pub open spec fn bites_itself(body: Seq<Position>) -> bool {
    exists|k: int| 1 <= k < body.len() && #[trigger] body[k] == body[0]
}

/// One tick, from `a` to `b`. A game that is not active stays as it is. An
/// active one moves as `snake_after_tick` and `state_after_tick` say, and
/// keeps heading and lag. The food moves only when it is eaten: to a blank
/// interior cell of the buffer stamped for that purpose, or nowhere if that
/// buffer has none.
pub open spec fn tick_rel(a: GameView, b: GameView) -> bool {
    if a.state != GameState::ACTIVE {
        b == a
    } else {
        &&& b.snake == a.snake_after_tick()
        &&& b.state == a.state_after_tick()
        &&& b.heading == a.heading
        &&& b.lag == a.lag
        &&& if a.eats() {
            &&& b.screen == a.screen_when_eating()
            &&& if has_free_cell(b.screen) {
                free_at(b.screen, b.food.x as int, b.food.y as int)
            } else {
                b.food == a.food
            }
        } else {
            b.screen == a.screen && b.food == a.food
        }
    }
}

/// One tick of the scheduler, from `a` to `b`: the game is active and owes at
/// least one tick, the tick runs, and its duration leaves the lag.
pub open spec fn paid_tick(a: GameView, b: GameView, duration: u64) -> bool {
    &&& a.state == GameState::ACTIVE
    &&& a.lag >= duration
    &&& b.lag == a.lag - duration
    &&& tick_rel(a, b.with_lag(a.lag))
}

/// Whether each game of `trace` leads to the next by one paid tick.
pub open spec fn is_run(trace: Seq<GameView>, duration: u64) -> bool {
    forall|i: int|
        0 <= i < trace.len() - 1 ==> paid_tick(#[trigger] trace[i], trace[i + 1], duration)
}

/// Whether `ticks` paid ticks in a row lead from `a` to `b`.
pub open spec fn drained(a: GameView, b: GameView, duration: u64, ticks: nat) -> bool {
    exists|trace: Seq<GameView>|
        {
            &&& #[trigger] is_run(trace, duration)
            &&& trace.len() == ticks + 1
            &&& trace[0] == a
            &&& trace.last() == b
        }
}

/// Tells whether the head of the snake lies on another of its segments.
pub fn collides_with_itself(snake: &VecDeque<Position>) -> (r: bool)
    requires
        snake@.len() >= 1,
    ensures
        r == bites_itself(snake@),
{
    let head = snake[0];
    let mut hit = false;
    let mut k: usize = 1;
    while k < snake.len()
        invariant
            1 <= k <= snake@.len(),
            head == snake@[0],
            hit == (exists|j: int| 1 <= j < k && #[trigger] snake@[j] == snake@[0]),
        decreases snake@.len() - k,
    {
        if snake[k] == head {
            hit = true;
        }
        k += 1;
    }
    hit
}

impl Game {
    /// The game as it starts: a snake of three cells in the top row heading
    /// right, the food in the middle of the grid, no lag, and an empty grid.
    pub fn new() -> (game: Game)
        ensures
            game@.wf(),
            game@.snake == seq![
                Position { x: 12, y: 1 },
                Position { x: 11, y: 1 },
                Position { x: 10, y: 1 },
            ],
            game@.food == (Position { x: 60, y: 15 }),
            game@.heading == Direction::RIGHT,
            game@.state == GameState::ACTIVE,
            game@.lag == 0,
            game@.screen == template(),
    {
        let screen = new_screen();
        let mut snake: VecDeque<Position> = VecDeque::new();
        snake.push_back(Position { x: 12, y: 1 });
        snake.push_back(Position { x: 11, y: 1 });
        snake.push_back(Position { x: 10, y: 1 });
        let game = Game {
            snake,
            food: Position { x: 60, y: 15 },
            heading: Direction::RIGHT,
            state: GameState::ACTIVE,
            lag: 0,
            screen,
        };
        assert(game@.snake =~= seq![
            Position { x: 12, y: 1 },
            Position { x: 11, y: 1 },
            Position { x: 10, y: 1 },
        ]);
        game
    }

    /// Runs one tick. Where the head lies on the food, the snake gets its
    /// tail cell a second time and the food a new place. Then a head that
    /// lies on another segment ends the game, and a step into the wall pauses
    /// it; either leaves the snake where it is. Otherwise the head advances
    /// and the last cell is dropped. A game that is not active is left alone.
    pub fn tick(&mut self, rng: &mut ThreadRng)
        requires
            old(self)@.wf(),
        ensures
            final(self)@.wf(),
            tick_rel(old(self)@, final(self)@),
    {
        if self.state != GameState::ACTIVE {
            return ;
        }
        let head = self.snake[0];
        if head == self.food {
            let tail = self.snake[self.snake.len() - 1];
            self.snake.push_back(tail);
            clear_screen(&mut self.screen);
            render_screen(&mut self.screen, &self.snake, &self.food);
            match find_empty_position(&self.screen, rng) {
                Some(place) => {
                    self.food = place;
                },
                None => {},
            }
        }
        assert(self.snake@ =~= old(self)@.grown());
        if collides_with_itself(&self.snake) {
            self.state = GameState::OVER;
            return ;
        }
        match calculate_next_head_position(&head, &self.heading) {
            Ok(next_head) => {
                self.snake.push_front(next_head);
                self.snake.pop_back();
                assert(self.snake@ =~= old(self)@.snake_after_tick());
            },
            Err(state) => {
                self.state = state;
            },
        }
    }

    /// Takes a direction request or a control signal. A request becomes the
    /// heading unless it is the reverse of the heading; a signal becomes the
    /// state. A game that is over stays over.
    pub fn apply_input(&mut self, input: Result<Direction, GameState>)
        ensures
            final(self)@ == old(self)@.after_input(input),
    {
        match input {
            Ok(requested) => {
                self.heading = steer(self.heading, requested);
            },
            Err(signal) => {
                if self.state != GameState::OVER {
                    self.state = signal;
                }
            },
        }
    }

    /// Wipes the buffer and stamps the snake and the food on it, ready to be
    /// painted.
    pub fn refresh_screen(&mut self)
        requires
            old(self)@.wf(),
        ensures
            final(self)@ == (GameView {
                screen: stamped(cleared(old(self)@.screen), old(self)@.snake, old(self)@.food),
                ..old(self)@
            }),
    {
        clear_screen(&mut self.screen);
        render_screen(&mut self.screen, &self.snake, &self.food);
    }

    /// One pass of the outer loop, without the painting. The elapsed time
    /// joins the lag, the polled input is applied, and then ticks run for as
    /// long as the game is active and the lag covers the tick duration of the
    /// heading; each tick takes that duration from the lag. The result is the
    /// number of ticks that ran: the whole ticks that the lag holds, unless a
    /// collision stops the game before. While the game is paused the lag only
    /// grows, and the ticks it holds run once the game is active again.
    pub fn frame(
        &mut self,
        elapsed: u64,
        input: Option<Result<Direction, GameState>>,
        rng: &mut ThreadRng,
    ) -> (ticks: u64)
        requires
            old(self)@.wf(),
            old(self)@.lag + elapsed <= u64::MAX,
        ensures
            final(self)@.wf(),
            drained(
                old(self)@.with_lag((old(self)@.lag + elapsed) as u64).after_polled(input),
                final(self)@,
                tick_duration_of(final(self)@.heading),
                ticks as nat,
            ),
            final(self)@.heading == old(self)@.after_polled(input).heading,
            final(self)@.lag + ticks * tick_duration_of(final(self)@.heading) == old(self)@.lag
                + elapsed,
            final(self)@.state == GameState::ACTIVE ==> {
                &&& ticks == (old(self)@.lag + elapsed) / (tick_duration_of(
                    final(self)@.heading,
                ) as int)
                &&& final(self)@.lag == (old(self)@.lag + elapsed) % (tick_duration_of(
                    final(self)@.heading,
                ) as int)
            },
            old(self)@.after_polled(input).state != GameState::ACTIVE ==> ticks == 0,
    {
        self.lag = self.lag + elapsed;
        match input {
            Some(message) => {
                self.apply_input(message);
            },
            None => {},
        }
        let ghost start = self@;
        let ghost mut trace = seq![start];
        let duration = tick_duration(self.heading);
        let mut ticks: u64 = 0;
        while self.state == GameState::ACTIVE && self.lag >= duration
            invariant
                self@.wf(),
                duration == tick_duration_of(start.heading),
                duration > 0,
                self@.heading == start.heading,
                is_run(trace, duration),
                trace.len() == ticks + 1,
                trace[0] == start,
                trace.last() == self@,
                self@.lag + ticks * duration == start.lag,
                start.state != GameState::ACTIVE ==> ticks == 0,
            decreases self@.lag,
        {
            self.tick(rng);
            self.lag = self.lag - duration;
            proof {
                assert((ticks + 1) * duration == ticks * duration + duration)
                    by (nonlinear_arith);
                assert(ticks * duration >= ticks) by (nonlinear_arith)
                    requires
                        ticks >= 0,
                        duration >= 1,
                ;
                trace = trace.push(self@);
            }
            ticks = ticks + 1;
        }
        proof {
            if self.state == GameState::ACTIVE {
                lemma_fundamental_div_mod_converse(
                    start.lag as int,
                    duration as int,
                    ticks as int,
                    self.lag as int,
                );
            }
        }
        ticks
    }
}

/// A request for the reverse of the heading changes nothing.
pub proof fn lemma_reversal_keeps_heading(a: GameView, requested: Direction)
    requires
        opposite(a.heading, requested),
    ensures
        a.after_input(Ok(requested)) == a,
        a.after_polled(Some(Ok(requested))).heading == a.heading,
{
}

/// A request that is no reversal becomes the heading, and nothing else
/// changes.
pub proof fn lemma_request_becomes_heading(a: GameView, requested: Direction)
    requires
        !opposite(a.heading, requested),
    ensures
        a.after_input(Ok(requested)) == (GameView { heading: requested, ..a }),
        a.after_polled(Some(Ok(requested))).heading == requested,
{
}

/// A tick on which the head does not lie on the food keeps the length of the
/// snake.
pub proof fn lemma_length_kept_without_food(a: GameView, b: GameView)
    requires
        a.wf(),
        !a.eats(),
        tick_rel(a, b),
    ensures
        b.snake.len() == a.snake.len(),
{
}

/// A tick on which the head lies on the food makes the snake one cell longer.
pub proof fn lemma_length_grows_with_food(a: GameView, b: GameView)
    requires
        a.wf(),
        a.state == GameState::ACTIVE,
        a.eats(),
        tick_rel(a, b),
    ensures
        b.snake.len() == a.snake.len() + 1,
{
}

/// Food that was eaten moves to a cell on which no segment of the snake lies,
/// and away from where it was, provided that the interior has a blank cell
/// left once the snake is stamped on the wiped buffer.
pub proof fn lemma_new_food_is_off_the_snake(a: GameView, b: GameView)
    requires
        a.wf(),
        a.state == GameState::ACTIVE,
        a.eats(),
        has_free_cell(a.screen_when_eating()),
        tick_rel(a, b),
    ensures
        !a.snake.contains(b.food),
        !a.grown().contains(b.food),
        b.food != a.food,
        in_interior(b.food.x as int, b.food.y as int),
{
    let body = a.grown();
    assert forall|k: int| 0 <= k < body.len() implies on_grid(#[trigger] body[k]) by {
        if k < a.snake.len() {
            assert(body[k] == a.snake[k]);
        } else {
            assert(body[k] == a.snake[a.snake.len() - 1]);
        }
    }
    lemma_free_cell_is_unoccupied(cleared(a.screen), body, a.food, b.food);
    if a.snake.contains(b.food) {
        let k = choose|k: int| 0 <= k < a.snake.len() && a.snake[k] == b.food;
        assert(body[k] == b.food);
    }
}

/// A head that lies on another segment ends the game, and the snake stays
/// where it is; it has grown if the head lay on the food as well.
pub proof fn lemma_self_collision_ends_game(a: GameView, b: GameView)
    requires
        a.wf(),
        a.state == GameState::ACTIVE,
        bites_itself(a.grown()),
        tick_rel(a, b),
    ensures
        b.state == GameState::OVER,
        b.snake == a.grown(),
        !a.eats() ==> b.snake == a.snake,
{
}

/// A step onto a cell that the snake keeps is a collision, and the tick after
/// it ends the game without moving the snake.
pub proof fn lemma_step_onto_body_ends_game(a: GameView, b: GameView, c: GameView)
    requires
        a.wf(),
        a.state == GameState::ACTIVE,
        !bites_itself(a.grown()),
        !a.blocked(),
        a.grown().drop_last().contains(a.next_head()),
        tick_rel(a, b),
        tick_rel(b, c),
    ensures
        b.state == GameState::ACTIVE,
        bites_itself(b.snake),
        c.state == GameState::OVER,
        c.snake == b.grown(),
{
    let kept = a.grown().drop_last();
    let k = choose|k: int| 0 <= k < kept.len() && kept[k] == a.next_head();
    assert(b.snake[k + 1] == b.snake[0]);
    assert(b.grown()[k + 1] == b.grown()[0]);
}

/// A step into the wall stops the game and leaves the snake where it is; it
/// has grown if the head lay on the food. The game is paused, unless the head
/// lay on another segment as well, which ends it.
pub proof fn lemma_wall_collision_stops_game(a: GameView, b: GameView)
    requires
        a.wf(),
        a.state == GameState::ACTIVE,
        a.blocked(),
        tick_rel(a, b),
    ensures
        b.state == (if bites_itself(a.grown()) {
            GameState::OVER
        } else {
            GameState::PAUSED
        }),
        b.snake == a.grown(),
        !a.eats() ==> b.snake == a.snake,
{
}

/// A game that is over stays over, whatever is put in and however often it
/// ticks.
pub proof fn lemma_over_is_final(a: GameView, input: Result<Direction, GameState>, b: GameView)
    requires
        a.state == GameState::OVER,
        tick_rel(a, b),
    ensures
        a.after_input(input).state == GameState::OVER,
        b == a,
{
}

/// Whether the direction that the input task knows goes with the heading:
/// it is the heading, or its reverse, asked for and dropped.
pub open spec fn in_step(heading: Direction, known: Direction) -> bool {
    known == heading || opposite(heading, known)
}

/// An event that means nothing to the game changes nothing: it repeats the
/// last known direction, which the game already has or has already dropped.
pub proof fn lemma_meaningless_event_changes_nothing(
    a: GameView,
    known: Direction,
    event: InputEvent,
)
    requires
        in_step(a.heading, known),
        decoded(known, event) == Ok::<Direction, GameState>(known),
    ensures
        a.after_input(decoded(known, event)) == a,
{
}

/// The last known direction stays in step with the heading from one message
/// to the next, as long as the game takes the messages in the order in which
/// they were decoded.
pub proof fn lemma_known_direction_stays_in_step(
    a: GameView,
    known: Direction,
    event: InputEvent,
)
    requires
        in_step(a.heading, known),
    ensures
        in_step(
            a.after_input(decoded(known, event)).heading,
            known_after(known, decoded(known, event)),
        ),
{
}

} // verus!
