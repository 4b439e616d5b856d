//! One game: a snake, a piece of food, and the rules of a tick.
//!
//! A tick changes the game and returns the display commands that show the
//! change, in the order in which a host carries them out.

use crate::direction::{steered, Direction};
use crate::display::{clear_all, cleared, filled, Command, Paint};
use crate::food::{coord_at, in_field, Food};
use crate::grid::Cell;
use crate::snake::{bites, fresh_body, shrunk, ticked, valid_body, Snake};
use vstd::prelude::*;

verus! {

/// What the new head of the snake ran into.
#[derive(Clone, Copy, Debug, PartialEq, Eq)]
pub enum Collision {
    /// The snake's own body.
    Snake,
    /// The food.
    Food,
    /// Nothing.
    Nothing,
}

/// A game as a plain value.
pub struct GameView {
    /// The snake's heading.
    pub heading: Direction,
    /// The snake's body, head first.
    pub cells: Seq<Cell>,
    /// The cell of the food.
    pub food: Cell,
}

/// What `head` ran into: the body (but for its first cell) is looked at
/// first, then the food.
pub open spec fn classify(cells: Seq<Cell>, food: Cell, head: Cell) -> Collision {
    if bites(cells, head) {
        Collision::Snake
    } else if food == head {
        Collision::Food
    } else {
        Collision::Nothing
    }
}

/// The full picture: the food, then each cell of the snake, head first.
pub open spec fn painted(food: Cell, cells: Seq<Cell>) -> Seq<Command> {
    seq![Command::Fill(Paint::Food, food)] + filled(Paint::Snake, cells)
}

/// The body of the snake right after it moved in a tick, before the outcome
/// is applied.
pub open spec fn grown(g: GameView, key: i32) -> Seq<Cell> {
    ticked(g.cells, steered(g.heading, key))
}

/// What the snake's new head runs into in a tick.
pub open spec fn outcome(g: GameView, key: i32) -> Collision {
    classify(grown(g, key), g.food, grown(g, key)[0])
}

/// The game after a tick with this key. The two fractions place the new food
/// and count only where the snake eats.
pub open spec fn after(g: GameView, key: i32, unit_x: u32, unit_y: u32) -> GameView {
    match outcome(g, key) {
        Collision::Nothing => GameView {
            heading: steered(g.heading, key),
            cells: shrunk(grown(g, key)),
            food: g.food,
        },
        Collision::Food => GameView {
            heading: steered(g.heading, key),
            cells: grown(g, key),
            food: (coord_at(unit_x), coord_at(unit_y)),
        },
        Collision::Snake => GameView {
            heading: Direction::Up,
            cells: fresh_body(),
            food: g.food,
        },
    }
}

/// What a tick erases or announces before it draws the full picture.
pub open spec fn erased(g: GameView, key: i32) -> Seq<Command> {
    match outcome(g, key) {
        Collision::Nothing => seq![Command::Clear(grown(g, key).last())],
        Collision::Food => seq![Command::Clear(g.food)],
        Collision::Snake => seq![Command::Alert] + cleared(grown(g, key)),
    }
}

/// The commands of a tick: what it erases, then the full picture of the game
/// after it.
pub open spec fn commands(g: GameView, key: i32, unit_x: u32, unit_y: u32) -> Seq<Command> {
    erased(g, key) + painted(
        after(g, key, unit_x, unit_y).food,
        after(g, key, unit_x, unit_y).cells,
    )
}

/// What a game must be: a valid body, and food inside the grid.
pub open spec fn valid_game(g: GameView) -> bool {
    valid_body(g.cells) && in_field(g.food.0) && in_field(g.food.1)
}

/// A game.
pub struct Game {
    food: Food,
    snake: Snake,
}

impl View for Game {
    type V = GameView;

    closed spec fn view(&self) -> GameView {
        GameView {
            heading: self.snake.heading(),
            cells: self.snake.cells(),
            food: self.food.position(),
        }
    }
}

impl Game {
    /// The invariant of a game.
    pub open spec fn wf(&self) -> bool {
        valid_game(self@)
    }

    /// A new game: a fresh snake, and food where the two fractions put it.
    pub fn new(unit_x: u32, unit_y: u32) -> (g: Game)
        ensures
            g@.heading == Direction::Up,
            g@.cells == fresh_body(),
            g@.food == (coord_at(unit_x), coord_at(unit_y)),
            g.wf(),
    {
        let food = Food::random(unit_x, unit_y);
        let snake = Snake::new();
        Game { food, snake }
    }

    /// A game made of this snake and this food.
    pub fn from_parts(snake: Snake, food: Food) -> (g: Game)
        requires
            snake.wf(),
            food.wf(),
        ensures
            g@.heading == snake.heading(),
            g@.cells == snake.cells(),
            g@.food == food.position(),
            g.wf(),
    {
        Game { food, snake }
    }

    /// The snake.
    pub fn snake(&self) -> (r: &Snake)
        ensures
            r.heading() == self@.heading,
            r.cells() == self@.cells,
    {
        &self.snake
    }

    /// The food.
    pub fn food(&self) -> (r: &Food)
        ensures
            r.position() == self@.food,
    {
        &self.food
    }

    /// The full picture of the game: a fill for the food, then one for each
    /// cell of the snake, head first.
    pub fn render(&self) -> (out: Vec<Command>)
        ensures
            out@ == painted(self@.food, self@.cells),
    {
        let mut out: Vec<Command> = Vec::new();
        out.push(self.food.render());
        let mut snake = self.snake.render();
        out.append(&mut snake);
        out
    }

    /// Says what `head` runs into: a cell of the body other than the first,
    /// else the food, else nothing.
    pub fn detect_collision(&self, head: &Cell) -> (r: Collision)
        ensures
            r == classify(self@.cells, self@.food, *head),
    {
        if self.snake.hits_body(head) {
            return Collision::Snake;
        }
        let food = self.food.location();
        if food.0 == head.0 && food.1 == head.1 {
            return Collision::Food;
        }
        Collision::Nothing
    }

    /// Plays one tick. The key steers the snake, which then moves one step.
    /// Where the new head runs into nothing, the tail is removed and erased;
    /// where it runs into the food, the food is erased and placed anew by
    /// the two fractions, and the snake keeps its tail; where it runs into
    /// the body, the player is told, the whole body is erased and a fresh
    /// snake takes its place. The full picture follows in each case.
    pub fn tick(&mut self, key: i32, unit_x: u32, unit_y: u32) -> (out: Vec<Command>)
        requires
            old(self).wf(),
        ensures
            final(self)@ == after(old(self)@, key, unit_x, unit_y),
            out@ == commands(old(self)@, key, unit_x, unit_y),
            final(self).wf(),
    {
        let direction = self.snake.direction().steer(key);
        self.snake.tick(direction);
        let head = *self.snake.head();
        let mut out: Vec<Command> = Vec::new();
        match self.detect_collision(&head) {
            Collision::Nothing => {
                let tail = self.snake.shrink_tail();
                out.push(Command::Clear(tail));
            },
            Collision::Food => {
                out.push(Command::Clear(self.food.location()));
                self.food = Food::random(unit_x, unit_y);
            },
            Collision::Snake => {
                out.push(Command::Alert);
                let body = self.snake.body();
                clear_all(&mut out, &body);
                self.snake = Snake::new();
            },
        }
        let mut frame = self.render();
        out.append(&mut frame);
        out
    }
}

/// A head that lies on the body is classified as a bite whatever the food's
/// cell is: the body is looked at before the food.
pub proof fn bite_takes_priority(cells: Seq<Cell>, food: Cell, head: Cell)
    requires
        bites(cells, head),
    ensures
        classify(cells, food, head) == Collision::Snake,
{
}

/// The length of the body after a tick: unchanged where the head ran into
/// nothing, one more where it ate, and three after a bite.
pub proof fn tick_length(g: GameView, key: i32, unit_x: u32, unit_y: u32)
    requires
        valid_game(g),
    ensures
        outcome(g, key) == Collision::Nothing ==> after(g, key, unit_x, unit_y).cells.len()
            == g.cells.len(),
        outcome(g, key) == Collision::Food ==> after(g, key, unit_x, unit_y).cells.len()
            == g.cells.len() + 1,
        outcome(g, key) == Collision::Snake ==> after(g, key, unit_x, unit_y).cells.len() == 3,
{
}

/// A tick keeps a game valid.
pub proof fn tick_keeps_valid(g: GameView, key: i32, unit_x: u32, unit_y: u32)
    requires
        valid_game(g),
    ensures
        valid_game(after(g, key, unit_x, unit_y)),
{
    let d = steered(g.heading, key);
    let grown = grown(g, key);
    crate::snake::step_stays_on_grid(g.cells[0], d);
    assert forall|i: int| 0 <= i < grown.len() implies crate::grid::cell_on_grid(
        #[trigger] grown[i],
    ) by {
        if i > 0 {
            assert(grown[i] == g.cells[i - 1]);
        }
    }
    assert forall|i: int| 0 <= i < shrunk(grown).len() implies crate::grid::cell_on_grid(
        #[trigger] shrunk(grown)[i],
    ) by {
        assert(shrunk(grown)[i] == grown[i]);
    }
    crate::food::random_coord_in_field(unit_x);
    crate::food::random_coord_in_field(unit_y);
}

} // verus!
