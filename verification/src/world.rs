//! The owning game session: the grid, the single agent and the input
//! binding, held as explicit fields rather than global state. The
//! embedding application calls `init` once before the first tick and
//! `tick` once per frame, owning the loop itself.

use vstd::prelude::*;

use crate::WORLD_H;
use crate::WORLD_W;
use crate::grid::Grid;
use crate::snake::InputMap;
use crate::snake::Key;
use crate::snake::KeyState;
use crate::snake::MoveReport;
use crate::snake::MoveVector;
use crate::snake::SNAKE_SPAWN_X;
use crate::snake::SNAKE_SPAWN_Y;
use crate::snake::Snake;
use crate::snake::default_input_map;
use crate::snake::move_snake;
use crate::snake::spawn_snake;
use crate::terrain::gen_terrain;
use crate::terrain::spec_generated;

verus! {

/// One game session: the world grid, the agent, and the key binding.
/// Exactly one instance exists per session, created at session start.
pub struct World {
    pub grid: Grid,
    pub snake: Snake,
    pub input_map: InputMap,
}

impl World {
    /// Well-formed: the grid is intact and the agent is the snake's head.
    pub open spec fn wf(self) -> bool {
        &&& self.grid.wf()
        &&& self.snake.kind is SnakeHead
    }

    /// One-shot setup, run exactly once before the first tick: generates
    /// the default-extent terrain, spawns the agent, and installs the
    /// default key binding.
    pub fn init() -> (w: World)
        ensures
            w.wf(),
            w.grid.spec_width() == WORLD_W,
            w.grid.spec_height() == WORLD_H,
            spec_generated(w.grid),
            w.snake.x == SNAKE_SPAWN_X,
            w.snake.y == SNAKE_SPAWN_Y,
            w.input_map == (InputMap { up: Key::W, down: Key::S, left: Key::A, right: Key::D }),
    {
        let grid = gen_terrain(WORLD_W, WORLD_H);
        let snake = spawn_snake();
        let input_map = default_input_map();
        World { grid, snake, input_map }
    }

    /// One tick of the update phase: translates the current key state
    /// into the movement vector and, exactly when it is non-zero, the
    /// diagnostic report. The session itself is left unchanged; applying
    /// the vector to the agent's position is outside current scope.
    pub fn tick(&self, keys: &KeyState) -> (r: (MoveVector, Option<MoveReport>))
        ensures
            r.0 == self.input_map.spec_poll(*keys),
            (r.0.x == 0 && r.0.y == 0) ==> r.1 is None,
            !(r.0.x == 0 && r.0.y == 0) ==> r.1 == Some(
                MoveReport {
                    x: r.0.x,
                    y: r.0.y,
                    magnitude_squared: (r.0.x * r.0.x + r.0.y * r.0.y) as u8,
                },
            ),
    {
        move_snake(&self.input_map, keys)
    }
}

} // verus!
