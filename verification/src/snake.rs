//! Agent state and input mapper: the player-controlled snake, the binding
//! from physical directional keys to its dual-axis move action, and the
//! per-tick translation of raw key state into a normalized movement
//! vector.

use vstd::prelude::*;

use crate::tiles::TileKind;

verus! {

/// Horizontal spawn position of the agent, in world units. A fixed offset
/// that is deliberately not grid-cell-aligned, leaving room for smooth
/// sub-cell motion.
pub const SNAKE_SPAWN_X: i64 = 50;

/// Vertical spawn position of the agent, in world units.
pub const SNAKE_SPAWN_Y: i64 = 50;

/// The physical directional keys the mapper can bind.
#[derive(Clone, Copy, Debug, PartialEq, Eq, Structural)]
pub enum Key {
    W,
    A,
    S,
    D,
}

/// The named actions the agent responds to. `Move` is a dual-axis action:
/// a virtual directional pad whose per-axis value is one of -1, 0, 1.
#[derive(Clone, Copy, Debug, PartialEq, Eq, Structural)]
pub enum SnakeAction {
    Move,
}

/// Which physical key drives each pad direction of the `Move` action.
#[derive(Clone, Copy, Debug, PartialEq, Eq, Structural)]
pub struct InputMap {
    pub up: Key,
    pub down: Key,
    pub left: Key,
    pub right: Key,
}

/// The pressed/released state of the four physical keys, as the input
/// collaborator reports it at the start of a tick.
#[derive(Clone, Copy, Debug, PartialEq, Eq, Structural)]
pub struct KeyState {
    pub w: bool,
    pub a: bool,
    pub s: bool,
    pub d: bool,
}

/// The per-tick movement vector: one component per axis, each restricted
/// to -1, 0 or 1, never an intermediate value.
#[derive(Clone, Copy, Debug, PartialEq, Eq, Structural)]
pub struct MoveVector {
    pub x: i8,
    pub y: i8,
}

/// The once-per-tick diagnostic emitted while the vector is non-zero: the
/// two components and the squared Euclidean magnitude. The embedding
/// application renders the magnitude itself.
#[derive(Clone, Copy, Debug, PartialEq, Eq, Structural)]
pub struct MoveReport {
    pub x: i8,
    pub y: i8,
    pub magnitude_squared: u8,
}

/// The player-controlled agent: a single-segment snake, head only, at a
/// continuous world position independent of grid-cell granularity.
#[derive(Clone, Copy, Debug, PartialEq, Eq, Structural)]
pub struct Snake {
    pub x: i64,
    pub y: i64,
    pub kind: TileKind,
}

impl KeyState {
    /// Whether the given physical key is currently pressed.
    pub open spec fn spec_pressed(self, k: Key) -> bool {
        match k {
            Key::W => self.w,
            Key::A => self.a,
            Key::S => self.s,
            Key::D => self.d,
        }
    }

    /// Whether the given physical key is currently pressed.
    pub fn pressed(&self, k: Key) -> (b: bool)
        ensures
            b == self.spec_pressed(k),
    {
        match k {
            Key::W => self.w,
            Key::A => self.a,
            Key::S => self.s,
            Key::D => self.d,
        }
    }
}

/// One axis of the virtual pad: +1 while only the positive key is held,
/// -1 while only the negative key is held, 0 while neither or both are
/// held (opposite keys cancel).
pub open spec fn spec_axis(pos: bool, neg: bool) -> int {
    (if pos {
        1int
    } else {
        0int
    }) - (if neg {
        1int
    } else {
        0int
    })
}

impl InputMap {
    /// The movement vector the map derives from a key state.
    pub open spec fn spec_poll(self, keys: KeyState) -> MoveVector {
        MoveVector {
            x: spec_axis(keys.spec_pressed(self.right), keys.spec_pressed(self.left)) as i8,
            y: spec_axis(keys.spec_pressed(self.up), keys.spec_pressed(self.down)) as i8,
        }
    }

    /// Reads the current key state and returns the clamped axis pair of
    /// the `Move` action: each component is -1, 0 or 1, and opposite keys
    /// pressed together cancel to 0. Absence of input yields the zero
    /// vector; there are no error conditions.
    pub fn poll(&self, keys: &KeyState) -> (v: MoveVector)
        ensures
            v == self.spec_poll(*keys),
            v.x == spec_axis(keys.spec_pressed(self.right), keys.spec_pressed(self.left)),
            v.y == spec_axis(keys.spec_pressed(self.up), keys.spec_pressed(self.down)),
            -1 <= v.x <= 1,
            -1 <= v.y <= 1,
    {
        let px: i8 = if keys.pressed(self.right) {
            1
        } else {
            0
        };
        let nx: i8 = if keys.pressed(self.left) {
            1
        } else {
            0
        };
        let py: i8 = if keys.pressed(self.up) {
            1
        } else {
            0
        };
        let ny: i8 = if keys.pressed(self.down) {
            1
        } else {
            0
        };
        MoveVector { x: px - nx, y: py - ny }
    }
}

/// The default binding: the four-way keyboard directional keys W/A/S/D as
/// a virtual directional pad driving the `Move` action.
pub fn default_input_map() -> (m: InputMap)
    ensures
        m.up == Key::W,
        m.down == Key::S,
        m.left == Key::A,
        m.right == Key::D,
{
    InputMap { up: Key::W, down: Key::S, left: Key::A, right: Key::D }
}

impl MoveVector {
    /// Whether both components are zero.
    pub fn is_zero(&self) -> (b: bool)
        ensures
            b == (self.x == 0 && self.y == 0),
    {
        self.x == 0 && self.y == 0
    }

    /// The squared Euclidean magnitude of the vector. The magnitude
    /// itself is its square root, which the embedding application
    /// computes for display.
    pub fn magnitude_squared(&self) -> (m: u8)
        requires
            -1 <= self.x <= 1,
            -1 <= self.y <= 1,
        ensures
            m == self.x * self.x + self.y * self.y,
    {
        let sx: u8 = if self.x == 0 {
            0
        } else {
            1
        };
        let sy: u8 = if self.y == 0 {
            0
        } else {
            1
        };
        proof {
            assert(self.x * self.x == if self.x == 0 {
                0int
            } else {
                1int
            }) by (nonlinear_arith)
                requires
                    -1 <= self.x <= 1,
            ;
            assert(self.y * self.y == if self.y == 0 {
                0int
            } else {
                1int
            }) by (nonlinear_arith)
                requires
                    -1 <= self.y <= 1,
            ;
        }
        sx + sy
    }
}

/// One tick of the agent's input handling: derives the movement vector
/// from the current key state and, exactly when the vector is non-zero,
/// produces the diagnostic report. Movement application is left to a
/// future consumer; this only reports the intended direction.
pub fn move_snake(map: &InputMap, keys: &KeyState) -> (r: (MoveVector, Option<MoveReport>))
    ensures
        r.0 == map.spec_poll(*keys),
        (r.0.x == 0 && r.0.y == 0) ==> r.1 is None,
        !(r.0.x == 0 && r.0.y == 0) ==> r.1 == Some(
            MoveReport {
                x: r.0.x,
                y: r.0.y,
                magnitude_squared: (r.0.x * r.0.x + r.0.y * r.0.y) as u8,
            },
        ),
{
    let v = map.poll(keys);
    if v.is_zero() {
        (v, None)
    } else {
        let m = v.magnitude_squared();
        (v, Some(MoveReport { x: v.x, y: v.y, magnitude_squared: m }))
    }
}

/// Creates the agent at its defined starting world position, as a
/// single-segment snake: head only.
pub fn spawn_snake() -> (s: Snake)
    ensures
        s.x == SNAKE_SPAWN_X,
        s.y == SNAKE_SPAWN_Y,
        s.kind == TileKind::SnakeHead,
{
    Snake { x: SNAKE_SPAWN_X, y: SNAKE_SPAWN_Y, kind: TileKind::SnakeHead }
}

} // verus!
