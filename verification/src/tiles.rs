//! Tile kind registry: the closed set of tile categories and their
//! bijective mapping to sprite-sheet indices in `[0, 5]`.

use vstd::prelude::*;

use crate::error::CoreError;

verus! {

/// The closed set of tile categories. Each variant has a stable integer
/// code, its index into the shared sprite sheet.
#[derive(Clone, Copy, Debug, PartialEq, Eq, Structural)]
pub enum TileKind {
    SnakeHead,
    SnakeBody,
    Empty,
    Grass,
    Food,
    Wall,
}

/// The sprite-sheet code of a tile kind: densely packed over `[0, 5]`.
pub open spec fn spec_kind_index(k: TileKind) -> int {
    match k {
        TileKind::SnakeHead => 0,
        TileKind::SnakeBody => 1,
        TileKind::Empty => 2,
        TileKind::Grass => 3,
        TileKind::Food => 4,
        TileKind::Wall => 5,
    }
}

/// The tile kind of a sprite-sheet code, the inverse of `spec_kind_index`.
pub open spec fn spec_index_kind(i: int) -> TileKind
    recommends
        0 <= i <= 5,
{
    if i == 0 {
        TileKind::SnakeHead
    } else if i == 1 {
        TileKind::SnakeBody
    } else if i == 2 {
        TileKind::Empty
    } else if i == 3 {
        TileKind::Grass
    } else if i == 4 {
        TileKind::Food
    } else {
        TileKind::Wall
    }
}

/// Whether a tile of this kind carries the solid/interactive marker that
/// the physics collaborator consumes. Derived purely from the kind: walls,
/// grass and food are solid, empty ground is not, and the agent's own
/// sprites mark no terrain.
pub open spec fn spec_is_solid(k: TileKind) -> bool {
    match k {
        TileKind::Wall => true,
        TileKind::Grass => true,
        TileKind::Food => true,
        _ => false,
    }
}

/// The sprite-sheet index of a tile kind. Total, pure, and bijective onto
/// `[0, 5]`.
pub fn kind_to_index(k: TileKind) -> (i: usize)
    ensures
        i == spec_kind_index(k),
        0 <= i <= 5,
{
    match k {
        TileKind::SnakeHead => 0,
        TileKind::SnakeBody => 1,
        TileKind::Empty => 2,
        TileKind::Grass => 3,
        TileKind::Food => 4,
        TileKind::Wall => 5,
    }
}

/// The tile kind of a sprite-sheet index. Defined exactly on `[0, 5]`;
/// every other integer is an invalid tile index.
pub fn index_to_kind(i: usize) -> (r: Result<TileKind, CoreError>)
    ensures
        i <= 5 ==> r == Ok::<TileKind, CoreError>(spec_index_kind(i as int)),
        i > 5 ==> r == Err::<TileKind, CoreError>(CoreError::InvalidTileIndex),
{
    match i {
        0 => Ok(TileKind::SnakeHead),
        1 => Ok(TileKind::SnakeBody),
        2 => Ok(TileKind::Empty),
        3 => Ok(TileKind::Grass),
        4 => Ok(TileKind::Food),
        5 => Ok(TileKind::Wall),
        _ => Err(CoreError::InvalidTileIndex),
    }
}

/// Whether a tile of this kind is solid to the physics collaborator.
pub fn is_solid(k: TileKind) -> (b: bool)
    ensures
        b == spec_is_solid(k),
{
    match k {
        TileKind::Wall => true,
        TileKind::Grass => true,
        TileKind::Food => true,
        _ => false,
    }
}

/// The kind-to-index mapping is a bijection onto `[0, 5]`: every code lies
/// in range, mapping a kind to its code and back returns the kind, no two
/// kinds share a code, and every code in range is some kind's code.
pub proof fn lemma_kind_index_bijective(k: TileKind, k2: TileKind, i: int)
    ensures
        0 <= spec_kind_index(k) <= 5,
        spec_index_kind(spec_kind_index(k)) == k,
        spec_kind_index(k) == spec_kind_index(k2) ==> k == k2,
        0 <= i <= 5 ==> spec_kind_index(spec_index_kind(i)) == i,
{
}

} // verus!
