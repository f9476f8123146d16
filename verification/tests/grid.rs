use snake_core::error::CoreError;
use snake_core::grid::Grid;
use snake_core::tiles::TileKind;

#[test]
fn fresh_cells_are_uninitialized() {
    let g = Grid::create(4, 3);
    for x in 0..4 {
        for y in 0..3 {
            assert_eq!(g.get(x, y), Err(CoreError::UninitializedCell));
        }
    }
}

#[test]
fn set_then_get_returns_the_kind() {
    let mut g = Grid::create(4, 3);
    assert_eq!(g.set(2, 1, TileKind::Food), Ok(()));
    assert_eq!(g.get(2, 1), Ok(TileKind::Food));
    assert_eq!(g.get(1, 2), Err(CoreError::UninitializedCell));
    assert_eq!(g.set(2, 1, TileKind::Grass), Ok(()));
    assert_eq!(g.get(2, 1), Ok(TileKind::Grass));
}

#[test]
fn get_out_of_bounds_fails() {
    for w in [1isize, 2, 7, 30] {
        let g = Grid::create(w as usize, 5);
        assert_eq!(g.get(-1, 0), Err(CoreError::OutOfBounds));
        assert_eq!(g.get(w, 0), Err(CoreError::OutOfBounds));
        assert_eq!(g.get(0, -1), Err(CoreError::OutOfBounds));
        assert_eq!(g.get(0, 5), Err(CoreError::OutOfBounds));
    }
}

#[test]
fn set_out_of_bounds_fails() {
    for w in [1isize, 2, 7, 30] {
        let mut g = Grid::create(w as usize, 5);
        assert_eq!(g.set(-1, 0, TileKind::Wall), Err(CoreError::OutOfBounds));
        assert_eq!(g.set(w, 0, TileKind::Wall), Err(CoreError::OutOfBounds));
    }
}

#[test]
fn extent_is_what_was_asked() {
    let g = Grid::create(7, 9);
    assert_eq!(g.width(), 7);
    assert_eq!(g.height(), 9);
}
