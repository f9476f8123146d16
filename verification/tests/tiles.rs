use snake_core::error::CoreError;
use snake_core::tiles::TileKind;
use snake_core::tiles::index_to_kind;
use snake_core::tiles::is_solid;
use snake_core::tiles::kind_to_index;

const ALL_KINDS: [TileKind; 6] = [
    TileKind::SnakeHead,
    TileKind::SnakeBody,
    TileKind::Empty,
    TileKind::Grass,
    TileKind::Food,
    TileKind::Wall,
];

#[test]
fn kind_codes_are_stable() {
    assert_eq!(kind_to_index(TileKind::SnakeHead), 0);
    assert_eq!(kind_to_index(TileKind::SnakeBody), 1);
    assert_eq!(kind_to_index(TileKind::Empty), 2);
    assert_eq!(kind_to_index(TileKind::Grass), 3);
    assert_eq!(kind_to_index(TileKind::Food), 4);
    assert_eq!(kind_to_index(TileKind::Wall), 5);
}

#[test]
fn kind_index_round_trip() {
    for k in ALL_KINDS {
        let i = kind_to_index(k);
        assert!(i <= 5);
        assert_eq!(index_to_kind(i), Ok(k));
    }
}

#[test]
fn kind_codes_are_injective() {
    for (n, a) in ALL_KINDS.iter().enumerate() {
        for b in ALL_KINDS.iter().skip(n + 1) {
            assert_ne!(kind_to_index(*a), kind_to_index(*b));
        }
    }
}

#[test]
fn index_six_is_invalid() {
    assert_eq!(index_to_kind(6), Err(CoreError::InvalidTileIndex));
}

#[test]
fn large_indices_are_invalid() {
    assert_eq!(index_to_kind(7), Err(CoreError::InvalidTileIndex));
    assert_eq!(index_to_kind(usize::MAX), Err(CoreError::InvalidTileIndex));
}

#[test]
fn solidity_follows_the_kind() {
    assert!(is_solid(TileKind::Wall));
    assert!(is_solid(TileKind::Grass));
    assert!(is_solid(TileKind::Food));
    assert!(!is_solid(TileKind::Empty));
    assert!(!is_solid(TileKind::SnakeHead));
    assert!(!is_solid(TileKind::SnakeBody));
}
