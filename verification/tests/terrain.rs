use snake_core::grid::Grid;
use snake_core::terrain::Rect;
use snake_core::terrain::box_coords;
use snake_core::terrain::gen_terrain;
use snake_core::tiles::TileKind;
use snake_core::tiles::kind_to_index;

fn expect_ring_layout(g: &Grid, w: isize, h: isize) {
    for x in 0..w {
        for y in 0..h {
            let on_edge = x == 0 || x == w - 1 || y == 0 || y == h - 1;
            let expected = if on_edge { TileKind::Wall } else { TileKind::Empty };
            assert_eq!(g.get(x, y), Ok(expected));
        }
    }
}

#[test]
fn default_world_has_wall_ring() {
    let g = gen_terrain(30, 30);
    assert_eq!(g.get(0, 0), Ok(TileKind::Wall));
    assert_eq!(g.get(15, 15), Ok(TileKind::Empty));
    assert_eq!(g.get(29, 15), Ok(TileKind::Wall));
    expect_ring_layout(&g, 30, 30);
}

#[test]
fn every_generated_cell_is_defined_with_valid_code() {
    let g = gen_terrain(5, 8);
    for x in 0..5 {
        for y in 0..8 {
            let kind = g.get(x, y).expect("generation must set every cell");
            assert!(kind_to_index(kind) <= 5);
        }
    }
}

#[test]
fn small_worlds_keep_the_ring_shape() {
    for (w, h) in [(2isize, 2isize), (3, 3), (3, 7), (4, 2)] {
        let g = gen_terrain(w as usize, h as usize);
        expect_ring_layout(&g, w, h);
    }
}

#[test]
fn degenerate_worlds_are_all_wall() {
    for (w, h) in [(1isize, 1isize), (1, 6), (6, 1), (2, 1)] {
        let g = gen_terrain(w as usize, h as usize);
        for x in 0..w {
            for y in 0..h {
                assert_eq!(g.get(x, y), Ok(TileKind::Wall));
            }
        }
    }
}

#[test]
fn box_coords_lists_the_ring_once() {
    let rect = Rect { min_x: 1, min_y: 2, max_x: 3, max_y: 4 };
    let coords = box_coords(rect);
    // A 3 x 3 rectangle has eight ring cells around one interior cell.
    assert_eq!(coords.len(), 8);
    assert!(!coords.contains(&(2, 3)));
    for x in 1..=3usize {
        for y in 2..=4usize {
            if (x, y) != (2, 3) {
                assert!(coords.contains(&(x, y)));
            }
        }
    }
    for (n, a) in coords.iter().enumerate() {
        for b in coords.iter().skip(n + 1) {
            assert_ne!(a, b);
        }
    }
}

#[test]
fn box_coords_of_thin_rect_is_every_cell() {
    let rect = Rect { min_x: 0, min_y: 0, max_x: 0, max_y: 3 };
    let coords = box_coords(rect);
    assert_eq!(coords.len(), 4);
    for y in 0..=3usize {
        assert!(coords.contains(&(0, y)));
    }
}

#[test]
fn ring_cell_matches_the_edge_test() {
    let rect = Rect { min_x: 0, min_y: 0, max_x: 9, max_y: 6 };
    for x in 0..=9usize {
        for y in 0..=6usize {
            let on_edge = x == 0 || x == 9 || y == 0 || y == 6;
            assert_eq!(rect.ring_cell(x, y), on_edge);
        }
    }
    // Coordinates outside the rectangle are never ring cells.
    assert!(!rect.ring_cell(10, 0));
    assert!(!rect.ring_cell(0, 7));
}
