use life_grid::buffers::CellStateStore;
use life_grid::grid::GridDimensions;
use life_grid::life::{live_neighbors, next_cell, next_generation, transition};

fn grid(w: usize, h: usize) -> GridDimensions {
    GridDimensions::new(w, h).unwrap()
}

fn cells_from(w: usize, h: usize, live: &[(usize, usize)]) -> Vec<u32> {
    let mut v = vec![0u32; w * h];
    for &(x, y) in live {
        v[y * w + x] = 1;
    }
    v
}

#[test]
fn isolated_cell_dies() {
    let g = grid(5, 5);
    let s = cells_from(5, 5, &[(2, 2)]);
    assert_eq!(live_neighbors(&g, &s, 2, 2), 0);
    let n = next_generation(&g, &s);
    assert_eq!(n, vec![0u32; 25]);
}

#[test]
fn live_cell_with_two_neighbors_survives() {
    let g = grid(6, 6);
    let s = cells_from(6, 6, &[(1, 1), (2, 2), (3, 3)]);
    assert_eq!(live_neighbors(&g, &s, 2, 2), 2);
    let n = next_generation(&g, &s);
    assert_eq!(n[2 * 6 + 2], 1);
    assert_eq!(n[1 * 6 + 1], 0);
    assert_eq!(n[3 * 6 + 3], 0);
}

#[test]
fn dead_cell_with_three_neighbors_is_born() {
    let g = grid(6, 6);
    let s = cells_from(6, 6, &[(1, 1), (3, 1), (2, 3)]);
    assert_eq!(s[2 * 6 + 2], 0);
    assert_eq!(live_neighbors(&g, &s, 2, 2), 3);
    let n = next_generation(&g, &s);
    assert_eq!(n[2 * 6 + 2], 1);
}

#[test]
fn rule_table() {
    assert_eq!(next_cell(0, 2), 0);
    assert_eq!(next_cell(1, 2), 1);
    assert_eq!(next_cell(0, 3), 1);
    assert_eq!(next_cell(1, 3), 1);
    assert_eq!(next_cell(1, 1), 0);
    assert_eq!(next_cell(1, 4), 0);
    assert_eq!(next_cell(0, 8), 0);
}

#[test]
fn crowded_cell_dies() {
    let g = grid(5, 5);
    let s = cells_from(5, 5, &[(2, 2), (1, 1), (2, 1), (3, 1), (1, 2)]);
    assert_eq!(live_neighbors(&g, &s, 2, 2), 4);
    let n = next_generation(&g, &s);
    assert_eq!(n[2 * 5 + 2], 0);
}

#[test]
fn transition_writes_output_in_place() {
    let g = grid(5, 5);
    let input = cells_from(5, 5, &[(1, 2), (2, 2), (3, 2)]);
    let mut out = vec![1u32; 25];
    transition(&g, &input, &mut out);
    assert_eq!(out, cells_from(5, 5, &[(2, 1), (2, 2), (2, 3)]));
    assert_eq!(input, cells_from(5, 5, &[(1, 2), (2, 2), (3, 2)]));
}

#[test]
fn neighbors_wrap_across_columns() {
    let g = grid(5, 5);
    // Column 0 sees column 4 and the reverse.
    let s = cells_from(5, 5, &[(4, 1), (4, 2), (4, 3)]);
    assert_eq!(live_neighbors(&g, &s, 0, 2), 3);
    let t = cells_from(5, 5, &[(0, 1), (0, 2), (0, 3)]);
    assert_eq!(live_neighbors(&g, &t, 4, 2), 3);
    // A vertical line in the last column turns into a horizontal line that
    // spans the edge.
    let n = next_generation(&g, &s);
    assert_eq!(n, cells_from(5, 5, &[(3, 2), (4, 2), (0, 2)]));
}

#[test]
fn neighbors_wrap_across_rows() {
    let g = grid(5, 5);
    let s = cells_from(5, 5, &[(1, 4), (2, 4), (3, 4)]);
    assert_eq!(live_neighbors(&g, &s, 2, 0), 3);
    let n = next_generation(&g, &s);
    assert_eq!(n, cells_from(5, 5, &[(2, 3), (2, 4), (2, 0)]));
}

#[test]
fn corner_sees_opposite_corner() {
    let g = grid(4, 4);
    let s = cells_from(4, 4, &[(3, 3)]);
    assert_eq!(live_neighbors(&g, &s, 0, 0), 1);
}

#[test]
fn block_is_still_life() {
    let g = grid(8, 8);
    let block = cells_from(8, 8, &[(3, 3), (4, 3), (3, 4), (4, 4)]);
    let mut s = block.clone();
    for _ in 0..5 {
        s = next_generation(&g, &s);
        assert_eq!(s, block);
    }
}

#[test]
fn block_across_corner_is_still_life() {
    let g = grid(6, 5);
    let block = cells_from(6, 5, &[(5, 4), (0, 4), (5, 0), (0, 0)]);
    let mut s = block.clone();
    for _ in 0..4 {
        s = next_generation(&g, &s);
        assert_eq!(s, block);
    }
}

#[test]
fn blinker_oscillates_with_period_two() {
    let g = grid(7, 7);
    let horizontal = cells_from(7, 7, &[(2, 3), (3, 3), (4, 3)]);
    let vertical = cells_from(7, 7, &[(3, 2), (3, 3), (3, 4)]);
    let one = next_generation(&g, &horizontal);
    assert_eq!(one, vertical);
    assert_ne!(one, horizontal);
    let two = next_generation(&g, &one);
    assert_eq!(two, horizontal);
}

#[test]
fn store_tick_leaves_input_buffer_unchanged() {
    let g = grid(5, 5);
    let seed = cells_from(5, 5, &[(1, 2), (2, 2), (3, 2)]);
    let mut store = CellStateStore::new(g, seed.clone());
    assert_eq!(store.parity(), 0);
    assert_eq!(store.buffer_at(1), &vec![0u32; 25]);
    let p = store.tick();
    assert_eq!(p, 1);
    assert_eq!(store.buffer_at(0), &seed);
    assert_eq!(store.buffer_at(1), &cells_from(5, 5, &[(2, 1), (2, 2), (2, 3)]));
    let p = store.tick();
    assert_eq!(p, 0);
    assert_eq!(store.buffer_at(1), &cells_from(5, 5, &[(2, 1), (2, 2), (2, 3)]));
    assert_eq!(store.current(), &seed);
}

#[test]
fn store_current_is_last_written_after_many_ticks() {
    let g = grid(8, 8);
    let seed = cells_from(8, 8, &[(1, 0), (2, 1), (0, 2), (1, 2), (2, 2)]);
    let mut store = CellStateStore::new(g, seed.clone());
    let mut expected = seed.clone();
    for n in 1..=12usize {
        let before = store.current().clone();
        let p = store.tick();
        expected = next_generation(&g, &expected);
        assert_eq!(p, n % 2);
        assert_eq!(store.current(), &expected);
        assert_eq!(store.buffer_at(1 - p), &before);
    }
}
