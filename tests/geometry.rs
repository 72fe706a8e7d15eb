use life_grid::grid::{byte_length, workgroup_count, GridDimensions, GRID_SIZE, WORKGROUP_SIZE};
use life_grid::upload::state_bytes;

#[test]
fn grid_validation() {
    assert!(GridDimensions::new(0, 4).is_none());
    assert!(GridDimensions::new(4, 0).is_none());
    assert!(GridDimensions::new(65536, 65536).is_none());
    assert!(GridDimensions::new(65536, 65535).is_some());
    let g = GridDimensions::new(3, 7).unwrap();
    assert_eq!(g.width, 3);
    assert_eq!(g.height, 7);
    assert_eq!(g.cell_count(), 21);
    let s = GridDimensions::square();
    assert_eq!((s.width, s.height), (GRID_SIZE, GRID_SIZE));
    assert_eq!(s.cell_count(), 1024);
}

#[test]
fn index_and_coords() {
    let g = GridDimensions::new(32, 32).unwrap();
    assert_eq!(g.cell_index(0, 0), 0);
    assert_eq!(g.cell_index(5, 2), 69);
    assert_eq!(g.cell_coords(69), (5, 2));
    assert_eq!(g.cell_coords(1023), (31, 31));
    let h = GridDimensions::new(5, 3).unwrap();
    assert_eq!(h.cell_coords(7), (2, 1));
}

#[test]
fn wrapped_steps() {
    let g = GridDimensions::new(5, 3).unwrap();
    assert_eq!(g.left_of(0), 4);
    assert_eq!(g.left_of(3), 2);
    assert_eq!(g.right_of(4), 0);
    assert_eq!(g.right_of(1), 2);
    assert_eq!(g.above(0), 2);
    assert_eq!(g.below(2), 0);
    assert_eq!(g.below(0), 1);
}

#[test]
fn dispatch_covers_grid() {
    assert_eq!(workgroup_count(GRID_SIZE, WORKGROUP_SIZE), 4);
    assert_eq!(workgroup_count(33, 8), 5);
    assert_eq!(workgroup_count(7, 8), 1);
    assert_eq!(workgroup_count(0, 8), 0);
    assert_eq!(workgroup_count(16, 1), 16);
}

#[test]
fn byte_lengths() {
    assert_eq!(byte_length(&vec![0u32; 1024]), 4096);
    assert_eq!(byte_length(&vec![0u8; 3]), 3);
    assert_eq!(byte_length(&vec![0u64; 2]), 16);
    assert_eq!(byte_length(&Vec::<u32>::new()), 0);
}

#[test]
fn state_bytes_layout() {
    let cells = vec![1u32, 0, 1];
    let b = state_bytes(&cells);
    assert_eq!(b.len(), 12);
    let little = vec![1u8, 0, 0, 0, 0, 0, 0, 0, 1, 0, 0, 0];
    let big = vec![0u8, 0, 0, 1, 0, 0, 0, 0, 0, 0, 0, 1];
    assert!(b == little || b == big);
    if u32::from_ne_bytes([1, 0, 0, 0]) == 1 {
        assert_eq!(b, little);
    }
    assert_eq!(state_bytes(&Vec::new()), Vec::<u8>::new());
}
