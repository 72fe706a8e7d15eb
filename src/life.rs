//! The Game of Life transition on a torus: the rule, its statement over
//! sequences, and the step that reads one buffer and writes another.
use vstd::prelude::*;
use crate::grid::{GridDimensions, wrap, torus_index, lemma_index_coords, lemma_index_split};

verus! {

/// Every cell holds 0 (dead) or 1 (alive).
pub open spec fn cells_binary(s: Seq<u32>) -> bool {
    forall|i: int| 0 <= i < s.len() ==> (#[trigger] s[i] == 0 || s[i] == 1)
}

/// Value of the cell at column `x`, row `y` of the `w` by `h` torus `s`;
/// coordinates outside the grid wrap to the opposite edge.
pub open spec fn cell_at(s: Seq<u32>, w: int, h: int, x: int, y: int) -> int {
    s[torus_index(w, h, x, y)] as int
}

/// Sum of the eight cells around column `x`, row `y`.
pub open spec fn neighbor_sum(s: Seq<u32>, w: int, h: int, x: int, y: int) -> int {
    cell_at(s, w, h, x + 1, y + 1) + cell_at(s, w, h, x + 1, y) + cell_at(s, w, h, x + 1, y - 1)
        + cell_at(s, w, h, x, y - 1) + cell_at(s, w, h, x - 1, y - 1) + cell_at(s, w, h, x - 1, y)
        + cell_at(s, w, h, x - 1, y + 1) + cell_at(s, w, h, x, y + 1)
}

/// The 2/3 rule: with two live neighbours a cell keeps its value, with three
/// it is alive, otherwise dead.
pub open spec fn rule(current: u32, sum: int) -> u32 {
    if sum == 2 {
        current
    } else if sum == 3 {
        1
    } else {
        0
    }
}

/// One transition of the whole grid: the rule applied to every cell, each
/// reading only the input.
pub open spec fn step(s: Seq<u32>, w: int, h: int) -> Seq<u32> {
    Seq::new((w * h) as nat, |i: int| rule(s[i], neighbor_sum(s, w, h, i % w, i / w)))
}

/// `n` transitions in a row.
pub open spec fn steps(s: Seq<u32>, w: int, h: int, n: nat) -> Seq<u32>
    decreases n,
{
    if n == 0 {
        s
    } else {
        step(steps(s, w, h, (n - 1) as nat), w, h)
    }
}

/// The rule applied to one cell value and its neighbour sum.
pub fn next_cell(current: u32, sum: u32) -> (r: u32)
    ensures
        r == rule(current, sum as int),
{
    if sum == 2 {
        current
    } else if sum == 3 {
        1
    } else {
        0
    }
}

/// The value of the cell at column `x`, row `y`.
fn cell_value(grid: &GridDimensions, cells: &Vec<u32>, x: usize, y: usize) -> (r: u32)
    requires
        grid.wf(),
        cells@.len() == grid.cells(),
        cells_binary(cells@),
        x < grid.width,
        y < grid.height,
    ensures
        r as int == cell_at(cells@, grid.width as int, grid.height as int, x as int, y as int),
        r <= 1,
{
    let i = grid.cell_index(x, y);
    cells[i]
}

/// Sum of the eight neighbours of the cell at column `x`, row `y`, with
/// wraparound at every edge.
pub fn live_neighbors(grid: &GridDimensions, cells: &Vec<u32>, x: usize, y: usize) -> (r: u32)
    requires
        grid.wf(),
        cells@.len() == grid.cells(),
        cells_binary(cells@),
        x < grid.width,
        y < grid.height,
    ensures
        r == neighbor_sum(cells@, grid.width as int, grid.height as int, x as int, y as int),
        r <= 8,
{
    let xl = grid.left_of(x);
    let xr = grid.right_of(x);
    let yu = grid.above(y);
    let yd = grid.below(y);
    let ghost w = grid.width as int;
    let ghost h = grid.height as int;
    proof {
        let s = cells@;
        let (xi, yi) = (x as int, y as int);
        crate::grid::lemma_wrap_neighbors(xi, w);
        crate::grid::lemma_wrap_neighbors(yi, h);
        crate::grid::lemma_wrap_neighbors(xl as int, w);
        crate::grid::lemma_wrap_neighbors(xr as int, w);
        crate::grid::lemma_wrap_neighbors(yu as int, h);
        crate::grid::lemma_wrap_neighbors(yd as int, h);
        assert(torus_index(w, h, xi + 1, yi + 1) == torus_index(w, h, xr as int, yd as int));
        assert(torus_index(w, h, xi + 1, yi) == torus_index(w, h, xr as int, yi));
        assert(torus_index(w, h, xi + 1, yi - 1) == torus_index(w, h, xr as int, yu as int));
        assert(torus_index(w, h, xi, yi - 1) == torus_index(w, h, xi, yu as int));
        assert(torus_index(w, h, xi - 1, yi - 1) == torus_index(w, h, xl as int, yu as int));
        assert(torus_index(w, h, xi - 1, yi) == torus_index(w, h, xl as int, yi));
        assert(torus_index(w, h, xi - 1, yi + 1) == torus_index(w, h, xl as int, yd as int));
        assert(torus_index(w, h, xi, yi + 1) == torus_index(w, h, xi, yd as int));
    }
    cell_value(grid, cells, xr, yd) + cell_value(grid, cells, xr, y) + cell_value(grid, cells, xr, yu)
        + cell_value(grid, cells, x, yu) + cell_value(grid, cells, xl, yu) + cell_value(grid, cells, xl, y)
        + cell_value(grid, cells, xl, yd) + cell_value(grid, cells, x, yd)
}

/// One transition step: reads every cell of `input` and writes the next
/// generation into `output`. `input` is only read.
pub fn transition(grid: &GridDimensions, input: &Vec<u32>, output: &mut Vec<u32>)
    requires
        grid.wf(),
        input@.len() == grid.cells(),
        cells_binary(input@),
        old(output)@.len() == grid.cells(),
    ensures
        final(output)@ == step(input@, grid.width as int, grid.height as int),
        cells_binary(final(output)@),
{
    let n = grid.cell_count();
    let ghost w = grid.width as int;
    let ghost h = grid.height as int;
    let ghost target = step(input@, w, h);
    let mut i: usize = 0;
    let mut x: usize = 0;
    let mut y: usize = 0;
    while i < n
        invariant
            grid.wf(),
            n == grid.cells(),
            w == grid.width,
            h == grid.height,
            input@.len() == n,
            cells_binary(input@),
            output@.len() == n,
            target == step(input@, w, h),
            i <= n,
            x < grid.width,
            i == y * w + x,
            i < n ==> y < grid.height,
            forall|j: int| 0 <= j < i ==> output@[j] == #[trigger] target[j],
            forall|j: int| 0 <= j < i ==> (#[trigger] output@[j] == 0 || output@[j] == 1),
        decreases n - i,
    {
        proof {
            lemma_index_split(w, h, x as int, y as int);
        }
        let sum = live_neighbors(grid, input, x, y);
        let v = next_cell(input[i], sum);
        output.set(i, v);
        let ghost (i0, x0, y0) = (i as int, x as int, y as int);
        i = i + 1;
        if x + 1 == grid.width {
            x = 0;
            y = y + 1;
        } else {
            x = x + 1;
        }
        proof {
            assert(i == y * w + x) by (nonlinear_arith)
                requires
                    i0 == y0 * w + x0,
                    i == i0 + 1,
                    (x == 0 && y == y0 + 1 && x0 + 1 == w) || (x == x0 + 1 && y == y0),
            ;
            if i < n {
                assert(y < h) by (nonlinear_arith)
                    requires
                        i == y * w + x,
                        i < w * h,
                        x >= 0,
                        w > 0,
                ;
            }
        }
    }
    proof {
        assert(output@ =~= target);
    }
}

/// The next generation of `input`, in a new buffer.
pub fn next_generation(grid: &GridDimensions, input: &Vec<u32>) -> (r: Vec<u32>)
    requires
        grid.wf(),
        input@.len() == grid.cells(),
        cells_binary(input@),
    ensures
        r@ == step(input@, grid.width as int, grid.height as int),
        cells_binary(r@),
{
    let n = grid.cell_count();
    let mut out: Vec<u32> = Vec::new();
    let mut k: usize = 0;
    while k < n
        invariant
            k <= n,
            out@.len() == k,
        decreases n - k,
    {
        out.push(0);
        k = k + 1;
    }
    transition(grid, input, &mut out);
    out
}

} // verus!
