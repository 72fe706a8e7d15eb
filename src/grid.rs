//! Grid dimensions, toroidal coordinates and the sizes derived from them.
use vstd::prelude::*;
use vstd::arithmetic::div_mod::lemma_fundamental_div_mod_converse;

verus! {

/// Side length of the square grid the program runs on.
pub const GRID_SIZE: usize = 32;

/// Side length of the square tile of invocations that a dispatch is cut into.
pub const WORKGROUP_SIZE: usize = 8;

/// Number of vertices of the quad drawn for one cell (two triangles).
pub const QUAD_VERTICES: u32 = 6;

/// Width and height of the cell grid, fixed for the whole run.
#[derive(Clone, Copy, Debug, PartialEq, Eq, Structural)]
pub struct GridDimensions {
    pub width: usize,
    pub height: usize,
}

/// `v` taken modulo `n`, into `0..n` for every integer `v` (also negative ones).
pub open spec fn wrap(v: int, n: int) -> int {
    v % n
}

/// Row-major index of the cell at column `x`, row `y`, after wrapping both
/// coordinates onto the torus.
pub open spec fn torus_index(w: int, h: int, x: int, y: int) -> int {
    wrap(y, h) * w + wrap(x, w)
}

/// For `0 <= v < n`, the neighbouring coordinates one step down and one step
/// up, wrapped.
pub proof fn lemma_wrap_neighbors(v: int, n: int)
    requires
        0 <= v < n,
    ensures
        wrap(v, n) == v,
        wrap(v - 1, n) == if v == 0 { n - 1 } else { v - 1 },
        wrap(v + 1, n) == if v + 1 == n { 0 } else { v + 1 },
{
    lemma_fundamental_div_mod_converse(v, n, 0, v);
    if v == 0 {
        lemma_fundamental_div_mod_converse(v - 1, n, -1, n - 1);
    } else {
        lemma_fundamental_div_mod_converse(v - 1, n, 0, v - 1);
    }
    if v + 1 == n {
        lemma_fundamental_div_mod_converse(v + 1, n, 1, 0);
    } else {
        lemma_fundamental_div_mod_converse(v + 1, n, 0, v + 1);
    }
}

/// A row-major index splits back into its column and row.
pub proof fn lemma_index_split(w: int, h: int, x: int, y: int)
    requires
        0 <= x < w,
        0 <= y < h,
    ensures
        0 <= y * w + x < w * h,
        (y * w + x) % w == x,
        (y * w + x) / w == y,
{
    lemma_fundamental_div_mod_converse(y * w + x, w, y, x);
    assert(0 <= y * w + x < w * h) by (nonlinear_arith)
        requires
            0 <= x < w,
            0 <= y < h,
    ;
}

/// An index below `w * h` has a column below `w` and a row below `h`.
pub proof fn lemma_index_coords(w: int, h: int, i: int)
    requires
        0 < w,
        0 < h,
        0 <= i < w * h,
    ensures
        0 <= i % w < w,
        0 <= i / w < h,
        (i / w) * w + i % w == i,
{
    assert(0 <= i % w < w && 0 <= i / w < h && (i / w) * w + i % w == i) by (nonlinear_arith)
        requires
            0 < w,
            0 < h,
            0 <= i < w * h,
    {
        vstd::arithmetic::div_mod::lemma_fundamental_div_mod(i, w);
        vstd::arithmetic::div_mod::lemma_div_pos_is_pos(i, w);
        vstd::arithmetic::div_mod::lemma_mod_pos_bound(i, w);
        vstd::arithmetic::div_mod::lemma_div_is_ordered_by_denominator(i, w, w);
    }
}

impl GridDimensions {
    /// Both sides positive, and the cell count small enough for a 32-bit
    /// instance or element count.
    pub open spec fn wf(&self) -> bool {
        &&& self.width > 0
        &&& self.height > 0
        &&& self.width * self.height <= u32::MAX
    }

    /// Number of cells, as a mathematical integer.
    pub open spec fn cells(&self) -> int {
        self.width * self.height
    }

    /// The square grid of `GRID_SIZE` cells a side.
    pub fn square() -> (r: GridDimensions)
        ensures
            r.width == GRID_SIZE,
            r.height == GRID_SIZE,
            r.wf(),
    {
        GridDimensions { width: GRID_SIZE, height: GRID_SIZE }
    }

    /// A grid of the given sides, or `None` where a side is zero or the cell
    /// count exceeds `u32::MAX`.
    pub fn new(width: usize, height: usize) -> (r: Option<GridDimensions>)
        ensures
            r is Some <==> (width > 0 && height > 0 && width * height <= u32::MAX),
            r matches Some(g) ==> g.width == width && g.height == height && g.wf(),
    {
        if width == 0 || height == 0 {
            return None;
        }
        let max: usize = u32::MAX as usize;
        if width > max / height {
            proof {
                assert(width * height > u32::MAX) by (nonlinear_arith)
                    requires
                        width > max / height,
                        max == u32::MAX,
                        height > 0,
                ;
            }
            None
        } else {
            proof {
                assert(width * height <= u32::MAX) by (nonlinear_arith)
                    requires
                        width <= max / height,
                        max == u32::MAX,
                        height > 0,
                ;
            }
            Some(GridDimensions { width, height })
        }
    }

    /// Number of cells, `width * height`.
    pub fn cell_count(&self) -> (r: usize)
        requires
            self.wf(),
        ensures
            r == self.cells(),
    {
        self.width * self.height
    }

    /// Row-major index of the cell at column `x`, row `y`.
    pub fn cell_index(&self, x: usize, y: usize) -> (r: usize)
        requires
            self.wf(),
            x < self.width,
            y < self.height,
        ensures
            r == y * self.width + x,
            r < self.cells(),
            r == torus_index(self.width as int, self.height as int, x as int, y as int),
    {
        proof {
            lemma_index_split(self.width as int, self.height as int, x as int, y as int);
            lemma_wrap_neighbors(x as int, self.width as int);
            lemma_wrap_neighbors(y as int, self.height as int);
        }
        y * self.width + x
    }

    /// Column and row of the cell with row-major index `k`: the placement the
    /// render stage gives to instance `k`.
    pub fn cell_coords(&self, k: usize) -> (r: (usize, usize))
        requires
            self.wf(),
            k < self.cells(),
        ensures
            r.0 == k % self.width,
            r.1 == k / self.width,
            r.0 < self.width,
            r.1 < self.height,
            r.1 * self.width + r.0 == k,
    {
        proof {
            lemma_index_coords(self.width as int, self.height as int, k as int);
        }
        (k % self.width, k / self.width)
    }

    /// Column one step to the left, wrapping from `0` to `width - 1`.
    pub fn left_of(&self, x: usize) -> (r: usize)
        requires
            self.wf(),
            x < self.width,
        ensures
            r == wrap(x - 1, self.width as int),
            r < self.width,
    {
        proof {
            lemma_wrap_neighbors(x as int, self.width as int);
        }
        if x == 0 {
            self.width - 1
        } else {
            x - 1
        }
    }

    /// Column one step to the right, wrapping from `width - 1` to `0`.
    pub fn right_of(&self, x: usize) -> (r: usize)
        requires
            self.wf(),
            x < self.width,
        ensures
            r == wrap(x + 1, self.width as int),
            r < self.width,
    {
        proof {
            lemma_wrap_neighbors(x as int, self.width as int);
        }
        if x + 1 == self.width {
            0
        } else {
            x + 1
        }
    }

    /// Row one step up, wrapping from `0` to `height - 1`.
    pub fn above(&self, y: usize) -> (r: usize)
        requires
            self.wf(),
            y < self.height,
        ensures
            r == wrap(y - 1, self.height as int),
            r < self.height,
    {
        proof {
            lemma_wrap_neighbors(y as int, self.height as int);
        }
        if y == 0 {
            self.height - 1
        } else {
            y - 1
        }
    }

    /// Row one step down, wrapping from `height - 1` to `0`.
    pub fn below(&self, y: usize) -> (r: usize)
        requires
            self.wf(),
            y < self.height,
        ensures
            r == wrap(y + 1, self.height as int),
            r < self.height,
    {
        proof {
            lemma_wrap_neighbors(y as int, self.height as int);
        }
        if y + 1 == self.height {
            0
        } else {
            y + 1
        }
    }
}

/// Number of tiles of side `tile` needed to cover `extent` cells along one
/// axis: `ceil(extent / tile)`.
pub fn workgroup_count(extent: usize, tile: usize) -> (r: u32)
    requires
        tile > 0,
        extent <= u32::MAX,
    ensures
        r == (extent + tile - 1) / (tile as int),
        r * tile >= extent,
        r == 0 || (r - 1) * tile < extent,
{
    let q: usize = extent / tile;
    let m: usize = extent % tile;
    let ghost e = extent as int;
    let ghost t = tile as int;
    proof {
        vstd::arithmetic::div_mod::lemma_fundamental_div_mod(e, t);
        vstd::arithmetic::div_mod::lemma_mod_pos_bound(e, t);
        assert(q * t + m == e) by (nonlinear_arith)
            requires
                e == t * (e / t) + e % t,
                q == e / t,
                m == e % t,
        ;
        assert(q <= e) by (nonlinear_arith)
            requires
                q * t + m == e,
                t > 0,
                m >= 0,
                q >= 0,
        ;
    }
    let r: usize = if m == 0 {
        proof {
            lemma_fundamental_div_mod_converse(e + t - 1, t, q as int, t - 1);
        }
        q
    } else {
        proof {
            assert(e + t - 1 == (q + 1) * t + (m - 1)) by (nonlinear_arith)
                requires
                    q * t + m == e,
            ;
            lemma_fundamental_div_mod_converse(e + t - 1, t, q + 1, m - 1);
            assert(q < e) by (nonlinear_arith)
                requires
                    q * t + m == e,
                    t > 0,
                    m > 0,
                    q >= 0,
            ;
        }
        q + 1
    };
    proof {
        assert(r * t >= e && (r == 0 || (r - 1) * t < e)) by (nonlinear_arith)
            requires
                e == q * t + m,
                0 <= m < t,
                r == if m == 0 { q as int } else { q + 1 },
        ;
    }
    r as u32
}

/// Size in bytes of the elements of `vec`.
pub fn byte_length<T>(vec: &Vec<T>) -> (r: u64)
    requires
        vec@.len() * vstd::layout::size_of::<T>() <= u64::MAX,
        vec@.len() * vstd::layout::size_of::<T>() <= usize::MAX,
    ensures
        r == vec@.len() * vstd::layout::size_of::<T>(),
{
    let n: usize = vec.len();
    let s: usize = core::mem::size_of::<T>();
    (n * s) as u64
}

} // verus!
