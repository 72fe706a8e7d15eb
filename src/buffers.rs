//! The pair of cell-state buffers, the binding set chosen by parity, and
//! the store that advances one generation per tick without aliasing.
use vstd::prelude::*;
use crate::grid::GridDimensions;
use crate::life::{cells_binary, step, steps, transition};

verus! {

/// Which state buffer a transition reads and which it writes.
#[derive(Clone, Copy, Debug, PartialEq, Eq, Structural)]
pub struct BindingSet {
    pub input: usize,
    pub output: usize,
}

/// The binding set used with parity `parity`: input `parity`, output the
/// other buffer.
pub fn binding_set(parity: usize) -> (r: BindingSet)
    requires
        parity < 2,
    ensures
        r.input == parity,
        r.output == 1 - parity,
        r.input != r.output,
{
    BindingSet { input: parity, output: 1 - parity }
}

/// The buffer the render stage reads with parity `parity`.
pub fn render_source(parity: usize) -> (r: usize)
    requires
        parity < 2,
    ensures
        r == parity,
{
    parity
}

/// Both binding sets, indexed by parity.
pub fn binding_pair() -> (r: (BindingSet, BindingSet))
    ensures
        r.0.input == 0 && r.0.output == 1,
        r.1.input == 1 && r.1.output == 0,
{
    (binding_set(0), binding_set(1))
}

/// A sequence of `n` zeros.
pub open spec fn zeros(n: int) -> Seq<u32> {
    Seq::new(n as nat, |i: int| 0u32)
}

fn zeroed(n: usize) -> (r: Vec<u32>)
    ensures
        r@ == zeros(n as int),
{
    let mut v: Vec<u32> = Vec::new();
    let mut k: usize = 0;
    while k < n
        invariant
            k <= n,
            v@ == zeros(k as int),
        decreases n - k,
    {
        v.push(0);
        k = k + 1;
        assert(v@ =~= zeros(k as int));
    }
    v
}

/// Two cell-state buffers of one grid, one of them current as the parity
/// says. Each tick writes the next generation into the other buffer and
/// then makes it current.
pub struct CellStateStore {
    grid: GridDimensions,
    state_a: Vec<u32>,
    state_b: Vec<u32>,
    parity: usize,
    seed: Ghost<Seq<u32>>,
    generation: Ghost<nat>,
}

impl CellStateStore {
    /// The buffer with index `p` (0 or 1).
    pub closed spec fn buffer(&self, p: int) -> Seq<u32> {
        if p == 0 {
            self.state_a@
        } else {
            self.state_b@
        }
    }

    pub closed spec fn parity_spec(&self) -> int {
        self.parity as int
    }

    pub closed spec fn grid_spec(&self) -> GridDimensions {
        self.grid
    }

    /// The state the store started from.
    pub closed spec fn seed(&self) -> Seq<u32> {
        self.seed@
    }

    /// How many ticks have run.
    pub closed spec fn generation(&self) -> nat {
        self.generation@
    }

    /// The buffer the render stage reads.
    pub open spec fn current_spec(&self) -> Seq<u32> {
        self.buffer(self.parity_spec())
    }

    /// Both buffers hold one binary value per cell, the parity follows the
    /// number of ticks, and the current buffer holds the seed advanced by
    /// that many generations.
    pub closed spec fn wf(&self) -> bool {
        &&& self.grid.wf()
        &&& self.state_a@.len() == self.grid.cells()
        &&& self.state_b@.len() == self.grid.cells()
        &&& cells_binary(self.state_a@)
        &&& cells_binary(self.state_b@)
        &&& self.parity < 2
        &&& self.parity == self.generation@ % 2
        &&& self.buffer(self.parity as int) == steps(
            self.seed@,
            self.grid.width as int,
            self.grid.height as int,
            self.generation@,
        )
    }

    /// In every valid store the current buffer is the one the last tick
    /// wrote: after `n` ticks the parity is `n % 2`, and the current buffer
    /// holds the seed advanced by `n` generations.
    pub proof fn lemma_current_is_last_written(&self)
        requires
            self.wf(),
        ensures
            self.parity_spec() == self.generation() % 2,
            self.current_spec() == steps(
                self.seed(),
                self.grid_spec().width as int,
                self.grid_spec().height as int,
                self.generation(),
            ),
            self.generation() >= 1 ==> self.current_spec() == step(
                steps(
                    self.seed(),
                    self.grid_spec().width as int,
                    self.grid_spec().height as int,
                    (self.generation() - 1) as nat,
                ),
                self.grid_spec().width as int,
                self.grid_spec().height as int,
            ),
    {
    }

    /// A store whose first buffer holds `seed` and is current; the second
    /// buffer is zeroed and is not read before the first tick writes it.
    pub fn new(grid: GridDimensions, seed: Vec<u32>) -> (r: CellStateStore)
        requires
            grid.wf(),
            seed@.len() == grid.cells(),
            cells_binary(seed@),
        ensures
            r.wf(),
            r.grid_spec() == grid,
            r.parity_spec() == 0,
            r.generation() == 0,
            r.seed() == seed@,
            r.buffer(0) == seed@,
            r.buffer(1) == zeros(grid.cells()),
            r.current_spec() == seed@,
    {
        let n = grid.cell_count();
        let other = zeroed(n);
        let ghost s = seed@;
        CellStateStore {
            grid,
            state_a: seed,
            state_b: other,
            parity: 0,
            seed: Ghost(s),
            generation: Ghost(0),
        }
    }

    pub fn grid(&self) -> (r: GridDimensions)
        ensures
            r == self.grid_spec(),
    {
        self.grid
    }

    /// Index of the current buffer.
    pub fn parity(&self) -> (r: usize)
        requires
            self.wf(),
        ensures
            r == self.parity_spec(),
            r < 2,
    {
        self.parity
    }

    /// The buffer with index `p`.
    pub fn buffer_at(&self, p: usize) -> (r: &Vec<u32>)
        requires
            p < 2,
        ensures
            r@ == self.buffer(p as int),
    {
        if p == 0 {
            &self.state_a
        } else {
            &self.state_b
        }
    }

    /// The buffer the render stage reads.
    pub fn current(&self) -> (r: &Vec<u32>)
        requires
            self.wf(),
        ensures
            r@ == self.current_spec(),
            r@.len() == self.grid_spec().cells(),
            cells_binary(r@),
    {
        self.buffer_at(self.parity)
    }

    /// One tick: the transition reads the current buffer and writes the
    /// other one, then the parity flips so that the buffer just written is
    /// current. Returns the new parity, which selects what is drawn.
    pub fn tick(&mut self) -> (r: usize)
        requires
            old(self).wf(),
        ensures
            final(self).wf(),
            final(self).grid_spec() == old(self).grid_spec(),
            final(self).seed() == old(self).seed(),
            final(self).generation() == old(self).generation() + 1,
            final(self).parity_spec() == 1 - old(self).parity_spec(),
            r == final(self).parity_spec(),
            final(self).buffer(old(self).parity_spec()) == old(self).buffer(old(self).parity_spec()),
            final(self).buffer(1 - old(self).parity_spec()) == step(
                old(self).current_spec(),
                old(self).grid_spec().width as int,
                old(self).grid_spec().height as int,
            ),
            final(self).current_spec() == step(
                old(self).current_spec(),
                old(self).grid_spec().width as int,
                old(self).grid_spec().height as int,
            ),
    {
        let b = binding_set(self.parity);
        if b.input == 0 {
            transition(&self.grid, &self.state_a, &mut self.state_b);
        } else {
            transition(&self.grid, &self.state_b, &mut self.state_a);
        }
        self.parity = b.output;
        self.generation = Ghost(self.generation@ + 1);
        self.parity
    }
}

} // verus!
