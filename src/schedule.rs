//! The frame scheduler: on each timer tick it plans one transition dispatch
//! and one draw, flips the parity, and sets the next deadline.
use vstd::prelude::*;
use crate::grid::{GridDimensions, QUAD_VERTICES, WORKGROUP_SIZE, workgroup_count};
use crate::buffers::{binding_set, render_source};

verus! {

/// Time between two ticks, in milliseconds.
pub const UPDATE_INTERVAL_MS: u64 = 200;

/// `now + UPDATE_INTERVAL_MS`, held at `u64::MAX` where it would pass it.
pub open spec fn deadline_after(now_ms: u64) -> u64 {
    if now_ms + UPDATE_INTERVAL_MS > u64::MAX {
        u64::MAX
    } else {
        (now_ms + UPDATE_INTERVAL_MS) as u64
    }
}

/// The deadline of the tick after one at `now_ms`.
pub fn next_deadline(now_ms: u64) -> (r: u64)
    ensures
        r == deadline_after(now_ms),
{
    if now_ms > u64::MAX - UPDATE_INTERVAL_MS {
        u64::MAX
    } else {
        now_ms + UPDATE_INTERVAL_MS
    }
}

/// What the event loop reports to the scheduler.
#[derive(Clone, Copy, Debug, PartialEq, Eq, Structural)]
pub enum SchedulerEvent {
    /// The loop has started, at `now_ms`.
    Started { now_ms: u64 },
    /// The deadline set last has been reached, at `now_ms`.
    TimerElapsed { now_ms: u64 },
    /// The window asked to close.
    CloseRequested,
    /// Anything else.
    Other,
}

/// The commands recorded for one tick, in order: a dispatch of the
/// transition with binding set `dispatch_group`, then an instanced draw
/// with binding set `render_group`.
#[derive(Clone, Copy, Debug, PartialEq, Eq, Structural)]
pub struct FramePlan {
    pub dispatch_group: usize,
    pub render_group: usize,
    pub workgroups_x: u32,
    pub workgroups_y: u32,
    pub vertex_count: u32,
    pub instance_count: u32,
}

/// What the event loop is to do next.
#[derive(Clone, Copy, Debug, PartialEq, Eq, Structural)]
pub enum SchedulerAction {
    /// Sleep until `until_ms`.
    Wait { until_ms: u64 },
    /// Record and submit `plan`, present, then sleep until `until_ms`.
    Frame { plan: FramePlan, until_ms: u64 },
    /// Leave the loop.
    Exit,
    /// Nothing to do.
    Nothing,
}

/// The plan of a tick taken with parity `parity` on `grid`.
pub open spec fn plan_spec(grid: GridDimensions, parity: int) -> FramePlan {
    FramePlan {
        dispatch_group: parity as usize,
        render_group: (1 - parity) as usize,
        workgroups_x: ((grid.width + WORKGROUP_SIZE - 1) / (WORKGROUP_SIZE as int)) as u32,
        workgroups_y: ((grid.height + WORKGROUP_SIZE - 1) / (WORKGROUP_SIZE as int)) as u32,
        vertex_count: QUAD_VERTICES,
        instance_count: grid.cells() as u32,
    }
}

/// The commands of one tick at parity `parity`: dispatch with the binding
/// set of that parity over enough tiles to cover the grid, then draw one
/// quad per cell with the binding set of the flipped parity.
pub fn frame_plan(grid: &GridDimensions, parity: usize) -> (r: FramePlan)
    requires
        grid.wf(),
        parity < 2,
    ensures
        r == plan_spec(*grid, parity as int),
        r.dispatch_group == binding_set_input(parity as int),
        r.render_group == binding_set_output(parity as int),
        r.workgroups_x * WORKGROUP_SIZE >= grid.width,
        r.workgroups_y * WORKGROUP_SIZE >= grid.height,
        grid.width % WORKGROUP_SIZE == 0 ==> r.workgroups_x * WORKGROUP_SIZE == grid.width,
        grid.height % WORKGROUP_SIZE == 0 ==> r.workgroups_y * WORKGROUP_SIZE == grid.height,
{
    proof {
        assert(grid.width <= u32::MAX && grid.height <= u32::MAX) by (nonlinear_arith)
            requires
                grid.width > 0,
                grid.height > 0,
                grid.width * grid.height <= u32::MAX,
        ;
    }
    let b = binding_set(parity);
    let after = 1 - parity;
    proof {
        if grid.width % WORKGROUP_SIZE == 0 {
            lemma_exact_cover(grid.width as int);
        }
        if grid.height % WORKGROUP_SIZE == 0 {
            lemma_exact_cover(grid.height as int);
        }
    }
    FramePlan {
        dispatch_group: b.input,
        render_group: render_source(after),
        workgroups_x: workgroup_count(grid.width, WORKGROUP_SIZE),
        workgroups_y: workgroup_count(grid.height, WORKGROUP_SIZE),
        vertex_count: QUAD_VERTICES,
        instance_count: grid.cell_count() as u32,
    }
}

proof fn lemma_exact_cover(e: int)
    requires
        e >= 0,
        e % (WORKGROUP_SIZE as int) == 0,
    ensures
        ((e + WORKGROUP_SIZE - 1) / (WORKGROUP_SIZE as int)) * WORKGROUP_SIZE == e,
{
    let t = WORKGROUP_SIZE as int;
    vstd::arithmetic::div_mod::lemma_fundamental_div_mod(e, t);
    vstd::arithmetic::div_mod::lemma_fundamental_div_mod_converse(e + t - 1, t, e / t, t - 1);
}

/// The state buffer a transition reads at parity `p`.
pub open spec fn binding_set_input(p: int) -> int {
    p
}

/// The state buffer a transition writes at parity `p`.
pub open spec fn binding_set_output(p: int) -> int {
    1 - p
}

/// After the `n`-th tick (`n >= 1`) the render stage reads the buffer that
/// the `n`-th dispatch wrote, and never the one it read: the parity after
/// `n` ticks is `n % 2`, and the `n`-th dispatch ran at parity `(n - 1) % 2`.
pub proof fn lemma_render_reads_last_written(n: nat)
    requires
        n >= 1,
    ensures
        binding_set_output(((n - 1) as nat % 2) as int) == (n % 2) as int,
        binding_set_input(((n - 1) as nat % 2) as int) != (n % 2) as int,
{
}

/// The tick scheduler. It holds the parity, and whether the loop still runs.
pub struct FrameScheduler {
    grid: GridDimensions,
    parity: usize,
    running: bool,
    ticks: Ghost<nat>,
}

impl FrameScheduler {
    pub closed spec fn parity_spec(&self) -> int {
        self.parity as int
    }

    pub closed spec fn running_spec(&self) -> bool {
        self.running
    }

    pub closed spec fn grid_spec(&self) -> GridDimensions {
        self.grid
    }

    /// Number of ticks planned so far.
    pub closed spec fn ticks(&self) -> nat {
        self.ticks@
    }

    /// The grid is valid and the parity is the number of ticks modulo 2.
    pub closed spec fn wf(&self) -> bool {
        &&& self.grid.wf()
        &&& self.parity < 2
        &&& self.parity == self.ticks@ % 2
    }

    /// An idle, running scheduler at parity 0 before any tick.
    pub fn new(grid: GridDimensions) -> (r: FrameScheduler)
        requires
            grid.wf(),
        ensures
            r.wf(),
            r.grid_spec() == grid,
            r.parity_spec() == 0,
            r.running_spec(),
            r.ticks() == 0,
    {
        FrameScheduler { grid, parity: 0, running: true, ticks: Ghost(0) }
    }

    pub fn parity(&self) -> (r: usize)
        ensures
            r == self.parity_spec(),
    {
        self.parity
    }

    pub fn is_running(&self) -> (r: bool)
        ensures
            r == self.running_spec(),
    {
        self.running
    }

    /// Decides what the loop does on `event`. Once closed, every event
    /// answers `Exit`. A start sets the first deadline. A tick plans the
    /// dispatch with the binding set of the current parity and the draw with
    /// that of the flipped one, flips the parity and sets the next deadline.
    /// A close request stops the scheduler.
    pub fn on_event(&mut self, event: SchedulerEvent) -> (r: SchedulerAction)
        requires
            old(self).wf(),
        ensures
            final(self).wf(),
            final(self).grid_spec() == old(self).grid_spec(),
            !old(self).running_spec() ==> r == SchedulerAction::Exit && *final(self) == *old(self),
            old(self).running_spec() ==> match event {
                SchedulerEvent::Started { now_ms } => r == (SchedulerAction::Wait {
                    until_ms: deadline_after(now_ms),
                }) && *final(self) == *old(self),
                SchedulerEvent::TimerElapsed { now_ms } => {
                    &&& r == (SchedulerAction::Frame {
                        plan: plan_spec(old(self).grid_spec(), old(self).parity_spec()),
                        until_ms: deadline_after(now_ms),
                    })
                    &&& final(self).parity_spec() == 1 - old(self).parity_spec()
                    &&& final(self).ticks() == old(self).ticks() + 1
                    &&& final(self).running_spec()
                },
                SchedulerEvent::CloseRequested => {
                    &&& r == SchedulerAction::Exit
                    &&& !final(self).running_spec()
                    &&& final(self).parity_spec() == old(self).parity_spec()
                    &&& final(self).ticks() == old(self).ticks()
                },
                SchedulerEvent::Other => r == SchedulerAction::Nothing && *final(self) == *old(self),
            },
    {
        if !self.running {
            return SchedulerAction::Exit;
        }
        match event {
            SchedulerEvent::Started { now_ms } => SchedulerAction::Wait { until_ms: next_deadline(now_ms) },
            SchedulerEvent::TimerElapsed { now_ms } => {
                let plan = frame_plan(&self.grid, self.parity);
                self.parity = plan.render_group;
                self.ticks = Ghost(self.ticks@ + 1);
                SchedulerAction::Frame { plan, until_ms: next_deadline(now_ms) }
            },
            SchedulerEvent::CloseRequested => {
                self.running = false;
                SchedulerAction::Exit
            },
            SchedulerEvent::Other => SchedulerAction::Nothing,
        }
    }
}

} // verus!
