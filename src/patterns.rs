//! Rectangular patterns on the torus and what one transition does to them:
//! edges that wrap, a 2x2 block that stays, a line of three that turns.
use vstd::prelude::*;
use vstd::arithmetic::div_mod::{lemma_add_mod_noop_right, lemma_mod_bound};
use crate::grid::{wrap, torus_index, lemma_wrap_neighbors, lemma_index_split, lemma_index_coords};
use crate::life::{cell_at, neighbor_sum, rule, step, steps};

verus! {

/// 1 for true, 0 for false.
pub open spec fn flag(b: bool) -> int {
    if b {
        1
    } else {
        0
    }
}

/// Coordinate `v` lies in the `len` coordinates that start at `start`,
/// counted around a circle of `n`.
pub open spec fn in_span(v: int, start: int, len: int, n: int) -> bool {
    wrap(v - start, n) < len
}

/// The `w` by `h` grid whose live cells are the columns `x0 ..` (`cw` of
/// them) crossed with the rows `y0 ..` (`ch` of them), both wrapping.
pub open spec fn rect(w: int, h: int, x0: int, cw: int, y0: int, ch: int) -> Seq<u32> {
    Seq::new(
        (w * h) as nat,
        |i: int| if in_span(i % w, x0, cw, w) && in_span(i / w, y0, ch, h) { 1u32 } else { 0u32 },
    )
}

/// The 2x2 block whose top-left cell is at column `x`, row `y`.
pub open spec fn block(w: int, h: int, x: int, y: int) -> Seq<u32> {
    rect(w, h, x, 2, y, 2)
}

/// Three live cells in a row, centred at column `x`, row `y`.
pub open spec fn horizontal_blinker(w: int, h: int, x: int, y: int) -> Seq<u32> {
    rect(w, h, x - 1, 3, y, 1)
}

/// Three live cells in a column, centred at column `x`, row `y`.
pub open spec fn vertical_blinker(w: int, h: int, x: int, y: int) -> Seq<u32> {
    rect(w, h, x, 1, y - 1, 3)
}

/// How many of the coordinates `u - 1`, `u`, `u + 1` (around a circle of
/// `n`) are below `len`.
pub open spec fn span_count(u: int, len: int, n: int) -> int {
    flag(wrap(u - 1, n) < len) + flag(u < len) + flag(wrap(u + 1, n) < len)
}

/// Column 0 and column `width - 1` are adjacent, and so are row 0 and row
/// `height - 1`: the cell left of column 0 is the one in the last column,
/// the cell right of the last column is the one in column 0, and likewise
/// for rows.
pub proof fn lemma_wraparound(s: Seq<u32>, w: int, h: int, x: int, y: int)
    requires
        w > 0,
        h > 0,
    ensures
        cell_at(s, w, h, 0 - 1, y) == cell_at(s, w, h, w - 1, y),
        cell_at(s, w, h, (w - 1) + 1, y) == cell_at(s, w, h, 0, y),
        cell_at(s, w, h, x, 0 - 1) == cell_at(s, w, h, x, h - 1),
        cell_at(s, w, h, x, (h - 1) + 1) == cell_at(s, w, h, x, 0),
{
    lemma_wrap_neighbors(0, w);
    lemma_wrap_neighbors(w - 1, w);
    lemma_wrap_neighbors(0, h);
    lemma_wrap_neighbors(h - 1, h);
}

proof fn lemma_flag_and(a: bool, b: bool)
    ensures
        flag(a && b) == flag(a) * flag(b),
{
}

proof fn lemma_shift(v: int, start: int, n: int, d: int)
    requires
        n > 0,
    ensures
        wrap(v + d - start, n) == wrap(wrap(v - start, n) + d, n),
{
    lemma_add_mod_noop_right(d, v - start, n);
    assert(d + (v - start) == v + d - start);
}

/// The cell of `rect` at any column `x` and row `y` (wrapped) is alive
/// exactly where both coordinates fall in their spans.
pub proof fn lemma_rect_cell(w: int, h: int, x0: int, cw: int, y0: int, ch: int, x: int, y: int)
    requires
        w > 0,
        h > 0,
    ensures
        cell_at(rect(w, h, x0, cw, y0, ch), w, h, x, y) == flag(
            in_span(x, x0, cw, w) && in_span(y, y0, ch, h),
        ),
{
    let xw = wrap(x, w);
    let yw = wrap(y, h);
    lemma_mod_bound(x, w);
    lemma_mod_bound(y, h);
    lemma_index_split(w, h, xw, yw);
    assert(torus_index(w, h, x, y) == yw * w + xw);
    vstd::arithmetic::div_mod::lemma_sub_mod_noop(xw, x0, w);
    vstd::arithmetic::div_mod::lemma_sub_mod_noop(x, x0, w);
    vstd::arithmetic::div_mod::lemma_mod_twice(x, w);
    vstd::arithmetic::div_mod::lemma_sub_mod_noop(yw, y0, h);
    vstd::arithmetic::div_mod::lemma_sub_mod_noop(y, y0, h);
    vstd::arithmetic::div_mod::lemma_mod_twice(y, h);
    assert(in_span(xw, x0, cw, w) == in_span(x, x0, cw, w));
    assert(in_span(yw, y0, ch, h) == in_span(y, y0, ch, h));
}

/// On a rectangle pattern the neighbour sum factors: live columns among
/// `x - 1, x, x + 1` times live rows among `y - 1, y, y + 1`, less the cell
/// itself.
pub proof fn lemma_rect_neighbor_sum(w: int, h: int, x0: int, cw: int, y0: int, ch: int, x: int, y: int)
    requires
        w > 0,
        h > 0,
    ensures
        neighbor_sum(rect(w, h, x0, cw, y0, ch), w, h, x, y) == span_count(wrap(x - x0, w), cw, w)
            * span_count(wrap(y - y0, h), ch, h) - flag(in_span(x, x0, cw, w) && in_span(y, y0, ch, h)),
{
    let s = rect(w, h, x0, cw, y0, ch);
    let u = wrap(x - x0, w);
    let v = wrap(y - y0, h);
    lemma_shift(x, x0, w, 1);
    lemma_shift(x, x0, w, -1);
    lemma_shift(y, y0, h, 1);
    lemma_shift(y, y0, h, -1);
    assert(x + 1 - x0 == (x + 1) - x0 && x + -1 - x0 == (x - 1) - x0);
    assert(y + 1 - y0 == (y + 1) - y0 && y + -1 - y0 == (y - 1) - y0);
    let am = flag(in_span(x - 1, x0, cw, w));
    let a0 = flag(in_span(x, x0, cw, w));
    let ap = flag(in_span(x + 1, x0, cw, w));
    let bm = flag(in_span(y - 1, y0, ch, h));
    let b0 = flag(in_span(y, y0, ch, h));
    let bp = flag(in_span(y + 1, y0, ch, h));
    assert(span_count(u, cw, w) == am + a0 + ap);
    assert(span_count(v, ch, h) == bm + b0 + bp);
    lemma_rect_cell(w, h, x0, cw, y0, ch, x + 1, y + 1);
    lemma_rect_cell(w, h, x0, cw, y0, ch, x + 1, y);
    lemma_rect_cell(w, h, x0, cw, y0, ch, x + 1, y - 1);
    lemma_rect_cell(w, h, x0, cw, y0, ch, x, y - 1);
    lemma_rect_cell(w, h, x0, cw, y0, ch, x - 1, y - 1);
    lemma_rect_cell(w, h, x0, cw, y0, ch, x - 1, y);
    lemma_rect_cell(w, h, x0, cw, y0, ch, x - 1, y + 1);
    lemma_rect_cell(w, h, x0, cw, y0, ch, x, y + 1);
    lemma_flag_and(in_span(x + 1, x0, cw, w), in_span(y + 1, y0, ch, h));
    lemma_flag_and(in_span(x + 1, x0, cw, w), in_span(y, y0, ch, h));
    lemma_flag_and(in_span(x + 1, x0, cw, w), in_span(y - 1, y0, ch, h));
    lemma_flag_and(in_span(x, x0, cw, w), in_span(y - 1, y0, ch, h));
    lemma_flag_and(in_span(x - 1, x0, cw, w), in_span(y - 1, y0, ch, h));
    lemma_flag_and(in_span(x - 1, x0, cw, w), in_span(y, y0, ch, h));
    lemma_flag_and(in_span(x - 1, x0, cw, w), in_span(y + 1, y0, ch, h));
    lemma_flag_and(in_span(x, x0, cw, w), in_span(y + 1, y0, ch, h));
    lemma_flag_and(in_span(x, x0, cw, w), in_span(y, y0, ch, h));
    assert((am + a0 + ap) * (bm + b0 + bp) - a0 * b0 == ap * bp + ap * b0 + ap * bm + a0 * bm + am * bm
        + am * b0 + am * bp + a0 * bp) by (nonlinear_arith);
}

/// Each cell of one transition of a rectangle pattern, by the factored
/// neighbour sum.
pub proof fn lemma_step_rect(w: int, h: int, x0: int, cw: int, y0: int, ch: int, i: int)
    requires
        w > 0,
        h > 0,
        0 <= i < w * h,
    ensures
        ({
            let u = wrap(i % w - x0, w);
            let v = wrap(i / w - y0, h);
            let live = in_span(i % w, x0, cw, w) && in_span(i / w, y0, ch, h);
            &&& rect(w, h, x0, cw, y0, ch)[i] == (if live { 1u32 } else { 0u32 })
            &&& step(rect(w, h, x0, cw, y0, ch), w, h)[i] == rule(
                rect(w, h, x0, cw, y0, ch)[i],
                span_count(u, cw, w) * span_count(v, ch, h) - flag(live),
            )
        }),
{
    lemma_index_coords(w, h, i);
    lemma_rect_neighbor_sum(w, h, x0, cw, y0, ch, i % w, i / w);
    assert(w * h >= 0) by (nonlinear_arith)
        requires
            w > 0,
            h > 0,
    ;
}

proof fn lemma_count_two(u: int, n: int)
    requires
        n >= 4,
        0 <= u < n,
    ensures
        u < 2 ==> span_count(u, 2, n) == 2,
        u >= 2 ==> 0 <= span_count(u, 2, n) <= 1,
{
    lemma_wrap_neighbors(u, n);
}

proof fn lemma_count_three(u: int, n: int)
    requires
        n >= 5,
        0 <= u < n,
    ensures
        span_count(u, 3, n) == if u == 1 {
            3int
        } else if u == 0 || u == 2 {
            2
        } else if u == 3 || u == n - 1 {
            1
        } else {
            0
        },
        wrap(u - 1, n) < 1 <==> u == 1,
        wrap(u + 1, n) < 3 <==> (u == n - 1 || u == 0 || u == 1),
{
    lemma_wrap_neighbors(u, n);
}

proof fn lemma_count_one(u: int, n: int)
    requires
        n >= 5,
        0 <= u < n,
    ensures
        span_count(u, 1, n) == if u == 0 || u == 1 || u == n - 1 {
            1int
        } else {
            0
        },
        wrap(u - 1, n) < 1 <==> u == 1,
        wrap(u + 1, n) < 3 <==> (u == n - 1 || u == 0 || u == 1),
{
    lemma_wrap_neighbors(u, n);
}

/// A 2x2 block is a still life: on any torus of at least 4 by 4 cells one
/// transition leaves it as it is.
pub proof fn lemma_block_still(w: int, h: int, x: int, y: int)
    requires
        w >= 4,
        h >= 4,
    ensures
        step(block(w, h, x, y), w, h) == block(w, h, x, y),
{
    let b = block(w, h, x, y);
    assert forall|i: int| 0 <= i < w * h implies #[trigger] step(b, w, h)[i] == b[i] by {
        lemma_step_rect(w, h, x, 2, y, 2, i);
        lemma_index_coords(w, h, i);
        let u = wrap(i % w - x, w);
        let v = wrap(i / w - y, h);
        lemma_mod_bound(i % w - x, w);
        lemma_mod_bound(i / w - y, h);
        lemma_count_two(u, w);
        lemma_count_two(v, h);
        let c = span_count(u, 2, w);
        let r = span_count(v, 2, h);
        if u < 2 && v < 2 {
            assert(c * r == 4) by (nonlinear_arith)
                requires
                    c == 2,
                    r == 2,
            ;
        } else {
            assert(c * r <= 2) by (nonlinear_arith)
                requires
                    0 <= c <= 2,
                    0 <= r <= 2,
                    c <= 1 || r <= 1,
            ;
        }
    }
    assert(step(b, w, h) =~= b);
}

/// A 2x2 block stays the same through any number of transitions.
pub proof fn lemma_block_steps(w: int, h: int, x: int, y: int, n: nat)
    requires
        w >= 4,
        h >= 4,
    ensures
        steps(block(w, h, x, y), w, h, n) == block(w, h, x, y),
    decreases n,
{
    if n > 0 {
        lemma_block_steps(w, h, x, y, (n - 1) as nat);
        lemma_block_still(w, h, x, y);
    }
}

/// One transition turns a horizontal line of three into the vertical line
/// of three with the same centre, on any torus of at least 5 by 5 cells.
pub proof fn lemma_blinker_turns_vertical(w: int, h: int, x: int, y: int)
    requires
        w >= 5,
        h >= 5,
    ensures
        step(horizontal_blinker(w, h, x, y), w, h) == vertical_blinker(w, h, x, y),
{
    let hb = horizontal_blinker(w, h, x, y);
    let vb = vertical_blinker(w, h, x, y);
    assert forall|i: int| 0 <= i < w * h implies #[trigger] step(hb, w, h)[i] == vb[i] by {
        lemma_step_rect(w, h, x - 1, 3, y, 1, i);
        lemma_step_rect(w, h, x, 1, y - 1, 3, i);
        lemma_index_coords(w, h, i);
        let cx = i % w;
        let cy = i / w;
        let u = wrap(cx - (x - 1), w);
        let v = wrap(cy - y, h);
        lemma_mod_bound(cx - (x - 1), w);
        lemma_mod_bound(cy - y, h);
        lemma_count_three(u, w);
        lemma_count_one(v, h);
        lemma_shift(cx, x - 1, w, -1);
        lemma_shift(cy, y, h, 1);
        assert(cx + -1 - (x - 1) == cx - x);
        assert(cy + 1 - y == cy - (y - 1));
        let c = span_count(u, 3, w);
        let r = span_count(v, 1, h);
        assert(0 <= c <= 3 && 0 <= r <= 1);
        if r == 0 {
            assert(c * r == 0) by (nonlinear_arith)
                requires
                    r == 0,
            ;
        } else {
            assert(c * r == c) by (nonlinear_arith)
                requires
                    r == 1,
            ;
        }
    }
    assert(step(hb, w, h) =~= vb);
}

/// One transition turns a vertical line of three into the horizontal line
/// of three with the same centre, on any torus of at least 5 by 5 cells.
pub proof fn lemma_blinker_turns_horizontal(w: int, h: int, x: int, y: int)
    requires
        w >= 5,
        h >= 5,
    ensures
        step(vertical_blinker(w, h, x, y), w, h) == horizontal_blinker(w, h, x, y),
{
    let hb = horizontal_blinker(w, h, x, y);
    let vb = vertical_blinker(w, h, x, y);
    assert forall|i: int| 0 <= i < w * h implies #[trigger] step(vb, w, h)[i] == hb[i] by {
        lemma_step_rect(w, h, x - 1, 3, y, 1, i);
        lemma_step_rect(w, h, x, 1, y - 1, 3, i);
        lemma_index_coords(w, h, i);
        let cx = i % w;
        let cy = i / w;
        let u = wrap(cx - x, w);
        let v = wrap(cy - (y - 1), h);
        lemma_mod_bound(cx - x, w);
        lemma_mod_bound(cy - (y - 1), h);
        lemma_count_one(u, w);
        lemma_count_three(v, h);
        lemma_shift(cx, x, w, 1);
        lemma_shift(cy, y - 1, h, -1);
        assert(cx + 1 - x == cx - (x - 1));
        assert(cy + -1 - (y - 1) == cy - y);
        let c = span_count(u, 1, w);
        let r = span_count(v, 3, h);
        assert(0 <= c <= 1 && 0 <= r <= 3);
        if c == 0 {
            assert(c * r == 0) by (nonlinear_arith)
                requires
                    c == 0,
            ;
        } else {
            assert(c * r == r) by (nonlinear_arith)
                requires
                    c == 1,
            ;
        }
    }
    assert(step(vb, w, h) =~= hb);
}

/// A horizontal blinker stands vertical after one transition and is back to
/// itself after exactly two; it is not a still life.
pub proof fn lemma_blinker_period_two(w: int, h: int, x: int, y: int)
    requires
        w >= 5,
        h >= 5,
    ensures
        steps(horizontal_blinker(w, h, x, y), w, h, 1) == vertical_blinker(w, h, x, y),
        steps(horizontal_blinker(w, h, x, y), w, h, 2) == horizontal_blinker(w, h, x, y),
        steps(horizontal_blinker(w, h, x, y), w, h, 1) != horizontal_blinker(w, h, x, y),
{
    let hb = horizontal_blinker(w, h, x, y);
    let vb = vertical_blinker(w, h, x, y);
    lemma_blinker_turns_vertical(w, h, x, y);
    lemma_blinker_turns_horizontal(w, h, x, y);
    assert(steps(hb, w, h, 0) == hb);
    assert(steps(hb, w, h, 1) == step(steps(hb, w, h, 0), w, h));
    assert(steps(hb, w, h, 2) == step(steps(hb, w, h, 1), w, h));
    // The cell above the centre tells the two apart.
    let xc = wrap(x, w);
    let yc = wrap(y - 1, h);
    lemma_mod_bound(x, w);
    lemma_mod_bound(y - 1, h);
    lemma_index_split(w, h, xc, yc);
    let k = yc * w + xc;
    lemma_step_rect(w, h, x - 1, 3, y, 1, k);
    lemma_step_rect(w, h, x, 1, y - 1, 3, k);
    vstd::arithmetic::div_mod::lemma_sub_mod_noop(xc, x - 1, w);
    vstd::arithmetic::div_mod::lemma_mod_twice(x, w);
    vstd::arithmetic::div_mod::lemma_sub_mod_noop(x, x - 1, w);
    vstd::arithmetic::div_mod::lemma_sub_mod_noop(xc, x, w);
    vstd::arithmetic::div_mod::lemma_sub_mod_noop(x, x, w);
    vstd::arithmetic::div_mod::lemma_sub_mod_noop(yc, y, h);
    vstd::arithmetic::div_mod::lemma_mod_twice(y - 1, h);
    vstd::arithmetic::div_mod::lemma_sub_mod_noop(y - 1, y, h);
    vstd::arithmetic::div_mod::lemma_sub_mod_noop(yc, y - 1, h);
    vstd::arithmetic::div_mod::lemma_sub_mod_noop(y - 1, y - 1, h);
    lemma_wrap_neighbors(0, h);
    lemma_wrap_neighbors(1, w);
    lemma_wrap_neighbors(0, w);
    assert(vb[k] == 1u32);
    assert(hb[k] == 0u32);
}

} // verus!
