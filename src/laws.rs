//! Properties of the model that hold across functions and generations.
use crate::pattern::{block_cells, mask_bit};
use crate::seeding::is_reseed_layout;
use crate::rules::{
    blank_board, covers, is_board, live_at, neighbor_count, stamp, stamp_all, step_board, wrap,
};
use vstd::arithmetic::div_mod::{lemma_mod_add_multiples_vanish, lemma_mod_self_0, lemma_small_mod};
use vstd::prelude::*;

verus! {

/// On a ring of `n` positions, a step of -1, 0 or 1 from `i` lands on a valid
/// index: one below 0 lands on `n - 1` and one past `n - 1` lands on 0.
pub proof fn lemma_wrap_step(i: int, d: int, n: int)
    requires
        0 <= i < n,
        -1 <= d <= 1,
    ensures
        0 <= wrap(i, d, n) < n,
        wrap(i, d, n) == if i + d < 0 {
            n - 1
        } else if i + d >= n {
            0
        } else {
            i + d
        },
{
    lemma_mod_add_multiples_vanish(i + d, n);
    if i + d < 0 {
        lemma_small_mod((n - 1) as nat, n as nat);
    } else if i + d >= n {
        lemma_mod_self_0(n);
        lemma_mod_add_multiples_vanish(0, n);
    } else {
        lemma_small_mod((i + d) as nat, n as nat);
    }
}

/// The neighbour count of every cell lies in 0..=8.
pub proof fn lemma_neighbor_count_bounds(g: Seq<Seq<bool>>, w: int, h: int, x: int, y: int)
    ensures
        0 <= neighbor_count(g, w, h, x, y) <= 8,
{
}

/// The board is a torus: the neighbours of the corner (0, 0) taken up and to the
/// left are the cells of the last column and the last row.
pub proof fn lemma_corner_wraps(g: Seq<Seq<bool>>, w: int, h: int)
    requires
        w > 0,
        h > 0,
        is_board(g, w, h),
    ensures
        live_at(g, w, h, 0, 0, -1, -1) == (if g[h - 1][w - 1] { 1int } else { 0int }),
        live_at(g, w, h, 0, 0, -1, 0) == (if g[0][w - 1] { 1int } else { 0int }),
        live_at(g, w, h, 0, 0, 0, -1) == (if g[h - 1][0] { 1int } else { 0int }),
        live_at(g, w, h, w - 1, h - 1, 1, 1) == (if g[0][0] { 1int } else { 0int }),
{
    lemma_wrap_step(0, -1, w);
    lemma_wrap_step(0, -1, h);
    lemma_wrap_step(0, 0, w);
    lemma_wrap_step(0, 0, h);
    lemma_wrap_step(w - 1, 1, w);
    lemma_wrap_step(h - 1, 1, h);
}

/// One generation under B3/S23: a live cell with fewer than two or more than
/// three live neighbours dies, one with two or three survives; a dead cell with
/// exactly three is born and every other dead cell stays dead.
pub proof fn lemma_step_rule(g: Seq<Seq<bool>>, w: int, h: int, x: int, y: int)
    requires
        is_board(g, w, h),
        0 <= x < w,
        0 <= y < h,
    ensures
        ({
            let n = neighbor_count(g, w, h, x, y);
            let next = step_board(g, w, h)[y][x];
            &&& is_board(step_board(g, w, h), w, h)
            &&& g[y][x] && n < 2 ==> !next
            &&& g[y][x] && (n == 2 || n == 3) ==> next
            &&& g[y][x] && n > 3 ==> !next
            &&& !g[y][x] && n == 3 ==> next
            &&& !g[y][x] && n != 3 ==> !next
        }),
{
}

/// Stamping a pattern that lies wholly on the board reproduces it cell by cell
/// at its offset, and leaves every other cell as it was.
pub proof fn lemma_stamp_round_trip(
    g: Seq<Seq<bool>>,
    w: int,
    h: int,
    x: int,
    y: int,
    p: Seq<Seq<bool>>,
    pw: int,
)
    requires
        is_board(g, w, h),
        is_board(p, pw, p.len() as int),
        0 <= x,
        0 <= y,
        x + pw <= w,
        y + p.len() <= h,
    ensures
        is_board(stamp(g, x, y, p), w, h),
        forall|r: int, c: int|
            0 <= r < p.len() && 0 <= c < pw ==> #[trigger] stamp(g, x, y, p)[y + r][x + c] == p[r][c],
        forall|r: int, c: int|
            0 <= r < h && 0 <= c < w && !(y <= r < y + p.len() && x <= c < x + pw) ==> #[trigger] stamp(
                g,
                x,
                y,
                p,
            )[r][c] == g[r][c],
{
    assert forall|r: int, c: int| 0 <= r < p.len() && 0 <= c < pw implies #[trigger] stamp(g, x, y, p)[y + r][x
        + c] == p[r][c] by {
        assert(p[(y + r) - y] == p[r]);
    }
}

/// Stamping clips at the board's edge: the board keeps its shape wherever the
/// pattern is put, the cells of the pattern that land on the board are copied,
/// and no other cell changes.
pub proof fn lemma_stamp_clips(g: Seq<Seq<bool>>, w: int, h: int, x: int, y: int, p: Seq<Seq<bool>>)
    requires
        is_board(g, w, h),
        0 <= x,
        0 <= y,
    ensures
        is_board(stamp(g, x, y, p), w, h),
        forall|r: int, c: int|
            0 <= r < h && 0 <= c < w ==> #[trigger] stamp(g, x, y, p)[r][c] == if covers(x, y, p, c, r) {
                p[r - y][c - x]
            } else {
                g[r][c]
            },
{
}

/// A stamped layout keeps its board's shape.
pub proof fn lemma_layout_shape(g: Seq<Seq<bool>>, w: int, h: int, s: Seq<(int, int, Seq<Seq<bool>>)>)
    requires
        is_board(g, w, h),
        forall|j: int| 0 <= j < s.len() ==> 0 <= (#[trigger] s[j]).0 && 0 <= s[j].1,
    ensures
        is_board(stamp_all(g, s), w, h),
    decreases s.len(),
{
    if s.len() > 0 {
        lemma_layout_shape(g, w, h, s.drop_last());
        lemma_stamp_clips(stamp_all(g, s.drop_last()), w, h, s.last().0, s.last().1, s.last().2);
    }
}

/// In a layout stamped in turn, a board cell under placement `k` that no later
/// placement covers holds placement `k`'s bit: each pattern of a layout is
/// present wherever later ones have not been drawn over it.
pub proof fn lemma_layout_keeps_uncovered(
    g: Seq<Seq<bool>>,
    w: int,
    h: int,
    s: Seq<(int, int, Seq<Seq<bool>>)>,
    k: int,
    x: int,
    y: int,
)
    requires
        is_board(g, w, h),
        forall|j: int| 0 <= j < s.len() ==> 0 <= (#[trigger] s[j]).0 && 0 <= s[j].1,
        0 <= k < s.len(),
        0 <= x < w,
        0 <= y < h,
        covers(s[k].0, s[k].1, s[k].2, x, y),
        forall|j: int| k < j < s.len() ==> !covers((#[trigger] s[j]).0, s[j].1, s[j].2, x, y),
    ensures
        stamp_all(g, s)[y][x] == s[k].2[y - s[k].1][x - s[k].0],
    decreases s.len(),
{
    let prefix = s.drop_last();
    lemma_layout_shape(g, w, h, prefix);
    lemma_stamp_clips(stamp_all(g, prefix), w, h, s.last().0, s.last().1, s.last().2);
    if k < s.len() - 1 {
        assert(!covers(s.last().0, s.last().1, s.last().2, x, y)) by {
            assert(s.last() == s[s.len() - 1]);
        }
        lemma_layout_keeps_uncovered(g, w, h, prefix, k, x, y);
    }
}

/// In a layout stamped in turn, a board cell that no placement covers keeps its value.
pub proof fn lemma_layout_keeps_background(
    g: Seq<Seq<bool>>,
    w: int,
    h: int,
    s: Seq<(int, int, Seq<Seq<bool>>)>,
    x: int,
    y: int,
)
    requires
        is_board(g, w, h),
        forall|j: int| 0 <= j < s.len() ==> 0 <= (#[trigger] s[j]).0 && 0 <= s[j].1,
        0 <= x < w,
        0 <= y < h,
        forall|j: int| 0 <= j < s.len() ==> !covers((#[trigger] s[j]).0, s[j].1, s[j].2, x, y),
    ensures
        stamp_all(g, s)[y][x] == g[y][x],
    decreases s.len(),
{
    if s.len() > 0 {
        let prefix = s.drop_last();
        lemma_layout_shape(g, w, h, prefix);
        lemma_stamp_clips(stamp_all(g, prefix), w, h, s.last().0, s.last().1, s.last().2);
        assert(s.last() == s[s.len() - 1]);
        lemma_layout_keeps_background(g, w, h, prefix, x, y);
    }
}

/// The board after `n` generations from `g`.
pub open spec fn run(g: Seq<Seq<bool>>, w: int, h: int, n: nat) -> Seq<Seq<bool>>
    decreases n,
{
    if n == 0 {
        g
    } else {
        step_board(run(g, w, h, (n - 1) as nat), w, h)
    }
}

/// A board that holds nothing but a block, on a torus of at least 4 x 4 cells,
/// is the same after any number of generations.
pub proof fn lemma_block_still_life(w: int, h: int, x: int, y: int, n: nat)
    requires
        w >= 4,
        h >= 4,
        0 <= x,
        0 <= y,
        x + 2 <= w,
        y + 2 <= h,
    ensures
        run(stamp(blank_board(w, h), x, y, block_cells()), w, h, n) == stamp(blank_board(w, h), x, y, block_cells()),
    decreases n,
{
    let g = stamp(blank_board(w, h), x, y, block_cells());
    if n > 0 {
        lemma_block_still_life(w, h, x, y, (n - 1) as nat);
        lemma_block_is_fixed(w, h, x, y);
    }
}

proof fn lemma_block_is_fixed(w: int, h: int, x: int, y: int)
    requires
        w >= 4,
        h >= 4,
        0 <= x,
        0 <= y,
        x + 2 <= w,
        y + 2 <= h,
    ensures
        step_board(stamp(blank_board(w, h), x, y, block_cells()), w, h) == stamp(
            blank_board(w, h),
            x,
            y,
            block_cells(),
        ),
{
    let g = stamp(blank_board(w, h), x, y, block_cells());
    assert((3u64 >> 1u64) & 1u64 == 1u64) by (bit_vector);
    assert((3u64 >> 0u64) & 1u64 == 1u64) by (bit_vector);
    assert(mask_bit(3, 2, 0) && mask_bit(3, 2, 1));
    assert(block_cells()[0] =~= seq![true, true]);
    assert(block_cells()[1] =~= seq![true, true]);
    assert(block_cells() =~= seq![seq![true, true], seq![true, true]]);
    assert forall|r: int, c: int| 0 <= r < h && 0 <= c < w implies #[trigger] g[r][c] == (x <= c < x + 2 && y
        <= r < y + 2) by {}
    let s = step_board(g, w, h);
    assert forall|r: int| 0 <= r < h implies #[trigger] s[r] =~= g[r] by {
        assert forall|c: int| 0 <= c < w implies #[trigger] s[r][c] == g[r][c] by {
            lemma_wrap_step(c, -1, w);
            lemma_wrap_step(c, 0, w);
            lemma_wrap_step(c, 1, w);
            lemma_wrap_step(r, -1, h);
            lemma_wrap_step(r, 0, h);
            lemma_wrap_step(r, 1, h);
        }
    }
    assert(s =~= g);
}

/// A board reseeded with layout `s` (see `GameOfLife::reset`) holds each gun,
/// glider, spaceship and soup of `s` wherever later placements of `s` have not
/// been drawn over it, and is dead everywhere else.
pub proof fn lemma_reseeded_board(w: int, h: int, s: Seq<(int, int, Seq<Seq<bool>>)>, x: int, y: int)
    requires
        w >= 0,
        h >= 0,
        is_reseed_layout(s),
        0 <= x < w,
        0 <= y < h,
    ensures
        is_board(stamp_all(blank_board(w, h), s), w, h),
        forall|k: int|
            0 <= k < s.len() && covers(s[k].0, s[k].1, s[k].2, x, y) && (forall|j: int|
                k < j < s.len() ==> !covers((#[trigger] s[j]).0, s[j].1, s[j].2, x, y)) ==> stamp_all(
                blank_board(w, h),
                s,
            )[y][x] == (#[trigger] s[k]).2[y - s[k].1][x - s[k].0],
        (forall|j: int| 0 <= j < s.len() ==> !covers((#[trigger] s[j]).0, s[j].1, s[j].2, x, y)) ==> !stamp_all(
            blank_board(w, h),
            s,
        )[y][x],
{
    let g = blank_board(w, h);
    assert(is_board(g, w, h));
    assert forall|j: int| 0 <= j < s.len() implies 0 <= (#[trigger] s[j]).0 && 0 <= s[j].1 by {
        if j >= 2 && j < 8 {
        } else if j >= 8 && j < 11 {
        } else if j >= 11 {
        }
    }
    lemma_layout_shape(g, w, h, s);
    assert forall|k: int|
        0 <= k < s.len() && covers(s[k].0, s[k].1, s[k].2, x, y) && (forall|j: int|
            k < j < s.len() ==> !covers((#[trigger] s[j]).0, s[j].1, s[j].2, x, y)) implies stamp_all(g, s)[y][x]
        == (#[trigger] s[k]).2[y - s[k].1][x - s[k].0] by {
        lemma_layout_keeps_uncovered(g, w, h, s, k, x, y);
    }
    if forall|j: int| 0 <= j < s.len() ==> !covers((#[trigger] s[j]).0, s[j].1, s[j].2, x, y) {
        lemma_layout_keeps_background(g, w, h, s, x, y);
    }
}

} // verus!
