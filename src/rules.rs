//! The mathematical model of a board: the B3/S23 rule on a torus, pattern
//! stamping with clipping, and the activity test.
use vstd::prelude::*;

verus! {

/// A board of `h` rows of `w` cells each; `g[y][x]` is the cell at column `x`, row `y`.
pub open spec fn is_board(g: Seq<Seq<bool>>, w: int, h: int) -> bool {
    &&& g.len() == h
    &&& forall|y: int| 0 <= y < h ==> #[trigger] g[y].len() == w
}

/// Index `i` moved by `d` on a ring of `n` positions.
pub open spec fn wrap(i: int, d: int, n: int) -> int {
    (i + d + n) % n
}

/// 1 when the cell at offset (dx, dy) from (x, y), taken on the torus, is alive.
pub open spec fn live_at(g: Seq<Seq<bool>>, w: int, h: int, x: int, y: int, dx: int, dy: int) -> int {
    if g[wrap(y, dy, h)][wrap(x, dx, w)] {
        1
    } else {
        0
    }
}

/// The number of live cells among the eight neighbours of (x, y) on the torus.
pub open spec fn neighbor_count(g: Seq<Seq<bool>>, w: int, h: int, x: int, y: int) -> int {
    live_at(g, w, h, x, y, -1, -1) + live_at(g, w, h, x, y, 0, -1) + live_at(g, w, h, x, y, 1, -1)
        + live_at(g, w, h, x, y, -1, 0) + live_at(g, w, h, x, y, 1, 0)
        + live_at(g, w, h, x, y, -1, 1) + live_at(g, w, h, x, y, 0, 1) + live_at(g, w, h, x, y, 1, 1)
}

/// B3/S23: a live cell survives with 2 or 3 live neighbours, a dead cell is born with 3.
pub open spec fn next_state(alive: bool, neighbors: int) -> bool {
    if alive {
        neighbors == 2 || neighbors == 3
    } else {
        neighbors == 3
    }
}

/// The board one generation after `g`.
pub open spec fn step_board(g: Seq<Seq<bool>>, w: int, h: int) -> Seq<Seq<bool>> {
    Seq::new(h as nat, |y: int| Seq::new(w as nat, |x: int| next_state(g[y][x], neighbor_count(g, w, h, x, y))))
}

/// A board of `h` rows of `w` dead cells.
pub open spec fn blank_board(w: int, h: int) -> Seq<Seq<bool>> {
    Seq::new(h as nat, |y: int| Seq::new(w as nat, |x: int| false))
}

/// Whether (x, y) lies under the bits of pattern `p` placed with its top-left corner at (ox, oy).
pub open spec fn covers(ox: int, oy: int, p: Seq<Seq<bool>>, x: int, y: int) -> bool {
    &&& oy <= y < oy + p.len()
    &&& ox <= x < ox + p[y - oy].len()
}

/// `g` with pattern `p` copied in at (ox, oy); the parts of `p` that fall beyond the
/// right or bottom edge are dropped, and the board keeps its shape.
pub open spec fn stamp(g: Seq<Seq<bool>>, ox: int, oy: int, p: Seq<Seq<bool>>) -> Seq<Seq<bool>> {
    Seq::new(
        g.len(),
        |y: int|
            Seq::new(
                g[y].len(),
                |x: int|
                    if covers(ox, oy, p, x, y) {
                        p[y - oy][x - ox]
                    } else {
                        g[y][x]
                    },
            ),
    )
}

/// `g` with each placement (x, y, pattern) of `s` stamped in turn, first to last.
pub open spec fn stamp_all(g: Seq<Seq<bool>>, s: Seq<(int, int, Seq<Seq<bool>>)>) -> Seq<Seq<bool>>
    decreases s.len(),
{
    if s.len() == 0 {
        g
    } else {
        let last = s.last();
        stamp(stamp_all(g, s.drop_last()), last.0, last.1, last.2)
    }
}

/// The number of live cells in a row.
pub open spec fn row_population(row: Seq<bool>) -> nat
    decreases row.len(),
{
    if row.len() == 0 {
        0
    } else {
        row_population(row.drop_last()) + if row.last() {
            1nat
        } else {
            0nat
        }
    }
}

/// The number of live cells on a board.
pub open spec fn population(g: Seq<Seq<bool>>) -> nat
    decreases g.len(),
{
    if g.len() == 0 {
        0
    } else {
        population(g.drop_last()) + row_population(g.last())
    }
}

/// Below this many live cells a board counts as collapsed.
pub const MIN_POPULATION: usize = 60;

/// After this many generations a board needs `PLATEAU_POPULATION` live cells to count as active.
pub const PLATEAU_AGE: u64 = 500;

/// The population that an old board must keep to count as active.
pub const PLATEAU_POPULATION: usize = 120;

/// Whether a board with `live` live cells at generation `generation` still shows
/// interesting dynamics.
pub open spec fn active(live: nat, generation: nat) -> bool {
    &&& live >= MIN_POPULATION
    &&& !(generation > PLATEAU_AGE && live < PLATEAU_POPULATION)
}

} // verus!
