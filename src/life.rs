//! The simulation state: a toroidal board with its scratch buffer and generation counter.
use crate::pattern::{
    beacon_cells, beehive_cells, blinker_cells, block_cells, glider_cells, gosper_glider_gun_cells,
    heavyweight_spaceship_cells, lightweight_spaceship_cells, middleweight_spaceship_cells,
    pentadecathlon_cells, pulsar_cells, toad_cells, Pattern,
};
use crate::seeding::{
    initial_layout, initial_placements, initial_soups, is_reseed_layout, placements_view,
    placements_wf, reseed_placements, Placement,
};
use crate::rules::{
    active, blank_board, covers, is_board, live_at, neighbor_count, population,
    row_population, stamp, stamp_all, step_board, wrap, MIN_POPULATION, PLATEAU_AGE, PLATEAU_POPULATION,
};
use vstd::arithmetic::div_mod::{lemma_mod_add_multiples_vanish, lemma_mod_self_0, lemma_small_mod};
use vstd::prelude::*;

verus! {

/// A Game of Life on a `width` x `height` torus.
pub struct GameOfLife {
    grid: Vec<Vec<bool>>,
    next_grid: Vec<Vec<bool>>,
    width: usize,
    height: usize,
    generation_count: u64,
}

/// The neighbour of index `i` in direction `d - 1` on a ring of `n` positions.
fn neighbor_index(i: usize, d: usize, n: usize) -> (r: usize)
    requires
        i < n,
        d <= 2,
    ensures
        r == wrap(i as int, d - 1, n as int),
        r < n,
{
    proof {
        lemma_mod_add_multiples_vanish(i + d - 1, n as int);
        if d == 1 || i > 0 && d == 0 || i + 1 < n && d == 2 {
            lemma_small_mod((i + d - 1) as nat, n as nat);
        } else if d == 0 {
            lemma_small_mod((n - 1) as nat, n as nat);
        } else {
            lemma_mod_self_0(n as int);
        }
    }
    if d == 0 {
        if i == 0 {
            n - 1
        } else {
            i - 1
        }
    } else if d == 1 {
        i
    } else if i + 1 == n {
        0
    } else {
        i + 1
    }
}

impl GameOfLife {
    /// The current board; `cells()[y][x]` is the cell at column `x`, row `y`.
    pub closed spec fn cells(&self) -> Seq<Seq<bool>> {
        self.grid@.map_values(|row: Vec<bool>| row@)
    }

    closed spec fn scratch(&self) -> Seq<Seq<bool>> {
        self.next_grid@.map_values(|row: Vec<bool>| row@)
    }

    pub closed spec fn spec_width(&self) -> int {
        self.width as int
    }

    pub closed spec fn spec_height(&self) -> int {
        self.height as int
    }

    /// Generations since the board was created or last reseeded.
    pub closed spec fn spec_generation(&self) -> nat {
        self.generation_count as nat
    }

    /// Both buffers are `width` x `height` boards, and the board's cell count fits a `usize`.
    pub closed spec fn wf(&self) -> bool {
        &&& is_board(self.cells(), self.width as int, self.height as int)
        &&& is_board(self.scratch(), self.width as int, self.height as int)
        &&& self.width * self.height <= usize::MAX
    }

    /// A `width` x `height` board of dead cells at generation 0.
    pub fn blank(width: usize, height: usize) -> (r: GameOfLife)
        requires
            width * height <= usize::MAX,
        ensures
            r.wf(),
            r.spec_width() == width,
            r.spec_height() == height,
            r.spec_generation() == 0,
            r.cells() == blank_board(width as int, height as int),
    {
        let grid = dead_rows(width, height);
        let next_grid = dead_rows(width, height);
        let r = GameOfLife { grid, next_grid, width, height, generation_count: 0 };
        assert(r.cells() =~= blank_board(width as int, height as int));
        r
    }

    pub fn width(&self) -> (r: usize)
        ensures
            r == self.spec_width(),
    {
        self.width
    }

    pub fn height(&self) -> (r: usize)
        ensures
            r == self.spec_height(),
    {
        self.height
    }

    pub fn generation(&self) -> (r: u64)
        ensures
            r == self.spec_generation(),
    {
        self.generation_count
    }

    /// Whether the cell at column `x`, row `y` is alive.
    pub fn is_alive(&self, x: usize, y: usize) -> (r: bool)
        requires
            self.wf(),
            x < self.spec_width(),
            y < self.spec_height(),
        ensures
            r == self.cells()[y as int][x as int],
    {
        assert(self.grid@[y as int]@ == self.cells()[y as int]);
        self.grid[y][x]
    }

    /// 1 when the neighbour of (x, y) in direction (dx - 1, dy - 1) is alive, else 0.
    fn live_neighbor(&self, x: usize, y: usize, dx: usize, dy: usize) -> (r: usize)
        requires
            self.wf(),
            x < self.spec_width(),
            y < self.spec_height(),
            dx <= 2,
            dy <= 2,
        ensures
            r == live_at(self.cells(), self.spec_width(), self.spec_height(), x as int, y as int, dx - 1, dy - 1),
    {
        let nx = neighbor_index(x, dx, self.width);
        let ny = neighbor_index(y, dy, self.height);
        if self.is_alive(nx, ny) {
            1
        } else {
            0
        }
    }

    /// The number of live cells among the eight neighbours of (x, y), where the
    /// board wraps around at every edge.
    pub fn count_neighbors(&self, x: usize, y: usize) -> (r: usize)
        requires
            self.wf(),
            x < self.spec_width(),
            y < self.spec_height(),
        ensures
            r == neighbor_count(self.cells(), self.spec_width(), self.spec_height(), x as int, y as int),
            r <= 8,
    {
        self.live_neighbor(x, y, 0, 0) + self.live_neighbor(x, y, 1, 0) + self.live_neighbor(x, y, 2, 0)
            + self.live_neighbor(x, y, 0, 1) + self.live_neighbor(x, y, 2, 1)
            + self.live_neighbor(x, y, 0, 2) + self.live_neighbor(x, y, 1, 2) + self.live_neighbor(x, y, 2, 2)
    }

    /// Copies `pattern` into the board with its top-left corner at (x, y). Cells
    /// of the pattern that fall beyond the right or bottom edge are dropped: the
    /// pattern is clipped there, not wrapped.
    pub fn place_pattern(&mut self, x: usize, y: usize, pattern: &Pattern)
        requires
            old(self).wf(),
            pattern.wf(),
        ensures
            final(self).wf(),
            final(self).spec_width() == old(self).spec_width(),
            final(self).spec_height() == old(self).spec_height(),
            final(self).spec_generation() == old(self).spec_generation(),
            final(self).cells() == stamp(old(self).cells(), x as int, y as int, pattern@),
    {
        let ghost g0 = self.cells();
        let ghost p = pattern@;
        let ph = pattern.height();
        let pw = pattern.width();
        let mut dy: usize = 0;
        while dy < ph
            invariant
                self.wf(),
                pattern.wf(),
                p == pattern@,
                ph == p.len(),
                pw == pattern.spec_width(),
                dy <= ph,
                self.width == old(self).width,
                self.height == old(self).height,
                self.generation_count == old(self).generation_count,
                g0.len() == self.height,
                forall|r: int| 0 <= r < self.height ==> #[trigger] g0[r].len() == self.width,
                forall|r: int, c: int|
                    0 <= r < self.height && 0 <= c < self.width ==> #[trigger] self.cells()[r][c]
                        == if covers(x as int, y as int, p, c, r) && r - y < dy {
                        p[r - y][c - x]
                    } else {
                        g0[r][c]
                    },
            decreases ph - dy,
        {
            if y < self.height && dy < self.height - y {
                let r = y + dy;
                let mut dx: usize = 0;
                while dx < pw
                    invariant
                        self.wf(),
                        pattern.wf(),
                        p == pattern@,
                        ph == p.len(),
                        pw == pattern.spec_width(),
                        dy < ph,
                        dx <= pw,
                        r == y + dy,
                        r < self.height,
                        self.width == old(self).width,
                        self.height == old(self).height,
                        self.generation_count == old(self).generation_count,
                        g0.len() == self.height,
                        forall|rr: int| 0 <= rr < self.height ==> #[trigger] g0[rr].len() == self.width,
                        forall|rr: int, c: int|
                            0 <= rr < self.height && 0 <= c < self.width ==> #[trigger] self.cells()[rr][c]
                                == if covers(x as int, y as int, p, c, rr) && (rr - y < dy || rr == r && c - x
                                < dx) {
                                p[rr - y][c - x]
                            } else {
                                g0[rr][c]
                            },
                    decreases pw - dx,
                {
                    if x < self.width && dx < self.width - x {
                        let bit = pattern.cell(dx, dy);
                        let ghost before = self.cells();
                        assert(self.grid@[r as int]@ == before[r as int]);
                        self.grid[r].set(x + dx, bit);
                        assert(self.cells() =~= before.update(
                            r as int,
                            before[r as int].update(x + dx, bit),
                        ));
                    }
                    dx += 1;
                }
            }
            dy += 1;
        }
        assert forall|r: int| 0 <= r < self.height implies #[trigger] self.cells()[r] =~= stamp(
            g0,
            x as int,
            y as int,
            p,
        )[r] by {}
        assert(self.cells() =~= stamp(g0, x as int, y as int, p));
    }

    /// The number of live cells on the board.
    pub fn live_count(&self) -> (r: usize)
        requires
            self.wf(),
        ensures
            r == population(self.cells()),
    {
        let ghost g = self.cells();
        let mut total: usize = 0;
        let mut y: usize = 0;
        while y < self.height
            invariant
                self.wf(),
                g == self.cells(),
                y <= self.height,
                total == population(g.take(y as int)),
                total <= y * self.width,
            decreases self.height - y,
        {
            assert(self.grid@[y as int]@ == g[y as int]);
            let in_row = row_live_count(&self.grid[y]);
            assert((y + 1) * self.width <= self.height * self.width) by (nonlinear_arith)
                requires
                    y < self.height,
            ;
            assert(y * self.width + self.width == (y + 1) * self.width) by (nonlinear_arith);
            assert(g.take(y + 1).drop_last() =~= g.take(y as int));
            total = total + in_row;
            y += 1;
        }
        assert(g.take(y as int) =~= g);
        total
    }

    /// Whether the board still shows interesting dynamics: at least
    /// `MIN_POPULATION` live cells, and at least `PLATEAU_POPULATION` of them once
    /// more than `PLATEAU_AGE` generations have passed.
    pub fn is_active(&self) -> (r: bool)
        requires
            self.wf(),
        ensures
            r == active(population(self.cells()), self.spec_generation()),
    {
        let live = self.live_count();
        if live < MIN_POPULATION {
            return false;
        }
        if self.generation_count > PLATEAU_AGE && live < PLATEAU_POPULATION {
            return false;
        }
        true
    }

    /// Moves the board on by one generation under the B3/S23 rule, computing the
    /// new board in the scratch buffer and then swapping the two buffers.
    pub fn advance(&mut self)
        requires
            old(self).wf(),
            old(self).spec_generation() < u64::MAX,
        ensures
            final(self).wf(),
            final(self).spec_width() == old(self).spec_width(),
            final(self).spec_height() == old(self).spec_height(),
            final(self).spec_generation() == old(self).spec_generation() + 1,
            final(self).cells() == step_board(old(self).cells(), old(self).spec_width(), old(self).spec_height()),
    {
        let ghost g = self.cells();
        let ghost next = step_board(g, self.width as int, self.height as int);
        let mut y: usize = 0;
        while y < self.height
            invariant
                self.wf(),
                g == self.cells(),
                next == step_board(g, self.width as int, self.height as int),
                self.width == old(self).width,
                self.height == old(self).height,
                self.generation_count == old(self).generation_count,
                y <= self.height,
                forall|r: int| 0 <= r < y ==> #[trigger] self.scratch()[r] == next[r],
            decreases self.height - y,
        {
            let mut x: usize = 0;
            while x < self.width
                invariant
                    self.wf(),
                    g == self.cells(),
                    next == step_board(g, self.width as int, self.height as int),
                    self.width == old(self).width,
                    self.height == old(self).height,
                    self.generation_count == old(self).generation_count,
                    y < self.height,
                    x <= self.width,
                    forall|r: int| 0 <= r < y ==> #[trigger] self.scratch()[r] == next[r],
                    forall|c: int| 0 <= c < x ==> #[trigger] self.scratch()[y as int][c] == next[y as int][c],
                decreases self.width - x,
            {
                let neighbors = self.count_neighbors(x, y);
                let alive = self.is_alive(x, y);
                let next_alive = if alive {
                    neighbors == 2 || neighbors == 3
                } else {
                    neighbors == 3
                };
                let ghost before = self.scratch();
                assert(self.next_grid@[y as int]@ == before[y as int]);
                self.next_grid[y].set(x, next_alive);
                assert(self.scratch() =~= before.update(y as int, before[y as int].update(x as int, next_alive)));
                x += 1;
            }
            assert(self.scratch()[y as int] =~= next[y as int]);
            y += 1;
        }
        std::mem::swap(&mut self.grid, &mut self.next_grid);
        self.generation_count = self.generation_count + 1;
        assert(self.cells() =~= next);
    }

    /// Places a 2x2 block with its top-left corner at (x, y), clipped at the edges.
    pub fn add_block(&mut self, x: usize, y: usize)
        requires
            old(self).wf(),
        ensures
            final(self).wf(),
            final(self).spec_width() == old(self).spec_width(),
            final(self).spec_height() == old(self).spec_height(),
            final(self).spec_generation() == old(self).spec_generation(),
            final(self).cells() == stamp(old(self).cells(), x as int, y as int, block_cells()),
    {
        self.place_pattern(x, y, &Pattern::block());
    }

    /// Places a beehive with its top-left corner at (x, y), clipped at the edges.
    pub fn add_beehive(&mut self, x: usize, y: usize)
        requires
            old(self).wf(),
        ensures
            final(self).wf(),
            final(self).spec_width() == old(self).spec_width(),
            final(self).spec_height() == old(self).spec_height(),
            final(self).spec_generation() == old(self).spec_generation(),
            final(self).cells() == stamp(old(self).cells(), x as int, y as int, beehive_cells()),
    {
        self.place_pattern(x, y, &Pattern::beehive());
    }

    /// Places a vertical blinker with its top-left corner at (x, y), clipped at the edges.
    pub fn add_blinker(&mut self, x: usize, y: usize)
        requires
            old(self).wf(),
        ensures
            final(self).wf(),
            final(self).spec_width() == old(self).spec_width(),
            final(self).spec_height() == old(self).spec_height(),
            final(self).spec_generation() == old(self).spec_generation(),
            final(self).cells() == stamp(old(self).cells(), x as int, y as int, blinker_cells()),
    {
        self.place_pattern(x, y, &Pattern::blinker());
    }

    /// Places a toad with its top-left corner at (x, y), clipped at the edges.
    pub fn add_toad(&mut self, x: usize, y: usize)
        requires
            old(self).wf(),
        ensures
            final(self).wf(),
            final(self).spec_width() == old(self).spec_width(),
            final(self).spec_height() == old(self).spec_height(),
            final(self).spec_generation() == old(self).spec_generation(),
            final(self).cells() == stamp(old(self).cells(), x as int, y as int, toad_cells()),
    {
        self.place_pattern(x, y, &Pattern::toad());
    }

    /// Places a beacon with its top-left corner at (x, y), clipped at the edges.
    pub fn add_beacon(&mut self, x: usize, y: usize)
        requires
            old(self).wf(),
        ensures
            final(self).wf(),
            final(self).spec_width() == old(self).spec_width(),
            final(self).spec_height() == old(self).spec_height(),
            final(self).spec_generation() == old(self).spec_generation(),
            final(self).cells() == stamp(old(self).cells(), x as int, y as int, beacon_cells()),
    {
        self.place_pattern(x, y, &Pattern::beacon());
    }

    /// Places a pulsar with its top-left corner at (x, y), clipped at the edges.
    pub fn add_pulsar(&mut self, x: usize, y: usize)
        requires
            old(self).wf(),
        ensures
            final(self).wf(),
            final(self).spec_width() == old(self).spec_width(),
            final(self).spec_height() == old(self).spec_height(),
            final(self).spec_generation() == old(self).spec_generation(),
            final(self).cells() == stamp(old(self).cells(), x as int, y as int, pulsar_cells()),
    {
        self.place_pattern(x, y, &Pattern::pulsar());
    }

    /// Places a glider with its top-left corner at (x, y), clipped at the edges.
    pub fn add_glider(&mut self, x: usize, y: usize)
        requires
            old(self).wf(),
        ensures
            final(self).wf(),
            final(self).spec_width() == old(self).spec_width(),
            final(self).spec_height() == old(self).spec_height(),
            final(self).spec_generation() == old(self).spec_generation(),
            final(self).cells() == stamp(old(self).cells(), x as int, y as int, glider_cells()),
    {
        self.place_pattern(x, y, &Pattern::glider());
    }

    /// Places a lightweight spaceship with its top-left corner at (x, y), clipped at the edges.
    pub fn add_lightweight_spaceship(&mut self, x: usize, y: usize)
        requires
            old(self).wf(),
        ensures
            final(self).wf(),
            final(self).spec_width() == old(self).spec_width(),
            final(self).spec_height() == old(self).spec_height(),
            final(self).spec_generation() == old(self).spec_generation(),
            final(self).cells() == stamp(old(self).cells(), x as int, y as int, lightweight_spaceship_cells()),
    {
        self.place_pattern(x, y, &Pattern::lightweight_spaceship());
    }

    /// Places a middleweight spaceship with its top-left corner at (x, y), clipped at the edges.
    pub fn add_middleweight_spaceship(&mut self, x: usize, y: usize)
        requires
            old(self).wf(),
        ensures
            final(self).wf(),
            final(self).spec_width() == old(self).spec_width(),
            final(self).spec_height() == old(self).spec_height(),
            final(self).spec_generation() == old(self).spec_generation(),
            final(self).cells() == stamp(old(self).cells(), x as int, y as int, middleweight_spaceship_cells()),
    {
        self.place_pattern(x, y, &Pattern::middleweight_spaceship());
    }

    /// Places a heavyweight spaceship with its top-left corner at (x, y), clipped at the edges.
    pub fn add_heavyweight_spaceship(&mut self, x: usize, y: usize)
        requires
            old(self).wf(),
        ensures
            final(self).wf(),
            final(self).spec_width() == old(self).spec_width(),
            final(self).spec_height() == old(self).spec_height(),
            final(self).spec_generation() == old(self).spec_generation(),
            final(self).cells() == stamp(old(self).cells(), x as int, y as int, heavyweight_spaceship_cells()),
    {
        self.place_pattern(x, y, &Pattern::heavyweight_spaceship());
    }

    /// Places a pentadecathlon with its top-left corner at (x, y), clipped at the edges.
    pub fn add_pentadecathlon(&mut self, x: usize, y: usize)
        requires
            old(self).wf(),
        ensures
            final(self).wf(),
            final(self).spec_width() == old(self).spec_width(),
            final(self).spec_height() == old(self).spec_height(),
            final(self).spec_generation() == old(self).spec_generation(),
            final(self).cells() == stamp(old(self).cells(), x as int, y as int, pentadecathlon_cells()),
    {
        self.place_pattern(x, y, &Pattern::pentadecathlon());
    }

    /// Places a Gosper glider gun with its top-left corner at (x, y), clipped at the edges.
    pub fn add_gosper_glider_gun(&mut self, x: usize, y: usize)
        requires
            old(self).wf(),
        ensures
            final(self).wf(),
            final(self).spec_width() == old(self).spec_width(),
            final(self).spec_height() == old(self).spec_height(),
            final(self).spec_generation() == old(self).spec_generation(),
            final(self).cells() == stamp(old(self).cells(), x as int, y as int, gosper_glider_gun_cells()),
    {
        self.place_pattern(x, y, &Pattern::gosper_glider_gun());
    }

    /// Fills the `width` x `height` rectangle at (x, y), clipped at the edges,
    /// with a random soup.
    pub fn add_random_soup(&mut self, x: usize, y: usize, width: usize, height: usize)
        requires
            old(self).wf(),
        ensures
            final(self).wf(),
            final(self).spec_width() == old(self).spec_width(),
            final(self).spec_height() == old(self).spec_height(),
            final(self).spec_generation() == old(self).spec_generation(),
            exists|soup: Seq<Seq<bool>>|
                is_board(soup, width as int, height as int) && final(self).cells() == stamp(
                    old(self).cells(),
                    x as int,
                    y as int,
                    soup,
                ),
    {
        let soup = Pattern::random_soup(width, height);
        self.place_pattern(x, y, &soup);
    }

    /// Places each pattern of `placements` in turn, first to last.
    pub fn place_all(&mut self, placements: &Vec<Placement>)
        requires
            old(self).wf(),
            placements_wf(placements@),
        ensures
            final(self).wf(),
            final(self).spec_width() == old(self).spec_width(),
            final(self).spec_height() == old(self).spec_height(),
            final(self).spec_generation() == old(self).spec_generation(),
            final(self).cells() == stamp_all(old(self).cells(), placements_view(placements@)),
    {
        let ghost g0 = self.cells();
        let ghost s = placements_view(placements@);
        let mut i: usize = 0;
        while i < placements.len()
            invariant
                self.wf(),
                placements_wf(placements@),
                s == placements_view(placements@),
                i <= placements@.len(),
                self.width == old(self).width,
                self.height == old(self).height,
                self.generation_count == old(self).generation_count,
                self.cells() == stamp_all(g0, s.take(i as int)),
            decreases placements@.len() - i,
        {
            let placement = &placements[i];
            assert(placements@[i as int].pattern.wf());
            self.place_pattern(placement.x, placement.y, &placement.pattern);
            assert(s.take(i + 1).drop_last() =~= s.take(i as int));
            i += 1;
        }
        assert(s.take(i as int) =~= s);
    }

    /// Kills every cell and puts the generation counter back to 0.
    fn clear(&mut self)
        requires
            old(self).wf(),
        ensures
            final(self).wf(),
            final(self).spec_width() == old(self).spec_width(),
            final(self).spec_height() == old(self).spec_height(),
            final(self).spec_generation() == 0,
            final(self).cells() == blank_board(old(self).spec_width(), old(self).spec_height()),
    {
        let mut y: usize = 0;
        while y < self.height
            invariant
                self.wf(),
                self.width == old(self).width,
                self.height == old(self).height,
                y <= self.height,
                forall|r: int, c: int| 0 <= r < y && 0 <= c < self.width ==> !#[trigger] self.cells()[r][c],
            decreases self.height - y,
        {
            let mut x: usize = 0;
            while x < self.width
                invariant
                    self.wf(),
                    self.width == old(self).width,
                    self.height == old(self).height,
                    y < self.height,
                    x <= self.width,
                    forall|r: int, c: int|
                        0 <= r < self.height && 0 <= c < self.width && (r < y || r == y && c < x)
                            ==> !#[trigger] self.cells()[r][c],
                decreases self.width - x,
            {
                let ghost before = self.cells();
                assert(self.grid@[y as int]@ == before[y as int]);
                self.grid[y].set(x, false);
                assert(self.cells() =~= before.update(y as int, before[y as int].update(x as int, false)));
                x += 1;
            }
            y += 1;
        }
        self.generation_count = 0;
        assert forall|r: int| 0 <= r < self.height implies #[trigger] self.cells()[r] =~= blank_board(
            self.width as int,
            self.height as int,
        )[r] by {}
        assert(self.cells() =~= blank_board(self.width as int, self.height as int));
    }

    /// Clears the board, puts the generation counter back to 0, and places
    /// `placements` in turn on the empty board.
    pub fn reseed_with(&mut self, placements: &Vec<Placement>)
        requires
            old(self).wf(),
            placements_wf(placements@),
        ensures
            final(self).wf(),
            final(self).spec_width() == old(self).spec_width(),
            final(self).spec_height() == old(self).spec_height(),
            final(self).spec_generation() == 0,
            final(self).cells() == stamp_all(
                blank_board(old(self).spec_width(), old(self).spec_height()),
                placements_view(placements@),
            ),
    {
        self.clear();
        self.place_all(placements);
    }

    /// Leaves an active board alone; reseeds a quiet one with a freshly drawn
    /// layout of guns, gliders, spaceships and soups, at generation 0.
    pub fn reset(&mut self)
        requires
            old(self).wf(),
        ensures
            final(self).wf(),
            final(self).spec_width() == old(self).spec_width(),
            final(self).spec_height() == old(self).spec_height(),
            active(population(old(self).cells()), old(self).spec_generation()) ==> {
                &&& final(self).cells() == old(self).cells()
                &&& final(self).spec_generation() == old(self).spec_generation()
            },
            !active(population(old(self).cells()), old(self).spec_generation()) ==> {
                &&& final(self).spec_generation() == 0
                &&& exists|s: Seq<(int, int, Seq<Seq<bool>>)>|
                    is_reseed_layout(s) && final(self).cells() == stamp_all(
                        blank_board(old(self).spec_width(), old(self).spec_height()),
                        s,
                    )
            },
    {
        if !self.is_active() {
            let placements = reseed_placements();
            self.reseed_with(&placements);
        }
    }

    /// One tick of the simulation: moves the board on by one generation, then
    /// reseeds it if it has gone quiet.
    pub fn update(&mut self)
        requires
            old(self).wf(),
            old(self).spec_generation() < u64::MAX,
        ensures
            final(self).wf(),
            final(self).spec_width() == old(self).spec_width(),
            final(self).spec_height() == old(self).spec_height(),
            ({
                let next = step_board(old(self).cells(), old(self).spec_width(), old(self).spec_height());
                &&& active(population(next), (old(self).spec_generation() + 1) as nat) ==> {
                    &&& final(self).cells() == next
                    &&& final(self).spec_generation() == old(self).spec_generation() + 1
                }
                &&& !active(population(next), (old(self).spec_generation() + 1) as nat) ==> {
                    &&& final(self).spec_generation() == 0
                    &&& exists|s: Seq<(int, int, Seq<Seq<bool>>)>|
                        is_reseed_layout(s) && final(self).cells() == stamp_all(
                            blank_board(old(self).spec_width(), old(self).spec_height()),
                            s,
                        )
                }
            }),
    {
        self.advance();
        self.reset();
    }

    /// A `width` x `height` board at generation 0, seeded with the starting
    /// layout.
    pub fn new(width: usize, height: usize) -> (r: GameOfLife)
        requires
            width * height <= usize::MAX,
        ensures
            r.wf(),
            r.spec_width() == width,
            r.spec_height() == height,
            r.spec_generation() == 0,
            exists|soups: Seq<Seq<Seq<bool>>>|
                initial_soups(soups) && r.cells() == stamp_all(
                    blank_board(width as int, height as int),
                    initial_layout(soups),
                ),
    {
        let mut game = GameOfLife::blank(width, height);
        game.initialize_patterns();
        game
    }

    /// Places the starting layout on the board.
    fn initialize_patterns(&mut self)
        requires
            old(self).wf(),
        ensures
            final(self).wf(),
            final(self).spec_width() == old(self).spec_width(),
            final(self).spec_height() == old(self).spec_height(),
            final(self).spec_generation() == old(self).spec_generation(),
            exists|soups: Seq<Seq<Seq<bool>>>|
                initial_soups(soups) && final(self).cells() == stamp_all(old(self).cells(), initial_layout(soups)),
    {
        let placements = initial_placements();
        self.place_all(&placements);
        let ghost soups = seq![placements@[17].pattern@, placements@[18].pattern@, placements@[19].pattern@];
        assert(initial_soups(soups));
    }
}

/// `height` rows of `width` dead cells.
fn dead_rows(width: usize, height: usize) -> (r: Vec<Vec<bool>>)
    ensures
        r@.map_values(|row: Vec<bool>| row@) == blank_board(width as int, height as int),
{
    let mut rows: Vec<Vec<bool>> = Vec::new();
    let mut y: usize = 0;
    while y < height
        invariant
            y <= height,
            rows@.len() == y,
            forall|k: int| 0 <= k < y ==> (#[trigger] rows@[k])@ == Seq::new(width as nat, |x: int| false),
        decreases height - y,
    {
        let mut row: Vec<bool> = Vec::new();
        let mut x: usize = 0;
        while x < width
            invariant
                x <= width,
                row@ == Seq::new(x as nat, |i: int| false),
            decreases width - x,
        {
            row.push(false);
            x += 1;
            assert(row@ =~= Seq::new(x as nat, |i: int| false));
        }
        rows.push(row);
        y += 1;
    }
    assert(rows@.map_values(|row: Vec<bool>| row@) =~= blank_board(width as int, height as int));
    rows
}


/// The number of live cells in `row`.
fn row_live_count(row: &Vec<bool>) -> (r: usize)
    ensures
        r == row_population(row@),
        r <= row@.len(),
{
    let mut count: usize = 0;
    let mut i: usize = 0;
    while i < row.len()
        invariant
            i <= row@.len(),
            count <= i,
            count == row_population(row@.take(i as int)),
        decreases row@.len() - i,
    {
        assert(row@.take(i + 1).drop_last() =~= row@.take(i as int));
        if row[i] {
            count += 1;
        }
        i += 1;
    }
    assert(row@.take(i as int) =~= row@);
    count
}

} // verus!
