//! Where patterns go: the starting layout of a new board, and the random layout
//! that a quiet board is reseeded with.
use crate::chance::{random_in, thread_rng};
use rand::rngs::ThreadRng;
use crate::pattern::{
    beehive_cells, blinker_cells, block_cells, glider_cells, gosper_glider_gun_cells,
    heavyweight_spaceship_cells, lightweight_spaceship_cells, middleweight_spaceship_cells,
    pentadecathlon_cells, pulsar_cells, Pattern,
};
use crate::rules::is_board;
use vstd::prelude::*;

verus! {

/// A pattern together with the board position of its top-left corner.
pub struct Placement {
    pub x: usize,
    pub y: usize,
    pub pattern: Pattern,
}

impl View for Placement {
    type V = (int, int, Seq<Seq<bool>>);

    open spec fn view(&self) -> (int, int, Seq<Seq<bool>>) {
        (self.x as int, self.y as int, self.pattern@)
    }
}

/// The placements of `v` as (x, y, cells) triples.
pub open spec fn placements_view(v: Seq<Placement>) -> Seq<(int, int, Seq<Seq<bool>>)> {
    v.map_values(|p: Placement| p@)
}

/// Every pattern in `v` is well formed.
pub open spec fn placements_wf(v: Seq<Placement>) -> bool {
    forall|i: int| 0 <= i < v.len() ==> (#[trigger] v[i]).pattern.wf()
}

/// The starting layout, with `soups` as the cells of its three random soups:
/// two guns, eight gliders, three spaceships, four oscillators, three soups,
/// four blinkers and two still lifes, placed in this order.
pub open spec fn initial_layout(soups: Seq<Seq<Seq<bool>>>) -> Seq<(int, int, Seq<Seq<bool>>)> {
    seq![
        (15, 15, gosper_glider_gun_cells()),
        (85, 85, gosper_glider_gun_cells()),
        (5, 5, glider_cells()),
        (140, 140, glider_cells()),
        (5, 140, glider_cells()),
        (140, 5, glider_cells()),
        (75, 10, glider_cells()),
        (10, 75, glider_cells()),
        (140, 75, glider_cells()),
        (75, 140, glider_cells()),
        (55, 15, lightweight_spaceship_cells()),
        (15, 80, middleweight_spaceship_cells()),
        (115, 45, heavyweight_spaceship_cells()),
        (45, 45, pulsar_cells()),
        (105, 105, pulsar_cells()),
        (70, 25, pentadecathlon_cells()),
        (25, 105, pentadecathlon_cells()),
        (60, 20, soups[0]),
        (20, 90, soups[1]),
        (95, 60, soups[2]),
        (30, 30, blinker_cells()),
        (120, 120, blinker_cells()),
        (30, 120, blinker_cells()),
        (120, 30, blinker_cells()),
        (3, 3, block_cells()),
        (145, 145, beehive_cells()),
    ]
}

/// The side of each random soup of the starting layout.
pub const INITIAL_SOUP_SIZE: usize = 25;

/// The side of each random soup of a reseeded layout.
pub const RESEED_SOUP_SIZE: usize = 20;

/// `soups` holds three square soups of side `INITIAL_SOUP_SIZE`.
pub open spec fn initial_soups(soups: Seq<Seq<Seq<bool>>>) -> bool {
    &&& soups.len() == 3
    &&& forall|i: int|
        0 <= i < 3 ==> is_board(#[trigger] soups[i], INITIAL_SOUP_SIZE as int, INITIAL_SOUP_SIZE as int)
}

/// The starting layout, with freshly drawn soups.
pub fn initial_placements() -> (r: Vec<Placement>)
    ensures
        placements_wf(r@),
        initial_soups(seq![r@[17].pattern@, r@[18].pattern@, r@[19].pattern@]),
        placements_view(r@) == initial_layout(seq![r@[17].pattern@, r@[18].pattern@, r@[19].pattern@]),
{
    let r = vec![
        Placement { x: 15, y: 15, pattern: Pattern::gosper_glider_gun() },
        Placement { x: 85, y: 85, pattern: Pattern::gosper_glider_gun() },
        Placement { x: 5, y: 5, pattern: Pattern::glider() },
        Placement { x: 140, y: 140, pattern: Pattern::glider() },
        Placement { x: 5, y: 140, pattern: Pattern::glider() },
        Placement { x: 140, y: 5, pattern: Pattern::glider() },
        Placement { x: 75, y: 10, pattern: Pattern::glider() },
        Placement { x: 10, y: 75, pattern: Pattern::glider() },
        Placement { x: 140, y: 75, pattern: Pattern::glider() },
        Placement { x: 75, y: 140, pattern: Pattern::glider() },
        Placement { x: 55, y: 15, pattern: Pattern::lightweight_spaceship() },
        Placement { x: 15, y: 80, pattern: Pattern::middleweight_spaceship() },
        Placement { x: 115, y: 45, pattern: Pattern::heavyweight_spaceship() },
        Placement { x: 45, y: 45, pattern: Pattern::pulsar() },
        Placement { x: 105, y: 105, pattern: Pattern::pulsar() },
        Placement { x: 70, y: 25, pattern: Pattern::pentadecathlon() },
        Placement { x: 25, y: 105, pattern: Pattern::pentadecathlon() },
        Placement { x: 60, y: 20, pattern: Pattern::random_soup(INITIAL_SOUP_SIZE, INITIAL_SOUP_SIZE) },
        Placement { x: 20, y: 90, pattern: Pattern::random_soup(INITIAL_SOUP_SIZE, INITIAL_SOUP_SIZE) },
        Placement { x: 95, y: 60, pattern: Pattern::random_soup(INITIAL_SOUP_SIZE, INITIAL_SOUP_SIZE) },
        Placement { x: 30, y: 30, pattern: Pattern::blinker() },
        Placement { x: 120, y: 120, pattern: Pattern::blinker() },
        Placement { x: 30, y: 120, pattern: Pattern::blinker() },
        Placement { x: 120, y: 30, pattern: Pattern::blinker() },
        Placement { x: 3, y: 3, pattern: Pattern::block() },
        Placement { x: 145, y: 145, pattern: Pattern::beehive() },
    ];
    let ghost soups = seq![r@[17].pattern@, r@[18].pattern@, r@[19].pattern@];
    assert(placements_view(r@) =~= initial_layout(soups));
    r
}

/// Both coordinates of placement `p` lie in `lo..hi`.
pub open spec fn placed_within(p: (int, int, Seq<Seq<bool>>), lo: int, hi: int) -> bool {
    lo <= p.0 < hi && lo <= p.1 < hi
}

/// `cells` is one of the three spaceships.
pub open spec fn is_spaceship(cells: Seq<Seq<bool>>) -> bool {
    ||| cells == lightweight_spaceship_cells()
    ||| cells == middleweight_spaceship_cells()
    ||| cells == heavyweight_spaceship_cells()
}

/// `s` is a layout that a quiet board may be reseeded with: a gun near the top
/// left and one near the bottom right, six gliders, three spaceships and four
/// square soups of side `RESEED_SOUP_SIZE`, placed in this order.
pub open spec fn is_reseed_layout(s: Seq<(int, int, Seq<Seq<bool>>)>) -> bool {
    &&& s.len() == 15
    &&& placed_within(s[0], 10, 35) && s[0].2 == gosper_glider_gun_cells()
    &&& placed_within(s[1], 100, 135) && s[1].2 == gosper_glider_gun_cells()
    &&& forall|i: int| 2 <= i < 8 ==> placed_within(#[trigger] s[i], 10, 140) && s[i].2 == glider_cells()
    &&& forall|i: int| 8 <= i < 11 ==> placed_within(#[trigger] s[i], 15, 120) && is_spaceship(s[i].2)
    &&& forall|i: int|
        11 <= i < 15 ==> placed_within(#[trigger] s[i], 15, 110) && is_board(
            s[i].2,
            RESEED_SOUP_SIZE as int,
            RESEED_SOUP_SIZE as int,
        )
}

/// `pattern` at a position drawn uniformly from `lo..hi` on each axis.
fn place_randomly(rng: &mut ThreadRng, pattern: Pattern, lo: usize, hi: usize) -> (r: Placement)
    requires
        lo < hi,
    ensures
        r.pattern == pattern,
        placed_within(r@, lo as int, hi as int),
{
    let x = random_in(rng, lo, hi);
    let y = random_in(rng, lo, hi);
    Placement { x, y, pattern }
}

/// One of the three spaceships, each with chance one in three.
fn random_spaceship(rng: &mut ThreadRng) -> (r: Pattern)
    ensures
        r.wf(),
        is_spaceship(r@),
{
    match random_in(rng, 0, 3) {
        0 => Pattern::lightweight_spaceship(),
        1 => Pattern::middleweight_spaceship(),
        _ => Pattern::heavyweight_spaceship(),
    }
}

/// A freshly drawn reseeding layout.
pub fn reseed_placements() -> (r: Vec<Placement>)
    ensures
        placements_wf(r@),
        is_reseed_layout(placements_view(r@)),
{
    let mut rng = thread_rng();
    let mut r: Vec<Placement> = Vec::new();
    r.push(place_randomly(&mut rng, Pattern::gosper_glider_gun(), 10, 35));
    r.push(place_randomly(&mut rng, Pattern::gosper_glider_gun(), 100, 135));
    let mut k: usize = 0;
    while k < 6
        invariant
            k <= 6,
            r@.len() == 2 + k,
            placements_wf(r@),
            placed_within(r@[0]@, 10, 35) && r@[0].pattern@ == gosper_glider_gun_cells(),
            placed_within(r@[1]@, 100, 135) && r@[1].pattern@ == gosper_glider_gun_cells(),
            forall|i: int|
                2 <= i < r@.len() ==> placed_within((#[trigger] r@[i])@, 10, 140) && r@[i].pattern@
                    == glider_cells(),
        decreases 6 - k,
    {
        r.push(place_randomly(&mut rng, Pattern::glider(), 10, 140));
        k += 1;
    }
    k = 0;
    while k < 3
        invariant
            k <= 3,
            r@.len() == 8 + k,
            placements_wf(r@),
            placed_within(r@[0]@, 10, 35) && r@[0].pattern@ == gosper_glider_gun_cells(),
            placed_within(r@[1]@, 100, 135) && r@[1].pattern@ == gosper_glider_gun_cells(),
            forall|i: int|
                2 <= i < 8 ==> placed_within((#[trigger] r@[i])@, 10, 140) && r@[i].pattern@ == glider_cells(),
            forall|i: int|
                8 <= i < r@.len() ==> placed_within((#[trigger] r@[i])@, 15, 120) && is_spaceship(
                    r@[i].pattern@,
                ),
        decreases 3 - k,
    {
        let x = random_in(&mut rng, 15, 120);
        let y = random_in(&mut rng, 15, 120);
        let ship = random_spaceship(&mut rng);
        r.push(Placement { x, y, pattern: ship });
        k += 1;
    }
    k = 0;
    while k < 4
        invariant
            k <= 4,
            r@.len() == 11 + k,
            placements_wf(r@),
            placed_within(r@[0]@, 10, 35) && r@[0].pattern@ == gosper_glider_gun_cells(),
            placed_within(r@[1]@, 100, 135) && r@[1].pattern@ == gosper_glider_gun_cells(),
            forall|i: int|
                2 <= i < 8 ==> placed_within((#[trigger] r@[i])@, 10, 140) && r@[i].pattern@ == glider_cells(),
            forall|i: int|
                8 <= i < 11 ==> placed_within((#[trigger] r@[i])@, 15, 120) && is_spaceship(r@[i].pattern@),
            forall|i: int|
                11 <= i < r@.len() ==> placed_within((#[trigger] r@[i])@, 15, 110) && is_board(
                    r@[i].pattern@,
                    RESEED_SOUP_SIZE as int,
                    RESEED_SOUP_SIZE as int,
                ),
        decreases 4 - k,
    {
        r.push(place_randomly(&mut rng, Pattern::random_soup(RESEED_SOUP_SIZE, RESEED_SOUP_SIZE), 15, 110));
        k += 1;
    }
    let ghost s = placements_view(r@);
    assert forall|i: int| 0 <= i < 15 implies #[trigger] s[i] == r@[i]@ by {}
    r
}

} // verus!
