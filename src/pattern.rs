//! Rectangular bit-matrices, the catalogue of classic patterns, and random soups.
use crate::chance::{random_ratio, thread_rng};
use crate::rules::is_board;
use vstd::prelude::*;

verus! {

/// Whether column `col` of a row of `width` cells is alive, when the row is
/// written as a binary number whose highest of `width` bits is column 0.
pub open spec fn mask_bit(mask: u64, width: int, col: int) -> bool {
    (mask >> ((width - 1 - col) as u64)) & 1u64 == 1u64
}

/// The rows of `width` cells that the binary numbers `masks` spell, one per row.
pub open spec fn mask_rows(width: int, masks: Seq<u64>) -> Seq<Seq<bool>> {
    Seq::new(masks.len(), |r: int| Seq::new(width as nat, |c: int| mask_bit(masks[r], width, c)))
}

/// The cells of `Pattern::glider`.
pub open spec fn glider_cells() -> Seq<Seq<bool>> {
    mask_rows(3, seq![0b010, 0b001, 0b111])
}

/// The cells of `Pattern::block`.
pub open spec fn block_cells() -> Seq<Seq<bool>> {
    mask_rows(2, seq![0b11, 0b11])
}

/// The cells of `Pattern::beehive`.
pub open spec fn beehive_cells() -> Seq<Seq<bool>> {
    mask_rows(4, seq![0b0110, 0b1001, 0b0110])
}

/// The cells of `Pattern::blinker`.
pub open spec fn blinker_cells() -> Seq<Seq<bool>> {
    mask_rows(1, seq![0b1, 0b1, 0b1])
}

/// The cells of `Pattern::toad`.
pub open spec fn toad_cells() -> Seq<Seq<bool>> {
    mask_rows(4, seq![0b0111, 0b1110])
}

/// The cells of `Pattern::beacon`.
pub open spec fn beacon_cells() -> Seq<Seq<bool>> {
    mask_rows(4, seq![0b1100, 0b1100, 0b0011, 0b0011])
}

/// The cells of `Pattern::pulsar`.
pub open spec fn pulsar_cells() -> Seq<Seq<bool>> {
    mask_rows(
        13,
        seq![
            0b0011100011100,
            0b0000000000000,
            0b1000010100001,
            0b1000010100001,
            0b1000010100001,
            0b0011100011100,
            0b0000000000000,
            0b0011100011100,
            0b1000010100001,
            0b1000010100001,
            0b1000010100001,
            0b0000000000000,
            0b0011100011100,
        ],
    )
}

/// The cells of `Pattern::lightweight_spaceship`.
pub open spec fn lightweight_spaceship_cells() -> Seq<Seq<bool>> {
    mask_rows(5, seq![0b10010, 0b00001, 0b10001, 0b01111])
}

/// The cells of `Pattern::middleweight_spaceship`.
pub open spec fn middleweight_spaceship_cells() -> Seq<Seq<bool>> {
    mask_rows(6, seq![0b000100, 0b100001, 0b000001, 0b100010, 0b011111])
}

/// The cells of `Pattern::heavyweight_spaceship`.
pub open spec fn heavyweight_spaceship_cells() -> Seq<Seq<bool>> {
    mask_rows(
        7,
        seq![
            0b0001100,
            0b1000001,
            0b0000001,
            0b1000010,
            0b0111111,
        ],
    )
}

/// The cells of `Pattern::pentadecathlon`.
pub open spec fn pentadecathlon_cells() -> Seq<Seq<bool>> {
    mask_rows(10, seq![0b0010000100, 0b1101111011, 0b0010000100])
}

/// The cells of `Pattern::gosper_glider_gun`.
pub open spec fn gosper_glider_gun_cells() -> Seq<Seq<bool>> {
    mask_rows(
        36,
        seq![
            0b000000000000000000000000100000000000,
            0b000000000000000000000010100000000000,
            0b000000000000110000001100000000000011,
            0b000000000001000100001100000000000011,
            0b110000000010000010001100000000000000,
            0b110000000010001011000010100000000000,
            0b000000000010000010000000100000000000,
            0b000000000001000100000000000000000000,
            0b000000000000110000000000000000000000,
        ],
    )
}

/// The chance, in percent, that a cell of a random soup is alive.
pub const SOUP_DENSITY_PERCENT: u32 = 35;

/// A rectangle of cells, stored row by row.
pub struct Pattern {
    width: usize,
    rows: Vec<Vec<bool>>,
}

impl View for Pattern {
    type V = Seq<Seq<bool>>;

    /// The rows of the pattern, top to bottom; `self@[r][c]` is the cell at row `r`, column `c`.
    closed spec fn view(&self) -> Seq<Seq<bool>> {
        self.rows@.map_values(|row: Vec<bool>| row@)
    }
}

impl Pattern {
    /// The number of cells in each row.
    pub closed spec fn spec_width(&self) -> nat {
        self.width as nat
    }

    /// Every row has `spec_width()` cells.
    pub open spec fn wf(&self) -> bool {
        is_board(self@, self.spec_width() as int, self@.len() as int)
    }

    pub fn width(&self) -> (r: usize)
        ensures
            r == self.spec_width(),
    {
        self.width
    }

    pub fn height(&self) -> (r: usize)
        ensures
            r == self@.len(),
    {
        self.rows.len()
    }

    /// Whether the cell at column `col` of row `row` is alive.
    pub fn cell(&self, col: usize, row: usize) -> (r: bool)
        requires
            self.wf(),
            row < self@.len(),
            col < self.spec_width(),
        ensures
            r == self@[row as int][col as int],
    {
        assert(self.rows@[row as int]@ == self@[row as int]);
        self.rows[row][col]
    }

    /// The pattern whose rows are the binary numbers `masks`, each `width` bits
    /// wide, leftmost column in the highest bit.
    pub fn from_masks(width: usize, masks: &Vec<u64>) -> (r: Pattern)
        requires
            width <= 64,
        ensures
            r.wf(),
            r.spec_width() == width,
            r@ == mask_rows(width as int, masks@),
    {
        let mut rows: Vec<Vec<bool>> = Vec::new();
        let mut i: usize = 0;
        while i < masks.len()
            invariant
                width <= 64,
                i <= masks@.len(),
                rows@.len() == i,
                forall|r: int| 0 <= r < i ==> #[trigger] rows@[r]@ == mask_rows(width as int, masks@)[r],
            decreases masks@.len() - i,
        {
            let mask = masks[i];
            let mut row: Vec<bool> = Vec::new();
            let mut c: usize = 0;
            while c < width
                invariant
                    width <= 64,
                    c <= width,
                    row@.len() == c,
                    forall|k: int| 0 <= k < c ==> #[trigger] row@[k] == mask_bit(mask, width as int, k),
                decreases width - c,
            {
                row.push((mask >> ((width - 1 - c) as u64)) & 1u64 == 1u64);
                c += 1;
            }
            assert(row@ =~= mask_rows(width as int, masks@)[i as int]);
            rows.push(row);
            i += 1;
        }
        let r = Pattern { width, rows };
        assert(r@ =~= mask_rows(width as int, masks@));
        r
    }

    /// A 3x3 glider, travelling one cell diagonally every four generations.
    pub fn glider() -> (r: Pattern)
        ensures
            r.wf(),
            r.spec_width() == 3,
            r@ == glider_cells(),
    {
        Pattern::from_masks(3, &vec![0b010, 0b001, 0b111])
    }

    /// A 2x2 block, a still life.
    pub fn block() -> (r: Pattern)
        ensures
            r.wf(),
            r.spec_width() == 2,
            r@ == block_cells(),
    {
        Pattern::from_masks(2, &vec![0b11, 0b11])
    }

    /// A 4x3 beehive, a still life.
    pub fn beehive() -> (r: Pattern)
        ensures
            r.wf(),
            r.spec_width() == 4,
            r@ == beehive_cells(),
    {
        Pattern::from_masks(4, &vec![0b0110, 0b1001, 0b0110])
    }

    /// A vertical blinker of three cells, an oscillator of period 2.
    pub fn blinker() -> (r: Pattern)
        ensures
            r.wf(),
            r.spec_width() == 1,
            r@ == blinker_cells(),
    {
        Pattern::from_masks(1, &vec![0b1, 0b1, 0b1])
    }

    /// A 4x2 toad, an oscillator of period 2.
    pub fn toad() -> (r: Pattern)
        ensures
            r.wf(),
            r.spec_width() == 4,
            r@ == toad_cells(),
    {
        Pattern::from_masks(4, &vec![0b0111, 0b1110])
    }

    /// A 4x4 beacon, an oscillator of period 2.
    pub fn beacon() -> (r: Pattern)
        ensures
            r.wf(),
            r.spec_width() == 4,
            r@ == beacon_cells(),
    {
        Pattern::from_masks(4, &vec![0b1100, 0b1100, 0b0011, 0b0011])
    }

    /// A 13x13 pulsar, an oscillator of period 3.
    pub fn pulsar() -> (r: Pattern)
        ensures
            r.wf(),
            r.spec_width() == 13,
            r@ == pulsar_cells(),
    {
        Pattern::from_masks(
            13,
            &vec![
                0b0011100011100,
                0b0000000000000,
                0b1000010100001,
                0b1000010100001,
                0b1000010100001,
                0b0011100011100,
                0b0000000000000,
                0b0011100011100,
                0b1000010100001,
                0b1000010100001,
                0b1000010100001,
                0b0000000000000,
                0b0011100011100,
            ],
        )
    }

    /// A 5x4 lightweight spaceship.
    pub fn lightweight_spaceship() -> (r: Pattern)
        ensures
            r.wf(),
            r.spec_width() == 5,
            r@ == lightweight_spaceship_cells(),
    {
        Pattern::from_masks(5, &vec![0b10010, 0b00001, 0b10001, 0b01111])
    }

    /// A 6x5 middleweight spaceship.
    pub fn middleweight_spaceship() -> (r: Pattern)
        ensures
            r.wf(),
            r.spec_width() == 6,
            r@ == middleweight_spaceship_cells(),
    {
        Pattern::from_masks(6, &vec![0b000100, 0b100001, 0b000001, 0b100010, 0b011111])
    }

    /// A 7x5 heavyweight spaceship.
    pub fn heavyweight_spaceship() -> (r: Pattern)
        ensures
            r.wf(),
            r.spec_width() == 7,
            r@ == heavyweight_spaceship_cells(),
    {
        Pattern::from_masks(
            7,
            &vec![
                0b0001100,
                0b1000001,
                0b0000001,
                0b1000010,
                0b0111111,
            ],
        )
    }

    /// A 10x3 pentadecathlon, an oscillator of period 15.
    pub fn pentadecathlon() -> (r: Pattern)
        ensures
            r.wf(),
            r.spec_width() == 10,
            r@ == pentadecathlon_cells(),
    {
        Pattern::from_masks(10, &vec![0b0010000100, 0b1101111011, 0b0010000100])
    }

    /// A 36x9 Gosper glider gun, which emits a glider every 30 generations.
    pub fn gosper_glider_gun() -> (r: Pattern)
        ensures
            r.wf(),
            r.spec_width() == 36,
            r@ == gosper_glider_gun_cells(),
    {
        Pattern::from_masks(
            36,
            &vec![
                0b000000000000000000000000100000000000,
                0b000000000000000000000010100000000000,
                0b000000000000110000001100000000000011,
                0b000000000001000100001100000000000011,
                0b110000000010000010001100000000000000,
                0b110000000010001011000010100000000000,
                0b000000000010000010000000100000000000,
                0b000000000001000100000000000000000000,
                0b000000000000110000000000000000000000,
            ],
        )
    }

    /// A `width` x `height` rectangle in which each cell is alive, independently,
    /// with chance `SOUP_DENSITY_PERCENT` in a hundred.
    pub fn random_soup(width: usize, height: usize) -> (r: Pattern)
        ensures
            r.wf(),
            r.spec_width() == width,
            r@.len() == height,
    {
        let mut rng = thread_rng();
        let mut rows: Vec<Vec<bool>> = Vec::new();
        let mut i: usize = 0;
        while i < height
            invariant
                i <= height,
                rows@.len() == i,
                forall|k: int| 0 <= k < i ==> (#[trigger] rows@[k])@.len() == width,
            decreases height - i,
        {
            let mut row: Vec<bool> = Vec::new();
            let mut c: usize = 0;
            while c < width
                invariant
                    c <= width,
                    row@.len() == c,
                decreases width - c,
            {
                row.push(random_ratio(&mut rng, SOUP_DENSITY_PERCENT, 100));
                c += 1;
            }
            rows.push(row);
            i += 1;
        }
        Pattern { width, rows }
    }
}

} // verus!
