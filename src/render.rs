//! A pixel buffer with one pixel per board cell, and the mapping of a board onto it.
use crate::life::GameOfLife;
use vstd::prelude::*;

verus! {

/// The colour of a live cell.
pub const LIVE_COLOR: u32 = 0xFFFFFF00;

/// The colour of a dead cell, and the initial background colour.
pub const DEAD_COLOR: u32 = 0xFF1E1E3C;

/// The position in a row-major buffer of rows of `width` pixels of the pixel at (x, y).
pub open spec fn pixel_index(width: int, x: int, y: int) -> int {
    y * width + x
}

/// The colour in which a cell is drawn.
pub open spec fn cell_color(alive: bool) -> u32 {
    if alive {
        LIVE_COLOR
    } else {
        DEAD_COLOR
    }
}

proof fn lemma_pixel_index_in_range(width: int, height: int, x: int, y: int)
    requires
        0 <= x < width,
        0 <= y < height,
    ensures
        0 <= pixel_index(width, x, y) < width * height,
{
    assert(0 <= y * width) by (nonlinear_arith)
        requires
            0 <= y,
            0 <= width,
    ;
    assert(y * width + width <= height * width) by (nonlinear_arith)
        requires
            y + 1 <= height,
            0 <= width,
    ;
}

proof fn lemma_pixel_index_unique(width: int, x1: int, y1: int, x2: int, y2: int)
    requires
        0 <= x1 < width,
        0 <= x2 < width,
        0 <= y1,
        0 <= y2,
        pixel_index(width, x1, y1) == pixel_index(width, x2, y2),
    ensures
        x1 == x2,
        y1 == y2,
{
    if y1 < y2 {
        assert(y1 * width + width <= y2 * width) by (nonlinear_arith)
            requires
                y1 + 1 <= y2,
                0 <= width,
        ;
    } else if y2 < y1 {
        assert(y2 * width + width <= y1 * width) by (nonlinear_arith)
            requires
                y2 + 1 <= y1,
                0 <= width,
        ;
    }
}

/// A `width` x `height` buffer of pixels, stored row by row, with a background
/// colour for clearing and a current colour for plotting.
pub struct Framebuffer {
    width: usize,
    height: usize,
    buffer: Vec<u32>,
    background_color: u32,
    current_color: u32,
}

impl Framebuffer {
    pub closed spec fn spec_width(&self) -> int {
        self.width as int
    }

    pub closed spec fn spec_height(&self) -> int {
        self.height as int
    }

    /// The pixels, row by row.
    pub closed spec fn pixels(&self) -> Seq<u32> {
        self.buffer@
    }

    pub closed spec fn spec_background_color(&self) -> u32 {
        self.background_color
    }

    pub closed spec fn spec_current_color(&self) -> u32 {
        self.current_color
    }

    /// The buffer holds exactly `width * height` pixels, a count that fits a `usize`.
    pub closed spec fn wf(&self) -> bool {
        &&& self.buffer@.len() == self.width * self.height
        &&& self.width * self.height <= usize::MAX
    }

    /// The colour of the pixel at (x, y).
    pub open spec fn pixel_at(&self, x: int, y: int) -> u32 {
        self.pixels()[pixel_index(self.spec_width(), x, y)]
    }

    /// A buffer filled with `DEAD_COLOR`, which is also its background colour;
    /// the current colour is `LIVE_COLOR`.
    pub fn new(width: usize, height: usize) -> (r: Framebuffer)
        requires
            width * height <= usize::MAX,
        ensures
            r.wf(),
            r.spec_width() == width,
            r.spec_height() == height,
            r.pixels() == Seq::new((width * height) as nat, |i: int| DEAD_COLOR),
            r.spec_background_color() == DEAD_COLOR,
            r.spec_current_color() == LIVE_COLOR,
    {
        let buffer_size = width * height;
        let mut buffer: Vec<u32> = Vec::new();
        let mut i: usize = 0;
        while i < buffer_size
            invariant
                i <= buffer_size,
                buffer@ == Seq::new(i as nat, |k: int| DEAD_COLOR),
            decreases buffer_size - i,
        {
            buffer.push(DEAD_COLOR);
            i += 1;
            assert(buffer@ =~= Seq::new(i as nat, |k: int| DEAD_COLOR));
        }
        Framebuffer { width, height, buffer, background_color: DEAD_COLOR, current_color: LIVE_COLOR }
    }

    pub fn width(&self) -> (r: usize)
        ensures
            r == self.spec_width(),
    {
        self.width
    }

    pub fn height(&self) -> (r: usize)
        ensures
            r == self.spec_height(),
    {
        self.height
    }

    /// The colour of the pixel at (x, y).
    pub fn pixel(&self, x: usize, y: usize) -> (r: u32)
        requires
            self.wf(),
            x < self.spec_width(),
            y < self.spec_height(),
        ensures
            r == self.pixel_at(x as int, y as int),
    {
        proof {
            lemma_pixel_index_in_range(self.width as int, self.height as int, x as int, y as int);
        }
        self.buffer[y * self.width + x]
    }

    /// Paints every pixel in the background colour.
    pub fn clear(&mut self)
        requires
            old(self).wf(),
        ensures
            final(self).wf(),
            final(self).spec_width() == old(self).spec_width(),
            final(self).spec_height() == old(self).spec_height(),
            final(self).spec_background_color() == old(self).spec_background_color(),
            final(self).spec_current_color() == old(self).spec_current_color(),
            final(self).pixels() == Seq::new(
                old(self).pixels().len(),
                |i: int| old(self).spec_background_color(),
            ),
    {
        let mut i: usize = 0;
        while i < self.buffer.len()
            invariant
                self.width == old(self).width,
                self.height == old(self).height,
                self.background_color == old(self).background_color,
                self.current_color == old(self).current_color,
                self.buffer@.len() == old(self).buffer@.len(),
                i <= self.buffer@.len(),
                forall|k: int| 0 <= k < i ==> #[trigger] self.buffer@[k] == self.background_color,
            decreases self.buffer@.len() - i,
        {
            let color = self.background_color;
            self.buffer.set(i, color);
            i += 1;
        }
        assert(self.pixels() =~= Seq::new(old(self).pixels().len(), |i: int| old(self).spec_background_color()));
    }

    /// Paints the pixel at (x, y) in the current colour; a point outside the
    /// buffer is ignored.
    pub fn point(&mut self, x: usize, y: usize)
        requires
            old(self).wf(),
        ensures
            final(self).wf(),
            final(self).spec_width() == old(self).spec_width(),
            final(self).spec_height() == old(self).spec_height(),
            final(self).spec_background_color() == old(self).spec_background_color(),
            final(self).spec_current_color() == old(self).spec_current_color(),
            final(self).pixels() == if x < old(self).spec_width() && y < old(self).spec_height() {
                old(self).pixels().update(
                    pixel_index(old(self).spec_width(), x as int, y as int),
                    old(self).spec_current_color(),
                )
            } else {
                old(self).pixels()
            },
    {
        if x < self.width && y < self.height {
            proof {
                lemma_pixel_index_in_range(self.width as int, self.height as int, x as int, y as int);
            }
            let color = self.current_color;
            self.buffer.set(y * self.width + x, color);
        }
    }

    pub fn set_background_color(&mut self, color: u32)
        ensures
            final(self).spec_background_color() == color,
            final(self).spec_current_color() == old(self).spec_current_color(),
            final(self).pixels() == old(self).pixels(),
            final(self).spec_width() == old(self).spec_width(),
            final(self).spec_height() == old(self).spec_height(),
            final(self).wf() == old(self).wf(),
    {
        self.background_color = color;
    }

    pub fn set_current_color(&mut self, color: u32)
        ensures
            final(self).spec_current_color() == color,
            final(self).spec_background_color() == old(self).spec_background_color(),
            final(self).pixels() == old(self).pixels(),
            final(self).spec_width() == old(self).spec_width(),
            final(self).spec_height() == old(self).spec_height(),
            final(self).wf() == old(self).wf(),
    {
        self.current_color = color;
    }

    /// Whether (x, y) lies in the buffer and its pixel has the current colour.
    pub fn get_color(&self, x: usize, y: usize) -> (r: bool)
        requires
            self.wf(),
        ensures
            r == (x < self.spec_width() && y < self.spec_height() && self.pixel_at(x as int, y as int)
                == self.spec_current_color()),
    {
        if x < self.width && y < self.height {
            self.pixel(x, y) == self.current_color
        } else {
            false
        }
    }
}

/// Paints each cell of `game` into the pixel of the same coordinates:
/// `LIVE_COLOR` for a live cell and `DEAD_COLOR` for a dead one.
pub fn render(framebuffer: &mut Framebuffer, game: &GameOfLife)
    requires
        old(framebuffer).wf(),
        game.wf(),
        old(framebuffer).spec_width() == game.spec_width(),
        old(framebuffer).spec_height() == game.spec_height(),
    ensures
        final(framebuffer).wf(),
        final(framebuffer).spec_width() == game.spec_width(),
        final(framebuffer).spec_height() == game.spec_height(),
        final(framebuffer).spec_background_color() == old(framebuffer).spec_background_color(),
        forall|x: int, y: int|
            0 <= x < game.spec_width() && 0 <= y < game.spec_height() ==> #[trigger] final(framebuffer).pixel_at(x, y)
                == cell_color(game.cells()[y][x]),
{
    let width = game.width();
    let height = game.height();
    let mut y: usize = 0;
    while y < height
        invariant
            framebuffer.wf(),
            game.wf(),
            width == game.spec_width(),
            height == game.spec_height(),
            framebuffer.spec_width() == width,
            framebuffer.spec_height() == height,
            framebuffer.spec_background_color() == old(framebuffer).spec_background_color(),
            y <= height,
            forall|xx: int, yy: int|
                0 <= xx < width && 0 <= yy < y ==> #[trigger] framebuffer.pixel_at(xx, yy) == cell_color(
                    game.cells()[yy][xx],
                ),
        decreases height - y,
    {
        let mut x: usize = 0;
        while x < width
            invariant
                framebuffer.wf(),
                game.wf(),
                width == game.spec_width(),
                height == game.spec_height(),
                framebuffer.spec_width() == width,
                framebuffer.spec_height() == height,
                framebuffer.spec_background_color() == old(framebuffer).spec_background_color(),
                y < height,
                x <= width,
                forall|xx: int, yy: int|
                    0 <= xx < width && 0 <= yy < height && (yy < y || yy == y && xx < x)
                        ==> #[trigger] framebuffer.pixel_at(xx, yy) == cell_color(game.cells()[yy][xx]),
            decreases width - x,
        {
            let ghost fb0 = *framebuffer;
            let alive = game.is_alive(x, y);
            if alive {
                framebuffer.set_current_color(LIVE_COLOR);
            } else {
                framebuffer.set_current_color(DEAD_COLOR);
            }
            assert(framebuffer.spec_current_color() == cell_color(game.cells()[y as int][x as int]));
            let ghost before = framebuffer.pixels();
            framebuffer.point(x, y);
            assert(framebuffer.pixels() == before.update(
                pixel_index(width as int, x as int, y as int),
                framebuffer.spec_current_color(),
            ));
            assert(before.len() == width * height);
            assert forall|xx: int, yy: int|
                0 <= xx < width && 0 <= yy < height && (yy < y || yy == y && xx < x + 1)
                    implies #[trigger] framebuffer.pixel_at(xx, yy) == cell_color(game.cells()[yy][xx]) by {
                lemma_pixel_index_in_range(width as int, height as int, xx, yy);
                lemma_pixel_index_in_range(width as int, height as int, x as int, y as int);
                if xx != x || yy != y {
                    if pixel_index(width as int, xx, yy) == pixel_index(width as int, x as int, y as int) {
                        lemma_pixel_index_unique(width as int, xx, yy, x as int, y as int);
                    }
                    assert(fb0.pixel_at(xx, yy) == cell_color(game.cells()[yy][xx]));
                    assert(framebuffer.pixels()[pixel_index(width as int, xx, yy)] == before[pixel_index(
                        width as int,
                        xx,
                        yy,
                    )]);
                }
            }
            x += 1;
        }
        y += 1;
    }
}

} // verus!
