//! The 64 by 32 monochrome display.
//!
//! Drawing toggles pixels: a sprite bit that is set flips the pixel it
//! lands on. A pixel that a draw turns from set to unset is a collision.

use vstd::prelude::*;
use crate::color::Color;

verus! {

/// The width of the display in pixels.
pub const WIDTH: usize = 64;

/// The height of the display in pixels.
pub const HEIGHT: usize = 32;

/// The side, in host pixels, of the square in which a host shows one pixel.
pub const PIXEL_SIZE: u32 = 16;

/// The pixel states, column by column: `grid[x][y]` is the pixel in column
/// `x`, counted from the left, and row `y`, counted from the top.
pub type Grid = Seq<Seq<Color>>;

/// What happens to the part of a sprite that reaches past an edge of the
/// display.
#[derive(Debug, Clone, Copy, PartialEq, Eq, Structural)]
pub enum EdgeMode {
    /// Coordinates count modulo the display's size: what leaves on one side
    /// comes back in on the opposite side.
    Wrap,
    /// Pixels that fall outside the display are not drawn.
    Clip,
}

/// The display: its pixels, and whether they changed since they were last
/// handed out for presentation.
#[derive(Debug, Clone, Copy, PartialEq, Eq)]
pub struct Display {
    /// The pixel states, indexed by column, then by row.
    pub pixels: [[Color; 32]; 64],
    /// Whether a draw or a clear happened since the last snapshot was taken.
    pub dirty: bool,
}

/// A grid of the display's size.
pub open spec fn grid_wf(g: Grid) -> bool {
    &&& g.len() == WIDTH
    &&& forall|x: int| 0 <= x < WIDTH ==> (#[trigger] g[x]).len() == HEIGHT
}

/// The grid with every pixel unset.
pub open spec fn blank() -> Grid {
    Seq::new(WIDTH as nat, |x: int| Seq::new(HEIGHT as nat, |y: int| Color::Black))
}

/// The grid `g` with the pixel at `(x, y)` toggled.
pub open spec fn toggled(g: Grid, x: int, y: int) -> Grid {
    g.update(x, g[x].update(y, g[x][y].flipped()))
}

/// How far the display coordinate `p` lies into a sprite that starts at
/// `origin`, along an axis on which the display has `size` pixels. With
/// wraparound the distance counts modulo `size`.
pub open spec fn offset(edges: EdgeMode, origin: int, p: int, size: int) -> int {
    match edges {
        EdgeMode::Wrap => (p - origin) % size,
        EdgeMode::Clip => p - origin,
    }
}

/// Whether the bit for column `col` is set in the sprite row `bits`. Column 0,
/// the leftmost, is the most significant bit.
pub open spec fn bit_set(bits: u8, col: int) -> bool {
    0 <= col < 8 && bits & (0x80u8 >> (col as u8)) != 0
}

/// Whether a sprite row `bits` that starts in column `x` has a set bit, among
/// its first `limit` ones, on column `qx` of the display.
pub open spec fn row_covers(bits: u8, x: u8, edges: EdgeMode, qx: int, limit: int) -> bool {
    let col = offset(edges, x as int, qx, WIDTH as int);
    col < limit && bit_set(bits, col)
}

/// The grid after the first `limit` bits of the sprite row `bits` were drawn
/// into row `py`, starting in column `x`: each pixel under a set bit is
/// toggled.
pub open spec fn row_drawn(g: Grid, bits: u8, x: u8, py: int, edges: EdgeMode, limit: int) -> Grid {
    Seq::new(
        WIDTH as nat,
        |qx: int|
            Seq::new(
                HEIGHT as nat,
                |qy: int|
                    if qy == py && row_covers(bits, x, edges, qx, limit) {
                        g[qx][qy].flipped()
                    } else {
                        g[qx][qy]
                    },
            ),
    )
}

/// Whether drawing the first `limit` bits of the sprite row `bits` into row
/// `py` of `g` unsets a pixel.
pub open spec fn row_collides(g: Grid, bits: u8, x: u8, py: int, edges: EdgeMode, limit: int) -> bool {
    exists|qx: int|
        0 <= qx < WIDTH && #[trigger] row_covers(bits, x, edges, qx, limit) && g[qx][py].lit()
}

/// Whether a sprite of the rows `rows`, drawn with its top left corner at
/// `(x, y)`, has a set bit on the pixel `(px, py)` of the display.
pub open spec fn covers(rows: Seq<u8>, x: u8, y: u8, edges: EdgeMode, px: int, py: int) -> bool {
    let row = offset(edges, y as int, py, HEIGHT as int);
    0 <= row < rows.len() && row_covers(rows[row], x, edges, px, 8)
}

/// The grid after the sprite `rows` was drawn at `(x, y)`: each pixel under
/// a set bit is toggled, every other pixel is as before.
pub open spec fn drawn(g: Grid, rows: Seq<u8>, x: u8, y: u8, edges: EdgeMode) -> Grid {
    Seq::new(
        WIDTH as nat,
        |px: int|
            Seq::new(
                HEIGHT as nat,
                |py: int|
                    if covers(rows, x, y, edges, px, py) {
                        g[px][py].flipped()
                    } else {
                        g[px][py]
                    },
            ),
    )
}

/// Whether drawing the sprite `rows` at `(x, y)` on `g` unsets a pixel: some
/// pixel that is set lies under a set bit.
pub open spec fn collides(g: Grid, rows: Seq<u8>, x: u8, y: u8, edges: EdgeMode) -> bool {
    exists|px: int, py: int|
        0 <= px < WIDTH && 0 <= py < HEIGHT && #[trigger] covers(rows, x, y, edges, px, py)
            && g[px][py].lit()
}

/// Drawing a sprite is drawing its rows one after the other: where the last
/// row lands on row `py` of the display, the sprite's effect is that of the
/// sprite without its last row, followed by that row drawn into `py`.
pub proof fn lemma_draw_last_row(g: Grid, rows: Seq<u8>, x: u8, y: u8, edges: EdgeMode, py: int)
    requires
        grid_wf(g),
        0 < rows.len() <= HEIGHT,
        0 <= py < HEIGHT,
        offset(edges, y as int, py, HEIGHT as int) == rows.len() - 1,
    ensures
        drawn(g, rows, x, y, edges) == row_drawn(
            drawn(g, rows.drop_last(), x, y, edges),
            rows.last(),
            x,
            py,
            edges,
            8,
        ),
        collides(g, rows, x, y, edges) == (collides(g, rows.drop_last(), x, y, edges)
            || row_collides(
            drawn(g, rows.drop_last(), x, y, edges),
            rows.last(),
            x,
            py,
            edges,
            8,
        )),
{
    let head = rows.drop_last();
    let mid = drawn(g, head, x, y, edges);
    assert forall|px: int, qy: int| 0 <= px < WIDTH && 0 <= qy < HEIGHT implies #[trigger] covers(
        rows,
        x,
        y,
        edges,
        px,
        qy,
    ) == (covers(head, x, y, edges, px, qy) || (qy == py && row_covers(
        rows.last(),
        x,
        edges,
        px,
        8,
    ))) && !(covers(head, x, y, edges, px, qy) && qy == py) by {
        let row = offset(edges, y as int, qy, HEIGHT as int);
        if 0 <= row < head.len() {
            assert(head[row] == rows[row]);
        }
    }
    assert(drawn(g, rows, x, y, edges) =~~= row_drawn(mid, rows.last(), x, py, edges, 8));
    if collides(g, rows, x, y, edges) {
        let (px, qy) = choose|px: int, qy: int|
            0 <= px < WIDTH && 0 <= qy < HEIGHT && #[trigger] covers(rows, x, y, edges, px, qy)
                && g[px][qy].lit();
        if covers(head, x, y, edges, px, qy) {
        } else {
            assert(row_covers(rows.last(), x, edges, px, 8) && mid[px][py].lit());
        }
    }
    if collides(g, head, x, y, edges) {
        let (px, qy) = choose|px: int, qy: int|
            0 <= px < WIDTH && 0 <= qy < HEIGHT && #[trigger] covers(head, x, y, edges, px, qy)
                && g[px][qy].lit();
        assert(covers(rows, x, y, edges, px, qy));
    }
    if row_collides(mid, rows.last(), x, py, edges, 8) {
        let px = choose|px: int|
            0 <= px < WIDTH && #[trigger] row_covers(rows.last(), x, edges, px, 8)
                && mid[px][py].lit();
        assert(covers(rows, x, y, edges, px, py) && g[px][py].lit());
    }
}

/// Where the last row of a sprite falls outside the display, the sprite's
/// effect is that of the sprite without that row.
pub proof fn lemma_draw_row_clipped(g: Grid, rows: Seq<u8>, x: u8, y: u8, edges: EdgeMode)
    requires
        grid_wf(g),
        0 < rows.len(),
        forall|py: int|
            0 <= py < HEIGHT ==> #[trigger] offset(edges, y as int, py, HEIGHT as int)
                != rows.len() - 1,
    ensures
        drawn(g, rows, x, y, edges) == drawn(g, rows.drop_last(), x, y, edges),
        collides(g, rows, x, y, edges) == collides(g, rows.drop_last(), x, y, edges),
{
    let head = rows.drop_last();
    assert forall|px: int, qy: int| 0 <= px < WIDTH && 0 <= qy < HEIGHT implies #[trigger] covers(
        rows,
        x,
        y,
        edges,
        px,
        qy,
    ) == covers(head, x, y, edges, px, qy) by {
        let row = offset(edges, y as int, qy, HEIGHT as int);
        if 0 <= row < head.len() {
            assert(head[row] == rows[row]);
        }
    }
    assert(drawn(g, rows, x, y, edges) =~~= drawn(g, head, x, y, edges));
    if collides(g, rows, x, y, edges) {
        let (px, qy) = choose|px: int, qy: int|
            0 <= px < WIDTH && 0 <= qy < HEIGHT && #[trigger] covers(rows, x, y, edges, px, qy)
                && g[px][qy].lit();
        assert(covers(head, x, y, edges, px, qy));
    }
    if collides(g, head, x, y, edges) {
        let (px, qy) = choose|px: int, qy: int|
            0 <= px < WIDTH && 0 <= qy < HEIGHT && #[trigger] covers(head, x, y, edges, px, qy)
                && g[px][qy].lit();
        assert(covers(rows, x, y, edges, px, qy));
    }
}

/// A sprite without rows changes nothing and collides with nothing.
pub proof fn lemma_draw_nothing(g: Grid, x: u8, y: u8, edges: EdgeMode)
    requires
        grid_wf(g),
    ensures
        drawn(g, Seq::empty(), x, y, edges) == g,
        !collides(g, Seq::empty(), x, y, edges),
{
    assert(drawn(g, Seq::empty(), x, y, edges) =~~= g);
}

/// An array of pixels that are all unset.
fn blank_pixels() -> (pixels: [[Color; 32]; 64])
    ensures
        Seq::new(WIDTH as nat, |x: int| pixels@[x]@) == blank(),
{
    let unset = Color::Black;
    let column = [unset; 32];
    let pixels = [column; 64];
    assert forall|x: int, y: int| 0 <= x < WIDTH && 0 <= y < HEIGHT implies pixels@[x]@[y]
        == Color::Black by {
        vstd::array::axiom_spec_array_fill_for_copy_type::<[Color; 32], 64>(column);
        vstd::array::axiom_spec_array_fill_for_copy_type::<Color, 32>(unset);
        assert(pixels@[x] == column);
        assert(column@[y] == Color::Black);
    }
    assert(Seq::new(WIDTH as nat, |x: int| pixels@[x]@) =~~= blank());
    pixels
}

impl View for Display {
    type V = Grid;

    /// The pixel states, column by column.
    open spec fn view(&self) -> Grid {
        Seq::new(WIDTH as nat, |x: int| self.pixels@[x]@)
    }
}

impl Display {
    /// The width of the display in pixels.
    pub const SURW: u8 = WIDTH as u8;

    /// The height of the display in pixels.
    pub const SURH: u8 = HEIGHT as u8;

    /// A display with every pixel unset and nothing to present.
    pub fn new() -> (out: Display)
        ensures
            out@ == blank(),
            !out.dirty,
    {
        Display { pixels: blank_pixels(), dirty: false }
    }

    /// The colour of the pixel at `(x, y)`.
    pub fn pixel(&self, x: u8, y: u8) -> (out: Color)
        requires
            x < WIDTH,
            y < HEIGHT,
        ensures
            out == self@[x as int][y as int],
    {
        self.pixels[x as usize][y as usize]
    }

    /// Toggles the pixel at `(x, y)` and says whether that unset it.
    pub fn set_pixel(&mut self, x: u8, y: u8) -> (unset: bool)
        requires
            x < WIDTH,
            y < HEIGHT,
        ensures
            final(self)@ == toggled(old(self)@, x as int, y as int),
            unset == old(self)@[x as int][y as int].lit(),
            final(self).dirty,
    {
        let mut column = self.pixels[x as usize];
        let flipped = column[y as usize].not();
        column[y as usize] = flipped;
        self.pixels[x as usize] = column;
        self.dirty = true;
        assert(self@ =~~= toggled(old(self)@, x as int, y as int));
        !flipped.is_lit()
    }

    /// Unsets every pixel.
    pub fn clear(&mut self)
        ensures
            final(self)@ == blank(),
            final(self).dirty,
    {
        self.pixels = blank_pixels();
        self.dirty = true;
    }

    /// Draws the sprite row `bits` into row `py`, its leftmost bit in column
    /// `x`: toggles each pixel under a set bit, and says whether that unset
    /// any.
    pub fn draw_row(&mut self, x: u8, py: u8, bits: u8, edges: EdgeMode) -> (erased: bool)
        requires
            py < HEIGHT,
        ensures
            final(self)@ == row_drawn(old(self)@, bits, x, py as int, edges, 8),
            erased == row_collides(old(self)@, bits, x, py as int, edges, 8),
            final(self).dirty,
    {
        let ghost g0 = self@;
        let mut erased = false;
        let mut col: u8 = 0;
        self.dirty = true;
        assert(self@ =~~= row_drawn(g0, bits, x, py as int, edges, 0));
        while col < 8
            invariant
                col <= 8,
                py < HEIGHT,
                grid_wf(g0),
                self.dirty,
                self@ == row_drawn(g0, bits, x, py as int, edges, col as int),
                erased == row_collides(g0, bits, x, py as int, edges, col as int),
            decreases 8 - col,
        {
            let ghost g1 = self@;
            let ghost was = erased;
            let place: Option<u8> = match edges {
                EdgeMode::Wrap => Some(((x as u16 + col as u16) % 64) as u8),
                EdgeMode::Clip => if x as u16 + (col as u16) < 64 {
                    Some(x + col)
                } else {
                    None
                },
            };
            let ghost step = bit_set(bits, col as int) && place is Some;
            if bits & (0x80u8 >> col) != 0 {
                if let Some(qx) = place {
                    assert(offset(edges, x as int, qx as int, WIDTH as int) == col);
                    assert(!row_covers(bits, x, edges, qx as int, col as int));
                    assert(g1[qx as int][py as int] == g0[qx as int][py as int]);
                    let unset = self.set_pixel(qx, py);
                    if unset {
                        erased = true;
                    }
                }
            }
            proof {
                assert forall|qx: int| 0 <= qx < WIDTH implies (#[trigger] row_covers(
                    bits,
                    x,
                    edges,
                    qx,
                    col + 1,
                ) == (row_covers(bits, x, edges, qx, col as int) || (step && place == Some(
                    qx as u8,
                )))) by {}
                assert(self@ =~~= row_drawn(g0, bits, x, py as int, edges, col + 1));
                if was {
                    let w = choose|qx: int|
                        0 <= qx < WIDTH && #[trigger] row_covers(bits, x, edges, qx, col as int)
                            && g0[qx][py as int].lit();
                    assert(row_covers(bits, x, edges, w, col + 1));
                } else if erased {
                    let qx = place->0 as int;
                    assert(row_covers(bits, x, edges, qx, col + 1) && g0[qx][py as int].lit());
                } else {
                    assert forall|qx: int|
                        0 <= qx < WIDTH && #[trigger] row_covers(
                            bits,
                            x,
                            edges,
                            qx,
                            col + 1,
                        ) implies !g0[qx][py as int].lit() by {
                        if row_covers(bits, x, edges, qx, col as int) {
                        }
                    }
                }
                assert(erased == row_collides(g0, bits, x, py as int, edges, col + 1));
            }
            col += 1;
        }
        erased
    }

    /// Hands out the pixels for presentation if they changed since they
    /// were last handed out, and `None` if they did not.
    pub fn update_screen(&mut self) -> (frame: Option<[[Color; 32]; 64]>)
        ensures
            final(self).pixels == old(self).pixels,
            !final(self).dirty,
            frame == (if old(self).dirty { Some(old(self).pixels) } else { None }),
    {
        if self.dirty {
            self.dirty = false;
            Some(self.pixels)
        } else {
            None
        }
    }
}

/// The size, in host pixels, of the surface on which a display of `w` by `h`
/// pixels is shown, or `None` where it does not fit the host's coordinates.
pub fn surface_size(w: u32, h: u32) -> (out: Option<(u32, u32)>)
    ensures
        out == (if w * PIXEL_SIZE <= u32::MAX && h * PIXEL_SIZE <= u32::MAX {
            Some(((w * PIXEL_SIZE) as u32, (h * PIXEL_SIZE) as u32))
        } else {
            None
        }),
{
    match (w.checked_mul(PIXEL_SIZE), h.checked_mul(PIXEL_SIZE)) {
        (Some(width), Some(height)) => Some((width, height)),
        _ => None,
    }
}

/// The square of host pixels that shows the pixel `(x, y)`: its left and
/// top coordinates and the length of its side.
pub fn pixel_rect(x: u8, y: u8) -> (out: (i32, i32, u32))
    ensures
        out == ((x * PIXEL_SIZE) as i32, (y * PIXEL_SIZE) as i32, PIXEL_SIZE),
{
    (x as i32 * PIXEL_SIZE as i32, y as i32 * PIXEL_SIZE as i32, PIXEL_SIZE)
}

impl Default for Display {
    /// A display with every pixel unset and nothing to present.
    fn default() -> (out: Display)
        ensures
            out@ == blank(),
            !out.dirty,
    {
        Display::new()
    }
}

} // verus!
