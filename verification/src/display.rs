use vstd::prelude::*;

use crate::fill::filled;
use vstd::arithmetic::div_mod::{lemma_add_mod_noop, lemma_mod_equivalence, lemma_small_mod};

verus! {

/// The width of the screen in pixels.
pub const DISPLAY_WIDTH: usize = 64;

/// The height of the screen in pixels.
pub const DISPLAY_HEIGHT: usize = 32;

/// An all-off framebuffer.
pub open spec fn blank() -> Seq<bool> {
    Seq::new(2048, |i: int| false)
}

/// Row-major index of the screen cell that column `x`, row `y` lands on,
/// with each coordinate wrapped around its own axis independently.
pub open spec fn pixel_index(x: int, y: int) -> int {
    (y % 32) * 64 + (x % 64)
}

/// Whether column `c` (most significant bit first) of sprite row byte `b`
/// is set.
pub open spec fn sprite_bit(b: u8, c: int) -> bool {
    (b >> ((7 - c) as u8)) & 1 == 1
}

/// Whether the sprite has a set bit at row `r`, column `c`.
pub open spec fn sprite_cell_on(data: Seq<u8>, r: int, c: int) -> bool {
    0 <= r < data.len() && 0 <= c < 8 && sprite_bit(data[r], c)
}

/// Whether some set bit of the sprite drawn at `(px, py)` lands on grid
/// cell `p`.
pub open spec fn sprite_covers(px: int, py: int, data: Seq<u8>, p: int) -> bool {
    exists|r: int, c: int|
        #[trigger] sprite_cell_on(data, r, c) && pixel_index(px + c, py + r) == p
}

/// The framebuffer after the sprite is XOR-blitted onto `g` at `(px, py)`.
pub open spec fn draw_result(g: Seq<bool>, px: int, py: int, data: Seq<u8>) -> Seq<bool> {
    Seq::new(g.len(), |p: int| g[p] != sprite_covers(px, py, data, p))
}

/// Whether blitting the sprite onto `g` at `(px, py)` turns some lit cell
/// off: a set sprite bit landing on a cell that is already on.
pub open spec fn draw_collision(g: Seq<bool>, px: int, py: int, data: Seq<u8>) -> bool {
    exists|r: int, c: int|
        #[trigger] sprite_cell_on(data, r, c) && g[pixel_index(px + c, py + r)]
}

/// `sprite_covers` restricted to the first `k` cells of the sprite in
/// row-major order: the part of a blit already performed.
pub open spec fn covers_upto(px: int, py: int, data: Seq<u8>, p: int, k: int) -> bool {
    exists|r: int, c: int|
        #[trigger] sprite_cell_on(data, r, c) && 8 * r + c < k && pixel_index(px + c, py + r) == p
}

/// `draw_collision` restricted to the first `k` cells of the sprite in
/// row-major order.
pub open spec fn collision_upto(g: Seq<bool>, px: int, py: int, data: Seq<u8>, k: int) -> bool {
    exists|r: int, c: int|
        #[trigger] sprite_cell_on(data, r, c) && 8 * r + c < k && g[pixel_index(px + c, py + r)]
}

/// Distinct cells of one sprite land on distinct screen cells: the rows
/// fit within the screen height and the eight columns within its width,
/// so neither axis wraps onto itself within a single sprite.
proof fn lemma_pixel_index_injective(px: int, py: int, r1: int, c1: int, r2: int, c2: int)
    requires
        0 <= px,
        0 <= py,
        0 <= r1 < 32,
        0 <= c1 < 8,
        0 <= r2 < 32,
        0 <= c2 < 8,
        !(r1 == r2 && c1 == c2),
    ensures
        pixel_index(px + c1, py + r1) != pixel_index(px + c2, py + r2),
{
    let sx1 = (px + c1) % 64;
    let sy1 = (py + r1) % 32;
    let sx2 = (px + c2) % 64;
    let sy2 = (py + r2) % 32;
    if pixel_index(px + c1, py + r1) == pixel_index(px + c2, py + r2) {
        assert(sy1 == sy2 && sx1 == sx2);
        if r1 != r2 {
            lemma_mod_equivalence(py + r1, py + r2, 32);
            if r1 < r2 {
                lemma_small_mod((r2 - r1) as nat, 32);
            } else {
                lemma_small_mod((r1 - r2) as nat, 32);
            }
        } else {
            lemma_mod_equivalence(px + c1, px + c2, 64);
            if c1 < c2 {
                lemma_small_mod((c2 - c1) as nat, 64);
            } else {
                lemma_small_mod((c1 - c2) as nat, 64);
            }
        }
    }
}

/// Every screen cell index is within the framebuffer.
proof fn lemma_pixel_index_in_range(x: int, y: int)
    requires
        0 <= x,
        0 <= y,
    ensures
        0 <= pixel_index(x, y) < 2048,
{
}

/// Extending the processed prefix of a sprite by one cell extends what it
/// covers at cell `p` by exactly that sprite cell.
proof fn lemma_covers_step(px: int, py: int, data: Seq<u8>, row: int, col: int, p: int)
    requires
        0 <= row < data.len(),
        0 <= col < 8,
    ensures
        covers_upto(px, py, data, p, 8 * row + col + 1) == (covers_upto(
            px,
            py,
            data,
            p,
            8 * row + col,
        ) || (sprite_cell_on(data, row, col) && pixel_index(px + col, py + row) == p)),
{
    let k = 8 * row + col;
    if covers_upto(px, py, data, p, k + 1) {
        let (r, c) = choose|r: int, c: int|
            #[trigger] sprite_cell_on(data, r, c) && 8 * r + c < k + 1 && pixel_index(
                px + c,
                py + r,
            ) == p;
        if 8 * r + c == k {
            assert(r == row && c == col);
        }
    }
}

/// Extending the processed prefix of a sprite by one cell extends what it
/// collides with by exactly that cell.
proof fn lemma_collision_step(g: Seq<bool>, px: int, py: int, data: Seq<u8>, row: int, col: int)
    requires
        0 <= row < data.len(),
        0 <= col < 8,
    ensures
        collision_upto(g, px, py, data, 8 * row + col + 1) == (collision_upto(
            g,
            px,
            py,
            data,
            8 * row + col,
        ) || (sprite_cell_on(data, row, col) && g[pixel_index(px + col, py + row)])),
{
    let k = 8 * row + col;
    if collision_upto(g, px, py, data, k + 1) {
        let (r, c) = choose|r: int, c: int|
            #[trigger] sprite_cell_on(data, r, c) && 8 * r + c < k + 1 && g[pixel_index(
                px + c,
                py + r,
            )];
        if 8 * r + c == k {
            assert(r == row && c == col);
        }
    }
}

/// Once every cell of the sprite is processed, the prefix forms coincide
/// with `sprite_covers` and `draw_collision`.
proof fn lemma_upto_full(g: Seq<bool>, px: int, py: int, data: Seq<u8>)
    ensures
        forall|p: int|
            covers_upto(px, py, data, p, 8 * data.len() as int) == sprite_covers(px, py, data, p),
        collision_upto(g, px, py, data, 8 * data.len() as int) == draw_collision(g, px, py, data),
{
}

/// No cell processed before the current one lands on the current cell's
/// screen position.
proof fn lemma_untouched_so_far(px: int, py: int, data: Seq<u8>, row: int, col: int)
    requires
        0 <= px,
        0 <= py,
        0 <= row < data.len(),
        data.len() <= 15,
        0 <= col < 8,
    ensures
        !covers_upto(px, py, data, pixel_index(px + col, py + row), 8 * row + col),
{
    let q = pixel_index(px + col, py + row);
    let k = 8 * row + col;
    if covers_upto(px, py, data, q, k) {
        let (r, c) = choose|r: int, c: int|
            #[trigger] sprite_cell_on(data, r, c) && 8 * r + c < k && pixel_index(px + c, py + r)
                == q;
        assert(!(r == row && c == col));
        lemma_pixel_index_injective(px, py, r, c, row, col);
    }
}

/// The 64 by 32 monochrome framebuffer, row-major. It changes only by
/// being cleared or by having a sprite XOR-blitted onto it.
pub struct Display(Vec<bool>);

impl View for Display {
    type V = Seq<bool>;

    closed spec fn view(&self) -> Seq<bool> {
        self.0@
    }
}

impl Display {
    pub open spec fn wf(&self) -> bool {
        self@.len() == 2048
    }

    pub fn new() -> (r: Self)
        ensures
            r.wf(),
            r@ == blank(),
    {
        Display(filled(false, DISPLAY_WIDTH * DISPLAY_HEIGHT))
    }

    /// A read-only row-major snapshot for the host's presentation layer.
    pub fn dump(&self) -> (r: &[bool])
        ensures
            r@ == self@,
    {
        self.0.as_slice()
    }

    /// The fixed size of the screen: width and height in pixels.
    pub fn resolution(&self) -> (r: (usize, usize))
        ensures
            r.0 == 64 && r.1 == 32,
    {
        (DISPLAY_WIDTH, DISPLAY_HEIGHT)
    }

    /// Turn every pixel off.
    pub fn clear(&mut self)
        ensures
            final(self).wf(),
            final(self)@ == blank(),
    {
        self.0 = filled(false, DISPLAY_WIDTH * DISPLAY_HEIGHT);
    }

    fn get_pixel(&self, x: usize, y: usize) -> (r: bool)
        requires
            self.wf(),
        ensures
            r == self@[pixel_index(x as int, y as int)],
    {
        let xm = x % DISPLAY_WIDTH;
        let ym = y % DISPLAY_HEIGHT;
        self.0[ym * DISPLAY_WIDTH + xm]
    }

    fn set_pixel(&mut self, x: usize, y: usize, on: bool)
        requires
            old(self).wf(),
        ensures
            final(self).wf(),
            final(self)@ == old(self)@.update(pixel_index(x as int, y as int), on),
    {
        let xm = x % DISPLAY_WIDTH;
        let ym = y % DISPLAY_HEIGHT;
        self.0.set(ym * DISPLAY_WIDTH + xm, on);
    }

    /// XOR-blit a sprite of up to fifteen 8-pixel rows at `(pos_x, pos_y)`,
    /// wrapping each pixel's coordinates independently around the screen.
    /// Returns true exactly when some pixel that was on is turned off.
    pub fn display_sprite(&mut self, pos_x: usize, pos_y: usize, data: &[u8]) -> (r: bool)
        requires
            old(self).wf(),
            data@.len() <= 15,
        ensures
            final(self).wf(),
            final(self)@ == draw_result(old(self)@, pos_x as int, pos_y as int, data@),
            r == draw_collision(old(self)@, pos_x as int, pos_y as int, data@),
    {
        let ghost px = pos_x as int;
        let ghost py = pos_y as int;
        let x0 = pos_x % DISPLAY_WIDTH;
        let y0 = pos_y % DISPLAY_HEIGHT;
        let mut collision = false;
        let mut row: usize = 0;
        while row < data.len()
            invariant
                self.wf(),
                old(self).wf(),
                data@.len() <= 15,
                0 <= row <= data@.len(),
                px == pos_x as int,
                py == pos_y as int,
                x0 == px % 64,
                y0 == py % 32,
                forall|p: int|
                    0 <= p < 2048 ==> self@[p] == (old(self)@[p] != covers_upto(
                        px,
                        py,
                        data@,
                        p,
                        8 * row,
                    )),
                collision == collision_upto(old(self)@, px, py, data@, 8 * row),
            decreases data@.len() - row,
        {
            let byte = *vstd::slice::slice_index_get(data, row);
            let mut col: usize = 0;
            while col < 8
                invariant
                    self.wf(),
                    old(self).wf(),
                    data@.len() <= 15,
                    0 <= row < data@.len(),
                    0 <= col <= 8,
                    px == pos_x as int,
                    py == pos_y as int,
                    x0 == px % 64,
                    y0 == py % 32,
                    byte == data@[row as int],
                    forall|p: int|
                        0 <= p < 2048 ==> self@[p] == (old(self)@[p] != covers_upto(
                            px,
                            py,
                            data@,
                            p,
                            8 * row + col,
                        )),
                    collision == collision_upto(old(self)@, px, py, data@, 8 * row + col),
                decreases 8 - col,
            {
                let new_pixel = ((byte >> ((7 - col) as u8)) & 1) == 1;
                let screen_x = x0 + col;
                let screen_y = y0 + row;
                proof {
                    lemma_small_mod(col as nat, 64);
                    lemma_add_mod_noop(px, col as int, 64);
                    lemma_small_mod(row as nat, 32);
                    lemma_add_mod_noop(py, row as int, 32);
                    assert(pixel_index(screen_x as int, screen_y as int) == pixel_index(
                        px + col,
                        py + row,
                    ));
                    lemma_pixel_index_in_range(px + col, py + row);
                }
                let ghost q = pixel_index(px + col as int, py + row as int);
                let current_pixel = self.get_pixel(screen_x, screen_y);
                proof {
                    lemma_untouched_so_far(px, py, data@, row as int, col as int);
                    assert(current_pixel == old(self)@[q]);
                    lemma_collision_step(old(self)@, px, py, data@, row as int, col as int);
                    lemma_covers_step(px, py, data@, row as int, col as int, q);
                    assert(new_pixel == sprite_bit(data@[row as int], col as int));
                }
                if current_pixel && new_pixel {
                    collision = true;
                }
                self.set_pixel(screen_x, screen_y, current_pixel ^ new_pixel);
                proof {
                    assert(collision == collision_upto(
                        old(self)@,
                        px,
                        py,
                        data@,
                        8 * row + col + 1,
                    ));
                    assert forall|p: int| 0 <= p < 2048 implies self@[p] == (old(self)@[p]
                        != covers_upto(px, py, data@, p, 8 * row + col + 1)) by {
                        lemma_covers_step(px, py, data@, row as int, col as int, p);
                        if p != q {
                            assert(self@[p] == (old(self)@[p] != covers_upto(
                                px,
                                py,
                                data@,
                                p,
                                8 * row + col,
                            )));
                        }
                    }
                }
                col = col + 1;
            }
            row = row + 1;
        }
        proof {
            lemma_upto_full(old(self)@, px, py, data@);
            assert(self@ =~= draw_result(old(self)@, px, py, data@));
        }
        collision
    }
}

/// Blitting the same sprite twice at the same coordinates restores the
/// framebuffer: the second pass toggles exactly the cells the first pass
/// toggled.
pub proof fn lemma_draw_twice_restores(g: Seq<bool>, px: int, py: int, data: Seq<u8>)
    ensures
        draw_result(draw_result(g, px, py, data), px, py, data) == g,
{
    assert(draw_result(draw_result(g, px, py, data), px, py, data) =~= g);
}

/// On a blank framebuffer a blit never collides, and blitting the same
/// sprite again right away collides exactly when the sprite has any set
/// bit.
pub proof fn lemma_draw_on_blank(px: int, py: int, data: Seq<u8>)
    requires
        0 <= px,
        0 <= py,
    ensures
        !draw_collision(blank(), px, py, data),
        draw_collision(draw_result(blank(), px, py, data), px, py, data) <==> (exists|
            r: int,
            c: int,
        | sprite_cell_on(data, r, c)),
{
    if draw_collision(blank(), px, py, data) {
        let (r, c) = choose|r: int, c: int|
            #[trigger] sprite_cell_on(data, r, c) && blank()[pixel_index(px + c, py + r)];
        lemma_pixel_index_in_range(px + c, py + r);
    }
    if exists|r: int, c: int| #[trigger] sprite_cell_on(data, r, c) {
        let (r, c) = choose|r: int, c: int| #[trigger] sprite_cell_on(data, r, c);
        lemma_pixel_index_in_range(px + c, py + r);
        assert(sprite_covers(px, py, data, pixel_index(px + c, py + r)));
        assert(draw_result(blank(), px, py, data)[pixel_index(px + c, py + r)]);
    }
    if draw_collision(draw_result(blank(), px, py, data), px, py, data) {
        let (r, c) = choose|r: int, c: int|
            #[trigger] sprite_cell_on(data, r, c) && draw_result(blank(), px, py, data)[pixel_index(
                px + c,
                py + r,
            )];
    }
}

} // verus!
