use vstd::prelude::*;
use crate::engine::framebuffer::{FrameBuffer, FrameView, Paint, blit_chain, lemma_blitted_view, lemma_blit_chain_shape};
use crate::engine::sprite::SpriteView;
use crate::engine::sprite::{SpriteData, lemma_index_in_grid};

verus! {

pub const TILE_SIZE: usize = 8;

/// A tile in the map.
#[derive(Clone, Copy, Debug, PartialEq, Eq, Structural)]
pub enum TileType {
    Floor,
    Wall,
    WallTop,
    DoorClosed,
    DoorOpen,
    Pit,
}

/// Wall and WallTop are solid.
pub open spec fn solid(t: TileType) -> bool {
    t == TileType::Wall || t == TileType::WallTop
}

/// A room made of tiles.
pub struct TileMap {
    pub width: usize,
    pub height: usize,
    /// The tiles, row by row.
    pub tiles: Vec<TileType>,
}

impl TileMap {
    /// Width in tiles.
    pub open spec fn cols(&self) -> nat {
        self.width as nat
    }

    /// Height in tiles.
    pub open spec fn rows(&self) -> nat {
        self.height as nat
    }

    /// The tile storage matches the map's dimensions.
    pub open spec fn wf(&self) -> bool {
        self.tiles@.len() == self.width * self.height
    }

    /// The tile at (tx, ty); out of bounds reads as Wall.
    pub open spec fn tile_at(&self, tx: int, ty: int) -> TileType {
        if 0 <= tx < self.width && 0 <= ty < self.height {
            self.tiles@[ty * self.width + tx]
        } else {
            TileType::Wall
        }
    }

    /// Reading outside the map yields Wall.
    pub proof fn lemma_outside_is_wall(&self, tx: int, ty: int)
        requires
            !(0 <= tx < self.cols() && 0 <= ty < self.rows()),
        ensures
            self.tile_at(tx, ty) == TileType::Wall,
    {
    }

    pub fn new(width: usize, height: usize) -> (m: Self)
        requires
            width * height <= usize::MAX,
        ensures
            m.wf(),
            m.cols() == width,
            m.rows() == height,
            forall|tx: int, ty: int| 0 <= tx < width && 0 <= ty < height ==> #[trigger] m.tile_at(tx, ty) == TileType::Floor,
    {
        let n = width * height;
        let mut tiles: Vec<TileType> = Vec::with_capacity(n);
        let mut i: usize = 0;
        while i < n
            invariant
                i <= n,
                tiles@.len() == i,
                forall|k: int| 0 <= k < i ==> #[trigger] tiles@[k] == TileType::Floor,
            decreases n - i,
        {
            tiles.push(TileType::Floor);
            i += 1;
        }
        let m = Self { width, height, tiles };
        assert forall|tx: int, ty: int| 0 <= tx < width && 0 <= ty < height implies #[trigger] m.tile_at(tx, ty) == TileType::Floor by {
            lemma_index_in_grid(tx, ty, width as int, height as int);
        }
        m
    }

    /// The map's (width, height) in tiles.
    pub fn dims(&self) -> (d: (usize, usize))
        ensures
            d.0 == self.cols(),
            d.1 == self.rows(),
    {
        (self.width, self.height)
    }

    pub fn get(&self, tx: usize, ty: usize) -> (t: TileType)
        requires
            self.wf(),
        ensures
            t == self.tile_at(tx as int, ty as int),
    {
        if tx < self.width && ty < self.height {
            proof { lemma_index_in_grid(tx as int, ty as int, self.width as int, self.height as int); }
            let _n = self.tiles.len();
            self.tiles[ty * self.width + tx]
        } else {
            TileType::Wall
        }
    }

    pub fn set(&mut self, tx: usize, ty: usize, tile: TileType)
        requires
            old(self).wf(),
        ensures
            final(self).wf(),
            final(self).cols() == old(self).cols(),
            final(self).rows() == old(self).rows(),
            forall|a: int, b: int| #[trigger] final(self).tile_at(a, b) == if a == tx && b == ty && tx < old(self).cols() && ty < old(self).rows() {
                tile
            } else {
                old(self).tile_at(a, b)
            },
    {
        if tx < self.width && ty < self.height {
            proof { lemma_index_in_grid(tx as int, ty as int, self.width as int, self.height as int); }
            let _n = self.tiles.len();
            self.tiles[ty * self.width + tx] = tile;
            proof {
                assert forall|a: int, b: int| #[trigger] self.tile_at(a, b) == if a == tx && b == ty {
                    tile
                } else {
                    old(self).tile_at(a, b)
                } by {
                    if 0 <= a < self.width && 0 <= b < self.height && (a != tx || b != ty) {
                        lemma_index_in_grid(a, b, self.width as int, self.height as int);
                        if b * self.width + a == ty * self.width + tx {
                            crate::engine::framebuffer::lemma_grid_index_injective(a, b, tx as int, ty as int, self.width as int);
                        }
                    }
                }
            }
        }
    }

    /// Wall and WallTop are solid.
    pub fn is_solid(&self, tx: usize, ty: usize) -> (b: bool)
        requires
            self.wf(),
        ensures
            b == solid(self.tile_at(tx as int, ty as int)),
    {
        match self.get(tx, ty) {
            TileType::Wall | TileType::WallTop => true,
            _ => false,
        }
    }

    /// Whether a solid tile lies in columns tx0..=tx1 and rows ty0..=ty1, clipped to the map.
    pub fn any_solid(&self, tx0: i32, ty0: i32, tx1: i32, ty1: i32) -> (b: bool)
        requires
            self.wf(),
            self.cols() <= i32::MAX,
            self.rows() <= i32::MAX,
        ensures
            b == exists|x: int, y: int|
                #![trigger self.tile_at(x, y)]
                0 <= x && tx0 <= x <= tx1 && x < self.cols() && 0 <= y && ty0 <= y <= ty1 && y < self.rows()
                && solid(self.tile_at(x, y)),
    {
        let cols = self.width as i32;
        let rows = self.height as i32;
        let xlo = if tx0 > 0 { tx0 } else { 0 };
        let xhi = if tx1 < cols - 1 { tx1 } else { cols - 1 };
        let ylo = if ty0 > 0 { ty0 } else { 0 };
        let yhi = if ty1 < rows - 1 { ty1 } else { rows - 1 };
        let mut y = ylo;
        while y <= yhi
            invariant
                self.wf(),
                cols == self.cols(),
                rows == self.rows(),
                xlo == (if tx0 > 0 { tx0 as int } else { 0 }),
                xhi == (if tx1 < cols - 1 { tx1 as int } else { cols - 1 }),
                ylo == (if ty0 > 0 { ty0 as int } else { 0 }),
                yhi == (if ty1 < rows - 1 { ty1 as int } else { rows - 1 }),
                ylo <= y,
                y <= yhi + 1 || y == ylo,
                forall|a: int, c: int| xlo <= a <= xhi && ylo <= c < y ==> !solid(#[trigger] self.tile_at(a, c)),
            decreases yhi - y + 1,
        {
            let mut x = xlo;
            while x <= xhi
                invariant
                    self.wf(),
                    cols == self.cols(),
                    rows == self.rows(),
                    xlo == (if tx0 > 0 { tx0 as int } else { 0 }),
                    xhi == (if tx1 < cols - 1 { tx1 as int } else { cols - 1 }),
                    ylo == (if ty0 > 0 { ty0 as int } else { 0 }),
                    yhi == (if ty1 < rows - 1 { ty1 as int } else { rows - 1 }),
                    ylo <= y <= yhi,
                    xlo <= x,
                    x <= xhi + 1 || x == xlo,
                    forall|a: int, c: int| xlo <= a <= xhi && ylo <= c < y ==> !solid(#[trigger] self.tile_at(a, c)),
                    forall|a: int| xlo <= a < x ==> !solid(#[trigger] self.tile_at(a, y as int)),
                decreases xhi - x + 1,
            {
                if self.is_solid(x as usize, y as usize) {
                    return true;
                }
                x += 1;
            }
            y += 1;
        }
        false
    }

    pub fn pixel_width(&self) -> (w: usize)
        requires
            self.cols() * TILE_SIZE <= usize::MAX,
        ensures
            w == self.cols() * TILE_SIZE,
    {
        self.width * TILE_SIZE
    }

    pub fn pixel_height(&self) -> (h: usize)
        requires
            self.rows() * TILE_SIZE <= usize::MAX,
        ensures
            h == self.rows() * TILE_SIZE,
    {
        self.height * TILE_SIZE
    }
}

/// First tile index on screen along an axis: the camera offset in whole tiles, at least 0.
pub open spec fn window_lo(cam: int) -> int {
    if cam > 0 {
        cam / 8
    } else {
        0
    }
}

/// One past the last tile index on screen along an axis, capped by the map size.
pub open spec fn window_hi(cam: int, screen: int, size: int) -> int {
    let n = cam + screen + 7;
    let e = if n >= 0 { n / 8 } else { 0 };
    if e < size {
        e
    } else {
        size
    }
}

/// Number of tiles on screen along an axis.
pub open spec fn window_len(cam: int, screen: int, size: int) -> int {
    let d = window_hi(cam, screen, size) - window_lo(cam);
    if d > 0 {
        d
    } else {
        0
    }
}

/// Map position of the `k`-th tile drawn, walking the visible window row by row.
pub open spec fn window_tile(k: int, cols: int, tx0: int, ty0: int) -> (int, int) {
    (tx0 + k % cols, ty0 + k / cols)
}

/// The blits of `render_tilemap`, given the sprite looked up for each visible tile.
pub open spec fn tile_blits(
    used: Seq<SpriteView>,
    cols: int,
    tx0: int,
    ty0: int,
    camera_x: int,
    camera_y: int,
) -> Seq<(SpriteView, int, int)> {
    Seq::new(
        used.len(),
        |k: int|
            (
                used[k],
                window_tile(k, cols, tx0, ty0).0 * 8 - camera_x,
                window_tile(k, cols, tx0, ty0).1 * 8 - camera_y,
            ),
    )
}

/// A sprite that can be drawn anywhere on a screen of the given size.
pub open spec fn fits_screen(s: SpriteView, screen_w: int, screen_h: int) -> bool {
    &&& s.wf()
    &&& s.width + screen_w <= i32::MAX
    &&& s.height + screen_h <= i32::MAX
}

/// Render visible tiles to the framebuffer.
/// `tile_sprite` maps each TileType to its sprite data.
pub fn render_tilemap<F: Fn(TileType) -> SpriteData>(
    fb: &mut FrameBuffer,
    tilemap: &TileMap,
    tile_sprite: F,
    camera_x: i32,
    camera_y: i32,
)
    requires
        old(fb).wf(),
        tilemap.wf(),
        old(fb)@.width <= i32::MAX,
        old(fb)@.height <= i32::MAX,
        tilemap.cols() <= i32::MAX,
        tilemap.rows() <= i32::MAX,
        -8 < camera_x + old(fb)@.width + 7 <= i32::MAX,
        -8 < camera_y + old(fb)@.height + 7 <= i32::MAX,
        forall|t: TileType| tile_sprite.requires((t,)),
        forall|t: TileType, s: SpriteData| #[trigger] tile_sprite.ensures((t,), s) ==> fits_screen(s@, old(fb)@.width as int, old(fb)@.height as int),
    ensures
        final(fb).wf(),
        ({
            let w = old(fb)@.width as int;
            let h = old(fb)@.height as int;
            let cols = window_len(camera_x as int, w, tilemap.cols() as int);
            let rows = window_len(camera_y as int, h, tilemap.rows() as int);
            let tx0 = window_lo(camera_x as int);
            let ty0 = window_lo(camera_y as int);
            exists|used: Seq<SpriteData>| {
                &&& used.len() == cols * rows
                &&& forall|k: int| 0 <= k < used.len() ==> #[trigger] tile_sprite.ensures(
                    (tilemap.tile_at(window_tile(k, cols, tx0, ty0).0, window_tile(k, cols, tx0, ty0).1),),
                    used[k],
                )
                &&& final(fb)@ == blit_chain(
                    old(fb)@,
                    tile_blits(used.map_values(|s: SpriteData| s@), cols, tx0, ty0, camera_x as int, camera_y as int),
                )
            }
        }),
{
    let ghost v0 = fb@;
    proof { fb.lemma_wf(); }
    let fb_w = fb.width() as i32;
    let fb_h = fb.height() as i32;
    let map_w = tilemap.width as i32;
    let map_h = tilemap.height as i32;
    let tx0: i32 = if camera_x > 0 { camera_x / 8 } else { 0 };
    let ty0: i32 = if camera_y > 0 { camera_y / 8 } else { 0 };
    let nx = camera_x + fb_w + 7;
    let ny = camera_y + fb_h + 7;
    let ex: i32 = if nx >= 0 { nx / 8 } else { 0 };
    let ey: i32 = if ny >= 0 { ny / 8 } else { 0 };
    let tx1: i32 = if ex < map_w { ex } else { map_w };
    let ty1: i32 = if ey < map_h { ey } else { map_h };
    let ghost cols = window_len(camera_x as int, v0.width as int, tilemap.cols() as int);
    let ghost rows = window_len(camera_y as int, v0.height as int, tilemap.rows() as int);
    let ghost mut used: Seq<SpriteData> = Seq::empty();
    proof {
        vstd::arithmetic::div_mod::lemma_fundamental_div_mod(camera_x as int, 8);
        vstd::arithmetic::div_mod::lemma_fundamental_div_mod(camera_y as int, 8);
        vstd::arithmetic::div_mod::lemma_fundamental_div_mod(nx as int, 8);
        vstd::arithmetic::div_mod::lemma_fundamental_div_mod(ny as int, 8);
    }
    let mut ty: i32 = ty0;
    while ty < ty1
        invariant
            fb.wf(),
            v0.valid(),
            fb@.same_shape(v0),
            v0.width <= i32::MAX,
            v0.height <= i32::MAX,
            tilemap.wf(),
            fb_w == v0.width,
            fb_h == v0.height,
            tx0 == window_lo(camera_x as int),
            ty0 == window_lo(camera_y as int),
            tx1 == window_hi(camera_x as int, v0.width as int, tilemap.cols() as int),
            ty1 == window_hi(camera_y as int, v0.height as int, tilemap.rows() as int),
            cols == window_len(camera_x as int, v0.width as int, tilemap.cols() as int),
            rows == window_len(camera_y as int, v0.height as int, tilemap.rows() as int),
            0 <= tx0,
            0 <= ty0 <= ty,
            ty <= ty1 || ty == ty0,
            tx1 <= 0 || tx1 * 8 <= camera_x + v0.width + 7,
            camera_x + v0.width + 7 <= i32::MAX,
            camera_y + v0.height + 7 <= i32::MAX,
            ty1 <= 0 || ty1 * 8 <= camera_y + v0.height + 7,
            ty0 * 8 > camera_y - 8,
            tx0 * 8 > camera_x - 8,
            used.len() == (ty - ty0) * cols,
            forall|t: TileType| tile_sprite.requires((t,)),
            forall|t: TileType, s: SpriteData| #[trigger] tile_sprite.ensures((t,), s) ==> fits_screen(s@, v0.width as int, v0.height as int),
            forall|k: int| 0 <= k < used.len() ==> #[trigger] tile_sprite.ensures(
                (tilemap.tile_at(window_tile(k, cols, tx0 as int, ty0 as int).0, window_tile(k, cols, tx0 as int, ty0 as int).1),),
                used[k],
            ),
            fb@ == blit_chain(v0, tile_blits(used.map_values(|s: SpriteData| s@), cols, tx0 as int, ty0 as int, camera_x as int, camera_y as int)),
        decreases ty1 - ty,
    {
        let mut tx: i32 = tx0;
        while tx < tx1
            invariant
                fb.wf(),
                v0.valid(),
                fb@.same_shape(v0),
                v0.width <= i32::MAX,
                v0.height <= i32::MAX,
                tilemap.wf(),
                tx0 == window_lo(camera_x as int),
                ty0 == window_lo(camera_y as int),
                tx1 == window_hi(camera_x as int, v0.width as int, tilemap.cols() as int),
                ty1 == window_hi(camera_y as int, v0.height as int, tilemap.rows() as int),
                cols == window_len(camera_x as int, v0.width as int, tilemap.cols() as int),
                0 <= tx0 <= tx,
                tx <= tx1 || tx == tx0,
                0 <= ty0 <= ty < ty1,
                tx1 <= 0 || tx1 * 8 <= camera_x + v0.width + 7,
                camera_x + v0.width + 7 <= i32::MAX,
                camera_y + v0.height + 7 <= i32::MAX,
                ty1 <= 0 || ty1 * 8 <= camera_y + v0.height + 7,
                ty0 * 8 > camera_y - 8,
                tx0 * 8 > camera_x - 8,
                used.len() == (ty - ty0) * cols + (tx - tx0),
                forall|t: TileType| tile_sprite.requires((t,)),
                forall|t: TileType, s: SpriteData| #[trigger] tile_sprite.ensures((t,), s) ==> fits_screen(s@, v0.width as int, v0.height as int),
                forall|k: int| 0 <= k < used.len() ==> #[trigger] tile_sprite.ensures(
                    (tilemap.tile_at(window_tile(k, cols, tx0 as int, ty0 as int).0, window_tile(k, cols, tx0 as int, ty0 as int).1),),
                    used[k],
                ),
                fb@ == blit_chain(v0, tile_blits(used.map_values(|s: SpriteData| s@), cols, tx0 as int, ty0 as int, camera_x as int, camera_y as int)),
            decreases tx1 - tx,
        {
            let tile = tilemap.get(tx as usize, ty as usize);
            let sprite = tile_sprite(tile);
            let px = tx * 8 - camera_x;
            let py = ty * 8 - camera_y;
            let ghost before = fb@;
            let ghost k = used.len() as int;
            proof {
                assert(cols == tx1 - tx0);
                vstd::arithmetic::div_mod::lemma_fundamental_div_mod_converse(k, cols, (ty - ty0) as int, (tx - tx0) as int);
            }
            fb.blit_sprite(&sprite, px, py);
            proof {
                fb.lemma_wf();
                let ops = tile_blits(used.map_values(|s: SpriteData| s@), cols, tx0 as int, ty0 as int, camera_x as int, camera_y as int);
                lemma_blit_chain_shape(v0, ops);
                lemma_blitted_view(before, fb@, sprite@, px as int, py as int, false, Paint::Copy);
                let used2 = used.push(sprite);
                let ops2 = tile_blits(used2.map_values(|s: SpriteData| s@), cols, tx0 as int, ty0 as int, camera_x as int, camera_y as int);
                assert(ops2.drop_last() =~= ops);
                assert(ops2.last() == (sprite@, px as int, py as int));
                assert forall|j: int| 0 <= j < used2.len() implies #[trigger] tile_sprite.ensures(
                    (tilemap.tile_at(window_tile(j, cols, tx0 as int, ty0 as int).0, window_tile(j, cols, tx0 as int, ty0 as int).1),),
                    used2[j],
                ) by {
                    if j < k {
                        assert(used2[j] == used[j]);
                    }
                }
                used = used2;
            }
            tx += 1;
        }
        proof {
            if tx1 > tx0 {
                assert(cols == tx1 - tx0);
            } else {
                assert(cols == 0);
            }
            assert((ty + 1 - ty0) * cols == (ty - ty0) * cols + cols) by (nonlinear_arith);
        }
        ty += 1;
    }
    proof {
        if ty1 <= ty0 {
            assert(rows == 0);
        }
        if tx1 <= tx0 {
            assert(cols == 0);
        }
        if ty1 > ty0 {
            assert(rows == ty1 - ty0);
            assert((ty - ty0) * cols == cols * rows) by (nonlinear_arith)
                requires ty - ty0 == rows;
        } else {
            assert(ty == ty0);
            assert(rows == 0);
            assert(cols * rows == 0) by (nonlinear_arith)
                requires rows == 0;
        }
        assert(used.len() == cols * rows);
    }
}

} // verus!
