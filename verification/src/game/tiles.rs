use vstd::prelude::*;
use crate::engine::color::Color;
use crate::engine::sprite::SpriteData;
use crate::engine::tilemap::TileType;

verus! {

/// Pixels of the floor tile (stone blocks with mortar lines), row-major.
pub open spec fn floor_tile_pixels() -> Seq<Option<Color>> {
    let a = Some([45u8, 45, 50]);
    let c = Some([35u8, 35, 40]);
    let b = Some([40u8, 40, 45]);
    seq![
        a, a, a, c, b, b, a, b,
        a, b, a, c, b, a, b, b,
        c, c, c, c, c, c, c, c,
        b, b, a, b, a, a, a, c,
        b, a, b, b, a, b, a, c,
        c, c, c, c, c, c, c, c,
        a, a, a, c, b, b, a, b,
        a, b, a, c, b, a, b, b,
    ]
}

/// The floor tile (stone blocks with mortar lines), 8x8.
pub fn floor_tile() -> (s: SpriteData)
    ensures
        s.wf(),
        s.width == 8,
        s.height == 8,
        s.pixels@ == floor_tile_pixels(),
{
    SpriteData::new(8, 8, &[
        Some([45, 45, 50]), Some([45, 45, 50]), Some([45, 45, 50]), Some([35, 35, 40]), Some([40, 40, 45]), Some([40, 40, 45]), Some([45, 45, 50]), Some([40, 40, 45]),
        Some([45, 45, 50]), Some([40, 40, 45]), Some([45, 45, 50]), Some([35, 35, 40]), Some([40, 40, 45]), Some([45, 45, 50]), Some([40, 40, 45]), Some([40, 40, 45]),
        Some([35, 35, 40]), Some([35, 35, 40]), Some([35, 35, 40]), Some([35, 35, 40]), Some([35, 35, 40]), Some([35, 35, 40]), Some([35, 35, 40]), Some([35, 35, 40]),
        Some([40, 40, 45]), Some([40, 40, 45]), Some([45, 45, 50]), Some([40, 40, 45]), Some([45, 45, 50]), Some([45, 45, 50]), Some([45, 45, 50]), Some([35, 35, 40]),
        Some([40, 40, 45]), Some([45, 45, 50]), Some([40, 40, 45]), Some([40, 40, 45]), Some([45, 45, 50]), Some([40, 40, 45]), Some([45, 45, 50]), Some([35, 35, 40]),
        Some([35, 35, 40]), Some([35, 35, 40]), Some([35, 35, 40]), Some([35, 35, 40]), Some([35, 35, 40]), Some([35, 35, 40]), Some([35, 35, 40]), Some([35, 35, 40]),
        Some([45, 45, 50]), Some([45, 45, 50]), Some([45, 45, 50]), Some([35, 35, 40]), Some([40, 40, 45]), Some([40, 40, 45]), Some([45, 45, 50]), Some([40, 40, 45]),
        Some([45, 45, 50]), Some([40, 40, 45]), Some([45, 45, 50]), Some([35, 35, 40]), Some([40, 40, 45]), Some([45, 45, 50]), Some([40, 40, 45]), Some([40, 40, 45]),
    ])
}

/// Pixels of the wall tile (darker brick pattern), row-major.
pub open spec fn wall_tile_pixels() -> Seq<Option<Color>> {
    let d = Some([60u8, 55, 50]);
    let e = Some([50u8, 45, 40]);
    let f = Some([70u8, 65, 55]);
    seq![
        d, d, d, e, f, f, d, d,
        d, f, d, e, d, d, f, d,
        e, e, e, e, e, e, e, e,
        f, d, d, e, d, d, d, e,
        d, d, f, e, d, f, d, e,
        e, e, e, e, e, e, e, e,
        d, d, d, e, f, f, d, d,
        d, f, d, e, d, d, f, d,
    ]
}

/// The wall tile (darker brick pattern), 8x8.
pub fn wall_tile() -> (s: SpriteData)
    ensures
        s.wf(),
        s.width == 8,
        s.height == 8,
        s.pixels@ == wall_tile_pixels(),
{
    SpriteData::new(8, 8, &[
        Some([60, 55, 50]), Some([60, 55, 50]), Some([60, 55, 50]), Some([50, 45, 40]), Some([70, 65, 55]), Some([70, 65, 55]), Some([60, 55, 50]), Some([60, 55, 50]),
        Some([60, 55, 50]), Some([70, 65, 55]), Some([60, 55, 50]), Some([50, 45, 40]), Some([60, 55, 50]), Some([60, 55, 50]), Some([70, 65, 55]), Some([60, 55, 50]),
        Some([50, 45, 40]), Some([50, 45, 40]), Some([50, 45, 40]), Some([50, 45, 40]), Some([50, 45, 40]), Some([50, 45, 40]), Some([50, 45, 40]), Some([50, 45, 40]),
        Some([70, 65, 55]), Some([60, 55, 50]), Some([60, 55, 50]), Some([50, 45, 40]), Some([60, 55, 50]), Some([60, 55, 50]), Some([60, 55, 50]), Some([50, 45, 40]),
        Some([60, 55, 50]), Some([60, 55, 50]), Some([70, 65, 55]), Some([50, 45, 40]), Some([60, 55, 50]), Some([70, 65, 55]), Some([60, 55, 50]), Some([50, 45, 40]),
        Some([50, 45, 40]), Some([50, 45, 40]), Some([50, 45, 40]), Some([50, 45, 40]), Some([50, 45, 40]), Some([50, 45, 40]), Some([50, 45, 40]), Some([50, 45, 40]),
        Some([60, 55, 50]), Some([60, 55, 50]), Some([60, 55, 50]), Some([50, 45, 40]), Some([70, 65, 55]), Some([70, 65, 55]), Some([60, 55, 50]), Some([60, 55, 50]),
        Some([60, 55, 50]), Some([70, 65, 55]), Some([60, 55, 50]), Some([50, 45, 40]), Some([60, 55, 50]), Some([60, 55, 50]), Some([70, 65, 55]), Some([60, 55, 50]),
    ])
}

/// Pixels of the wall-top tile (lighter ledge cap), row-major.
pub open spec fn wall_top_tile_pixels() -> Seq<Option<Color>> {
    let g = Some([80u8, 75, 65]);
    let h = Some([70u8, 65, 55]);
    seq![
        g, g, g, g, g, g, g, g,
        g, h, g, g, h, g, g, h,
        h, h, h, h, h, h, h, h,
        g, g, h, g, g, g, h, g,
        g, g, g, g, h, g, g, g,
        h, h, h, h, h, h, h, h,
        g, h, g, g, g, h, g, g,
        h, g, g, h, g, g, g, h,
    ]
}

/// The wall-top tile (lighter ledge cap), 8x8.
pub fn wall_top_tile() -> (s: SpriteData)
    ensures
        s.wf(),
        s.width == 8,
        s.height == 8,
        s.pixels@ == wall_top_tile_pixels(),
{
    SpriteData::new(8, 8, &[
        Some([80, 75, 65]), Some([80, 75, 65]), Some([80, 75, 65]), Some([80, 75, 65]), Some([80, 75, 65]), Some([80, 75, 65]), Some([80, 75, 65]), Some([80, 75, 65]),
        Some([80, 75, 65]), Some([70, 65, 55]), Some([80, 75, 65]), Some([80, 75, 65]), Some([70, 65, 55]), Some([80, 75, 65]), Some([80, 75, 65]), Some([70, 65, 55]),
        Some([70, 65, 55]), Some([70, 65, 55]), Some([70, 65, 55]), Some([70, 65, 55]), Some([70, 65, 55]), Some([70, 65, 55]), Some([70, 65, 55]), Some([70, 65, 55]),
        Some([80, 75, 65]), Some([80, 75, 65]), Some([70, 65, 55]), Some([80, 75, 65]), Some([80, 75, 65]), Some([80, 75, 65]), Some([70, 65, 55]), Some([80, 75, 65]),
        Some([80, 75, 65]), Some([80, 75, 65]), Some([80, 75, 65]), Some([80, 75, 65]), Some([70, 65, 55]), Some([80, 75, 65]), Some([80, 75, 65]), Some([80, 75, 65]),
        Some([70, 65, 55]), Some([70, 65, 55]), Some([70, 65, 55]), Some([70, 65, 55]), Some([70, 65, 55]), Some([70, 65, 55]), Some([70, 65, 55]), Some([70, 65, 55]),
        Some([80, 75, 65]), Some([70, 65, 55]), Some([80, 75, 65]), Some([80, 75, 65]), Some([80, 75, 65]), Some([70, 65, 55]), Some([80, 75, 65]), Some([80, 75, 65]),
        Some([70, 65, 55]), Some([80, 75, 65]), Some([80, 75, 65]), Some([70, 65, 55]), Some([80, 75, 65]), Some([80, 75, 65]), Some([80, 75, 65]), Some([70, 65, 55]),
    ])
}

/// Pixels of the door tile (vertical wood planks), row-major.
pub open spec fn door_tile_pixels() -> Seq<Option<Color>> {
    let j = Some([120u8, 80, 40]);
    let k = Some([100u8, 65, 30]);
    let l = Some([140u8, 95, 50]);
    seq![
        j, k, j, j, l, j, k, j,
        j, k, j, j, l, j, k, j,
        j, k, j, j, l, j, k, j,
        l, l, l, l, l, l, l, l,
        j, k, j, j, l, j, k, j,
        j, k, j, j, l, j, k, j,
        j, k, j, j, l, j, k, j,
        l, l, l, l, l, l, l, l,
    ]
}

/// The door tile (vertical wood planks), 8x8.
pub fn door_tile() -> (s: SpriteData)
    ensures
        s.wf(),
        s.width == 8,
        s.height == 8,
        s.pixels@ == door_tile_pixels(),
{
    SpriteData::new(8, 8, &[
        Some([120, 80, 40]), Some([100, 65, 30]), Some([120, 80, 40]), Some([120, 80, 40]), Some([140, 95, 50]), Some([120, 80, 40]), Some([100, 65, 30]), Some([120, 80, 40]),
        Some([120, 80, 40]), Some([100, 65, 30]), Some([120, 80, 40]), Some([120, 80, 40]), Some([140, 95, 50]), Some([120, 80, 40]), Some([100, 65, 30]), Some([120, 80, 40]),
        Some([120, 80, 40]), Some([100, 65, 30]), Some([120, 80, 40]), Some([120, 80, 40]), Some([140, 95, 50]), Some([120, 80, 40]), Some([100, 65, 30]), Some([120, 80, 40]),
        Some([140, 95, 50]), Some([140, 95, 50]), Some([140, 95, 50]), Some([140, 95, 50]), Some([140, 95, 50]), Some([140, 95, 50]), Some([140, 95, 50]), Some([140, 95, 50]),
        Some([120, 80, 40]), Some([100, 65, 30]), Some([120, 80, 40]), Some([120, 80, 40]), Some([140, 95, 50]), Some([120, 80, 40]), Some([100, 65, 30]), Some([120, 80, 40]),
        Some([120, 80, 40]), Some([100, 65, 30]), Some([120, 80, 40]), Some([120, 80, 40]), Some([140, 95, 50]), Some([120, 80, 40]), Some([100, 65, 30]), Some([120, 80, 40]),
        Some([120, 80, 40]), Some([100, 65, 30]), Some([120, 80, 40]), Some([120, 80, 40]), Some([140, 95, 50]), Some([120, 80, 40]), Some([100, 65, 30]), Some([120, 80, 40]),
        Some([140, 95, 50]), Some([140, 95, 50]), Some([140, 95, 50]), Some([140, 95, 50]), Some([140, 95, 50]), Some([140, 95, 50]), Some([140, 95, 50]), Some([140, 95, 50]),
    ])
}

/// Pixels of the pit tile (dark void with subtle purple), row-major.
pub open spec fn pit_tile_pixels() -> Seq<Option<Color>> {
    let p = Some([15u8, 10, 20]);
    let q = Some([10u8, 5, 15]);
    seq![
        p, q, p, p, q, p, q, p,
        q, p, q, p, p, q, p, p,
        p, p, p, q, p, p, q, q,
        q, p, q, p, q, p, p, p,
        p, q, p, p, p, q, p, q,
        p, p, q, p, q, p, q, p,
        q, p, p, q, p, p, p, q,
        p, q, p, p, q, p, q, p,
    ]
}

/// The pit tile (dark void with subtle purple), 8x8.
pub fn pit_tile() -> (s: SpriteData)
    ensures
        s.wf(),
        s.width == 8,
        s.height == 8,
        s.pixels@ == pit_tile_pixels(),
{
    SpriteData::new(8, 8, &[
        Some([15, 10, 20]), Some([10, 5, 15]), Some([15, 10, 20]), Some([15, 10, 20]), Some([10, 5, 15]), Some([15, 10, 20]), Some([10, 5, 15]), Some([15, 10, 20]),
        Some([10, 5, 15]), Some([15, 10, 20]), Some([10, 5, 15]), Some([15, 10, 20]), Some([15, 10, 20]), Some([10, 5, 15]), Some([15, 10, 20]), Some([15, 10, 20]),
        Some([15, 10, 20]), Some([15, 10, 20]), Some([15, 10, 20]), Some([10, 5, 15]), Some([15, 10, 20]), Some([15, 10, 20]), Some([10, 5, 15]), Some([10, 5, 15]),
        Some([10, 5, 15]), Some([15, 10, 20]), Some([10, 5, 15]), Some([15, 10, 20]), Some([10, 5, 15]), Some([15, 10, 20]), Some([15, 10, 20]), Some([15, 10, 20]),
        Some([15, 10, 20]), Some([10, 5, 15]), Some([15, 10, 20]), Some([15, 10, 20]), Some([15, 10, 20]), Some([10, 5, 15]), Some([15, 10, 20]), Some([10, 5, 15]),
        Some([15, 10, 20]), Some([15, 10, 20]), Some([10, 5, 15]), Some([15, 10, 20]), Some([10, 5, 15]), Some([15, 10, 20]), Some([10, 5, 15]), Some([15, 10, 20]),
        Some([10, 5, 15]), Some([15, 10, 20]), Some([15, 10, 20]), Some([10, 5, 15]), Some([15, 10, 20]), Some([15, 10, 20]), Some([15, 10, 20]), Some([10, 5, 15]),
        Some([15, 10, 20]), Some([10, 5, 15]), Some([15, 10, 20]), Some([15, 10, 20]), Some([10, 5, 15]), Some([15, 10, 20]), Some([10, 5, 15]), Some([15, 10, 20]),
    ])
}

/// Pixels of the sprite drawn for a tile; both door states use the door planks.
pub open spec fn tile_pixels(tile: TileType) -> Seq<Option<Color>> {
    match tile {
        TileType::Floor => floor_tile_pixels(),
        TileType::Wall => wall_tile_pixels(),
        TileType::WallTop => wall_top_tile_pixels(),
        TileType::DoorClosed => door_tile_pixels(),
        TileType::DoorOpen => door_tile_pixels(),
        TileType::Pit => pit_tile_pixels(),
    }
}

/// Map a TileType to its 8x8 sprite. Used as the tile lookup for render_tilemap.
pub fn tile_sprite(tile: TileType) -> (s: SpriteData)
    ensures
        s.wf(),
        s.width == 8,
        s.height == 8,
        s.pixels@ == tile_pixels(tile),
{
    match tile {
        TileType::Floor => floor_tile(),
        TileType::Wall => wall_tile(),
        TileType::WallTop => wall_top_tile(),
        TileType::DoorClosed => door_tile(),
        TileType::DoorOpen => door_tile(),
        TileType::Pit => pit_tile(),
    }
}

} // verus!
