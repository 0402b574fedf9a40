use cryptfall::engine::framebuffer::FrameBuffer;
use cryptfall::engine::tilemap::{render_tilemap, TileMap, TileType, TILE_SIZE};
use cryptfall::game::dungeon::world::set_doors;
use cryptfall::game::tiles::tile_sprite;

#[test]
fn get_and_set_tiles() {
    let mut map = TileMap::new(3, 2);
    assert_eq!(map.get(2, 1), TileType::Floor);
    map.set(2, 1, TileType::Pit);
    assert_eq!(map.get(2, 1), TileType::Pit);
    // out of bounds reads as wall and writes are ignored
    assert_eq!(map.get(3, 0), TileType::Wall);
    map.set(3, 0, TileType::Pit);
    assert_eq!(map.get(3, 0), TileType::Wall);
    assert!(map.is_solid(5, 5));
    assert!(!map.is_solid(0, 0));
    assert_eq!(map.pixel_width(), 3 * TILE_SIZE);
    assert_eq!(map.pixel_height(), 2 * TILE_SIZE);
    assert_eq!(map.dims(), (3, 2));
}

#[test]
fn doors_open_and_close() {
    let mut map = TileMap::new(3, 3);
    map.set(1, 0, TileType::DoorClosed);
    map.set(2, 2, TileType::Wall);
    set_doors(&mut map, true);
    assert_eq!(map.get(1, 0), TileType::DoorOpen);
    assert_eq!(map.get(2, 2), TileType::Wall);
    set_doors(&mut map, true);
    assert_eq!(map.get(1, 0), TileType::DoorOpen);
    set_doors(&mut map, false);
    assert_eq!(map.get(1, 0), TileType::DoorClosed);
    assert_eq!(map.get(0, 0), TileType::Floor);
}

#[test]
fn tiles_drawn_from_the_camera() {
    let mut map = TileMap::new(4, 2);
    map.set(1, 0, TileType::Wall);
    let mut fb = FrameBuffer::new(16, 8);
    render_tilemap(&mut fb, &map, tile_sprite, 0, 0);
    // floor tile, top row: A A A C ...
    assert_eq!(fb.get_pixel(0, 0), Some([45, 45, 50]));
    assert_eq!(fb.get_pixel(3, 0), Some([35, 35, 40]));
    // wall tile at tile (1, 0): top row D D D E ...
    assert_eq!(fb.get_pixel(8, 0), Some([60, 55, 50]));
    assert_eq!(fb.get_pixel(11, 0), Some([50, 45, 40]));
    // camera shifted by one tile: the wall now starts at x = 0
    let mut fb2 = FrameBuffer::new(16, 8);
    render_tilemap(&mut fb2, &map, tile_sprite, 8, 0);
    assert_eq!(fb2.get_pixel(0, 0), Some([60, 55, 50]));
    // below the map nothing is drawn
    assert_eq!(fb.get_pixel(0, 15), Some([45, 45, 50]));
    let mut fb3 = FrameBuffer::new(16, 16);
    render_tilemap(&mut fb3, &map, tile_sprite, 0, 0);
    assert_eq!(fb3.get_pixel(0, 16), None);
    assert_eq!(fb3.get_pixel(0, 20), None);
}

#[test]
fn tiles_drawn_with_partial_offset() {
    let map = TileMap::new(4, 4);
    let mut fb = FrameBuffer::new(8, 4);
    render_tilemap(&mut fb, &map, tile_sprite, 3, 0);
    // pixel (0, 0) shows column 3 of the first floor tile: mortar
    assert_eq!(fb.get_pixel(0, 0), Some([35, 35, 40]));
}

#[test]
fn test_any_solid_clips_to_the_map() {
    let mut map = TileMap::new(6, 4);
    map.set(3, 2, TileType::Wall);
    assert!(map.any_solid(0, 0, 5, 3));
    assert!(map.any_solid(3, 2, 3, 2));
    assert!(!map.any_solid(0, 0, 2, 3));
    assert!(!map.any_solid(4, 0, 100, 100));
    assert!(map.any_solid(-5, -5, 3, 2), "negative corners are clipped to the map");
    assert!(!map.any_solid(5, 3, 1, 1), "an empty range holds nothing");
    map.set(0, 0, TileType::WallTop);
    assert!(map.any_solid(-1, -1, 0, 0));
    map.set(0, 0, TileType::DoorClosed);
    assert!(!map.any_solid(-1, -1, 0, 0), "doors do not block");
}
