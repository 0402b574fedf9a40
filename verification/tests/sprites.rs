use cryptfall::engine::sprite::SpriteData;
use cryptfall::engine::tilemap::TileType;
use cryptfall::game::boon_select::{boon_icon, rarity_color, rarity_label};
use cryptfall::game::boons::{BoonId, Rarity};
use cryptfall::game::sprites::effects::{heart_empty, heart_full};
use cryptfall::game::tiles::tile_sprite;

fn check_shape(s: &SpriteData, w: usize, h: usize) {
    assert_eq!(s.width, w);
    assert_eq!(s.height, h);
    assert_eq!(s.pixels.len(), w * h);
}

#[test]
fn tile_sprites_are_eight_by_eight() {
    for t in [TileType::Floor, TileType::Wall, TileType::WallTop, TileType::DoorClosed, TileType::DoorOpen, TileType::Pit] {
        check_shape(&tile_sprite(t), 8, 8);
    }
    assert_eq!(tile_sprite(TileType::Pit).get_pixel(0, 0), Some([15, 10, 20]));
    assert_eq!(tile_sprite(TileType::DoorClosed).get_pixel(4, 0), Some([140, 95, 50]));
    assert_eq!(tile_sprite(TileType::WallTop).get_pixel(8, 0), None);
}

#[test]
fn boon_icons_are_eight_by_eight() {
    let icon = boon_icon(BoonId::SharpenedBlade);
    check_shape(&icon, 8, 8);
    assert_eq!(icon.get_pixel(6, 0), Some([230, 230, 240]));
    assert_eq!(icon.get_pixel(0, 0), None);
    check_shape(&boon_icon(BoonId::DeathsBargain), 8, 8);
}

#[test]
fn hearts() {
    check_shape(&heart_full(), 5, 5);
    check_shape(&heart_empty(), 5, 5);
    assert_eq!(heart_full().get_pixel(2, 4), Some([160, 20, 20]));
    assert_eq!(heart_empty().get_pixel(2, 4), Some([50, 50, 50]));
}

#[test]
fn rarity_cards() {
    assert_eq!(rarity_color(Rarity::Common), [200, 200, 200]);
    assert_eq!(rarity_color(Rarity::Rare), [80, 120, 255]);
    assert_eq!(rarity_color(Rarity::Legendary), [255, 200, 50]);
    assert_eq!(rarity_label(Rarity::Legendary), "LEGEND");
}
