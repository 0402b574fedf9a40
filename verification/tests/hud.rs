use cryptfall::engine::framebuffer::FrameBuffer;
use cryptfall::game::dungeon::floor_gen::{FloorLayout, PlacedRoom};
use cryptfall::game::dungeon::room_template::RoomType;
use cryptfall::game::dungeon::templates::{arena, start_room};
use cryptfall::game::hud::{
    draw_aabb_outline, get_digits, render_boss_bar, render_hearts, render_minimap, room_color,
};

#[test]
fn digits_of_zero_and_negatives() {
    assert_eq!(get_digits(0), ([0, 0, 0, 0, 0], 1));
    assert_eq!(get_digits(-5), ([0, 0, 0, 0, 0], 1));
}

#[test]
fn digits_most_significant_first() {
    assert_eq!(get_digits(7), ([7, 0, 0, 0, 0], 1));
    assert_eq!(get_digits(42), ([4, 2, 0, 0, 0], 2));
    assert_eq!(get_digits(305), ([3, 0, 5, 0, 0], 3));
    assert_eq!(get_digits(12345), ([1, 2, 3, 4, 5], 5));
}

#[test]
fn digits_keep_only_the_low_five() {
    assert_eq!(get_digits(123456), ([2, 3, 4, 5, 6], 5));
    assert_eq!(get_digits(100000), ([0, 0, 0, 0, 0], 5));
    assert_eq!(get_digits(i32::MAX), ([8, 3, 6, 4, 7], 5));
}

#[test]
fn room_colors_by_type() {
    assert_eq!(room_color(RoomType::Start, false), [200, 200, 200]);
    assert_eq!(room_color(RoomType::Combat, false), [100, 100, 100]);
    assert_eq!(room_color(RoomType::Combat, true), [140, 140, 140]);
    assert_eq!(room_color(RoomType::Treasure, true), [200, 180, 50]);
    assert_eq!(room_color(RoomType::Shop, false), [50, 180, 50]);
    assert_eq!(room_color(RoomType::Boss, false), [200, 50, 50]);
    assert_eq!(room_color(RoomType::Exit, false), [50, 100, 200]);
    assert_eq!(room_color(RoomType::Corridor, false), [70, 70, 70]);
    assert_eq!(room_color(RoomType::Corridor, true), [90, 90, 90]);
}

#[test]
fn hearts_full_then_empty() {
    let mut fb = FrameBuffer::new(20, 5);
    render_hearts(&mut fb, 2, 3, 0, 0);
    // top row of a heart: transparent, color, transparent, color, transparent
    assert_eq!(fb.get_pixel(0, 0), None);
    assert_eq!(fb.get_pixel(1, 0), Some([220, 30, 30]));
    assert_eq!(fb.get_pixel(7, 0), Some([220, 30, 30]));
    assert_eq!(fb.get_pixel(13, 0), Some([80, 80, 80]));
    assert_eq!(fb.get_pixel(13, 1), Some([50, 50, 50]));
    // hearts are 6 pixels apart: nothing past the third
    assert_eq!(fb.get_pixel(19, 1), None);
    assert_eq!(fb.get_pixel(18, 2), None);
}

#[test]
fn hearts_none_for_nonpositive_max() {
    let mut fb = FrameBuffer::new(20, 5);
    render_hearts(&mut fb, 3, 0, 0, 0);
    render_hearts(&mut fb, 3, -4, 0, 0);
    for x in 0..20 {
        for y in 0..10 {
            assert_eq!(fb.get_pixel(x, y), None);
        }
    }
}

#[test]
fn boss_bar_layout() {
    let mut fb = FrameBuffer::new(60, 10);
    render_boss_bar(&mut fb, "ACE", 20);
    // bar spans x in 10..50, y in 10..13
    assert_eq!(fb.get_pixel(10, 10), Some([200, 30, 30]));
    assert_eq!(fb.get_pixel(28, 11), Some([200, 30, 30]));
    assert_eq!(fb.get_pixel(29, 12), Some([255, 80, 80]));
    assert_eq!(fb.get_pixel(30, 10), Some([40, 10, 10]));
    assert_eq!(fb.get_pixel(49, 12), Some([40, 10, 10]));
    // frame
    assert_eq!(fb.get_pixel(9, 9), Some([100, 50, 50]));
    assert_eq!(fb.get_pixel(50, 13), Some([100, 50, 50]));
    assert_eq!(fb.get_pixel(9, 11), Some([100, 50, 50]));
    assert_eq!(fb.get_pixel(51, 11), None);
    // name centered: width 11, starts at x = 24, y = 3; the top row of 'A' is set in its middle
    assert_eq!(fb.get_pixel(25, 3), Some([200, 180, 150]));
    assert_eq!(fb.get_pixel(24, 3), None);
    assert_eq!(fb.get_pixel(24, 4), Some([200, 180, 150]));
}

#[test]
fn boss_bar_empty_fill_has_no_red() {
    let mut fb = FrameBuffer::new(60, 10);
    render_boss_bar(&mut fb, "", 0);
    for x in 10..50 {
        assert_eq!(fb.get_pixel(x, 11), Some([40, 10, 10]));
    }
}

#[test]
fn outline_of_box() {
    let mut fb = FrameBuffer::new(10, 5);
    draw_aabb_outline(&mut fb, 2, 2, 5, 4, [9, 9, 9]);
    assert_eq!(fb.get_pixel(2, 2), Some([9, 9, 9]));
    assert_eq!(fb.get_pixel(5, 2), Some([9, 9, 9]));
    assert_eq!(fb.get_pixel(3, 4), Some([9, 9, 9]));
    assert_eq!(fb.get_pixel(5, 3), Some([9, 9, 9]));
    assert_eq!(fb.get_pixel(3, 3), None);
    assert_eq!(fb.get_pixel(6, 2), None);
    // off-screen corners are clipped
    draw_aabb_outline(&mut fb, -3, -3, i32::MAX, 1, [1, 1, 1]);
    assert_eq!(fb.get_pixel(0, 1), Some([1, 1, 1]));
    assert_eq!(fb.get_pixel(9, 1), Some([1, 1, 1]));
}

fn two_room_floor(discover_second: bool) -> FloorLayout {
    let first = PlacedRoom {
        template: start_room(),
        grid_x: 0,
        grid_y: 0,
        room_type: RoomType::Start,
        cleared: true,
        discovered: true,
    };
    let second = PlacedRoom {
        template: arena(),
        grid_x: 1,
        grid_y: 0,
        room_type: RoomType::Combat,
        cleared: false,
        discovered: discover_second,
    };
    FloorLayout { rooms: vec![first, second], connections: vec![(0, 1)], floor_number: 1 }
}

#[test]
fn minimap_draws_current_room_and_dim_neighbor() {
    let mut fb = FrameBuffer::new(40, 10);
    let floor = two_room_floor(false);
    render_minimap(&mut fb, &floor, 0, true);
    // backdrop from (24, 2)
    assert_eq!(fb.get_pixel(37, 7), Some([15, 15, 20]));
    assert_eq!(fb.get_pixel(38, 7), None);
    // start room block at (25, 3), framed in white
    assert_eq!(fb.get_pixel(27, 4), Some([200, 200, 200]));
    assert_eq!(fb.get_pixel(24, 2), Some([255, 255, 255]));
    assert_eq!(fb.get_pixel(30, 4), Some([255, 255, 255]));
    // undiscovered neighbour: dim outline at (31, 3)..(35, 5)
    assert_eq!(fb.get_pixel(31, 4), Some([40, 40, 45]));
    assert_eq!(fb.get_pixel(35, 3), Some([40, 40, 45]));
    // the connection shows through the outline's middle, dimmed
    assert_eq!(fb.get_pixel(32, 4), Some([30, 30, 35]));
    assert_eq!(fb.get_pixel(32, 6), Some([15, 15, 20]));
}

#[test]
fn minimap_discovered_neighbor_is_filled() {
    let mut fb = FrameBuffer::new(40, 10);
    let floor = two_room_floor(true);
    render_minimap(&mut fb, &floor, 1, true);
    assert_eq!(fb.get_pixel(32, 4), Some([100, 100, 100]));
    assert_eq!(fb.get_pixel(27, 4), Some([200, 200, 200]));
    assert_eq!(fb.get_pixel(30, 4), Some([255, 255, 255]));
    assert_eq!(fb.get_pixel(36, 4), Some([255, 255, 255]));
}

#[test]
fn minimap_hidden_draws_nothing() {
    let mut fb = FrameBuffer::new(40, 10);
    let floor = two_room_floor(false);
    render_minimap(&mut fb, &floor, 0, false);
    for x in 0..40 {
        for y in 0..20 {
            assert_eq!(fb.get_pixel(x, y), None);
        }
    }
}

#[test]
fn minimap_without_discovered_rooms_draws_nothing() {
    let mut fb = FrameBuffer::new(40, 10);
    let mut floor = two_room_floor(false);
    floor.rooms[0].discovered = false;
    render_minimap(&mut fb, &floor, 0, true);
    for x in 0..40 {
        for y in 0..20 {
            assert_eq!(fb.get_pixel(x, y), None);
        }
    }
}

#[test]
fn test_render_number_digits_four_apart() {
    let mut fb = FrameBuffer::new(40, 10);
    cryptfall::game::hud::render_number(&mut fb, 307, 1, 2, [9, 9, 9]);
    let mut expected = FrameBuffer::new(40, 10);
    cryptfall::game::sprites::font::render_digit(&mut expected, 3, 1, 2, [9, 9, 9]);
    cryptfall::game::sprites::font::render_digit(&mut expected, 0, 5, 2, [9, 9, 9]);
    cryptfall::game::sprites::font::render_digit(&mut expected, 7, 9, 2, [9, 9, 9]);
    for y in 0..20 {
        for x in 0..40 {
            assert_eq!(fb.get_pixel(x, y), expected.get_pixel(x, y), "pixel ({}, {})", x, y);
        }
    }
    let mut zero = FrameBuffer::new(40, 10);
    cryptfall::game::hud::render_number(&mut zero, -4, 1, 2, [9, 9, 9]);
    let mut z = FrameBuffer::new(40, 10);
    cryptfall::game::sprites::font::render_digit(&mut z, 0, 1, 2, [9, 9, 9]);
    for y in 0..20 {
        for x in 0..40 {
            assert_eq!(zero.get_pixel(x, y), z.get_pixel(x, y));
        }
    }
}
