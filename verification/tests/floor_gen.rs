use cryptfall::game::dungeon::floor_gen::{generate_floor, FloorConfig};
use cryptfall::game::dungeon::graph::all_reachable;
use cryptfall::game::dungeon::room_template::RoomType;

#[test]
fn floor_room_count_in_range() {
    let layout = generate_floor(1, 12345);
    let config = FloorConfig::from_floor(1);
    assert!(
        layout.rooms.len() >= config.min_rooms,
        "Too few rooms: {} < {}",
        layout.rooms.len(),
        config.min_rooms
    );
    assert!(
        layout.rooms.len() <= config.max_rooms,
        "Too many rooms: {} > {}",
        layout.rooms.len(),
        config.max_rooms
    );
}

#[test]
fn start_room_at_origin() {
    let layout = generate_floor(1, 42);
    assert_eq!(layout.rooms[0].room_type, RoomType::Start);
    assert_eq!(layout.rooms[0].grid_x, 0);
    assert_eq!(layout.rooms[0].grid_y, 0);
    assert!(layout.rooms[0].discovered);
    assert!(layout.rooms[0].cleared);
}

#[test]
fn boss_and_exit_exist() {
    let layout = generate_floor(1, 99999);
    let has_boss = layout.rooms.iter().any(|r| r.room_type == RoomType::Boss);
    let has_exit = layout.rooms.iter().any(|r| r.room_type == RoomType::Exit);
    assert!(has_boss, "Floor must have a boss room");
    assert!(has_exit, "Floor must have an exit room");
}

#[test]
fn no_duplicate_grid_positions() {
    let layout = generate_floor(1, 77777);
    let positions: Vec<(i32, i32)> = layout
        .rooms
        .iter()
        .map(|r| (r.grid_x, r.grid_y))
        .collect();
    for (i, pos) in positions.iter().enumerate() {
        for (j, other) in positions.iter().enumerate() {
            if i != j {
                assert_ne!(
                    pos, other,
                    "Rooms {} and {} share grid position {:?}",
                    i, j, pos
                );
            }
        }
    }
}

#[test]
fn all_rooms_reachable_from_start() {
    let layout = generate_floor(1, 55555);
    assert!(
        all_reachable(&layout.connections, layout.rooms.len(), 0),
        "All rooms must be reachable from the start room"
    );
}

#[test]
fn deterministic_with_same_seed() {
    let layout_a = generate_floor(1, 31337);
    let layout_b = generate_floor(1, 31337);

    assert_eq!(layout_a.rooms.len(), layout_b.rooms.len());
    assert_eq!(layout_a.connections.len(), layout_b.connections.len());

    for (a, b) in layout_a.rooms.iter().zip(layout_b.rooms.iter()) {
        assert_eq!(a.grid_x, b.grid_x);
        assert_eq!(a.grid_y, b.grid_y);
        assert_eq!(a.room_type, b.room_type);
    }

    for (a, b) in layout_a.connections.iter().zip(layout_b.connections.iter()) {
        assert_eq!(a, b);
    }
}

#[test]
fn different_seeds_produce_different_layouts() {
    let layout_a = generate_floor(1, 100);
    let layout_b = generate_floor(1, 200);

    // At minimum, positions or room count should differ
    let positions_a: Vec<(i32, i32)> = layout_a
        .rooms
        .iter()
        .map(|r| (r.grid_x, r.grid_y))
        .collect();
    let positions_b: Vec<(i32, i32)> = layout_b
        .rooms
        .iter()
        .map(|r| (r.grid_x, r.grid_y))
        .collect();
    // Very unlikely for two random seeds to produce identical layouts
    assert!(
        positions_a != positions_b || layout_a.rooms.len() != layout_b.rooms.len(),
        "Different seeds should generally produce different layouts"
    );
}

#[test]
fn higher_floors_have_more_rooms() {
    let config_1 = FloorConfig::from_floor(1);
    let config_5 = FloorConfig::from_floor(5);
    assert!(config_5.min_rooms > config_1.min_rooms);
    assert!(config_5.max_rooms > config_1.max_rooms);
    assert!(config_5.enemy_count_mult_milli > config_1.enemy_count_mult_milli);
    assert!(config_5.enemy_hp_mult_milli > config_1.enemy_hp_mult_milli);
}

#[test]
fn floor_config_caps() {
    let config = FloorConfig::from_floor(100);
    assert_eq!(config.min_rooms, 12);
    assert_eq!(config.max_rooms, 15);
}

#[test]
fn multiple_seeds_all_valid() {
    // Generate floors with many different seeds to stress test
    for seed in 0..50u64 {
        let layout = generate_floor(1, seed);
        assert!(layout.rooms.len() >= 5, "Seed {} produced too few rooms", seed);
        assert!(
            layout.rooms.iter().any(|r| r.room_type == RoomType::Boss),
            "Seed {} missing boss room",
            seed
        );
        assert!(
            layout.rooms.iter().any(|r| r.room_type == RoomType::Exit),
            "Seed {} missing exit room",
            seed
        );
        assert!(
            all_reachable(&layout.connections, layout.rooms.len(), 0),
            "Seed {} has unreachable rooms",
            seed
        );
    }
}
