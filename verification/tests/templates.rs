use cryptfall::game::dungeon::room_template::RoomType;
use cryptfall::game::dungeon::templates::{all_templates, arena, boss_arena, corridor_h, corridor_v, exit_room, pillared_hall, start_room};

#[test]
fn all_templates_parse_without_panic() {
    let templates = all_templates();
    assert_eq!(templates.len(), 10);
}

#[test]
fn start_room_has_player_spawn() {
    let room = start_room();
    assert_eq!(room.room_type, RoomType::Start);
    assert!(room.player_spawn.is_some());
    assert_eq!(room.entry_points.len(), 1);
}

#[test]
fn arena_has_four_entries() {
    let room = arena();
    assert_eq!(room.room_type, RoomType::Combat);
    assert_eq!(room.entry_points.len(), 4);
    assert_eq!(room.spawn_points.len(), 6);
}

#[test]
fn pillared_hall_dimensions() {
    let room = pillared_hall();
    assert_eq!(room.width, 20);
    assert_eq!(room.height, 14);
    assert_eq!(room.entry_points.len(), 4);
    assert_eq!(room.spawn_points.len(), 8);
}

#[test]
fn corridor_h_dimensions() {
    let room = corridor_h();
    assert_eq!(room.width, 18);
    assert_eq!(room.height, 6);
    assert_eq!(room.spawn_points.len(), 2);
}

#[test]
fn corridor_v_dimensions() {
    let room = corridor_v();
    assert_eq!(room.width, 6);
    assert_eq!(room.height, 18);
    assert_eq!(room.spawn_points.len(), 2);
}

#[test]
fn boss_arena_is_large() {
    let room = boss_arena();
    assert_eq!(room.width, 26);
    assert_eq!(room.height, 20);
    assert_eq!(room.room_type, RoomType::Boss);
    assert_eq!(room.entry_points.len(), 1);
}

#[test]
fn exit_room_has_exit_marker() {
    let room = exit_room();
    assert_eq!(room.room_type, RoomType::Exit);
    // Exit marker stored as player_spawn for Exit rooms
    assert!(room.player_spawn.is_some());
}

#[test]
fn template_tile_counts_match_dimensions() {
    for template in all_templates() {
        assert_eq!(
            template.tiles.len(),
            template.width * template.height,
            "Tile count mismatch for {:?} room ({}x{})",
            template.room_type,
            template.width,
            template.height,
        );
    }
}
