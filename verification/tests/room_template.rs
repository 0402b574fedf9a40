use cryptfall::engine::tilemap::TileType;
use cryptfall::game::dungeon::room_template::{parse_template, Direction, RoomType};

#[test]
fn parse_simple_room() {
    let layout = &[
        "WWWWW",
        "W...W",
        "W.P.W",
        "W...W",
        "WWDWW",
    ];
    let room = parse_template(layout, RoomType::Start);
    assert_eq!(room.width, 5);
    assert_eq!(room.height, 5);
    assert_eq!(room.player_spawn, Some((2, 2)));
    assert_eq!(room.entry_points.len(), 1);
    assert_eq!(room.entry_points[0].direction, Direction::South);
    // Tile at (2,0): top row, middle — below is Floor at (2,1), so becomes WallTop
    assert_eq!(room.tiles[2], TileType::WallTop);
    // Tile at (0,0): corner — below is Wall at (0,1), stays Wall
    assert_eq!(room.tiles[0], TileType::Wall);
}

#[test]
fn spawn_groups() {
    let layout = &[
        "WWWWW",
        "W0.1W",
        "W.S.W",
        "WWWWW",
    ];
    let room = parse_template(layout, RoomType::Combat);
    assert_eq!(room.spawn_points.len(), 3);
    assert_eq!(room.spawn_points[0].group, 0);
    assert_eq!(room.spawn_points[1].group, 1);
    assert_eq!(room.spawn_points[2].group, 0); // 'S' defaults to 0
}

#[test]
fn door_directions() {
    let layout = &[
        "WWDWW",
        "D...D",
        "W...W",
        "WWDWW",
    ];
    let room = parse_template(layout, RoomType::Combat);
    assert_eq!(room.entry_points.len(), 4);

    let dirs: Vec<Direction> = room.entry_points.iter().map(|e| e.direction).collect();
    assert!(dirs.contains(&Direction::North));
    assert!(dirs.contains(&Direction::South));
    assert!(dirs.contains(&Direction::East));
    assert!(dirs.contains(&Direction::West));
}
