use cryptfall::engine::tilemap::TileType;
use cryptfall::game::dungeon::room_template::{Direction, RoomType};
use cryptfall::game::dungeon::world::{
    transition_step, DungeonWorld, SpawnAnchor, TransitionEvent, TransitionPhase,
};

#[test]
fn transition_runs_fade_out_load_fade_in() {
    let s = transition_step(TransitionPhase::FadeOut, false);
    assert_eq!(s.phase, Some(TransitionPhase::FadeOut));
    assert_eq!(s.event, None);
    assert!(!s.reset_timer);
    let s = transition_step(TransitionPhase::FadeOut, true);
    assert_eq!(s.phase, Some(TransitionPhase::Load));
    assert_eq!(s.event, Some(TransitionEvent::SwapRoom));
    assert!(s.reset_timer);
    let s = transition_step(TransitionPhase::Load, false);
    assert_eq!(s.phase, Some(TransitionPhase::FadeIn));
    assert_eq!(s.event, None);
    assert!(s.reset_timer);
    let s = transition_step(TransitionPhase::FadeIn, false);
    assert_eq!(s.phase, Some(TransitionPhase::FadeIn));
    let s = transition_step(TransitionPhase::FadeIn, true);
    assert_eq!(s.phase, None);
    assert_eq!(s.event, Some(TransitionEvent::Complete));
}

fn neighbor_by_hand(w: &DungeonWorld, room: usize, dir: Direction) -> Option<usize> {
    let (dx, dy) = match dir {
        Direction::North => (0, -1),
        Direction::South => (0, 1),
        Direction::East => (1, 0),
        Direction::West => (-1, 0),
    };
    let r = &w.floor.rooms[room];
    for &(a, b) in &w.floor.connections {
        let other = if a == room {
            b
        } else if b == room {
            a
        } else {
            continue;
        };
        let o = &w.floor.rooms[other];
        if o.grid_x == r.grid_x + dx && o.grid_y == r.grid_y + dy {
            return Some(other);
        }
    }
    None
}

#[test]
fn new_world_starts_in_start_room() {
    let w = DungeonWorld::new(1, 42);
    assert_eq!(w.current_room_index, 0);
    assert_eq!(w.floor_number, 1);
    assert_eq!(w.current_room().room_type, RoomType::Start);
    assert!(!w.is_exit_room());
}

#[test]
fn connected_rooms_follow_grid_positions() {
    let w = DungeonWorld::new(2, 777);
    let dirs = [Direction::North, Direction::South, Direction::East, Direction::West];
    let mut found = 0;
    for room in 0..w.floor.rooms.len() {
        for &d in &dirs {
            let r = w.find_connected_room(room, d);
            assert_eq!(r, neighbor_by_hand(&w, room, d));
            if r.is_some() {
                found += 1;
            }
        }
    }
    // every connection is found from both ends
    assert_eq!(found, 2 * w.floor.connections.len());
}

#[test]
fn start_room_tilemap_has_open_doors() {
    let w = DungeonWorld::new(1, 42);
    let map = w.build_tilemap();
    let t = &w.current_room().template;
    assert_eq!(map.dims(), (t.width, t.height));
    let mut doors = 0;
    for y in 0..t.height {
        for x in 0..t.width {
            let tile = t.tiles[y * t.width + x];
            let expected = if tile == TileType::DoorClosed { TileType::DoorOpen } else { tile };
            assert_eq!(map.get(x, y), expected);
            if expected == TileType::DoorOpen {
                doors += 1;
            }
        }
    }
    assert!(doors > 0);
}

#[test]
fn uncleared_room_keeps_doors_closed() {
    let w = DungeonWorld::new(1, 42);
    let idx = (0..w.floor.rooms.len())
        .find(|&i| !w.floor.rooms[i].cleared && w.floor.rooms[i].room_type != RoomType::Start)
        .unwrap();
    let map = w.build_tilemap_for(idx);
    let t = &w.floor.rooms[idx].template;
    for y in 0..t.height {
        for x in 0..t.width {
            assert_eq!(map.get(x, y), t.tiles[y * t.width + x]);
        }
    }
}

#[test]
fn standing_on_the_start_door_leads_to_its_neighbor() {
    let w = DungeonWorld::new(1, 42);
    let map = w.build_tilemap();
    let ep = w.current_room().template.entry_points[0];
    let expected = w.find_connected_room(0, ep.direction);
    let hit = w.door_at_tile(&map, ep.x, ep.y);
    match expected {
        Some(room) => assert_eq!(hit, Some((room, ep.direction))),
        None => assert_eq!(hit, None),
    }
    // a floor tile is no door
    let (px, py) = w.current_room().template.player_spawn.unwrap();
    assert_eq!(w.door_at_tile(&map, px, py), None);
}

#[test]
fn marking_and_swapping_rooms() {
    let mut w = DungeonWorld::new(1, 42);
    let target = 1;
    assert!(!w.floor.rooms[target].discovered);
    w.mark_room_cleared(target);
    assert!(w.floor.rooms[target].cleared);
    w.swap_to_room(target);
    assert_eq!(w.current_room_index, target);
    assert!(w.floor.rooms[target].discovered);
}

#[test]
fn next_floor_and_reset() {
    let mut w = DungeonWorld::new(1, 42);
    w.next_floor();
    assert_eq!(w.floor_number, 2);
    assert_eq!(w.seed, 42 + 12345);
    assert_eq!(w.current_room_index, 0);
    assert_eq!(w.floor.floor_number, 2);
    let rooms = w.floor.rooms.len();
    w.swap_to_room(1);
    w.reset();
    assert_eq!(w.current_room_index, 0);
    assert_eq!(w.floor.rooms.len(), rooms);
    let mut far = DungeonWorld::new(3, u64::MAX);
    far.next_floor();
    assert_eq!(far.seed, 12344);
}

#[test]
fn spawn_anchor_choices() {
    let w = DungeonWorld::new(1, 42);
    let t = &w.current_room().template;
    let (sx, sy) = t.player_spawn.unwrap();
    assert_eq!(w.spawn_anchor(None), SpawnAnchor::Marker { x: sx, y: sy });
    let ep = t.entry_points[0];
    let from = match ep.direction {
        Direction::North => Direction::South,
        Direction::South => Direction::North,
        Direction::East => Direction::West,
        Direction::West => Direction::East,
    };
    assert_eq!(w.spawn_anchor(Some(from)), SpawnAnchor::Door { x: ep.x, y: ep.y, side: ep.direction });
    // the start room has a single door, so entering from any other side uses the marker
    assert_eq!(w.spawn_anchor(Some(ep.direction)), SpawnAnchor::Marker { x: sx, y: sy });
}

use cryptfall::game::dungeon::encounters::EncounterDifficulty;
use cryptfall::game::dungeon::world::RoomEntry;

#[test]
fn entering_rooms() {
    let mut w = DungeonWorld::new(1, 42);
    // the start room is cleared
    assert_eq!(w.room_entry(7), RoomEntry::Peaceful);
    let exit = (0..w.floor.rooms.len()).find(|&i| w.floor.rooms[i].room_type == RoomType::Exit).unwrap();
    w.swap_to_room(exit);
    assert_eq!(w.room_entry(7), RoomEntry::FloorClear);
    let boss = (0..w.floor.rooms.len()).find(|&i| w.floor.rooms[i].room_type == RoomType::Boss).unwrap();
    w.swap_to_room(boss);
    assert_eq!(
        w.room_entry(7),
        RoomEntry::Combat { difficulty: EncounterDifficulty::Boss, encounter_seed: 7 + boss as u64 * 31337 }
    );
    w.mark_room_cleared(boss);
    assert_eq!(w.room_entry(7), RoomEntry::Peaceful);
    if let Some(c) = (0..w.floor.rooms.len()).find(|&i| w.floor.rooms[i].room_type == RoomType::Combat) {
        w.swap_to_room(c);
        let n = w.floor.rooms[c].template.spawn_points.len();
        let d = if n <= 3 { EncounterDifficulty::Easy } else if n <= 6 { EncounterDifficulty::Medium } else { EncounterDifficulty::Hard };
        assert_eq!(w.room_entry(u64::MAX), RoomEntry::Combat { difficulty: d, encounter_seed: (c as u64 * 31337).wrapping_sub(1) });
    }
}

#[test]
fn test_rooms_discovered_counts_visits() {
    let mut world = DungeonWorld::new(1, 42);
    let start = world.rooms_discovered();
    assert_eq!(start, world.floor.rooms.iter().filter(|r| r.discovered).count());
    assert!(start >= 1, "the starting room is discovered");
    let undiscovered = (0..world.floor.rooms.len()).find(|&i| !world.floor.rooms[i].discovered);
    if let Some(i) = undiscovered {
        world.mark_room_discovered(i);
        assert_eq!(world.rooms_discovered(), start + 1);
        world.mark_room_discovered(i);
        assert_eq!(world.rooms_discovered(), start + 1);
    }
}

fn same_layout(a: &cryptfall::game::dungeon::floor_gen::FloorLayout, b: &cryptfall::game::dungeon::floor_gen::FloorLayout) -> bool {
    a.connections == b.connections
        && a.rooms.len() == b.rooms.len()
        && a.rooms.iter().zip(b.rooms.iter()).all(|(x, y)| {
            x.grid_x == y.grid_x && x.grid_y == y.grid_y && x.room_type == y.room_type
        })
}

#[test]
fn world_floor_comes_from_its_seed() {
    let mut world = DungeonWorld::new(2, 99);
    let expected = cryptfall::game::dungeon::floor_gen::generate_floor(2, 99);
    assert!(same_layout(&world.floor, &expected));
    world.reset();
    assert!(same_layout(&world.floor, &expected));
    world.next_floor();
    let next = cryptfall::game::dungeon::floor_gen::generate_floor(3, 99 + 12345);
    assert_eq!(world.floor_number, 3);
    assert!(same_layout(&world.floor, &next));
}
