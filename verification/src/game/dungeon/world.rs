use vstd::prelude::*;
use crate::engine::tilemap::{TileMap, TileType};
use crate::game::dungeon::floor_gen::{FloorLayout, PlacedRoom, generate_floor, generated_floor, floor_valid, opposite, opposite_spec, direction_offset, offset_spec};
use crate::game::dungeon::graph::conns_in_range;
use crate::game::dungeon::room_template::{Direction, EntryPoint, RoomType};
use crate::engine::sprite::lemma_index_in_grid;
use crate::game::dungeon::encounters::EncounterDifficulty;

verus! {

/// The phases of a room transition.
#[derive(Clone, Copy, Debug, PartialEq, Eq, Structural)]
pub enum TransitionPhase {
    FadeOut,
    Load,
    FadeIn,
}

/// What a transition tick reports when a phase boundary is crossed.
#[derive(Clone, Copy, Debug, PartialEq, Eq, Structural)]
pub enum TransitionEvent {
    SwapRoom,
    Complete,
}

/// The outcome of one transition tick.
#[derive(Clone, Copy, Debug, PartialEq, Eq, Structural)]
pub struct TransitionStep {
    /// The phase after the tick; None once the transition has finished.
    pub phase: Option<TransitionPhase>,
    /// Whether the phase timer starts again from zero.
    pub reset_timer: bool,
    pub event: Option<TransitionEvent>,
}

/// One tick of the transition state machine. `phase_done` says whether the timer has
/// reached the current phase's duration: fading out ends in a room swap, the load phase
/// passes straight to fading in, and fading in ends the transition.
pub fn transition_step(phase: TransitionPhase, phase_done: bool) -> (s: TransitionStep)
    ensures
        s == match phase {
            TransitionPhase::FadeOut => if phase_done {
                TransitionStep { phase: Some(TransitionPhase::Load), reset_timer: true, event: Some(TransitionEvent::SwapRoom) }
            } else {
                TransitionStep { phase: Some(TransitionPhase::FadeOut), reset_timer: false, event: None }
            },
            TransitionPhase::Load => TransitionStep { phase: Some(TransitionPhase::FadeIn), reset_timer: true, event: None },
            TransitionPhase::FadeIn => if phase_done {
                TransitionStep { phase: None, reset_timer: false, event: Some(TransitionEvent::Complete) }
            } else {
                TransitionStep { phase: Some(TransitionPhase::FadeIn), reset_timer: false, event: None }
            },
        },
{
    match phase {
        TransitionPhase::FadeOut => {
            if phase_done {
                TransitionStep { phase: Some(TransitionPhase::Load), reset_timer: true, event: Some(TransitionEvent::SwapRoom) }
            } else {
                TransitionStep { phase: Some(TransitionPhase::FadeOut), reset_timer: false, event: None }
            }
        },
        TransitionPhase::Load => TransitionStep { phase: Some(TransitionPhase::FadeIn), reset_timer: true, event: None },
        TransitionPhase::FadeIn => {
            if phase_done {
                TransitionStep { phase: None, reset_timer: false, event: Some(TransitionEvent::Complete) }
            } else {
                TransitionStep { phase: Some(TransitionPhase::FadeIn), reset_timer: false, event: None }
            }
        },
    }
}

/// A tile after all doors are opened (`open`) or closed.
pub open spec fn door_toggled(t: TileType, open: bool) -> TileType {
    if open && t == TileType::DoorClosed {
        TileType::DoorOpen
    } else if !open && t == TileType::DoorOpen {
        TileType::DoorClosed
    } else {
        t
    }
}

/// Toggle all door tiles in a tilemap between open and closed.
pub fn set_doors(tilemap: &mut TileMap, open: bool)
    requires
        old(tilemap).wf(),
    ensures
        final(tilemap).wf(),
        final(tilemap).cols() == old(tilemap).cols(),
        final(tilemap).rows() == old(tilemap).rows(),
        forall|x: int, y: int| #[trigger] final(tilemap).tile_at(x, y) == door_toggled(old(tilemap).tile_at(x, y), open),
{
    let (from, to) = if open {
        (TileType::DoorClosed, TileType::DoorOpen)
    } else {
        (TileType::DoorOpen, TileType::DoorClosed)
    };
    let ghost m0 = *tilemap;
    let (w, h) = tilemap.dims();
    let mut y: usize = 0;
    while y < h
        invariant
            tilemap.wf(),
            tilemap.cols() == m0.cols() == w,
            tilemap.rows() == m0.rows() == h,
            y <= h,
            from == (if open { TileType::DoorClosed } else { TileType::DoorOpen }),
            to == (if open { TileType::DoorOpen } else { TileType::DoorClosed }),
            forall|a: int, b: int| #[trigger] tilemap.tile_at(a, b) == if 0 <= b < y {
                door_toggled(m0.tile_at(a, b), open)
            } else {
                m0.tile_at(a, b)
            },
        decreases h - y,
    {
        let mut x: usize = 0;
        while x < w
            invariant
                tilemap.wf(),
                tilemap.cols() == m0.cols() == w,
                tilemap.rows() == m0.rows() == h,
                y < h,
                x <= w,
                from == (if open { TileType::DoorClosed } else { TileType::DoorOpen }),
                to == (if open { TileType::DoorOpen } else { TileType::DoorClosed }),
                forall|a: int, b: int| #[trigger] tilemap.tile_at(a, b) == if 0 <= b < y || (b == y && 0 <= a < x) {
                    door_toggled(m0.tile_at(a, b), open)
                } else {
                    m0.tile_at(a, b)
                },
            decreases w - x,
        {
            if tilemap.get(x, y) == from {
                tilemap.set(x, y, to);
            }
            x += 1;
        }
        assert forall|a: int, b: int| #[trigger] tilemap.tile_at(a, b) == if 0 <= b < y + 1 {
            door_toggled(m0.tile_at(a, b), open)
        } else {
            m0.tile_at(a, b)
        } by {
            if b == y && !(0 <= a < w) {
                m0.lemma_outside_is_wall(a, b);
                tilemap.lemma_outside_is_wall(a, b);
            }
        }
        y += 1;
    }
    assert forall|a: int, b: int| #[trigger] tilemap.tile_at(a, b) == door_toggled(m0.tile_at(a, b), open) by {
        if !(0 <= a < w && 0 <= b < h) {
            m0.lemma_outside_is_wall(a, b);
        }
    }
}

/// The room that connection `c` joins to room `i`, if it touches room `i`.
pub open spec fn other_end(c: (usize, usize), i: int) -> Option<usize> {
    if c.0 == i {
        Some(c.1)
    } else if c.1 == i {
        Some(c.0)
    } else {
        None
    }
}

/// Connection `c` joins room `i` to the room at grid cell (gx, gy).
pub open spec fn leads_to(rooms: Seq<PlacedRoom>, c: (usize, usize), i: int, gx: int, gy: int) -> bool {
    match other_end(c, i) {
        Some(o) => rooms[o as int].grid_x == gx && rooms[o as int].grid_y == gy,
        None => false,
    }
}

/// The room at grid cell (gx, gy) reached from room `i` through the first connection of
/// `conns` that leads there.
pub open spec fn first_link(rooms: Seq<PlacedRoom>, conns: Seq<(usize, usize)>, i: int, gx: int, gy: int) -> Option<usize>
    decreases conns.len(),
{
    if conns.len() == 0 {
        None
    } else if leads_to(rooms, conns[0], i, gx, gy) {
        other_end(conns[0], i)
    } else {
        first_link(rooms, conns.drop_first(), i, gx, gy)
    }
}

/// The room next to room `i` in direction `dir`, found through the floor's connections.
pub open spec fn neighbor_in(f: FloorLayout, i: int, dir: Direction) -> Option<usize> {
    let r = f.rooms@[i];
    first_link(f.rooms@, f.connections@, i, r.grid_x + offset_spec(dir).0, r.grid_y + offset_spec(dir).1)
}

/// The grid cell one step from room `i` in direction `dir` is in i32 range.
pub open spec fn step_fits(f: FloorLayout, i: int, dir: Direction) -> bool {
    &&& i32::MIN <= f.rooms@[i].grid_x + offset_spec(dir).0 <= i32::MAX
    &&& i32::MIN <= f.rooms@[i].grid_y + offset_spec(dir).1 <= i32::MAX
}

/// An entry point at (tx, ty), or (when `exact` is false) at or next to it.
pub open spec fn entry_near(ep: EntryPoint, tx: int, ty: int, exact: bool) -> bool {
    if exact {
        ep.x == tx && ep.y == ty
    } else {
        let dx = if ep.x >= tx { ep.x - tx } else { tx - ep.x };
        let dy = if ep.y >= ty { ep.y - ty } else { ty - ep.y };
        dx + dy <= 1
    }
}

/// The first entry point of `eps` near (tx, ty) whose direction leads to a connected room,
/// with that room.
pub open spec fn first_door(f: FloorLayout, i: int, eps: Seq<EntryPoint>, tx: int, ty: int, exact: bool) -> Option<(usize, Direction)>
    decreases eps.len(),
{
    if eps.len() == 0 {
        None
    } else if entry_near(eps[0], tx, ty, exact) && neighbor_in(f, i, eps[0].direction) is Some {
        Some((neighbor_in(f, i, eps[0].direction)->Some_0, eps[0].direction))
    } else {
        first_door(f, i, eps.drop_first(), tx, ty, exact)
    }
}

/// Where the player appears on entering a room.
#[derive(Clone, Copy, Debug, PartialEq, Eq, Structural)]
pub enum SpawnAnchor {
    /// Just inside the doorway at tile (x, y) on the given side of the room.
    Door { x: usize, y: usize, side: Direction },
    /// The template's player spawn marker.
    Marker { x: usize, y: usize },
    /// The middle of the room.
    Center,
}

/// The first entry point of `eps` on side `side`.
pub open spec fn first_on_side(eps: Seq<EntryPoint>, side: Direction) -> Option<EntryPoint>
    decreases eps.len(),
{
    if eps.len() == 0 {
        None
    } else if eps[0].direction == side {
        Some(eps[0])
    } else {
        first_on_side(eps.drop_first(), side)
    }
}

/// Manages the active dungeon: the current floor and which room the player is in.
pub struct DungeonWorld {
    pub floor: FloorLayout,
    pub current_room_index: usize,
    pub floor_number: u32,
    pub seed: u64,
}

/// How many of the rooms have been discovered.
pub open spec fn discovered_count(rooms: Seq<PlacedRoom>) -> nat
    decreases rooms.len(),
{
    if rooms.len() == 0 {
        0
    } else {
        discovered_count(rooms.drop_last()) + if rooms.last().discovered { 1nat } else { 0nat }
    }
}

proof fn lemma_discovered_count_bound(rooms: Seq<PlacedRoom>)
    ensures
        discovered_count(rooms) <= rooms.len(),
    decreases rooms.len(),
{
    if rooms.len() > 0 {
        lemma_discovered_count_bound(rooms.drop_last());
    }
}

impl DungeonWorld {
    /// The number of rooms of the floor discovered so far.
    pub fn rooms_discovered(&self) -> (n: usize)
        ensures
            n == discovered_count(self.floor.rooms@),
    {
        let mut n: usize = 0;
        let mut i: usize = 0;
        while i < self.floor.rooms.len()
            invariant
                i <= self.floor.rooms@.len(),
                n == discovered_count(self.floor.rooms@.take(i as int)),
            decreases self.floor.rooms@.len() - i,
        {
            proof {
                assert(self.floor.rooms@.take(i as int + 1).drop_last() =~= self.floor.rooms@.take(i as int));
                lemma_discovered_count_bound(self.floor.rooms@.take(i as int));
            }
            if self.floor.rooms[i].discovered {
                n += 1;
            }
            i += 1;
        }
        assert(self.floor.rooms@.take(self.floor.rooms@.len() as int) =~= self.floor.rooms@);
        n
    }

    /// A generated floor with the current room inside it.
    pub open spec fn wf(&self) -> bool {
        floor_valid(self.floor) && self.current_room_index < self.floor.rooms@.len()
    }

    pub fn new(floor_number: u32, seed: u64) -> (w: Self)
        ensures
            w.wf(),
            generated_floor(w.floor, floor_number, seed),
            w.floor.floor_number == floor_number,
            w.current_room_index == 0,
            w.floor_number == floor_number,
            w.seed == seed,
    {
        let floor = generate_floor(floor_number, seed);
        Self { floor, current_room_index: 0, floor_number, seed }
    }

    pub fn current_room(&self) -> (r: &PlacedRoom)
        requires
            self.current_room_index < self.floor.rooms@.len(),
        ensures
            *r == self.floor.rooms@[self.current_room_index as int],
    {
        &self.floor.rooms[self.current_room_index]
    }

    /// Build a TileMap from the current room's template.
    pub fn build_tilemap(&self) -> (m: TileMap)
        requires
            self.wf(),
        ensures
            m.wf(),
            Self::room_tilemap(self.floor.rooms@[self.current_room_index as int], m),
    {
        self.build_tilemap_for(self.current_room_index)
    }

    /// `m` is the tile map of `room`: its template's tiles, with every door open when the
    /// room is cleared or is the start room.
    pub open spec fn room_tilemap(room: PlacedRoom, m: TileMap) -> bool {
        let t = room.template;
        let open = room.cleared || room.room_type == RoomType::Start;
        &&& m.cols() == t.width
        &&& m.rows() == t.height
        &&& forall|x: int, y: int| 0 <= x < t.width && 0 <= y < t.height ==> #[trigger] m.tile_at(x, y) == if open {
            door_toggled(t.tiles@[y * t.width + x], true)
        } else {
            t.tiles@[y * t.width + x]
        }
    }

    /// Build a TileMap for a specific room index.
    pub fn build_tilemap_for(&self, room_index: usize) -> (m: TileMap)
        requires
            room_index < self.floor.rooms@.len(),
            self.floor.rooms@[room_index as int].template.tiles@.len() == self.floor.rooms@[room_index as int].template.width
                * self.floor.rooms@[room_index as int].template.height,
        ensures
            m.wf(),
            Self::room_tilemap(self.floor.rooms@[room_index as int], m),
    {
        let room = &self.floor.rooms[room_index];
        let template = &room.template;
        let w = template.width;
        let h = template.height;
        proof {
            assert(template.tiles@.len() == template.tiles.len());
        }
        let mut tilemap = TileMap::new(w, h);
        let mut y: usize = 0;
        while y < h
            invariant
                tilemap.wf(),
                tilemap.cols() == w,
                tilemap.rows() == h,
                template.tiles@.len() == w * h,
                w * h <= usize::MAX,
                y <= h,
                forall|a: int, b: int| 0 <= a < w && 0 <= b < h ==> #[trigger] tilemap.tile_at(a, b) == if b < y {
                    template.tiles@[b * w + a]
                } else {
                    TileType::Floor
                },
            decreases h - y,
        {
            let mut x: usize = 0;
            while x < w
                invariant
                    tilemap.wf(),
                    tilemap.cols() == w,
                    tilemap.rows() == h,
                    template.tiles@.len() == w * h,
                    w * h <= usize::MAX,
                    y < h,
                    x <= w,
                    forall|a: int, b: int| 0 <= a < w && 0 <= b < h ==> #[trigger] tilemap.tile_at(a, b) == if b < y || (b == y && a < x) {
                        template.tiles@[b * w + a]
                    } else {
                        TileType::Floor
                    },
                decreases w - x,
            {
                proof {
                    lemma_index_in_grid(x as int, y as int, w as int, h as int);
                }
                let tile = template.tiles[y * w + x];
                tilemap.set(x, y, tile);
                x += 1;
            }
            y += 1;
        }
        if room.cleared || room.room_type == RoomType::Start {
            set_doors(&mut tilemap, true);
        }
        tilemap
    }

    /// Find the room connected to `room_index` in the given direction.
    /// Uses grid positions to determine which connection matches the direction.
    pub fn find_connected_room(&self, room_index: usize, direction: Direction) -> (r: Option<usize>)
        requires
            room_index < self.floor.rooms@.len(),
            conns_in_range(self.floor.connections@, self.floor.rooms@.len() as int),
            step_fits(self.floor, room_index as int, direction),
        ensures
            r == neighbor_in(self.floor, room_index as int, direction),
    {
        let ghost rooms = self.floor.rooms@;
        let ghost conns = self.floor.connections@;
        let room = &self.floor.rooms[room_index];
        let (dx, dy) = direction_offset(direction);
        let target_x = room.grid_x + dx;
        let target_y = room.grid_y + dy;
        let n = self.floor.connections.len();
        let mut j: usize = 0;
        proof {
            assert(conns.subrange(0, n as int) =~= conns);
        }
        while j < n
            invariant
                rooms == self.floor.rooms@,
                conns == self.floor.connections@,
                n == conns.len(),
                conns_in_range(conns, rooms.len() as int),
                room_index < rooms.len(),
                target_x == rooms[room_index as int].grid_x + offset_spec(direction).0,
                target_y == rooms[room_index as int].grid_y + offset_spec(direction).1,
                j <= n,
                first_link(rooms, conns, room_index as int, target_x as int, target_y as int)
                    == first_link(rooms, conns.subrange(j as int, n as int), room_index as int, target_x as int, target_y as int),
            decreases n - j,
        {
            let (a, b) = self.floor.connections[j];
            proof {
                assert(conns.subrange(j as int, n as int).drop_first() =~= conns.subrange(j + 1, n as int));
                assert(conns.subrange(j as int, n as int)[0] == conns[j as int]);
            }
            let other = if a == room_index {
                b
            } else if b == room_index {
                a
            } else {
                j += 1;
                continue;
            };
            let other_room = &self.floor.rooms[other];
            if other_room.grid_x == target_x && other_room.grid_y == target_y {
                proof {
                    assert(leads_to(rooms, conns[j as int], room_index as int, target_x as int, target_y as int));
                    assert(first_link(rooms, conns.subrange(j as int, n as int), room_index as int, target_x as int, target_y as int) == Some(other));
                    assert(first_link(rooms, conns, room_index as int, target_x as int, target_y as int) == Some(other));
                }
                return Some(other);
            }
            j += 1;
        }
        None
    }

    /// The door the player stands on at tile (tx, ty), if it is an open door that leads to
    /// a connected room: an entry point on that tile, else one on a neighbouring tile
    /// (doors can span two tiles). Returns the connected room and the door's direction.
    pub fn door_at_tile(&self, tilemap: &TileMap, tx: usize, ty: usize) -> (r: Option<(usize, Direction)>)
        requires
            self.wf(),
            tilemap.wf(),
            forall|d: Direction| step_fits(self.floor, self.current_room_index as int, d),
        ensures
            r == if tilemap.tile_at(tx as int, ty as int) != TileType::DoorOpen {
                None
            } else {
                let eps = self.floor.rooms@[self.current_room_index as int].template.entry_points@;
                let i = self.current_room_index as int;
                match first_door(self.floor, i, eps, tx as int, ty as int, true) {
                    Some(hit) => Some(hit),
                    None => first_door(self.floor, i, eps, tx as int, ty as int, false),
                }
            },
    {
        if tilemap.get(tx, ty) != TileType::DoorOpen {
            return None;
        }
        let room = self.current_room();
        match self.scan_doors(&room.template.entry_points, tx, ty, true) {
            Some(hit) => Some(hit),
            None => self.scan_doors(&room.template.entry_points, tx, ty, false),
        }
    }

    /// The first entry point of `eps` near (tx, ty) that leads to a connected room.
    fn scan_doors(&self, eps: &Vec<EntryPoint>, tx: usize, ty: usize, exact: bool) -> (r: Option<(usize, Direction)>)
        requires
            self.wf(),
            forall|d: Direction| step_fits(self.floor, self.current_room_index as int, d),
        ensures
            r == first_door(self.floor, self.current_room_index as int, eps@, tx as int, ty as int, exact),
    {
        let ghost f = self.floor;
        let ghost i = self.current_room_index as int;
        let n = eps.len();
        let mut k: usize = 0;
        proof {
            assert(eps@.subrange(0, n as int) =~= eps@);
        }
        while k < n
            invariant
                self.wf(),
                f == self.floor,
                i == self.current_room_index,
                forall|d: Direction| step_fits(self.floor, self.current_room_index as int, d),
                n == eps@.len(),
                k <= n,
                first_door(f, i, eps@, tx as int, ty as int, exact)
                    == first_door(f, i, eps@.subrange(k as int, n as int), tx as int, ty as int, exact),
            decreases n - k,
        {
            let ep = eps[k];
            proof {
                assert(eps@.subrange(k as int, n as int).drop_first() =~= eps@.subrange(k + 1, n as int));
                assert(eps@.subrange(k as int, n as int)[0] == eps@[k as int]);
            }
            let near = if exact {
                ep.x == tx && ep.y == ty
            } else {
                let dx = if ep.x >= tx { ep.x - tx } else { tx - ep.x };
                let dy = if ep.y >= ty { ep.y - ty } else { ty - ep.y };
                dx <= 1 && dy <= 1 && dx + dy <= 1
            };
            if near {
                if let Some(connected) = self.find_connected_room(self.current_room_index, ep.direction) {
                    return Some((connected, ep.direction));
                }
            }
            k += 1;
        }
        None
    }

    /// Where the player appears in the current room. Entering through a door on side
    /// `from_direction`, the player appears at the first entry point on the opposite side;
    /// otherwise (or when there is none) at the template's spawn marker, else the center.
    pub fn spawn_anchor(&self, from_direction: Option<Direction>) -> (a: SpawnAnchor)
        requires
            self.current_room_index < self.floor.rooms@.len(),
        ensures
            ({
                let t = self.floor.rooms@[self.current_room_index as int].template;
                let door = match from_direction {
                    Some(d) => first_on_side(t.entry_points@, opposite_spec(d)),
                    None => None,
                };
                a == match door {
                    Some(ep) => SpawnAnchor::Door { x: ep.x, y: ep.y, side: ep.direction },
                    None => match t.player_spawn {
                        Some((x, y)) => SpawnAnchor::Marker { x, y },
                        None => SpawnAnchor::Center,
                    },
                }
            }),
    {
        let room = self.current_room();
        let eps = &room.template.entry_points;
        if let Some(dir) = from_direction {
            let enter_from = opposite(dir);
            let n = eps.len();
            let mut k: usize = 0;
            proof {
                assert(eps@.subrange(0, n as int) =~= eps@);
            }
            while k < n
                invariant
                    n == eps@.len(),
                    k <= n,
                    eps@ == self.floor.rooms@[self.current_room_index as int].template.entry_points@,
                    from_direction == Some(dir),
                    enter_from == opposite_spec(dir),
                    first_on_side(eps@, enter_from) == first_on_side(eps@.subrange(k as int, n as int), enter_from),
                decreases n - k,
            {
                proof {
                    assert(eps@.subrange(k as int, n as int).drop_first() =~= eps@.subrange(k + 1, n as int));
                    assert(eps@.subrange(k as int, n as int)[0] == eps@[k as int]);
                }
                let ep = eps[k];
                if ep.direction == enter_from {
                    return SpawnAnchor::Door { x: ep.x, y: ep.y, side: ep.direction };
                }
                k += 1;
            }
        }
        match room.template.player_spawn {
            Some((x, y)) => SpawnAnchor::Marker { x, y },
            None => SpawnAnchor::Center,
        }
    }

    /// Mark a room as cleared.
    pub fn mark_room_cleared(&mut self, room_index: usize)
        requires
            room_index < old(self).floor.rooms@.len(),
        ensures
            final(self).floor.rooms@ == old(self).floor.rooms@.update(
                room_index as int,
                PlacedRoom { cleared: true, ..old(self).floor.rooms@[room_index as int] },
            ),
            final(self).floor.connections@ == old(self).floor.connections@,
            final(self).floor.floor_number == old(self).floor.floor_number,
            final(self).current_room_index == old(self).current_room_index,
            final(self).floor_number == old(self).floor_number,
            final(self).seed == old(self).seed,
    {
        self.floor.rooms[room_index].cleared = true;
    }

    /// Mark a room as discovered.
    pub fn mark_room_discovered(&mut self, room_index: usize)
        requires
            room_index < old(self).floor.rooms@.len(),
        ensures
            final(self).floor.rooms@ == old(self).floor.rooms@.update(
                room_index as int,
                PlacedRoom { discovered: true, ..old(self).floor.rooms@[room_index as int] },
            ),
            final(self).floor.connections@ == old(self).floor.connections@,
            final(self).floor.floor_number == old(self).floor.floor_number,
            final(self).current_room_index == old(self).current_room_index,
            final(self).floor_number == old(self).floor_number,
            final(self).seed == old(self).seed,
    {
        self.floor.rooms[room_index].discovered = true;
    }

    /// Regenerate the floor (for restart on death).
    pub fn reset(&mut self)
        ensures
            final(self).wf(),
            generated_floor(final(self).floor, old(self).floor_number, old(self).seed),
            final(self).floor.floor_number == old(self).floor_number,
            final(self).current_room_index == 0,
            final(self).floor_number == old(self).floor_number,
            final(self).seed == old(self).seed,
    {
        self.floor = generate_floor(self.floor_number, self.seed);
        self.current_room_index = 0;
    }

    /// Advance to the next floor.
    pub fn next_floor(&mut self)
        requires
            old(self).floor_number < u32::MAX,
        ensures
            final(self).wf(),
            generated_floor(final(self).floor, final(self).floor_number, final(self).seed),
            final(self).floor_number == old(self).floor_number + 1,
            final(self).floor.floor_number == final(self).floor_number,
            final(self).seed == (old(self).seed + 12345) % 0x1_0000_0000_0000_0000,
            final(self).current_room_index == 0,
    {
        self.floor_number += 1;
        self.seed = self.seed.wrapping_add(12345);
        self.floor = generate_floor(self.floor_number, self.seed);
        self.current_room_index = 0;
    }

    /// Swap to the target room (called during the load phase of a transition).
    pub fn swap_to_room(&mut self, room_index: usize)
        requires
            room_index < old(self).floor.rooms@.len(),
        ensures
            final(self).current_room_index == room_index,
            final(self).floor.rooms@ == old(self).floor.rooms@.update(
                room_index as int,
                PlacedRoom { discovered: true, ..old(self).floor.rooms@[room_index as int] },
            ),
            final(self).floor.connections@ == old(self).floor.connections@,
            final(self).floor.floor_number == old(self).floor.floor_number,
            final(self).floor_number == old(self).floor_number,
            final(self).seed == old(self).seed,
    {
        self.current_room_index = room_index;
        self.mark_room_discovered(room_index);
    }

    /// Check if current room is the exit room.
    pub fn is_exit_room(&self) -> (b: bool)
        requires
            self.current_room_index < self.floor.rooms@.len(),
        ensures
            b == (self.floor.rooms@[self.current_room_index as int].room_type == RoomType::Exit),
    {
        self.current_room().room_type == RoomType::Exit
    }
}

/// What entering a room starts.
#[derive(Clone, Copy, Debug, PartialEq, Eq, Structural)]
pub enum RoomEntry {
    /// The exit room: the floor is done.
    FloorClear,
    /// Nothing to fight: the room is cleared already, or holds no enemies.
    Peaceful,
    /// The doors close and an encounter of this difficulty, drawn with this seed, begins.
    Combat { difficulty: EncounterDifficulty, encounter_seed: u64 },
}

/// How hard a fight a room holds: bosses in boss rooms, easy fights in corridors, and in
/// combat rooms by the number of spawn points (up to 3 easy, up to 6 medium, else hard).
pub open spec fn difficulty_for(room_type: RoomType, spawn_points: int) -> EncounterDifficulty {
    match room_type {
        RoomType::Boss => EncounterDifficulty::Boss,
        RoomType::Corridor => EncounterDifficulty::Easy,
        _ => if spawn_points <= 3 {
            EncounterDifficulty::Easy
        } else if spawn_points <= 6 {
            EncounterDifficulty::Medium
        } else {
            EncounterDifficulty::Hard
        },
    }
}

/// The outcome of entering room `index` of type `room` with the run's spawn seed.
pub open spec fn room_entry_spec(room: PlacedRoom, index: int, spawn_seed: u64) -> RoomEntry {
    if room.room_type == RoomType::Exit {
        RoomEntry::FloorClear
    } else if room.cleared {
        RoomEntry::Peaceful
    } else {
        match room.room_type {
            RoomType::Combat | RoomType::Boss | RoomType::Corridor => RoomEntry::Combat {
                difficulty: difficulty_for(room.room_type, room.template.spawn_points@.len() as int),
                encounter_seed: ((spawn_seed + index * 31337) % 0x1_0000_0000_0000_0000) as u64,
            },
            _ => RoomEntry::Peaceful,
        }
    }
}

impl DungeonWorld {
    /// Decide what entering the current room starts.
    pub fn room_entry(&self, spawn_seed: u64) -> (e: RoomEntry)
        requires
            self.current_room_index < self.floor.rooms@.len(),
            self.current_room_index * 31337 <= u64::MAX,
        ensures
            e == room_entry_spec(self.floor.rooms@[self.current_room_index as int], self.current_room_index as int, spawn_seed),
    {
        if self.is_exit_room() {
            return RoomEntry::FloorClear;
        }
        let room = self.current_room();
        if room.cleared {
            return RoomEntry::Peaceful;
        }
        match room.room_type {
            RoomType::Combat | RoomType::Boss | RoomType::Corridor => {
                let difficulty = match room.room_type {
                    RoomType::Boss => EncounterDifficulty::Boss,
                    RoomType::Corridor => EncounterDifficulty::Easy,
                    _ => {
                        let n = room.template.spawn_points.len();
                        if n <= 3 {
                            EncounterDifficulty::Easy
                        } else if n <= 6 {
                            EncounterDifficulty::Medium
                        } else {
                            EncounterDifficulty::Hard
                        }
                    },
                };
                let offset = self.current_room_index as u64 * 31337;
                RoomEntry::Combat { difficulty, encounter_seed: spawn_seed.wrapping_add(offset) }
            },
            _ => RoomEntry::Peaceful,
        }
    }
}

/// Setting the doors twice is the same as setting them once with the second choice:
/// the last call decides whether the doors are open.
pub proof fn law_last_door_setting_wins(t: TileType, first: bool, second: bool)
    ensures
        door_toggled(door_toggled(t, first), second) == door_toggled(t, second),
{
}

/// How hard a room's fight is: the boss room and only the boss room holds the boss fight;
/// corridors are easy; other rooms get no easier as they have more spawn points (up to 3
/// easy, up to 6 medium, more hard).
pub proof fn law_room_difficulty(t: RoomType, a: int, b: int)
    ensures
        (difficulty_for(t, a) == EncounterDifficulty::Boss) <==> t == RoomType::Boss,
        t == RoomType::Corridor ==> difficulty_for(t, a) == EncounterDifficulty::Easy,
        t != RoomType::Boss && t != RoomType::Corridor && a <= b ==> {
            let da = difficulty_for(t, a);
            let db = difficulty_for(t, b);
            &&& (db == EncounterDifficulty::Easy ==> da == EncounterDifficulty::Easy)
            &&& (da == EncounterDifficulty::Hard ==> db == EncounterDifficulty::Hard)
        },
        t != RoomType::Boss && t != RoomType::Corridor ==> (difficulty_for(t, a) == EncounterDifficulty::Easy <==> a <= 3)
            && (difficulty_for(t, a) == EncounterDifficulty::Hard <==> a > 6),
{
}

} // verus!
