use vstd::prelude::*;
use crate::game::dungeon::graph::{all_reachable, bfs_distances, bfs_layered, lemma_layered_unique, conns_in_range, reachable, walk_between, is_walk, linked, is_link, unvisited};
use crate::game::dungeon::room_template::{Direction, RoomTemplate, RoomType, parsed_as, template_of};
use crate::game::dungeon::templates;

verus! {

/// A fully generated floor layout.
pub struct FloorLayout {
    pub rooms: Vec<PlacedRoom>,
    pub connections: Vec<(usize, usize)>,
    pub floor_number: u32,
}

/// A room placed at a specific grid position.
pub struct PlacedRoom {
    pub template: RoomTemplate,
    pub grid_x: i32,
    pub grid_y: i32,
    pub room_type: RoomType,
    pub cleared: bool,
    pub discovered: bool,
}

/// Floor difficulty configuration. The enemy multipliers are kept in thousandths.
pub struct FloorConfig {
    pub floor_number: u32,
    pub min_rooms: usize,
    pub max_rooms: usize,
    pub enemy_count_mult_milli: u64,
    pub enemy_hp_mult_milli: u64,
}

pub open spec fn floors_beyond_first(floor_number: u32) -> int {
    if floor_number >= 1 { floor_number - 1 } else { 0 }
}

pub open spec fn min_int(a: int, b: int) -> int {
    if a < b { a } else { b }
}

impl FloorConfig {
    pub fn from_floor(floor_number: u32) -> (c: Self)
        ensures
            c.floor_number == floor_number,
            c.min_rooms == min_int(6 + floors_beyond_first(floor_number), 12),
            c.max_rooms == min_int(10 + floors_beyond_first(floor_number), 15),
            c.enemy_count_mult_milli == 1000 + 150 * floors_beyond_first(floor_number),
            c.enemy_hp_mult_milli == 1000 + 100 * floors_beyond_first(floor_number),
    {
        let f = floor_number.saturating_sub(1);
        let min_rooms: usize = if f >= 6 { 12 } else { 6 + f as usize };
        let max_rooms: usize = if f >= 5 { 15 } else { 10 + f as usize };
        Self {
            floor_number,
            min_rooms,
            max_rooms,
            enemy_count_mult_milli: 1000 + 150 * f as u64,
            enemy_hp_mult_milli: 1000 + 100 * f as u64,
        }
    }
}

/// One step of the xorshift64 generator.
pub open spec fn xorshift64(s: u64) -> u64 {
    let a = s ^ (s << 13u64);
    let b = a ^ (a >> 7u64);
    b ^ (b << 17u64)
}

/// Simple seeded PRNG (xorshift64).
pub struct FloorRng {
    pub state: u64,
}

impl FloorRng {
    pub fn new(seed: u64) -> (r: Self)
        ensures
            r.state == if seed == 0 { 1 } else { seed },
    {
        // Ensure state is never zero (xorshift requires nonzero)
        Self { state: if seed == 0 { 1 } else { seed } }
    }

    pub fn next(&mut self) -> (v: u64)
        ensures
            v == xorshift64(old(self).state),
            final(self).state == v,
    {
        self.state = self.state ^ (self.state << 13u64);
        self.state = self.state ^ (self.state >> 7u64);
        self.state = self.state ^ (self.state << 17u64);
        self.state
    }

    pub fn range(&mut self, min: usize, max: usize) -> (v: usize)
        requires
            min < max ==> max - min < usize::MAX,
        ensures
            min >= max ==> v == min && final(self).state == old(self).state,
            min < max ==> final(self).state == xorshift64(old(self).state)
                && v == min + (xorshift64(old(self).state) as usize) % ((max - min + 1) as usize),
            min < max ==> min <= v <= max,
    {
        if min >= max {
            return min;
        }
        min + (self.next() as usize % (max - min + 1))
    }

    pub fn pick<'a, T>(&mut self, items: &'a [T]) -> (r: &'a T)
        requires
            items@.len() > 0,
        ensures
            final(self).state == xorshift64(old(self).state),
            *r == items@[((xorshift64(old(self).state) as usize) as int % items@.len() as int)],
    {
        let idx = self.next() as usize % items.len();
        &items[idx]
    }
}

pub open spec fn opposite_spec(dir: Direction) -> Direction {
    match dir {
        Direction::North => Direction::South,
        Direction::South => Direction::North,
        Direction::East => Direction::West,
        Direction::West => Direction::East,
    }
}

pub open spec fn offset_spec(dir: Direction) -> (i32, i32) {
    match dir {
        Direction::North => (0i32, -1i32),
        Direction::South => (0i32, 1i32),
        Direction::East => (1i32, 0i32),
        Direction::West => (-1i32, 0i32),
    }
}

/// Returns the opposite direction.
pub fn opposite(dir: Direction) -> (d: Direction)
    ensures
        d == opposite_spec(dir),
{
    match dir {
        Direction::North => Direction::South,
        Direction::South => Direction::North,
        Direction::East => Direction::West,
        Direction::West => Direction::East,
    }
}

/// Returns the grid offset for a direction.
pub fn direction_offset(dir: Direction) -> (o: (i32, i32))
    ensures
        o == offset_spec(dir),
{
    match dir {
        Direction::North => (0, -1),
        Direction::South => (0, 1),
        Direction::East => (1, 0),
        Direction::West => (-1, 0),
    }
}

pub open spec fn has_direction(template: RoomTemplate, dir: Direction) -> bool {
    exists|i: int| 0 <= i < template.entry_points@.len() && (#[trigger] template.entry_points@[i]).direction == dir
}

/// Check whether a template has an entry point in the given direction.
pub fn template_has_direction(template: &RoomTemplate, dir: Direction) -> (b: bool)
    ensures
        b == has_direction(*template, dir),
{
    let mut i: usize = 0;
    while i < template.entry_points.len()
        invariant
            i <= template.entry_points@.len(),
            forall|k: int| 0 <= k < i ==> (#[trigger] template.entry_points@[k]).direction != dir,
        decreases template.entry_points@.len() - i,
    {
        if template.entry_points[i].direction == dir {
            return true;
        }
        i += 1;
    }
    false
}

/// The directions in `eps`, each kept at its first occurrence.
pub open spec fn distinct_directions(eps: Seq<Direction>) -> Seq<Direction>
    decreases eps.len(),
{
    if eps.len() == 0 {
        Seq::empty()
    } else {
        let r = distinct_directions(eps.drop_last());
        if r.contains(eps.last()) {
            r
        } else {
            r.push(eps.last())
        }
    }
}

pub open spec fn entry_directions(template: RoomTemplate) -> Seq<Direction> {
    template.entry_points@.map_values(|ep: crate::game::dungeon::room_template::EntryPoint| ep.direction)
}

/// Get all directions a template has entry points for.
pub fn template_directions(template: &RoomTemplate) -> (dirs: Vec<Direction>)
    ensures
        dirs@ == distinct_directions(entry_directions(*template)),
{
    let ghost all = entry_directions(*template);
    let mut dirs: Vec<Direction> = Vec::new();
    let mut i: usize = 0;
    while i < template.entry_points.len()
        invariant
            all == entry_directions(*template),
            i <= template.entry_points@.len(),
            dirs@ == distinct_directions(all.take(i as int)),
        decreases template.entry_points@.len() - i,
    {
        let d = template.entry_points[i].direction;
        assert(all.take(i as int + 1).drop_last() =~= all.take(i as int));
        assert(all.take(i as int + 1).last() == d);
        let mut found = false;
        let mut k: usize = 0;
        while k < dirs.len()
            invariant
                k <= dirs@.len(),
                found == exists|j: int| 0 <= j < k && dirs@[j] == d,
            decreases dirs@.len() - k,
        {
            if dirs[k] == d {
                found = true;
            }
            k += 1;
        }
        assert(found == dirs@.contains(d));
        if !found {
            dirs.push(d);
        }
        i += 1;
    }
    assert(all.take(template.entry_points@.len() as int) =~= all);
    dirs
}

/// A combat template: well-formed tiles and the Combat room type.
pub open spec fn combat_template(t: RoomTemplate) -> bool {
    &&& t.room_type == RoomType::Combat
    &&& t.tiles@.len() == t.width * t.height
}

/// The rows of combat template `i` (0 arena, 1 pillared hall, 2 L-shape).
pub open spec fn combat_layout(i: int) -> Seq<&'static str> {
    if i == 0 {
        templates::arena_layout()
    } else if i == 1 {
        templates::pillared_hall_layout()
    } else {
        templates::l_shape_layout()
    }
}

/// The combat template parsed from `layout` has a door on side `dir`.
pub open spec fn layout_has_direction(layout: Seq<&str>, dir: Direction) -> bool {
    let entries = template_of(layout, RoomType::Combat).0.entries;
    exists|k: int| 0 <= k < entries.len() && (#[trigger] entries[k]).direction == dir
}

/// Drawing combat templates from generator state `state` with `attempts` tries left: each
/// try draws a template at random and keeps it if it has a door on side `dir`; when all
/// tries fail the arena is used. Yields the template's index and the generator's state.
pub open spec fn combat_choice(state: u64, dir: Direction, attempts: nat) -> (int, u64)
    decreases attempts,
{
    if attempts == 0 {
        (0, state)
    } else {
        let s = xorshift64(state);
        let i = ((s as usize) % 3) as int;
        if layout_has_direction(combat_layout(i), dir) {
            (i, s)
        } else {
            combat_choice(s, dir, (attempts - 1) as nat)
        }
    }
}

/// Select a combat template that has an entry point in the required direction.
pub fn pick_combat_template(rng: &mut FloorRng, needed_dir: Direction) -> (t: RoomTemplate)
    ensures
        combat_template(t),
        parsed_as(t, combat_layout(combat_choice(old(rng).state, needed_dir, 10).0), RoomType::Combat),
        final(rng).state == combat_choice(old(rng).state, needed_dir, 10).1,
{
    // Combat templates: arena, pillared_hall, l_shape
    // Try up to 10 times to pick a compatible template
    let mut attempt: usize = 0;
    while attempt < 10
        invariant
            attempt <= 10,
            combat_choice(old(rng).state, needed_dir, 10) == combat_choice(rng.state, needed_dir, (10 - attempt) as nat),
        decreases 10 - attempt,
    {
        let idx = rng.next() as usize % 3;
        let template = if idx == 0 {
            templates::arena()
        } else if idx == 1 {
            templates::pillared_hall()
        } else {
            templates::l_shape()
        };
        proof {
            assert(template.entry_points@ == template_of(combat_layout(idx as int), RoomType::Combat).0.entries);
        }
        if template_has_direction(&template, needed_dir) {
            return template;
        }
        attempt += 1;
    }

    // Fallback: arena always has all 4 directions
    templates::arena()
}

/// The rows of the corridor used for a connection leaving on side `dir`.
pub open spec fn corridor_layout(dir: Direction) -> Seq<&'static str> {
    if dir == Direction::East || dir == Direction::West {
        templates::corridor_h_layout()
    } else {
        templates::corridor_v_layout()
    }
}

/// Select a corridor template based on the connection direction.
pub fn pick_corridor_template(dir: Direction) -> (t: RoomTemplate)
    ensures
        parsed_as(t, corridor_layout(dir), RoomType::Corridor),
        t.room_type == RoomType::Corridor,
        t.tiles@.len() == t.width * t.height,
        (dir == Direction::East || dir == Direction::West) ==> t.width == 18 && t.height == 6,
        (dir == Direction::North || dir == Direction::South) ==> t.width == 6 && t.height == 18,
{
    match dir {
        Direction::East | Direction::West => templates::corridor_h(),
        Direction::North | Direction::South => templates::corridor_v(),
    }
}

/// No two rooms share a grid position.
pub open spec fn positions_distinct(rooms: Seq<PlacedRoom>) -> bool {
    forall|i: int, j: int|
        0 <= i < j < rooms.len() ==> !(#[trigger] rooms[i].grid_x == #[trigger] rooms[j].grid_x && rooms[i].grid_y == rooms[j].grid_y)
}

/// Every room's template has consistent tiles, and the room has its template's type.
pub open spec fn rooms_wf(rooms: Seq<PlacedRoom>) -> bool {
    forall|i: int| 0 <= i < rooms.len() ==> {
        &&& (#[trigger] rooms[i]).template.tiles@.len() == rooms[i].template.width * rooms[i].template.height
        &&& rooms[i].room_type == rooms[i].template.room_type
    }
}

/// Room 0 is the start room at the grid origin, already cleared and discovered.
pub open spec fn start_at_origin(rooms: Seq<PlacedRoom>) -> bool {
    &&& rooms.len() >= 1
    &&& rooms[0].room_type == RoomType::Start
    &&& rooms[0].grid_x == 0
    &&& rooms[0].grid_y == 0
    &&& rooms[0].cleared
    &&& rooms[0].discovered
}

pub open spec fn has_room_type(rooms: Seq<PlacedRoom>, t: RoomType) -> bool {
    exists|i: int| 0 <= i < rooms.len() && (#[trigger] rooms[i]).room_type == t
}

/// Every room can be reached from the start room.
pub open spec fn all_connected(conns: Seq<(usize, usize)>, n: int) -> bool {
    forall|v: int| 0 <= v < n ==> #[trigger] reachable(conns, 0, v)
}

/// Connection `i` joins room `i + 1` to an earlier room: the rooms form a tree grown from room 0.
pub open spec fn tree_links(conns: Seq<(usize, usize)>, n: int) -> bool {
    &&& conns.len() == n - 1
    &&& forall|i: int| 0 <= i < conns.len() ==> (#[trigger] conns[i]).1 == i + 1 && conns[i].0 <= i
}

/// The guarantees every generated floor meets.
pub open spec fn floor_valid(f: FloorLayout) -> bool {
    let rooms = f.rooms@;
    &&& start_at_origin(rooms)
    &&& positions_distinct(rooms)
    &&& rooms_wf(rooms)
    &&& has_room_type(rooms, RoomType::Boss)
    &&& has_room_type(rooms, RoomType::Exit)
    &&& conns_in_range(f.connections@, rooms.len() as int)
    &&& all_connected(f.connections@, rooms.len() as int)
    &&& tree_links(f.connections@, rooms.len() as int)
}

/// A tree grown from room 0 keeps every connection in range and every room reachable.
pub proof fn lemma_tree_connected(conns: Seq<(usize, usize)>, n: int)
    requires
        n >= 1,
        tree_links(conns, n),
    ensures
        conns_in_range(conns, n),
        all_connected(conns, n),
{
    assert forall|v: int| 0 <= v < n implies #[trigger] reachable(conns, 0, v) by {
        let p = lemma_tree_walk(conns, n, v);
    }
}

proof fn lemma_tree_walk(conns: Seq<(usize, usize)>, n: int, v: int) -> (p: Seq<int>)
    requires
        n >= 1,
        tree_links(conns, n),
        0 <= v < n,
    ensures
        walk_between(conns, p, 0, v),
    decreases v,
{
    if v == 0 {
        let p = seq![0int];
        assert(is_walk(conns, p));
        p
    } else {
        let c = conns[v - 1];
        let u = c.0 as int;
        assert(is_link(conns[v - 1], u, v));
        assert(linked(conns, u, v));
        let q = lemma_tree_walk(conns, n, u);
        let p = q.push(v);
        assert forall|i: int| 0 <= i < p.len() - 1 implies #[trigger] linked(conns, p[i], p[i + 1]) by {
            if i < q.len() - 1 {
                assert(p[i] == q[i] && p[i + 1] == q[i + 1]);
            } else {
                assert(p[i] == u && p[i + 1] == v);
            }
        }
        p
    }
}

/// No entry of `s` occurs twice.
pub open spec fn distinct_entries(s: Seq<usize>) -> bool {
    forall|i: int, j: int| 0 <= i < j < s.len() ==> (#[trigger] s[i]) != (#[trigger] s[j])
}

/// Sort rooms by (distance, descending; index, ascending).
fn sort_by_distance_desc(v: &mut Vec<usize>, dist: &Vec<usize>)
    requires
        forall|i: int| 0 <= i < old(v)@.len() ==> (#[trigger] old(v)@[i]) < dist@.len(),
    ensures
        final(v)@.len() == old(v)@.len(),
        forall|x: usize| final(v)@.contains(x) <==> old(v)@.contains(x),
        distinct_entries(old(v)@) ==> distinct_entries(final(v)@),
        forall|i: int, j: int| 0 <= i < j < final(v)@.len() ==> {
            let a = #[trigger] final(v)@[i];
            let b = #[trigger] final(v)@[j];
            dist@[a as int] > dist@[b as int] || (dist@[a as int] == dist@[b as int] && a <= b)
        },
{
    let ghost orig = v@;
    let n = v.len();
    let mut i: usize = 1;
    while i < n
        invariant
            n == v@.len(),
            n == orig.len(),
            forall|x: usize| v@.contains(x) <==> orig.contains(x),
            distinct_entries(orig) ==> distinct_entries(v@),
            forall|k: int| 0 <= k < n ==> (#[trigger] v@[k]) < dist@.len(),
            1 <= i || n == 0,
            forall|a: int, b: int| 0 <= a < b < i && b < n ==> {
                let x = #[trigger] v@[a];
                let y = #[trigger] v@[b];
                dist@[x as int] > dist@[y as int] || (dist@[x as int] == dist@[y as int] && x <= y)
            },
        decreases n - i,
    {
        let mut j: usize = i;
        while j > 0 && (dist[v[j - 1]] < dist[v[j]] || (dist[v[j - 1]] == dist[v[j]] && v[j - 1] > v[j]))
            invariant
                n == v@.len(),
                i < n,
                j <= i,
                forall|x: usize| v@.contains(x) <==> orig.contains(x),
                distinct_entries(orig) ==> distinct_entries(v@),
                forall|k: int| 0 <= k < n ==> (#[trigger] v@[k]) < dist@.len(),
                forall|a: int, b: int| 0 <= a < b <= i && a != j && b != j ==> {
                    let x = #[trigger] v@[a];
                    let y = #[trigger] v@[b];
                    dist@[x as int] > dist@[y as int] || (dist@[x as int] == dist@[y as int] && x <= y)
                },
                forall|b: int| j < b <= i ==> {
                    let x = v@[j as int];
                    let y = #[trigger] v@[b];
                    dist@[x as int] > dist@[y as int] || (dist@[x as int] == dist@[y as int] && x <= y)
                },
                j > 0 && j < i ==> {
                    let x = v@[j - 1];
                    let y = v@[j + 1];
                    dist@[x as int] > dist@[y as int] || (dist@[x as int] == dist@[y as int] && x <= y)
                },
            decreases j,
        {
            let a = v[j - 1];
            let b = v[j];
            let ghost before = v@;
            v.set(j - 1, b);
            v.set(j, a);
            proof {
                if distinct_entries(orig) {
                    assert forall|p: int, q: int| 0 <= p < q < n implies (#[trigger] v@[p]) != (#[trigger] v@[q]) by {
                        let pp = if p == j - 1 { j as int } else if p == j { j - 1 } else { p };
                        let qq = if q == j - 1 { j as int } else if q == j { j - 1 } else { q };
                        assert(v@[p] == before[pp] && v@[q] == before[qq]);
                        assert(pp != qq);
                        if pp < qq {
                            assert(before[pp] != before[qq]);
                        } else {
                            assert(before[qq] != before[pp]);
                        }
                    }
                }
                assert forall|x: usize| v@.contains(x) <==> before.contains(x) by {
                    if v@.contains(x) {
                        let k = choose|k: int| 0 <= k < n && v@[k] == x;
                        if k == j - 1 {
                            assert(before[j as int] == x);
                        } else if k == j {
                            assert(before[j - 1] == x);
                        } else {
                            assert(before[k] == x);
                        }
                    }
                    if before.contains(x) {
                        let k = choose|k: int| 0 <= k < n && before[k] == x;
                        if k == j - 1 {
                            assert(v@[j as int] == x);
                        } else if k == j {
                            assert(v@[j - 1] == x);
                        } else {
                            assert(v@[k] == x);
                        }
                    }
                }
            }
            j -= 1;
        }
        i += 1;
    }
}

/// A room as the floor generator plans it: the rows its template is parsed from, its
/// type, and its place on the grid.
pub struct RoomPlan {
    pub layout: Seq<&'static str>,
    pub room_type: RoomType,
    pub gx: int,
    pub gy: int,
}

/// The floor generator's state while it grows a floor: the random generator, the rooms
/// placed so far, the links between them, the doors still open for new rooms (room
/// index and side), and how many draws in a row hit an occupied cell.
pub struct GrowState {
    pub rng: u64,
    pub rooms: Seq<RoomPlan>,
    pub links: Seq<(usize, usize)>,
    pub open: Seq<(usize, Direction)>,
    pub stall: int,
}

/// The template parsed from `layout` as a room of type `rt` has a door on side `dir`.
pub open spec fn layout_has_door(layout: Seq<&str>, rt: RoomType, dir: Direction) -> bool {
    let entries = template_of(layout, rt).0.entries;
    exists|k: int| 0 <= k < entries.len() && (#[trigger] entries[k]).direction == dir
}

/// The sides on which the template parsed from `layout` has doors, each listed once.
pub open spec fn layout_dirs(layout: Seq<&str>, rt: RoomType) -> Seq<Direction> {
    distinct_directions(
        template_of(layout, rt).0.entries.map_values(|ep: crate::game::dungeon::room_template::EntryPoint| ep.direction),
    )
}

/// The open doors a new room `idx` adds: one per side in `dirs` except `skip`, in order.
pub open spec fn doors_open(idx: usize, dirs: Seq<Direction>, skip: Direction) -> Seq<(usize, Direction)>
    decreases dirs.len(),
{
    if dirs.len() == 0 {
        Seq::empty()
    } else {
        let r = doors_open(idx, dirs.drop_last(), skip);
        if dirs.last() != skip {
            r.push((idx, dirs.last()))
        } else {
            r
        }
    }
}

/// The room chosen for a connection leaving on side `dir`, from generator state `rng`:
/// one draw in five takes the corridor for that side if it has a door back; otherwise a
/// combat template is drawn. Yields the rows, the room type and the generator's state.
pub open spec fn room_choice(rng: u64, dir: Direction) -> (Seq<&'static str>, RoomType, u64) {
    let needed = opposite_spec(dir);
    let r = xorshift64(rng);
    if r % 5 == 0 && layout_has_door(corridor_layout(dir), RoomType::Corridor, needed) {
        (corridor_layout(dir), RoomType::Corridor, r)
    } else {
        let c = combat_choice(r, needed, 10);
        (combat_layout(c.0), RoomType::Combat, c.1)
    }
}

/// `open` with entry `i` removed by moving the last entry into its place.
pub open spec fn swap_removed<T>(open: Seq<T>, i: int) -> Seq<T> {
    open.update(i, open.last()).drop_last()
}

/// One growth step: draw an open door at random; if the cell beyond it is taken, drop the
/// door; otherwise place a new room there, link it, and open its other doors.
pub open spec fn grow_step(s: GrowState) -> GrowState {
    let r = xorshift64(s.rng);
    let ci = (r as usize) as int % (s.open.len() as int);
    let src = s.open[ci].0;
    let dir = s.open[ci].1;
    let nx = s.rooms[src as int].gx + offset_spec(dir).0;
    let ny = s.rooms[src as int].gy + offset_spec(dir).1;
    let rest = swap_removed(s.open, ci);
    if exists|i: int| 0 <= i < s.rooms.len() && (#[trigger] s.rooms[i]).gx == nx && s.rooms[i].gy == ny {
        GrowState { rng: r, rooms: s.rooms, links: s.links, open: rest, stall: s.stall + 1 }
    } else {
        let c = room_choice(r, dir);
        let idx = s.rooms.len() as usize;
        GrowState {
            rng: c.2,
            rooms: s.rooms.push(RoomPlan { layout: c.0, room_type: c.1, gx: nx, gy: ny }),
            links: s.links.push((src, idx)),
            open: rest + doors_open(idx, layout_dirs(c.0, c.1), opposite_spec(dir)),
            stall: 0,
        }
    }
}

/// Growth steps until `target` rooms are placed, no door is open, or a hundred draws in a
/// row hit taken cells.
pub open spec fn grow(s: GrowState, target: int) -> GrowState
    decreases target - s.rooms.len(), 100 - s.stall,
{
    if s.rooms.len() < target && s.open.len() > 0 && s.stall < 100 {
        grow(grow_step(s), target)
    } else {
        s
    }
}

/// The number of rooms aimed for, and the generator's state after drawing it.
pub open spec fn room_target(config: FloorConfig, seed: u64) -> (int, u64) {
    let r0 = if seed == 0 { 1u64 } else { seed };
    if config.min_rooms < config.max_rooms {
        (
            config.min_rooms + (xorshift64(r0) as usize) % ((config.max_rooms - config.min_rooms + 1) as usize),
            xorshift64(r0),
        )
    } else {
        (config.min_rooms as int, r0)
    }
}

/// Growth starts from the start room at the origin with all its doors open.
pub open spec fn grow_start(config: FloorConfig, seed: u64) -> GrowState {
    GrowState {
        rng: room_target(config, seed).1,
        rooms: seq![RoomPlan { layout: templates::start_room_layout(), room_type: RoomType::Start, gx: 0, gy: 0 }],
        links: Seq::empty(),
        open: layout_dirs(templates::start_room_layout(), RoomType::Start).map_values(|d: Direction| (0usize, d)),
        stall: 0,
    }
}

/// The floor grown from `seed` under `config`, before special rooms are assigned.
#[verifier::opaque]
pub open spec fn grown_floor(config: FloorConfig, seed: u64) -> GrowState {
    grow(grow_start(config, seed), room_target(config, seed).0)
}

/// How many link ends touch room `i`.
pub open spec fn link_degree(links: Seq<(usize, usize)>, i: int) -> nat
    decreases links.len(),
{
    if links.len() == 0 {
        0
    } else {
        link_degree(links.drop_last(), i) + (if links.last().0 == i { 1nat } else { 0nat }) + (if links.last().1 == i {
            1nat
        } else {
            0nat
        })
    }
}

/// Room `i` is a dead end: one link, and not the start room.
pub open spec fn is_dead_end(g: GrowState, i: int) -> bool {
    link_degree(g.links, i) == 1 && g.rooms[i].room_type != RoomType::Start
}

/// The dead ends among the first `k` rooms, in index order.
pub open spec fn dead_ends_upto(g: GrowState, k: int) -> Seq<usize>
    decreases k,
{
    if k <= 0 {
        Seq::empty()
    } else {
        let r = dead_ends_upto(g, k - 1);
        if is_dead_end(g, k - 1) {
            r.push((k - 1) as usize)
        } else {
            r
        }
    }
}

/// All dead ends of the grown floor, in index order.
pub open spec fn dead_ends_of(g: GrowState) -> Seq<usize> {
    dead_ends_upto(g, g.rooms.len() as int)
}

/// `a` comes before `b` when it lies farther from the start by `d`, or as far and has the
/// smaller index.
pub open spec fn farther_first(d: Seq<usize>, a: usize, b: usize) -> bool {
    d[a as int] > d[b as int] || (d[a as int] == d[b as int] && a < b)
}

/// `s` holds the dead ends of `g`, farthest first by `d`.
pub open spec fn ranked_dead_ends(g: GrowState, d: Seq<usize>, s: Seq<usize>) -> bool {
    &&& s.len() == dead_ends_of(g).len()
    &&& forall|x: usize| s.contains(x) <==> dead_ends_of(g).contains(x)
    &&& forall|i: int, j: int| 0 <= i < j < s.len() ==> farther_first(d, #[trigger] s[i], #[trigger] s[j])
}

/// What room `i` becomes once the first four ranked dead ends in `s` are made the boss
/// room, the exit, the treasure vault and the shop.
pub open spec fn finished_plan(g: GrowState, s: Seq<usize>, i: int) -> RoomPlan {
    let p = g.rooms[i];
    if s.len() > 0 && s[0] == i {
        RoomPlan { layout: templates::boss_arena_layout(), room_type: RoomType::Boss, ..p }
    } else if s.len() > 1 && s[1] == i {
        RoomPlan { layout: templates::exit_room_layout(), room_type: RoomType::Exit, ..p }
    } else if s.len() > 2 && s[2] == i {
        RoomPlan { layout: templates::treasure_vault_layout(), room_type: RoomType::Treasure, ..p }
    } else if s.len() > 3 && s[3] == i {
        RoomPlan { layout: templates::shop_layout(), room_type: RoomType::Shop, ..p }
    } else {
        p
    }
}

/// `room` is built from `plan` as room `i` of a new floor (only the start room is
/// cleared and discovered).
pub open spec fn built_from(room: PlacedRoom, plan: RoomPlan, i: int) -> bool {
    &&& parsed_as(room.template, plan.layout, plan.room_type)
    &&& room.room_type == plan.room_type
    &&& room.grid_x == plan.gx
    &&& room.grid_y == plan.gy
    &&& room.cleared == (i == 0)
    &&& room.discovered == (i == 0)
}

/// Rooms `a` and `b` sit on neighbouring grid cells.
pub open spec fn grid_neighbours(a: PlacedRoom, b: PlacedRoom) -> bool {
    let dx = a.grid_x - b.grid_x;
    let dy = a.grid_y - b.grid_y;
    (dx == 0 && (dy == 1 || dy == -1)) || (dy == 0 && (dx == 1 || dx == -1))
}

/// Every link joins two rooms on neighbouring grid cells.
pub open spec fn links_adjacent(rooms: Seq<PlacedRoom>, conns: Seq<(usize, usize)>) -> bool {
    forall|i: int| 0 <= i < conns.len() ==> grid_neighbours(rooms[(#[trigger] conns[i]).0 as int], rooms[conns[i].1 as int])
}

/// Only the start room, room 0, is of the Start type, discovered or cleared; no two rooms
/// are both the boss room or both the exit.
pub open spec fn rooms_marked(rooms: Seq<PlacedRoom>) -> bool {
    &&& forall|i: int| 0 <= i < rooms.len() ==> {
        &&& ((#[trigger] rooms[i]).room_type == RoomType::Start <==> i == 0)
        &&& (rooms[i].discovered <==> i == 0)
        &&& (rooms[i].cleared <==> i == 0)
    }
    &&& forall|i: int, j: int|
        0 <= i < rooms.len() && 0 <= j < rooms.len() && (#[trigger] rooms[i]).room_type == RoomType::Boss
            && (#[trigger] rooms[j]).room_type == RoomType::Boss ==> i == j
    &&& forall|i: int, j: int|
        0 <= i < rooms.len() && 0 <= j < rooms.len() && (#[trigger] rooms[i]).room_type == RoomType::Exit
            && (#[trigger] rooms[j]).room_type == RoomType::Exit ==> i == j
}

/// The doors of the start room, each opened from room 0.
pub open spec fn from_start(dirs: Seq<Direction>) -> Seq<(usize, Direction)> {
    dirs.map_values(|d: Direction| (0usize, d))
}

/// Each placed room is built from its plan.
pub open spec fn rooms_follow(rooms: Seq<PlacedRoom>, plans: Seq<RoomPlan>) -> bool {
    &&& rooms.len() == plans.len()
    &&& forall|i: int| 0 <= i < rooms.len() ==> #[trigger] built_from(rooms[i], plans[i], i)
}

/// Growth places the start room first and only combat rooms and corridors after it.
pub open spec fn grown_kinds(plans: Seq<RoomPlan>) -> bool {
    forall|i: int| 0 <= i < plans.len() ==> {
        let t = (#[trigger] plans[i]).room_type;
        &&& (t == RoomType::Start <==> i == 0)
        &&& (t == RoomType::Start || t == RoomType::Combat || t == RoomType::Corridor)
    }
}

/// A template parsed from `layout` has a door on side `dir` exactly when the layout does.
proof fn lemma_door_of_parsed(t: RoomTemplate, layout: Seq<&'static str>, rt: RoomType, dir: Direction)
    requires
        parsed_as(t, layout, rt),
    ensures
        has_direction(t, dir) == layout_has_door(layout, rt, dir),
        distinct_directions(entry_directions(t)) == layout_dirs(layout, rt),
{
    let entries = template_of(layout, rt).0.entries;
    assert(t.entry_points@ == entries);
    if has_direction(t, dir) {
        let i = choose|i: int| 0 <= i < t.entry_points@.len() && (#[trigger] t.entry_points@[i]).direction == dir;
        assert(entries[i].direction == dir);
    }
    if layout_has_door(layout, rt, dir) {
        let k = choose|k: int| 0 <= k < entries.len() && (#[trigger] entries[k]).direction == dir;
        assert(t.entry_points@[k].direction == dir);
    }
    assert(entry_directions(t) =~= entries.map_values(
        |ep: crate::game::dungeon::room_template::EntryPoint| ep.direction,
    ));
}

/// Grow the rooms of a floor from the start room, placing rooms at random open doors.
#[verifier::rlimit(60)]
fn grow_rooms(config: &FloorConfig, seed: u64) -> (res: (Vec<PlacedRoom>, Vec<(usize, usize)>))
    requires
        1 <= config.min_rooms <= config.max_rooms <= 15,
    ensures
        rooms_follow(res.0@, grown_floor(*config, seed).rooms),
        grown_kinds(grown_floor(*config, seed).rooms),
        res.1@ == grown_floor(*config, seed).links,
        1 <= res.0@.len() <= config.max_rooms,
        start_at_origin(res.0@),
        rooms_wf(res.0@),
        positions_distinct(res.0@),
        tree_links(res.1@, res.0@.len() as int),
        links_adjacent(res.0@, res.1@),
{
    proof {
        reveal(grown_floor);
    }
    let mut rng = FloorRng::new(seed);
    let target_rooms = rng.range(config.min_rooms, config.max_rooms);
    let ghost g0 = grow_start(*config, seed);

    let mut rooms: Vec<PlacedRoom> = Vec::new();
    let mut connections: Vec<(usize, usize)> = Vec::new();
    // Track occupied grid positions: (grid_x, grid_y) -> room index
    let mut occupied: Vec<(i32, i32, usize)> = Vec::new();
    // Open connections: (room_index, direction) pairs where we can attach new rooms
    let mut open_connections: Vec<(usize, Direction)> = Vec::new();

    // 1. Place start room at (0, 0)
    let start_template = templates::start_room();
    let start_dirs = template_directions(&start_template);
    proof {
        lemma_door_of_parsed(start_template, templates::start_room_layout(), RoomType::Start, Direction::North);
    }
    rooms.push(PlacedRoom {
        template: start_template,
        grid_x: 0,
        grid_y: 0,
        room_type: RoomType::Start,
        cleared: true,
        discovered: true,
    });
    occupied.push((0, 0, 0));
    let ghost mut plans: Seq<RoomPlan> = g0.rooms;

    let mut k: usize = 0;
    while k < start_dirs.len()
        invariant
            k <= start_dirs@.len(),
            open_connections@ == from_start(start_dirs@.take(k as int)),
        decreases start_dirs@.len() - k,
    {
        assert(from_start(start_dirs@.take(k as int + 1)) =~= from_start(start_dirs@.take(k as int)).push(
            (0usize, start_dirs@[k as int]),
        ));
        open_connections.push((0, start_dirs[k]));
        k += 1;
    }
    assert(start_dirs@.take(start_dirs@.len() as int) =~= start_dirs@);
    assert(open_connections@ == g0.open);
    assert(rooms@[0].template == start_template);

    // 2. Grow the floor by placing rooms at open connections
    let mut stall_count: usize = 0;
    while rooms.len() < target_rooms && open_connections.len() > 0 && stall_count < 100
        invariant
            config.min_rooms <= target_rooms <= config.max_rooms <= 15,
            target_rooms == room_target(*config, seed).0,
            1 <= rooms@.len() <= target_rooms,
            start_at_origin(rooms@),
            rooms_wf(rooms@),
            positions_distinct(rooms@),
            rooms_follow(rooms@, plans),
            grown_kinds(plans),
            grow(
                GrowState {
                    rng: rng.state,
                    rooms: plans,
                    links: connections@,
                    open: open_connections@,
                    stall: stall_count as int,
                },
                target_rooms as int,
            ) == grown_floor(*config, seed),
            forall|i: int| 0 <= i < rooms@.len() ==> {
                &&& -i <= (#[trigger] rooms@[i]).grid_x <= i
                &&& -i <= rooms@[i].grid_y <= i
            },
            occupied@.len() == rooms@.len(),
            forall|i: int| 0 <= i < occupied@.len() ==> {
                &&& (#[trigger] occupied@[i]).0 == rooms@[i].grid_x
                &&& occupied@[i].1 == rooms@[i].grid_y
            },
            tree_links(connections@, rooms@.len() as int),
            links_adjacent(rooms@, connections@),
            forall|c: int| 0 <= c < open_connections@.len() ==> (#[trigger] open_connections@[c]).0 < rooms@.len(),
            stall_count <= 100,
        decreases target_rooms - rooms@.len(), 100 - stall_count,
    {
        let ghost cur = GrowState {
            rng: rng.state,
            rooms: plans,
            links: connections@,
            open: open_connections@,
            stall: stall_count as int,
        };
        let ghost nxt = grow_step(cur);
        assert(grow(cur, target_rooms as int) == grow(nxt, target_rooms as int));

        // Pick a random open connection
        let conn_idx = rng.next() as usize % open_connections.len();
        let (source_room, dir) = open_connections[conn_idx];

        let (dx, dy) = direction_offset(dir);
        let new_x = rooms[source_room].grid_x + dx;
        let new_y = rooms[source_room].grid_y + dy;
        assert(built_from(rooms@[source_room as int], plans[source_room as int], source_room as int));

        // Check if position is already occupied
        let mut taken = false;
        let mut q: usize = 0;
        while q < occupied.len()
            invariant
                q <= occupied@.len(),
                taken == exists|i: int| 0 <= i < q && (#[trigger] occupied@[i]).0 == new_x && occupied@[i].1 == new_y,
            decreases occupied@.len() - q,
        {
            if occupied[q].0 == new_x && occupied[q].1 == new_y {
                taken = true;
            }
            q += 1;
        }
        proof {
            if taken {
                let i = choose|i: int| 0 <= i < occupied@.len() && (#[trigger] occupied@[i]).0 == new_x && occupied@[i].1 == new_y;
                assert(built_from(rooms@[i], plans[i], i));
                assert(plans[i].gx == new_x && plans[i].gy == new_y);
            } else {
                assert forall|i: int| 0 <= i < plans.len() implies !((#[trigger] plans[i]).gx == new_x && plans[i].gy == new_y) by {
                    assert(built_from(rooms@[i], plans[i], i));
                    assert(occupied@[i].0 == rooms@[i].grid_x);
                }
            }
        }

        if taken {
            // Remove this connection since it can't be used
            let ghost before = open_connections@;
            open_connections.swap_remove(conn_idx);
            assert forall|c: int| 0 <= c < open_connections@.len() implies (#[trigger] open_connections@[c]).0 < rooms@.len() by {
                if c == conn_idx {
                    assert(open_connections@[c] == before[before.len() - 1]);
                } else {
                    assert(open_connections@[c] == before[c]);
                }
            }
            stall_count += 1;
            assert(open_connections@ =~= nxt.open);
        } else {
            // The new room needs an entry in the opposite direction to connect back
            let needed_dir = opposite(dir);
            let ghost choice = room_choice(rng.state, dir);

            // Pick a template (mostly combat rooms, occasionally corridors)
            let template = if rng.next() % 5 == 0 {
                // 20% chance of corridor
                let corridor = pick_corridor_template(dir);
                let fits = template_has_direction(&corridor, needed_dir);
                proof {
                    lemma_door_of_parsed(corridor, corridor_layout(dir), RoomType::Corridor, needed_dir);
                }
                if fits {
                    corridor
                } else {
                    pick_combat_template(&mut rng, needed_dir)
                }
            } else {
                pick_combat_template(&mut rng, needed_dir)
            };
            assert(parsed_as(template, choice.0, choice.1) && rng.state == choice.2);

            let room_type = template.room_type;
            let new_dirs = template_directions(&template);
            proof {
                lemma_door_of_parsed(template, choice.0, choice.1, needed_dir);
            }
            let new_room_idx = rooms.len();
            let ghost old_rooms = rooms@;
            let ghost old_plans = plans;

            rooms.push(PlacedRoom {
                template,
                grid_x: new_x,
                grid_y: new_y,
                room_type,
                cleared: false,
                discovered: false,
            });
            occupied.push((new_x, new_y, new_room_idx));
            proof {
                plans = plans.push(RoomPlan { layout: choice.0, room_type: choice.1, gx: new_x as int, gy: new_y as int });
            }

            proof {
                assert forall|i: int, j: int|
                    0 <= i < j < rooms@.len() implies !(#[trigger] rooms@[i].grid_x == #[trigger] rooms@[j].grid_x && rooms@[i].grid_y == rooms@[j].grid_y) by {
                    if j == new_room_idx {
                        assert(occupied@[i].0 == rooms@[i].grid_x);
                    } else {
                        assert(rooms@[i] == old_rooms[i] && rooms@[j] == old_rooms[j]);
                    }
                }
                assert(rooms_wf(rooms@)) by {
                    assert forall|i: int| 0 <= i < rooms@.len() implies {
                        &&& (#[trigger] rooms@[i]).template.tiles@.len() == rooms@[i].template.width * rooms@[i].template.height
                        &&& rooms@[i].room_type == rooms@[i].template.room_type
                    } by {
                        if i < old_rooms.len() {
                            assert(rooms@[i] == old_rooms[i]);
                        }
                    }
                }
                assert forall|i: int| 0 <= i < rooms@.len() implies #[trigger] built_from(rooms@[i], plans[i], i) by {
                    if i < old_rooms.len() {
                        assert(rooms@[i] == old_rooms[i] && plans[i] == old_plans[i]);
                        assert(built_from(old_rooms[i], old_plans[i], i));
                    }
                }
                assert forall|i: int| 0 <= i < plans.len() implies {
                    let t = (#[trigger] plans[i]).room_type;
                    &&& (t == RoomType::Start <==> i == 0)
                    &&& (t == RoomType::Start || t == RoomType::Combat || t == RoomType::Corridor)
                } by {
                    if i < old_plans.len() {
                        assert(plans[i] == old_plans[i]);
                    }
                }
                assert forall|i: int| 0 <= i < occupied@.len() implies {
                    &&& (#[trigger] occupied@[i]).0 == rooms@[i].grid_x
                    &&& occupied@[i].1 == rooms@[i].grid_y
                } by {
                    if i < old_rooms.len() {
                        assert(rooms@[i] == old_rooms[i]);
                    }
                }
                assert forall|i: int| 0 <= i < rooms@.len() implies {
                    &&& -i <= (#[trigger] rooms@[i]).grid_x <= i
                    &&& -i <= rooms@[i].grid_y <= i
                } by {
                    if i < old_rooms.len() {
                        assert(rooms@[i] == old_rooms[i]);
                    } else {
                        assert(rooms@[source_room as int] == old_rooms[source_room as int]);
                    }
                }
            }

            // Connect the two rooms
            let ghost old_links = connections@;
            connections.push((source_room, new_room_idx));
            assert forall|c: int| 0 <= c < connections@.len() implies grid_neighbours(
                rooms@[(#[trigger] connections@[c]).0 as int],
                rooms@[connections@[c].1 as int],
            ) by {
                if c < old_links.len() {
                    assert(connections@[c] == old_links[c]);
                    assert(old_links[c].0 < old_rooms.len() && old_links[c].1 < old_rooms.len());
                    assert(rooms@[old_links[c].0 as int] == old_rooms[old_links[c].0 as int]);
                    assert(rooms@[old_links[c].1 as int] == old_rooms[old_links[c].1 as int]);
                } else {
                    assert(rooms@[source_room as int] == old_rooms[source_room as int]);
                }
            }

            // Remove the used connection from source
            let ghost before = open_connections@;
            open_connections.swap_remove(conn_idx);
            assert forall|c: int| 0 <= c < open_connections@.len() implies (#[trigger] open_connections@[c]).0 < rooms@.len() by {
                if c == conn_idx {
                    assert(open_connections@[c] == before[before.len() - 1]);
                } else {
                    assert(open_connections@[c] == before[c]);
                }
            }
            let ghost rest = open_connections@;
            assert(rest =~= swap_removed(cur.open, conn_idx as int));

            // Add new room's remaining open directions (excluding the one connecting back)
            let mut t: usize = 0;
            while t < new_dirs.len()
                invariant
                    t <= new_dirs@.len(),
                    new_room_idx < rooms@.len(),
                    forall|c: int| 0 <= c < open_connections@.len() ==> (#[trigger] open_connections@[c]).0 < rooms@.len(),
                    open_connections@ == rest + doors_open(new_room_idx, new_dirs@.take(t as int), needed_dir),
                decreases new_dirs@.len() - t,
            {
                let d = new_dirs[t];
                assert(new_dirs@.take(t as int + 1).drop_last() =~= new_dirs@.take(t as int));
                assert(new_dirs@.take(t as int + 1).last() == d);
                if d != needed_dir {
                    open_connections.push((new_room_idx, d));
                    assert(open_connections@ =~= rest + doors_open(new_room_idx, new_dirs@.take(t as int + 1), needed_dir));
                }
                t += 1;
            }
            assert(new_dirs@.take(new_dirs@.len() as int) =~= new_dirs@);

            stall_count = 0;
            assert(open_connections@ =~= nxt.open);
            assert(connections@ =~= nxt.links);
            assert(plans =~= nxt.rooms);
        }
        assert(GrowState {
            rng: rng.state,
            rooms: plans,
            links: connections@,
            open: open_connections@,
            stall: stall_count as int,
        } == nxt);
    }
    assert(GrowState {
        rng: rng.state,
        rooms: plans,
        links: connections@,
        open: open_connections@,
        stall: stall_count as int,
    } == grown_floor(*config, seed));
    (rooms, connections)
}

/// The floor grown from `seed` has at least `min_rooms` rooms and two dead ends for the
/// boss room and the exit.
pub open spec fn floor_usable(config: FloorConfig, seed: u64) -> bool {
    &&& grown_floor(config, seed).rooms.len() >= config.min_rooms
    &&& dead_ends_of(grown_floor(config, seed)).len() >= 2
}

/// `f` is the grown floor `g` with its special rooms assigned: the same links, and each
/// room built from its plan once the four dead ends farthest from the start (by the
/// breadth-first distances `d`) become the boss room, the exit, the treasure vault and
/// the shop.
pub open spec fn floor_built(f: FloorLayout, g: GrowState) -> bool {
    &&& f.rooms@.len() == g.rooms.len()
    &&& f.connections@ == g.links
    &&& exists|d: Seq<usize>, s: Seq<usize>|
        #![trigger bfs_layered(g.links, g.rooms.len() as int, 0, d), ranked_dead_ends(g, d, s)]
        {
            &&& bfs_layered(g.links, g.rooms.len() as int, 0, d)
            &&& ranked_dead_ends(g, d, s)
            &&& forall|i: int| 0 <= i < g.rooms.len() ==> #[trigger] built_from(f.rooms@[i], finished_plan(g, s, i), i)
        }
}

/// The dead ends among the first `k` rooms come in increasing order, and are exactly the
/// dead ends below `k`.
proof fn lemma_dead_ends_upto(g: GrowState, k: int)
    requires
        k <= usize::MAX,
    ensures
        forall|a: int, b: int| 0 <= a < b < dead_ends_upto(g, k).len() ==> (#[trigger] dead_ends_upto(g, k)[a]) < (#[trigger] dead_ends_upto(g, k)[b]),
        forall|a: int| 0 <= a < dead_ends_upto(g, k).len() ==> {
            let x = #[trigger] dead_ends_upto(g, k)[a];
            0 <= x < k && is_dead_end(g, x as int)
        },
        forall|x: usize| 0 <= x < k && is_dead_end(g, x as int) ==> #[trigger] dead_ends_upto(g, k).contains(x),
    decreases k,
{
    if k > 0 {
        lemma_dead_ends_upto(g, k - 1);
        let r = dead_ends_upto(g, k - 1);
        let s = dead_ends_upto(g, k);
        if is_dead_end(g, k - 1) {
            assert(s == r.push((k - 1) as usize));
            assert forall|a: int, b: int| 0 <= a < b < s.len() implies (#[trigger] s[a]) < (#[trigger] s[b]) by {
                assert(s[a] == r[a]);
                if b < r.len() {
                    assert(s[b] == r[b]);
                }
            }
            assert forall|a: int| 0 <= a < s.len() implies {
                let x = #[trigger] s[a];
                0 <= x < k && is_dead_end(g, x as int)
            } by {
                if a < r.len() {
                    assert(s[a] == r[a]);
                }
            }
        }
        assert forall|x: usize| 0 <= x < k && is_dead_end(g, x as int) implies #[trigger] s.contains(x) by {
            if x < k - 1 {
                assert(r.contains(x));
                let m = choose|m: int| 0 <= m < r.len() && r[m] == x;
                assert(s[m] == x);
            } else {
                assert(s[s.len() - 1] == x);
            }
        }
    }
}

/// The dead ends of the grown floor `g`, in index order.
fn find_dead_ends(rooms: &Vec<PlacedRoom>, connections: &Vec<(usize, usize)>, Ghost(g): Ghost<GrowState>) -> (dead_ends: Vec<usize>)
    requires
        rooms_follow(rooms@, g.rooms),
        connections@ == g.links,
        1 <= rooms@.len() <= 15,
        tree_links(connections@, rooms@.len() as int),
    ensures
        dead_ends@ == dead_ends_of(g),
        distinct_entries(dead_ends@),
        forall|k: int| 0 <= k < dead_ends@.len() ==> (#[trigger] dead_ends@[k]) < rooms@.len() && rooms@[dead_ends@[k] as int].room_type != RoomType::Start,
{
    let n = rooms.len();
    proof {
        lemma_tree_connected(connections@, n as int);
    }
    let mut connection_count: Vec<usize> = Vec::new();
    let mut c: usize = 0;
    while c < n
        invariant
            c <= n,
            connection_count@.len() == c,
            forall|i: int| 0 <= i < c ==> #[trigger] connection_count@[i] == 0,
        decreases n - c,
    {
        connection_count.push(0);
        c += 1;
    }
    let mut e: usize = 0;
    while e < connections.len()
        invariant
            n == rooms@.len(),
            n <= 15,
            connections@.len() == n - 1,
            conns_in_range(connections@, n as int),
            e <= connections@.len(),
            connection_count@.len() == n,
            forall|i: int| 0 <= i < n ==> #[trigger] connection_count@[i] <= 2 * e,
            forall|i: int| 0 <= i < n ==> #[trigger] connection_count@[i] == link_degree(connections@.take(e as int), i),
        decreases connections@.len() - e,
    {
        let (a, b) = connections[e];
        assert(connections@.take(e as int + 1).drop_last() =~= connections@.take(e as int));
        assert(connections@.take(e as int + 1).last() == connections@[e as int]);
        connection_count[a] = connection_count[a] + 1;
        connection_count[b] = connection_count[b] + 1;
        e += 1;
    }
    assert(connections@.take(connections@.len() as int) =~= connections@);

    let mut dead_ends: Vec<usize> = Vec::new();
    let mut i: usize = 0;
    while i < n
        invariant
            n == rooms@.len(),
            n == g.rooms.len(),
            connections@ == g.links,
            rooms_follow(rooms@, g.rooms),
            connection_count@.len() == n,
            forall|k: int| 0 <= k < n ==> #[trigger] connection_count@[k] == link_degree(connections@, k),
            i <= n,
            dead_ends@ == dead_ends_upto(g, i as int),
            forall|k: int| 0 <= k < dead_ends@.len() ==> (#[trigger] dead_ends@[k]) < i && rooms@[dead_ends@[k] as int].room_type != RoomType::Start,
        decreases n - i,
    {
        assert(built_from(rooms@[i as int], g.rooms[i as int], i as int));
        if connection_count[i] == 1 && rooms[i].room_type != RoomType::Start {
            dead_ends.push(i);
        }
        i += 1;
    }
    proof {
        lemma_dead_ends_upto(g, n as int);
    }
    assert(distinct_entries(dead_ends@)) by {
        assert forall|p: int, q: int| 0 <= p < q < dead_ends@.len() implies (#[trigger] dead_ends@[p]) != (#[trigger] dead_ends@[q]) by {
            assert(dead_ends_upto(g, n as int)[p] < dead_ends_upto(g, n as int)[q]);
        }
    }

    dead_ends
}

/// Make the first four rooms listed in `s` the boss room, the exit, the treasure vault
/// and the shop.
fn assign_special_rooms(rooms: &mut Vec<PlacedRoom>, dead_ends: &Vec<usize>, Ghost(g): Ghost<GrowState>)
    requires
        rooms_follow(old(rooms)@, g.rooms),
        distinct_entries(dead_ends@),
        forall|k: int| 0 <= k < dead_ends@.len() ==> (#[trigger] dead_ends@[k]) < old(rooms)@.len() && dead_ends@[k] != 0,
    ensures
        final(rooms)@.len() == old(rooms)@.len(),
        forall|k: int| 0 <= k < final(rooms)@.len() ==> #[trigger] built_from(final(rooms)@[k], finished_plan(g, dead_ends@, k), k),
{
    let n = rooms.len();
    let ghost s = dead_ends@;
    let ghost grown = rooms@;
    // Boss: furthest dead end
    if dead_ends.len() > 0 {
        let boss_idx = dead_ends[0];
        let boss_template = templates::boss_arena();
        rooms[boss_idx].template = boss_template;
        rooms[boss_idx].room_type = RoomType::Boss;
        assert(built_from(grown[boss_idx as int], g.rooms[boss_idx as int], boss_idx as int));
        assert(built_from(rooms@[boss_idx as int], finished_plan(g, s, boss_idx as int), boss_idx as int));
    }
    let ghost r1 = rooms@;
    assert(forall|k: int| 0 <= k < n && !(s.len() > 0 && k == s[0]) ==> #[trigger] r1[k] == grown[k]);

    // Exit: second furthest dead end
    if dead_ends.len() > 1 {
        let exit_idx = dead_ends[1];
        let exit_template = templates::exit_room();
        rooms[exit_idx].template = exit_template;
        rooms[exit_idx].room_type = RoomType::Exit;
        assert(built_from(grown[exit_idx as int], g.rooms[exit_idx as int], exit_idx as int));
        assert(built_from(rooms@[exit_idx as int], finished_plan(g, s, exit_idx as int), exit_idx as int));
    }
    let ghost r2 = rooms@;
    assert(forall|k: int| 0 <= k < n && !(s.len() > 1 && k == s[1]) ==> #[trigger] r2[k] == r1[k]);

    // Treasure: third dead end if available
    if dead_ends.len() > 2 {
        let treasure_idx = dead_ends[2];
        let treasure_template = templates::treasure_vault();
        rooms[treasure_idx].template = treasure_template;
        rooms[treasure_idx].room_type = RoomType::Treasure;
        assert(built_from(grown[treasure_idx as int], g.rooms[treasure_idx as int], treasure_idx as int));
        assert(built_from(rooms@[treasure_idx as int], finished_plan(g, s, treasure_idx as int), treasure_idx as int));
    }
    let ghost r3 = rooms@;
    assert(forall|k: int| 0 <= k < n && !(s.len() > 2 && k == s[2]) ==> #[trigger] r3[k] == r2[k]);

    // Shop: fourth dead end if available
    if dead_ends.len() > 3 {
        let shop_idx = dead_ends[3];
        let shop_template = templates::shop();
        rooms[shop_idx].template = shop_template;
        rooms[shop_idx].room_type = RoomType::Shop;
        assert(built_from(grown[shop_idx as int], g.rooms[shop_idx as int], shop_idx as int));
        assert(built_from(rooms@[shop_idx as int], finished_plan(g, s, shop_idx as int), shop_idx as int));
    }
    assert(forall|k: int| 0 <= k < n && !(s.len() > 3 && k == s[3]) ==> #[trigger] rooms@[k] == r3[k]);
    assert(rooms@.len() == n);
    assert forall|k: int| 0 <= k < n implies #[trigger] built_from(rooms@[k], finished_plan(g, s, k), k) by {
        assert(built_from(grown[k], g.rooms[k], k));
        if s.len() > 0 && k == s[0] {
            assert(rooms@[k] == r1[k]);
        } else if s.len() > 1 && k == s[1] {
            assert(rooms@[k] == r2[k]);
        } else if s.len() > 2 && k == s[2] {
            assert(rooms@[k] == r3[k]);
        } else if s.len() > 3 && k == s[3] {
        } else {
            assert(rooms@[k] == grown[k]);
        }
    }
    assert forall|k: int| 0 <= k < n implies #[trigger] built_from(rooms@[k], finished_plan(g, s, k), k) by {
        assert(built_from(grown[k], g.rooms[k], k));
        if s.len() > 0 && k == s[0] {
            assert(rooms@[k] == r1[k]);
        } else if s.len() > 1 && k == s[1] {
            assert(rooms@[k] == r2[k]);
        } else if s.len() > 2 && k == s[2] {
            assert(rooms@[k] == r3[k]);
        } else if s.len() > 3 && k == s[3] {
        } else {
            assert(rooms@[k] == grown[k]);
        }
    }
}

/// Assigning the special rooms keeps linked rooms on neighbouring cells, and leaves one
/// start room, at most one boss room and at most one exit.
proof fn lemma_finished_rooms(rooms: Seq<PlacedRoom>, grown: Seq<PlacedRoom>, conns: Seq<(usize, usize)>, g: GrowState, s: Seq<usize>)
    requires
        rooms.len() == g.rooms.len(),
        grown.len() == g.rooms.len(),
        forall|k: int| 0 <= k < rooms.len() ==> #[trigger] built_from(rooms[k], finished_plan(g, s, k), k),
        rooms_follow(grown, g.rooms),
        grown_kinds(g.rooms),
        links_adjacent(grown, conns),
        conns_in_range(conns, rooms.len() as int),
        forall|k: int| 0 <= k < s.len() ==> (#[trigger] s[k]) != 0,
    ensures
        links_adjacent(rooms, conns),
        rooms_marked(rooms),
{
    assert(links_adjacent(rooms, conns)) by {
        assert forall|c: int| 0 <= c < conns.len() implies grid_neighbours(
            rooms[(#[trigger] conns[c]).0 as int],
            rooms[conns[c].1 as int],
        ) by {
            let a = conns[c].0 as int;
            let b = conns[c].1 as int;
            assert(grid_neighbours(grown[a], grown[b]));
            assert(built_from(rooms[a], finished_plan(g, s, a), a) && built_from(grown[a], g.rooms[a], a));
            assert(built_from(rooms[b], finished_plan(g, s, b), b) && built_from(grown[b], g.rooms[b], b));
            assert(rooms[a].grid_x == grown[a].grid_x && rooms[a].grid_y == grown[a].grid_y);
            assert(rooms[b].grid_x == grown[b].grid_x && rooms[b].grid_y == grown[b].grid_y);
        }
    }
    assert(rooms_marked(rooms)) by {
        assert forall|i: int| 0 <= i < rooms.len() implies {
            &&& ((#[trigger] rooms[i]).room_type == RoomType::Start <==> i == 0)
            &&& (rooms[i].discovered <==> i == 0)
            &&& (rooms[i].cleared <==> i == 0)
        } by {
            assert(built_from(rooms[i], finished_plan(g, s, i), i));
        }
        assert forall|i: int, j: int|
            0 <= i < rooms.len() && 0 <= j < rooms.len() && (#[trigger] rooms[i]).room_type == RoomType::Boss
                && (#[trigger] rooms[j]).room_type == RoomType::Boss implies i == j by {
            assert(built_from(rooms[i], finished_plan(g, s, i), i));
            assert(built_from(rooms[j], finished_plan(g, s, j), j));
        }
        assert forall|i: int, j: int|
            0 <= i < rooms.len() && 0 <= j < rooms.len() && (#[trigger] rooms[i]).room_type == RoomType::Exit
                && (#[trigger] rooms[j]).room_type == RoomType::Exit implies i == j by {
            assert(built_from(rooms[i], finished_plan(g, s, i), i));
            assert(built_from(rooms[j], finished_plan(g, s, j), j));
        }
    }
}

/// Attempt to generate a floor. Returns None if constraints can't be met: when fewer than
/// `min_rooms` rooms could be grown, or the grown floor has fewer than two dead ends for
/// the boss room and the exit.
#[verifier::rlimit(100)]
fn try_generate(config: &FloorConfig, seed: u64) -> (r: Option<FloorLayout>)
    requires
        1 <= config.min_rooms <= config.max_rooms <= 15,
    ensures
        r is Some <==> floor_usable(*config, seed),
        r matches Some(f) ==> {
            &&& floor_valid(f)
            &&& config.min_rooms <= f.rooms@.len() <= config.max_rooms
            &&& f.floor_number == config.floor_number
            &&& floor_built(f, grown_floor(*config, seed))
            &&& links_adjacent(f.rooms@, f.connections@)
            &&& rooms_marked(f.rooms@)
        },
{
    let (mut rooms, connections) = grow_rooms(config, seed);
    let ghost g = grown_floor(*config, seed);

    // Check minimum room count
    if rooms.len() < config.min_rooms {
        return None;
    }
    let n = rooms.len();
    proof {
        lemma_tree_connected(connections@, n as int);
    }

    // 3. Identify dead ends (rooms with only one connection)
    let mut dead_ends = find_dead_ends(&rooms, &connections, Ghost(g));

    // Sort dead ends by distance from start (BFS distance), furthest first
    let distances = bfs_distances(&connections, n, 0);
    let ghost de0 = dead_ends@;
    sort_by_distance_desc(&mut dead_ends, &distances);
    assert forall|k: int| 0 <= k < dead_ends@.len() implies (#[trigger] dead_ends@[k]) < n && rooms@[dead_ends@[k] as int].room_type != RoomType::Start by {
        assert(dead_ends@.contains(dead_ends@[k]));
        assert(de0.contains(dead_ends@[k]));
        let m = choose|m: int| 0 <= m < de0.len() && de0[m] == dead_ends@[k];
    }
    let ghost s = dead_ends@;
    assert(ranked_dead_ends(g, distances@, s)) by {
        assert forall|p: int, q: int| 0 <= p < q < s.len() implies farther_first(distances@, #[trigger] s[p], #[trigger] s[q]) by {
            assert(s[p] != s[q]);
        }
    }
    assert(forall|k: int| 0 <= k < s.len() ==> (#[trigger] s[k]) != 0) by {
        assert forall|k: int| 0 <= k < s.len() implies (#[trigger] s[k]) != 0 by {
            assert(built_from(rooms@[0], g.rooms[0], 0));
        }
    }
    let ghost grown = rooms@;

    // 4. Assign special rooms to dead ends
    assign_special_rooms(&mut rooms, &dead_ends, Ghost(g));
    assert forall|k: int| 0 <= k < n implies #[trigger] built_from(rooms@[k], finished_plan(g, s, k), k) by {
        assert(built_from(rooms@[k], finished_plan(g, dead_ends@, k), k));
    }
    assert forall|k: int| 0 <= k < n implies {
        &&& (#[trigger] rooms@[k]).grid_x == grown[k].grid_x
        &&& rooms@[k].grid_y == grown[k].grid_y
        &&& rooms@[k].template.tiles@.len() == rooms@[k].template.width * rooms@[k].template.height
        &&& rooms@[k].room_type == rooms@[k].template.room_type
    } by {
        assert(built_from(rooms@[k], finished_plan(g, s, k), k));
        assert(built_from(grown[k], g.rooms[k], k));
    }
    assert(built_from(rooms@[0], finished_plan(g, s, 0), 0));

    // If no dead ends found for boss/exit, we need at least those two
    let has_boss = any_room_of_type(&rooms, RoomType::Boss);
    let has_exit = any_room_of_type(&rooms, RoomType::Exit);
    proof {
        if s.len() > 0 {
            assert(built_from(rooms@[s[0] as int], finished_plan(g, s, s[0] as int), s[0] as int));
        } else if has_boss {
            let k = choose|k: int| 0 <= k < rooms@.len() && (#[trigger] rooms@[k]).room_type == RoomType::Boss;
            assert(built_from(rooms@[k], finished_plan(g, s, k), k));
        }
        if s.len() > 1 {
            assert(farther_first(distances@, s[0], s[1]));
            assert(built_from(rooms@[s[1] as int], finished_plan(g, s, s[1] as int), s[1] as int));
        } else if has_exit {
            let k = choose|k: int| 0 <= k < rooms@.len() && (#[trigger] rooms@[k]).room_type == RoomType::Exit;
            assert(built_from(rooms@[k], finished_plan(g, s, k), k));
        }
    }
    if !has_boss || !has_exit {
        return None;
    }

    // 5. Validate all rooms reachable
    if !all_reachable(&connections, rooms.len(), 0) {
        return None;
    }

    let f = FloorLayout { rooms, connections, floor_number: config.floor_number };
    assert(positions_distinct(f.rooms@)) by {
        assert forall|i: int, j: int| 0 <= i < j < f.rooms@.len() implies !(#[trigger] f.rooms@[i].grid_x == #[trigger] f.rooms@[j].grid_x && f.rooms@[i].grid_y == f.rooms@[j].grid_y) by {
            assert(f.rooms@[i].grid_x == grown[i].grid_x && f.rooms@[j].grid_x == grown[j].grid_x);
            assert(!(grown[i].grid_x == grown[j].grid_x && grown[i].grid_y == grown[j].grid_y));
        }
    }
    assert(bfs_layered(g.links, g.rooms.len() as int, 0, distances@));
    assert(floor_built(f, g));
    proof {
        lemma_finished_rooms(f.rooms@, grown, f.connections@, g, s);
    }
    Some(f)
}

fn any_room_of_type(rooms: &Vec<PlacedRoom>, t: RoomType) -> (b: bool)
    ensures
        b == has_room_type(rooms@, t),
{
    let mut i: usize = 0;
    while i < rooms.len()
        invariant
            i <= rooms@.len(),
            forall|k: int| 0 <= k < i ==> (#[trigger] rooms@[k]).room_type != t,
        decreases rooms@.len() - i,
    {
        if rooms[i].room_type == t {
            return true;
        }
        i += 1;
    }
    false
}

/// The configuration `FloorConfig::from_floor` gives for floor `n`.
pub open spec fn floor_config(n: u32) -> FloorConfig {
    let fb = floors_beyond_first(n);
    FloorConfig {
        floor_number: n,
        min_rooms: min_int(6 + fb, 12) as usize,
        max_rooms: min_int(10 + fb, 15) as usize,
        enemy_count_mult_milli: (1000 + 150 * fb) as u64,
        enemy_hp_mult_milli: (1000 + 100 * fb) as u64,
    }
}

/// The seed of generation attempt `a`: `seed` plus `a` times 7919, wrapping.
pub open spec fn attempt_seed(seed: u64, a: u64) -> u64 {
    let m = ((a as nat * 7919) % 0x1_0000_0000_0000_0000) as u64;
    if seed + m > u64::MAX {
        (seed + m - 0x1_0000_0000_0000_0000) as u64
    } else {
        (seed + m) as u64
    }
}

/// The first of the twenty generation attempts, from attempt `a` on, whose grown floor is
/// usable.
pub open spec fn first_attempt(config: FloorConfig, seed: u64, a: int) -> Option<u64>
    decreases 20 - a,
{
    if a < 0 || a >= 20 {
        None
    } else if floor_usable(config, attempt_seed(seed, a as u64)) {
        Some(a as u64)
    } else {
        first_attempt(config, seed, a + 1)
    }
}

/// Room `i` of the fallback floor: start, two arenas, the boss arena and the exit, in a
/// column from the origin downwards.
pub open spec fn fallback_plan(i: int) -> RoomPlan {
    let (layout, room_type) = if i == 0 {
        (templates::start_room_layout(), RoomType::Start)
    } else if i == 1 || i == 2 {
        (templates::arena_layout(), RoomType::Combat)
    } else if i == 3 {
        (templates::boss_arena_layout(), RoomType::Boss)
    } else {
        (templates::exit_room_layout(), RoomType::Exit)
    };
    RoomPlan { layout, room_type, gx: 0, gy: i }
}

/// The fallback floor: its five rooms built from `fallback_plan`, linked in a line.
pub open spec fn fallback_layout(f: FloorLayout) -> bool {
    &&& f.rooms@.len() == 5
    &&& f.connections@ == seq![(0usize, 1usize), (1, 2), (2, 3), (3, 4)]
    &&& forall|i: int| 0 <= i < 5 ==> #[trigger] built_from(f.rooms@[i], fallback_plan(i), i)
}

/// `f` is the floor `generate_floor(floor_number, seed)` gives: a valid floor, linking only
/// grid neighbours, with one start, one boss room and one exit, sized by the floor number;
/// it is the floor built from the first usable generation attempt, or the fallback floor
/// when none of the twenty attempts is usable.
pub open spec fn generated_floor(f: FloorLayout, floor_number: u32, seed: u64) -> bool {
    &&& floor_valid(f)
    &&& links_adjacent(f.rooms@, f.connections@)
    &&& rooms_marked(f.rooms@)
    &&& f.floor_number == floor_number
    &&& ({
        let fb = floors_beyond_first(floor_number);
        (min_int(6 + fb, 12) <= f.rooms@.len() <= min_int(10 + fb, 15)) || f.rooms@.len() == 5
    })
    &&& match first_attempt(floor_config(floor_number), seed, 0) {
        Some(a) => floor_built(f, grown_floor(floor_config(floor_number), attempt_seed(seed, a))),
        None => fallback_layout(f),
    }
}

/// Two rankings of the dead ends of `g` by the same distances agree at every index up to `i`.
proof fn lemma_ranked_prefix(g: GrowState, d: Seq<usize>, s1: Seq<usize>, s2: Seq<usize>, i: int)
    requires
        ranked_dead_ends(g, d, s1),
        ranked_dead_ends(g, d, s2),
        0 <= i < s1.len(),
    ensures
        forall|j: int| 0 <= j <= i ==> s1[j] == s2[j],
    decreases i,
{
    if i > 0 {
        lemma_ranked_prefix(g, d, s1, s2, i - 1);
    }
    let x = s1[i];
    let y = s2[i];
    assert(s1.contains(x));
    assert(s2.contains(x));
    let k = choose|k: int| 0 <= k < s2.len() && s2[k] == x;
    assert(s2.contains(y));
    assert(s1.contains(y));
    let m = choose|m: int| 0 <= m < s1.len() && s1[m] == y;
    if k < i {
        assert(s1[k] == s2[k]);
        assert(farther_first(d, s1[k], s1[i]));
    } else if m < i {
        assert(s1[m] == s2[m]);
        assert(farther_first(d, s2[m], s2[i]));
    } else if k > i && m > i {
        assert(farther_first(d, s1[i], s1[m]));
        assert(farther_first(d, s2[i], s2[k]));
    }
}

/// The dead ends ranked farthest first by given distances come in one order only.
proof fn lemma_ranked_unique(g: GrowState, d: Seq<usize>, s1: Seq<usize>, s2: Seq<usize>)
    requires
        ranked_dead_ends(g, d, s1),
        ranked_dead_ends(g, d, s2),
    ensures
        s1 == s2,
{
    if s1.len() > 0 {
        lemma_ranked_prefix(g, d, s1, s2, s1.len() - 1);
    }
    assert(s1 =~= s2);
}

/// Rooms `x` and `y` agree in everything but the identity of their vectors: grid cell,
/// type, flags, and their templates' size, tiles, spawn points, doors and player spawn.
pub open spec fn same_room(x: PlacedRoom, y: PlacedRoom) -> bool {
    &&& x.grid_x == y.grid_x
    &&& x.grid_y == y.grid_y
    &&& x.room_type == y.room_type
    &&& x.cleared == y.cleared
    &&& x.discovered == y.discovered
    &&& x.template.width == y.template.width
    &&& x.template.height == y.template.height
    &&& x.template.tiles@ == y.template.tiles@
    &&& x.template.spawn_points@ == y.template.spawn_points@
    &&& x.template.entry_points@ == y.template.entry_points@
    &&& x.template.player_spawn == y.template.player_spawn
}

/// Floor generation is deterministic: the same floor number and seed give the same links
/// and, room by room, the same rooms.
pub proof fn law_generation_deterministic(a: FloorLayout, b: FloorLayout, floor_number: u32, seed: u64)
    requires
        generated_floor(a, floor_number, seed),
        generated_floor(b, floor_number, seed),
    ensures
        a.rooms@.len() == b.rooms@.len(),
        a.connections@ == b.connections@,
        forall|i: int| 0 <= i < a.rooms@.len() ==> same_room(#[trigger] a.rooms@[i], b.rooms@[i]),
{
    match first_attempt(floor_config(floor_number), seed, 0) {
        Some(at) => {
            let g = grown_floor(floor_config(floor_number), attempt_seed(seed, at));
            let n = g.rooms.len() as int;
            let (d1, s1) = choose|d: Seq<usize>, s: Seq<usize>| {
                &&& bfs_layered(g.links, n, 0, d)
                &&& ranked_dead_ends(g, d, s)
                &&& forall|i: int| 0 <= i < n ==> #[trigger] built_from(a.rooms@[i], finished_plan(g, s, i), i)
            };
            let (d2, s2) = choose|d: Seq<usize>, s: Seq<usize>| {
                &&& bfs_layered(g.links, n, 0, d)
                &&& ranked_dead_ends(g, d, s)
                &&& forall|i: int| 0 <= i < n ==> #[trigger] built_from(b.rooms@[i], finished_plan(g, s, i), i)
            };
            lemma_layered_unique(g.links, n, 0, d1, d2);
            lemma_ranked_unique(g, d1, s1, s2);
            assert forall|i: int| 0 <= i < a.rooms@.len() implies same_room(#[trigger] a.rooms@[i], b.rooms@[i]) by {
                assert(built_from(a.rooms@[i], finished_plan(g, s1, i), i));
                assert(built_from(b.rooms@[i], finished_plan(g, s1, i), i));
            }
        },
        None => {
            assert forall|i: int| 0 <= i < a.rooms@.len() implies same_room(#[trigger] a.rooms@[i], b.rooms@[i]) by {
                assert(built_from(a.rooms@[i], fallback_plan(i), i));
                assert(built_from(b.rooms@[i], fallback_plan(i), i));
            }
        },
    }
}

/// Minimal fallback floor: start -> combat -> boss -> exit (linear).
pub fn fallback_floor(floor_number: u32) -> (f: FloorLayout)
    ensures
        floor_valid(f),
        f.floor_number == floor_number,
        fallback_layout(f),
        links_adjacent(f.rooms@, f.connections@),
        rooms_marked(f.rooms@),
{
    let mut rooms: Vec<PlacedRoom> = Vec::new();
    rooms.push(PlacedRoom {
        template: templates::start_room(),
        grid_x: 0,
        grid_y: 0,
        room_type: RoomType::Start,
        cleared: true,
        discovered: true,
    });
    rooms.push(PlacedRoom {
        template: templates::arena(),
        grid_x: 0,
        grid_y: 1,
        room_type: RoomType::Combat,
        cleared: false,
        discovered: false,
    });
    rooms.push(PlacedRoom {
        template: templates::arena(),
        grid_x: 0,
        grid_y: 2,
        room_type: RoomType::Combat,
        cleared: false,
        discovered: false,
    });
    rooms.push(PlacedRoom {
        template: templates::boss_arena(),
        grid_x: 0,
        grid_y: 3,
        room_type: RoomType::Boss,
        cleared: false,
        discovered: false,
    });
    rooms.push(PlacedRoom {
        template: templates::exit_room(),
        grid_x: 0,
        grid_y: 4,
        room_type: RoomType::Exit,
        cleared: false,
        discovered: false,
    });
    let connections = vec![(0usize, 1usize), (1, 2), (2, 3), (3, 4)];
    let f = FloorLayout { rooms, connections, floor_number };
    proof {
        assert(tree_links(f.connections@, 5));
        lemma_tree_connected(f.connections@, 5);
        assert(f.rooms@[3].room_type == RoomType::Boss);
        assert(f.rooms@[4].room_type == RoomType::Exit);
        assert(built_from(f.rooms@[0], fallback_plan(0), 0));
        assert(built_from(f.rooms@[1], fallback_plan(1), 1));
        assert(built_from(f.rooms@[2], fallback_plan(2), 2));
        assert(built_from(f.rooms@[3], fallback_plan(3), 3));
        assert(built_from(f.rooms@[4], fallback_plan(4), 4));
    }
    f
}

/// Generate a procedural floor layout.
///
/// The algorithm places rooms on an abstract grid using a Binding of Isaac-style
/// approach: start at (0,0), then iteratively grow by placing rooms adjacent to
/// open connections. Special rooms (boss, exit, treasure, shop) are assigned to
/// dead-end positions after the main layout is generated.
pub fn generate_floor(floor_number: u32, seed: u64) -> (f: FloorLayout)
    ensures
        generated_floor(f, floor_number, seed),
{
    let config = FloorConfig::from_floor(floor_number);
    assert(config == floor_config(floor_number));

    // Retry with different seeds if generation fails
    let mut attempt: u64 = 0;
    while attempt < 20
        invariant
            attempt <= 20,
            config == floor_config(floor_number),
            config.floor_number == floor_number,
            config.min_rooms == min_int(6 + floors_beyond_first(floor_number), 12),
            config.max_rooms == min_int(10 + floors_beyond_first(floor_number), 15),
            first_attempt(config, seed, 0) == first_attempt(config, seed, attempt as int),
        decreases 20 - attempt,
    {
        let adjusted_seed = seed.wrapping_add(attempt.wrapping_mul(7919));
        assert(adjusted_seed == attempt_seed(seed, attempt));
        if let Some(layout) = try_generate(&config, adjusted_seed) {
            return layout;
        }
        attempt += 1;
    }

    // Ultimate fallback: minimal valid floor
    fallback_floor(floor_number)
}

} // verus!
