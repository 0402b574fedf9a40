use vstd::prelude::*;
use crate::engine::tilemap::TileType;
use vstd::string::StringSliceAdditionalSpecFns;
use vstd::string::StrSliceExecFns;

verus! {

/// A room template defining layout, spawn points, and entry points.
pub struct RoomTemplate {
    pub width: usize,
    pub height: usize,
    pub tiles: Vec<TileType>,
    pub spawn_points: Vec<SpawnPoint>,
    pub entry_points: Vec<EntryPoint>,
    pub player_spawn: Option<(usize, usize)>,
    pub room_type: RoomType,
}

/// The purpose of a room in the dungeon.
#[derive(Clone, Copy, PartialEq, Eq, Debug, Structural)]
pub enum RoomType {
    Combat,
    Treasure,
    Shop,
    Boss,
    Start,
    Exit,
    Corridor,
}

/// A location where enemies can spawn within a room.
#[derive(Clone, Copy, PartialEq, Eq, Debug, Structural)]
pub struct SpawnPoint {
    pub x: usize,
    pub y: usize,
    /// Spawn wave group (0 = immediate, 1 = wave 2, etc.)
    pub group: u8,
}

/// A doorway connecting this room to another.
#[derive(Clone, Copy, PartialEq, Eq, Debug, Structural)]
pub struct EntryPoint {
    pub x: usize,
    pub y: usize,
    pub direction: Direction,
}

/// Cardinal direction for entry points.
#[derive(Clone, Copy, PartialEq, Eq, Debug, Structural)]
pub enum Direction {
    North,
    South,
    East,
    West,
}

/// What the template parser has collected so far.
pub struct ParseState {
    pub tiles: Seq<TileType>,
    pub spawns: Seq<SpawnPoint>,
    pub entries: Seq<EntryPoint>,
    pub player: Option<(usize, usize)>,
}

/// The tile a template character stands for (before wall tops are applied).
pub open spec fn char_tile(ch: char) -> TileType {
    if ch == 'W' {
        TileType::Wall
    } else if ch == 'D' {
        TileType::DoorClosed
    } else {
        TileType::Floor
    }
}

pub open spec fn is_digit(ch: char) -> bool {
    '0' <= ch <= '9'
}

/// Effect of the character `ch` at (x, y) on the parse state.
pub open spec fn parse_step(st: ParseState, x: int, y: int, ch: char, width: int, height: int, room_type: RoomType) -> ParseState {
    let idx = y * width + x;
    let tiles = st.tiles.update(idx, char_tile(ch));
    if ch == 'D' {
        ParseState {
            tiles,
            entries: st.entries.push(EntryPoint { x: x as usize, y: y as usize, direction: infer_direction_spec(x, y, width, height) }),
            ..st
        }
    } else if ch == 'S' {
        ParseState { tiles, spawns: st.spawns.push(SpawnPoint { x: x as usize, y: y as usize, group: 0 }), ..st }
    } else if is_digit(ch) {
        ParseState {
            tiles,
            spawns: st.spawns.push(SpawnPoint { x: x as usize, y: y as usize, group: (ch as int - '0' as int) as u8 }),
            ..st
        }
    } else if ch == 'P' || (ch == 'E' && room_type == RoomType::Exit) {
        ParseState { tiles, player: Some((x as usize, y as usize)), ..st }
    } else {
        ParseState { tiles, ..st }
    }
}

/// The parse state after the first `k` characters of row `y`.
pub open spec fn parse_row(st: ParseState, row: Seq<char>, y: int, k: int, width: int, height: int, room_type: RoomType) -> ParseState
    decreases k,
{
    if k <= 0 {
        st
    } else {
        parse_step(parse_row(st, row, y, k - 1, width, height, room_type), k - 1, y, row[k - 1], width, height, room_type)
    }
}

/// The parse state after the first `n` rows.
pub open spec fn parse_rows(layout: Seq<Seq<char>>, n: int, width: int, height: int, room_type: RoomType) -> ParseState
    decreases n,
{
    if n <= 0 {
        ParseState {
            tiles: Seq::new((width * height) as nat, |i: int| TileType::Floor),
            spawns: Seq::empty(),
            entries: Seq::empty(),
            player: None,
        }
    } else {
        parse_row(parse_rows(layout, n - 1, width, height, room_type), layout[n - 1], n - 1, layout[n - 1].len() as int, width, height, room_type)
    }
}

/// A Wall tile becomes WallTop when the tile below it is not a wall or a closed door.
pub open spec fn with_wall_tops(tiles: Seq<TileType>, width: int, height: int) -> Seq<TileType> {
    Seq::new(tiles.len(), |i: int| {
        let y = i / width;
        if tiles[i] == TileType::Wall && y + 1 < height && tiles[i + width] != TileType::Wall
            && tiles[i + width] != TileType::WallTop && tiles[i + width] != TileType::DoorClosed {
            TileType::WallTop
        } else {
            tiles[i]
        }
    })
}

/// The rows of a layout as character sequences.
pub open spec fn layout_chars(layout: Seq<&str>) -> Seq<Seq<char>> {
    layout.map_values(|s: &str| s@)
}

/// What `parse_template` needs of a layout: at least one row, a non-empty first
/// row, every row fits inside the grid that the first row's byte length spans,
/// and no door lies right of that width in an interior row.
pub open spec fn template_fits(layout: Seq<&str>) -> bool {
    let height = layout.len() as int;
    let width = layout[0].spec_bytes().len() as int;
    &&& height > 0
    &&& width > 0
    &&& width * height <= usize::MAX
    &&& forall|y: int| 0 <= y < height ==> y * width + (#[trigger] layout[y])@.len() <= width * height
    &&& forall|y: int, x: int|
        0 < y < height - 1 && width <= x < layout[y]@.len() ==> #[trigger] layout[y]@[x] != 'D'
}

pub open spec fn template_of(layout: Seq<&str>, room_type: RoomType) -> (ParseState, int, int) {
    let height = layout.len() as int;
    let width = layout[0].spec_bytes().len() as int;
    (parse_rows(layout_chars(layout), height, width, height, room_type), width, height)
}

/// `t` is what `parse_template` makes of `layout` for a room of type `room_type`.
pub open spec fn parsed_as(t: RoomTemplate, layout: Seq<&str>, room_type: RoomType) -> bool {
    &&& t.width == layout[0].spec_bytes().len()
    &&& t.height == layout.len()
    &&& t.room_type == room_type
    &&& t.tiles@ == with_wall_tops(template_of(layout, room_type).0.tiles, t.width as int, t.height as int)
    &&& t.tiles@.len() == t.width * t.height
    &&& t.spawn_points@ == template_of(layout, room_type).0.spawns
    &&& t.entry_points@ == template_of(layout, room_type).0.entries
    &&& t.player_spawn == template_of(layout, room_type).0.player
}

/// The tile that row `y`, column `x` of `rows` gives: a closed door for 'D'; for 'W' a wall,
/// or a wall top when the cell below is neither 'W' nor 'D'; floor for anything else.
pub open spec fn cell_tile(rows: Seq<Seq<char>>, x: int, y: int) -> TileType {
    let c = rows[y][x];
    if c == 'D' {
        TileType::DoorClosed
    } else if c == 'W' {
        if y + 1 < rows.len() && rows[y + 1][x] != 'W' && rows[y + 1][x] != 'D' {
            TileType::WallTop
        } else {
            TileType::Wall
        }
    } else {
        TileType::Floor
    }
}

/// Parsing the first `k` characters of row `y` sets exactly those cells.
proof fn lemma_parse_row_cells(st: ParseState, row: Seq<char>, y: int, k: int, w: int, h: int, rt: RoomType)
    requires
        0 <= y < h,
        0 <= k <= w,
        st.tiles.len() == w * h,
    ensures
        parse_row(st, row, y, k, w, h, rt).tiles.len() == w * h,
        forall|i: int| 0 <= i < w * h ==> #[trigger] parse_row(st, row, y, k, w, h, rt).tiles[i] == if y * w <= i < y * w + k {
            char_tile(row[i - y * w])
        } else {
            st.tiles[i]
        },
    decreases k,
{
    if k > 0 {
        lemma_parse_row_cells(st, row, y, k - 1, w, h, rt);
        assert(y * w + k <= w * h) by (nonlinear_arith)
            requires 0 <= y < h, 0 < k <= w;
        assert(0 <= y * w) by (nonlinear_arith)
            requires 0 <= y, 0 <= w;
    }
}

/// Parsing the first `n` rows sets their cells and leaves the rest floor.
proof fn lemma_parse_rows_cells(rows: Seq<Seq<char>>, n: int, w: int, h: int, rt: RoomType)
    requires
        0 <= n <= h,
        w > 0,
        forall|y: int| 0 <= y < h ==> (#[trigger] rows[y]).len() == w,
    ensures
        parse_rows(rows, n, w, h, rt).tiles.len() == w * h,
        forall|y: int, x: int| 0 <= y < n && 0 <= x < w ==> #[trigger] parse_rows(rows, n, w, h, rt).tiles[y * w + x] == char_tile(rows[y][x]),
    decreases n,
{
    assert(0 <= w * h) by (nonlinear_arith)
        requires 0 < w, 0 <= h;
    if n > 0 {
        lemma_parse_rows_cells(rows, n - 1, w, h, rt);
        let prev = parse_rows(rows, n - 1, w, h, rt);
        lemma_parse_row_cells(prev, rows[n - 1], n - 1, w, w, h, rt);
        assert forall|y: int, x: int| 0 <= y < n && 0 <= x < w implies #[trigger] parse_rows(rows, n, w, h, rt).tiles[y * w + x] == char_tile(rows[y][x]) by {
            assert(y * w + x < w * h) by (nonlinear_arith)
                requires 0 <= y < n, n <= h, 0 <= x < w;
            assert(0 <= y * w + x) by (nonlinear_arith)
                requires 0 <= y, 0 <= x, 0 < w;
            if y < n - 1 {
                assert(y * w + x < (n - 1) * w) by (nonlinear_arith)
                    requires 0 <= y < n - 1, 0 <= x < w;
            } else {
                assert(y * w + x - (n - 1) * w == x);
            }
        }
    }
}

/// A template's tiles follow its rows cell by cell (when every row is as long as the
/// first): a closed door for 'D'; for 'W' a wall, or a wall top when the cell below is
/// neither 'W' nor 'D'; floor for every other character.
pub proof fn law_template_cells(t: RoomTemplate, layout: Seq<&str>, rt: RoomType, x: int, y: int)
    requires
        parsed_as(t, layout, rt),
        forall|r: int| 0 <= r < layout.len() ==> (#[trigger] layout[r])@.len() == t.width,
        0 <= x < t.width,
        0 <= y < t.height,
    ensures
        t.tiles@[y * t.width + x] == cell_tile(layout_chars(layout), x, y),
{
    let w = t.width as int;
    let h = t.height as int;
    let rows = layout_chars(layout);
    assert forall|r: int| 0 <= r < h implies (#[trigger] rows[r]).len() == w by {
        assert(rows[r] == layout[r]@);
    }
    lemma_parse_rows_cells(rows, h, w, h, rt);
    let base = template_of(layout, rt).0.tiles;
    let i = y * w + x;
    assert(0 <= i < w * h) by (nonlinear_arith)
        requires 0 <= y < h, 0 <= x < w, i == y * w + x;
    assert(i / w == y) by (nonlinear_arith)
        requires 0 <= x < w, i == y * w + x;
    assert(base[i] == char_tile(rows[y][x]));
    if y + 1 < h {
        assert(i + w == (y + 1) * w + x) by (nonlinear_arith)
            requires i == y * w + x;
        assert(base[i + w] == char_tile(rows[y + 1][x]));
    }
}

/// The spawn group a template character gives: 0 for 'S', the digit's value for '0' to
/// '9', none otherwise.
pub open spec fn spawn_group(ch: char) -> Option<u8> {
    if ch == 'S' {
        Some(0u8)
    } else if ch != 'D' && is_digit(ch) {
        Some((ch as int - '0' as int) as u8)
    } else {
        None
    }
}

/// The doors among the first `k` cells of row `y`, left to right.
pub open spec fn row_doors(row: Seq<char>, y: int, k: int, w: int, h: int) -> Seq<EntryPoint>
    decreases k,
{
    if k <= 0 {
        Seq::empty()
    } else {
        let r = row_doors(row, y, k - 1, w, h);
        if row[k - 1] == 'D' {
            r.push(EntryPoint { x: (k - 1) as usize, y: y as usize, direction: infer_direction_spec(k - 1, y, w, h) })
        } else {
            r
        }
    }
}

/// The spawn points among the first `k` cells of row `y`, left to right.
pub open spec fn row_spawns(row: Seq<char>, y: int, k: int) -> Seq<SpawnPoint>
    decreases k,
{
    if k <= 0 {
        Seq::empty()
    } else {
        let r = row_spawns(row, y, k - 1);
        match spawn_group(row[k - 1]) {
            Some(g) => r.push(SpawnPoint { x: (k - 1) as usize, y: y as usize, group: g }),
            None => r,
        }
    }
}

/// The doors of the first `n` rows, row by row.
pub open spec fn layout_doors(rows: Seq<Seq<char>>, n: int, w: int, h: int) -> Seq<EntryPoint>
    decreases n,
{
    if n <= 0 {
        Seq::empty()
    } else {
        layout_doors(rows, n - 1, w, h) + row_doors(rows[n - 1], n - 1, rows[n - 1].len() as int, w, h)
    }
}

/// The spawn points of the first `n` rows, row by row.
pub open spec fn layout_spawns(rows: Seq<Seq<char>>, n: int) -> Seq<SpawnPoint>
    decreases n,
{
    if n <= 0 {
        Seq::empty()
    } else {
        layout_spawns(rows, n - 1) + row_spawns(rows[n - 1], n - 1, rows[n - 1].len() as int)
    }
}

proof fn lemma_parse_row_marks(st: ParseState, row: Seq<char>, y: int, k: int, w: int, h: int, rt: RoomType)
    ensures
        parse_row(st, row, y, k, w, h, rt).entries == st.entries + row_doors(row, y, k, w, h),
        parse_row(st, row, y, k, w, h, rt).spawns == st.spawns + row_spawns(row, y, k),
    decreases k,
{
    if k <= 0 {
        assert(st.entries + row_doors(row, y, k, w, h) =~= st.entries);
        assert(st.spawns + row_spawns(row, y, k) =~= st.spawns);
    } else {
        lemma_parse_row_marks(st, row, y, k - 1, w, h, rt);
        let ch = row[k - 1];
        let d = row_doors(row, y, k - 1, w, h);
        let sp = row_spawns(row, y, k - 1);
        if ch == 'D' {
            assert((st.entries + d).push(EntryPoint { x: (k - 1) as usize, y: y as usize, direction: infer_direction_spec(k - 1, y, w, h) })
                =~= st.entries + row_doors(row, y, k, w, h));
        } else {
            assert(st.entries + d =~= st.entries + row_doors(row, y, k, w, h));
        }
        match spawn_group(ch) {
            Some(g) => {
                assert((st.spawns + sp).push(SpawnPoint { x: (k - 1) as usize, y: y as usize, group: g })
                    =~= st.spawns + row_spawns(row, y, k));
            },
            None => {
                assert(st.spawns + sp =~= st.spawns + row_spawns(row, y, k));
            },
        }
    }
}

proof fn lemma_parse_rows_marks(rows: Seq<Seq<char>>, n: int, w: int, h: int, rt: RoomType)
    ensures
        parse_rows(rows, n, w, h, rt).entries == layout_doors(rows, n, w, h),
        parse_rows(rows, n, w, h, rt).spawns == layout_spawns(rows, n),
    decreases n,
{
    if n > 0 {
        lemma_parse_rows_marks(rows, n - 1, w, h, rt);
        lemma_parse_row_marks(parse_rows(rows, n - 1, w, h, rt), rows[n - 1], n - 1, rows[n - 1].len() as int, w, h, rt);
    }
}

/// A template's doors are its 'D' cells and its spawn points its 'S' (group 0) and digit
/// (group = digit) cells, each listed row by row, left to right.
pub proof fn law_template_marks(t: RoomTemplate, layout: Seq<&str>, rt: RoomType)
    requires
        parsed_as(t, layout, rt),
    ensures
        t.entry_points@ == layout_doors(layout_chars(layout), t.height as int, t.width as int, t.height as int),
        t.spawn_points@ == layout_spawns(layout_chars(layout), t.height as int),
{
    lemma_parse_rows_marks(layout_chars(layout), t.height as int, t.width as int, t.height as int, rt);
}

/// Parse a template string into a `RoomTemplate`.
///
/// Template characters:
/// - `W` = Wall
/// - `.` = Floor
/// - `D` = Door (closed)
/// - `S` = Spawn point (floor tile underneath, group 0)
/// - `P` = Player spawn (floor tile underneath)
/// - `E` = Exit/stairs (floor tile underneath)
///
/// Spawn groups can be specified with digits `0`-`9` instead of `S` for
/// explicit wave groups. `S` defaults to group 0.
///
/// Entry points are automatically detected at door positions based on
/// which wall edge they occupy (North/South/East/West).
pub fn parse_template(layout: &[&str], room_type: RoomType) -> (t: RoomTemplate)
    requires
        template_fits(layout@),
    ensures
        t.width == layout@[0].spec_bytes().len(),
        t.height == layout@.len(),
        t.room_type == room_type,
        t.tiles@ == with_wall_tops(template_of(layout@, room_type).0.tiles, t.width as int, t.height as int),
        t.tiles@.len() == t.width * t.height,
        t.spawn_points@ == template_of(layout@, room_type).0.spawns,
        t.entry_points@ == template_of(layout@, room_type).0.entries,
        t.player_spawn == template_of(layout@, room_type).0.player,
{
    let height = layout.len();
    proof {
        let w0 = layout@[0].spec_bytes().len() as int;
        assert(w0 <= w0 * (height as int)) by (nonlinear_arith)
            requires height >= 1, w0 >= 0;
    }
    let width = layout[0].len();
    let ghost w = width as int;
    let ghost h = height as int;
    let ghost rows = layout_chars(layout@);

    let mut tiles: Vec<TileType> = Vec::new();
    let mut i: usize = 0;
    while i < width * height
        invariant
            w * h <= usize::MAX,
            width == w,
            height == h,
            i <= w * h,
            tiles@ == Seq::new(i as nat, |k: int| TileType::Floor),
        decreases w * h - i,
    {
        tiles.push(TileType::Floor);
        i += 1;
        assert(tiles@ =~= Seq::new(i as nat, |k: int| TileType::Floor));
    }
    let mut spawn_points: Vec<SpawnPoint> = Vec::new();
    let mut entry_points: Vec<EntryPoint> = Vec::new();
    let mut player_spawn: Option<(usize, usize)> = None;

    let mut y: usize = 0;
    while y < height
        invariant
            template_fits(layout@),
            height == layout@.len(),
            width == layout@[0].spec_bytes().len(),
            w == width,
            h == height,
            rows == layout_chars(layout@),
            y <= height,
            tiles@.len() == w * h,
            ({
                let st = parse_rows(rows, y as int, w, h, room_type);
                &&& tiles@ == st.tiles
                &&& spawn_points@ == st.spawns
                &&& entry_points@ == st.entries
                &&& player_spawn == st.player
            }),
        decreases height - y,
    {
        let row: &str = layout[y];
        let n = row.unicode_len();
        assert(rows[y as int] == row@);
        assert(y * w + n <= w * h);
        let ghost st0 = parse_rows(rows, y as int, w, h, room_type);
        let mut x: usize = 0;
        while x < n
            invariant
                template_fits(layout@),
                height == layout@.len(),
                width == layout@[0].spec_bytes().len(),
                layout@[y as int] == row,
                n == row@.len(),
                rows[y as int] == row@,
                y < height,
                y * w + n <= w * h,
                w * h <= usize::MAX,
                width == w,
                height == h,
                x <= n,
                tiles@.len() == w * h,
                ({
                    let st = parse_row(st0, row@, y as int, x as int, w, h, room_type);
                    &&& tiles@ == st.tiles
                    &&& spawn_points@ == st.spawns
                    &&& entry_points@ == st.entries
                    &&& player_spawn == st.player
                }),
            decreases n - x,
        {
            let ch = row.get_char(x);
            let idx = y * width + x;
            if ch == 'W' {
                tiles.set(idx, TileType::Wall);
            } else if ch == '.' {
                tiles.set(idx, TileType::Floor);
            } else if ch == 'D' {
                tiles.set(idx, TileType::DoorClosed);
                assert(layout@[y as int]@[x as int] == 'D');
                let direction = infer_direction(x, y, width, height);
                entry_points.push(EntryPoint { x, y, direction });
            } else if ch == 'S' {
                tiles.set(idx, TileType::Floor);
                spawn_points.push(SpawnPoint { x, y, group: 0 });
            } else if '0' <= ch && ch <= '9' {
                tiles.set(idx, TileType::Floor);
                let group: u8 = (ch as u32 - '0' as u32) as u8;
                spawn_points.push(SpawnPoint { x, y, group });
            } else if ch == 'P' {
                tiles.set(idx, TileType::Floor);
                player_spawn = Some((x, y));
            } else if ch == 'E' {
                tiles.set(idx, TileType::Floor);
                // Exit marker — stored as player_spawn for Exit rooms
                if room_type == RoomType::Exit {
                    player_spawn = Some((x, y));
                }
            } else {
                tiles.set(idx, TileType::Floor);
            }
            x += 1;
        }
        y += 1;
    }

    // Apply WallTop: any Wall tile directly above a non-solid tile
    let ghost pre = tiles@;
    let mut yy: usize = 0;
    while yy < height
        invariant
            w * h <= usize::MAX,
            width == w,
            height == h,
            w > 0,
            pre.len() == w * h,
            tiles@.len() == w * h,
            yy <= height,
            forall|k: int| 0 <= k < yy * w ==> #[trigger] tiles@[k] == with_wall_tops(pre, w, h)[k],
            forall|k: int| yy * w <= k < w * h ==> #[trigger] tiles@[k] == pre[k],
        decreases height - yy,
    {
        let mut xx: usize = 0;
        while xx < width
            invariant
                w * h <= usize::MAX,
                width == w,
                height == h,
                w > 0,
                pre.len() == w * h,
                tiles@.len() == w * h,
                yy < height,
                xx <= width,
                forall|k: int| 0 <= k < yy * w + xx ==> #[trigger] tiles@[k] == with_wall_tops(pre, w, h)[k],
                forall|k: int| yy * w + xx <= k < w * h ==> #[trigger] tiles@[k] == pre[k],
            decreases width - xx,
        {
            proof {
                crate::engine::sprite::lemma_index_in_grid(xx as int, yy as int, w, h);
            }
            let idx = yy * width + xx;
            let ghost wi = with_wall_tops(pre, w, h);
            proof {
                assert((yy * w + xx) / w == yy) by (nonlinear_arith)
                    requires 0 <= xx < w, 0 <= yy;
            }
            assert(tiles@[idx as int] == pre[idx as int]);
            if tiles[idx] == TileType::Wall && yy + 1 < height {
                proof {
                    crate::engine::sprite::lemma_index_in_grid(xx as int, yy as int + 1, w, h);
                    assert((yy + 1) * w + xx == idx + w) by (nonlinear_arith)
                        requires idx == yy * w + xx;
                }
                assert(tiles@[idx + w] == pre[idx + w]);
                let below = tiles[idx + width];
                if !(below == TileType::Wall || below == TileType::WallTop || below == TileType::DoorClosed) {
                    tiles.set(idx, TileType::WallTop);
                }
            }
            assert(wi[idx as int] == if pre[idx as int] == TileType::Wall && yy + 1 < h && pre[idx + w] != TileType::Wall
                && pre[idx + w] != TileType::WallTop && pre[idx + w] != TileType::DoorClosed {
                TileType::WallTop
            } else {
                pre[idx as int]
            });
            assert(tiles@[idx as int] == wi[idx as int]);
            xx += 1;
        }
        proof {
            assert((yy + 1) * w == yy * w + w) by (nonlinear_arith);
        }
        yy += 1;
    }
    assert(tiles@ =~= with_wall_tops(pre, w, h));

    RoomTemplate { width, height, tiles, spawn_points, entry_points, player_spawn, room_type }
}

/// Direction of a door at (x, y) in a `width` x `height` room.
pub open spec fn infer_direction_spec(x: int, y: int, width: int, height: int) -> Direction {
    if y == 0 {
        Direction::North
    } else if y == height - 1 {
        Direction::South
    } else if x == 0 {
        Direction::West
    } else if x == width - 1 {
        Direction::East
    } else {
        let dist_n = y;
        let dist_s = height - 1 - y;
        let dist_w = x;
        let dist_e = width - 1 - x;
        let m1 = if dist_n < dist_s { dist_n } else { dist_s };
        let m2 = if m1 < dist_w { m1 } else { dist_w };
        let min = if m2 < dist_e { m2 } else { dist_e };
        if min == dist_n {
            Direction::North
        } else if min == dist_s {
            Direction::South
        } else if min == dist_w {
            Direction::West
        } else {
            Direction::East
        }
    }
}

/// Infer the direction of a door based on its position relative to the room edges.
pub fn infer_direction(x: usize, y: usize, width: usize, height: usize) -> (d: Direction)
    requires
        y < height,
        x < width || y == 0 || y == height - 1,
    ensures
        d == infer_direction_spec(x as int, y as int, width as int, height as int),
{
    if y == 0 {
        Direction::North
    } else if y == height - 1 {
        Direction::South
    } else if x == 0 {
        Direction::West
    } else if x == width - 1 {
        Direction::East
    } else {
        // Interior door — pick direction based on nearest edge
        let dist_n = y;
        let dist_s = height - 1 - y;
        let dist_w = x;
        let dist_e = width - 1 - x;
        let min = dist_n.min(dist_s).min(dist_w).min(dist_e);
        if min == dist_n {
            Direction::North
        } else if min == dist_s {
            Direction::South
        } else if min == dist_w {
            Direction::West
        } else {
            Direction::East
        }
    }
}

} // verus!
