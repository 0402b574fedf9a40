use vstd::prelude::*;
use crate::game::dungeon::room_template::{parse_template, parsed_as, RoomTemplate, RoomType, template_fits};

verus! {

broadcast use vstd::string::group_string_axioms;

/// The rows of the start room template.
pub open spec fn start_room_layout() -> Seq<&'static str> {
    seq![
        "WWWWWWWWWWWWWWWW",
        "W..............W",
        "W..............W",
        "W..............W",
        "W..............W",
        "W......P.......W",
        "W..............W",
        "W..............W",
        "W..............W",
        "W..............W",
        "W..............W",
        "WWWWWWWDWWWWWWWW",
    ]
}

/// 1. Start Room (16x12): Open room, entry south. Player spawns center.
pub fn start_room() -> (t: RoomTemplate)
    ensures
        parsed_as(t, start_room_layout(), RoomType::Start),
        t.room_type == RoomType::Start,
        t.width == 16,
        t.height == 12,
        t.tiles@.len() == 16 * 12,
{
    let layout: [&str; 12] = [
        "WWWWWWWWWWWWWWWW",
        "W..............W",
        "W..............W",
        "W..............W",
        "W..............W",
        "W......P.......W",
        "W..............W",
        "W..............W",
        "W..............W",
        "W..............W",
        "W..............W",
        "WWWWWWWDWWWWWWWW",
    ];
    proof {
        reveal_strlit("WWWWWWWWWWWWWWWW");
        reveal_strlit("W..............W");
        reveal_strlit("W......P.......W");
        reveal_strlit("WWWWWWWDWWWWWWWW");
        assert(vstd::string::is_ascii(layout@[0]));
        assert(template_fits(layout@));
        assert(layout@ =~= start_room_layout());
    }
    parse_template(&layout, RoomType::Start)
}

/// The rows of the arena template.
pub open spec fn arena_layout() -> Seq<&'static str> {
    seq![
        "WWWWWWWWWDWWWWWWWWWW",
        "W..................W",
        "W..S...........S..W",
        "W..................W",
        "W..................W",
        "W......S..S........W",
        "D..................D",
        "W..................W",
        "W..................W",
        "W..................W",
        "W..S...........S..W",
        "W..................W",
        "W..................W",
        "WWWWWWWWWDWWWWWWWWWW",
    ]
}

/// 2. Arena (20x14): Open combat room. 4 entries (one per side). 6 spawn points.
pub fn arena() -> (t: RoomTemplate)
    ensures
        parsed_as(t, arena_layout(), RoomType::Combat),
        t.room_type == RoomType::Combat,
        t.width == 20,
        t.height == 14,
        t.tiles@.len() == 20 * 14,
{
    let layout: [&str; 14] = [
        "WWWWWWWWWDWWWWWWWWWW",
        "W..................W",
        "W..S...........S..W",
        "W..................W",
        "W..................W",
        "W......S..S........W",
        "D..................D",
        "W..................W",
        "W..................W",
        "W..................W",
        "W..S...........S..W",
        "W..................W",
        "W..................W",
        "WWWWWWWWWDWWWWWWWWWW",
    ];
    proof {
        reveal_strlit("WWWWWWWWWDWWWWWWWWWW");
        reveal_strlit("W..................W");
        reveal_strlit("W..S...........S..W");
        reveal_strlit("W......S..S........W");
        reveal_strlit("D..................D");
        assert(vstd::string::is_ascii(layout@[0]));
        assert(template_fits(layout@));
        assert(layout@ =~= arena_layout());
    }
    parse_template(&layout, RoomType::Combat)
}

/// The rows of the pillared hall template.
pub open spec fn pillared_hall_layout() -> Seq<&'static str> {
    seq![
        "WWWWWWWWWDWWWWWWWWWW",
        "W..................W",
        "W..S..........S...W",
        "W....WW....WW.....W",
        "W....WW....WW.....W",
        "W..S..........S...W",
        "D..........S......D",
        "W..............S..W",
        "W..................W",
        "W....WW....WW.....W",
        "W....WW....WW.....W",
        "W..S..........S...W",
        "W..................W",
        "WWWWWWWWWDWWWWWWWWWW",
    ]
}

/// 3. Pillared Hall (20x14): Combat room with 4 interior 2x2 pillars.
pub fn pillared_hall() -> (t: RoomTemplate)
    ensures
        parsed_as(t, pillared_hall_layout(), RoomType::Combat),
        t.room_type == RoomType::Combat,
        t.width == 20,
        t.height == 14,
        t.tiles@.len() == 20 * 14,
{
    let layout: [&str; 14] = [
        "WWWWWWWWWDWWWWWWWWWW",
        "W..................W",
        "W..S..........S...W",
        "W....WW....WW.....W",
        "W....WW....WW.....W",
        "W..S..........S...W",
        "D..........S......D",
        "W..............S..W",
        "W..................W",
        "W....WW....WW.....W",
        "W....WW....WW.....W",
        "W..S..........S...W",
        "W..................W",
        "WWWWWWWWWDWWWWWWWWWW",
    ];
    proof {
        reveal_strlit("WWWWWWWWWDWWWWWWWWWW");
        reveal_strlit("W..................W");
        reveal_strlit("W..S..........S...W");
        reveal_strlit("W....WW....WW.....W");
        reveal_strlit("D..........S......D");
        reveal_strlit("W..............S..W");
        assert(vstd::string::is_ascii(layout@[0]));
        assert(template_fits(layout@));
        assert(layout@ =~= pillared_hall_layout());
    }
    parse_template(&layout, RoomType::Combat)
}

/// The rows of the corridor h template.
pub open spec fn corridor_h_layout() -> Seq<&'static str> {
    seq![
        "WWWWWWWWWWWWWWWWWW",
        "W................W",
        "D.....S....S.....D",
        "D................D",
        "W................W",
        "WWWWWWWWWWWWWWWWWW",
    ]
}

/// 4. Corridor-H (18x6): Horizontal corridor. East+west entries. 2 spawn points.
pub fn corridor_h() -> (t: RoomTemplate)
    ensures
        parsed_as(t, corridor_h_layout(), RoomType::Corridor),
        t.room_type == RoomType::Corridor,
        t.width == 18,
        t.height == 6,
        t.tiles@.len() == 18 * 6,
{
    let layout: [&str; 6] = [
        "WWWWWWWWWWWWWWWWWW",
        "W................W",
        "D.....S....S.....D",
        "D................D",
        "W................W",
        "WWWWWWWWWWWWWWWWWW",
    ];
    proof {
        reveal_strlit("WWWWWWWWWWWWWWWWWW");
        reveal_strlit("W................W");
        reveal_strlit("D.....S....S.....D");
        reveal_strlit("D................D");
        assert(vstd::string::is_ascii(layout@[0]));
        assert(template_fits(layout@));
        assert(layout@ =~= corridor_h_layout());
    }
    parse_template(&layout, RoomType::Corridor)
}

/// The rows of the corridor v template.
pub open spec fn corridor_v_layout() -> Seq<&'static str> {
    seq![
        "WWDDWW",
        "W....W",
        "W....W",
        "W....W",
        "W..S.W",
        "W....W",
        "W....W",
        "W....W",
        "W....W",
        "W....W",
        "W....W",
        "W....W",
        "W....W",
        "W.S..W",
        "W....W",
        "W....W",
        "W....W",
        "WWDDWW",
    ]
}

/// 5. Corridor-V (6x18): Vertical corridor. North+south entries. 2 spawn points.
pub fn corridor_v() -> (t: RoomTemplate)
    ensures
        parsed_as(t, corridor_v_layout(), RoomType::Corridor),
        t.room_type == RoomType::Corridor,
        t.width == 6,
        t.height == 18,
        t.tiles@.len() == 6 * 18,
{
    let layout: [&str; 18] = [
        "WWDDWW",
        "W....W",
        "W....W",
        "W....W",
        "W..S.W",
        "W....W",
        "W....W",
        "W....W",
        "W....W",
        "W....W",
        "W....W",
        "W....W",
        "W....W",
        "W.S..W",
        "W....W",
        "W....W",
        "W....W",
        "WWDDWW",
    ];
    proof {
        reveal_strlit("WWDDWW");
        reveal_strlit("W....W");
        reveal_strlit("W..S.W");
        reveal_strlit("W.S..W");
        assert(vstd::string::is_ascii(layout@[0]));
        assert(template_fits(layout@));
        assert(layout@ =~= corridor_v_layout());
    }
    parse_template(&layout, RoomType::Corridor)
}

/// The rows of the l shape template.
pub open spec fn l_shape_layout() -> Seq<&'static str> {
    seq![
        "WWWWWWWWWWWWWWWW",
        "W..........WWWWW",
        "W..S.......WWWWW",
        "W..........WWWWW",
        "W..........WWWWW",
        "W..............W",
        "D......S...S...W",
        "W..............W",
        "W..............W",
        "W..............W",
        "W......S.......W",
        "W..............W",
        "W..............W",
        "WWWWWWWWDWWWWWWW",
    ]
}

/// 6. L-Shape (16x14): L-shaped room with walls creating the turn. 2 entries, 4 spawn points.
pub fn l_shape() -> (t: RoomTemplate)
    ensures
        parsed_as(t, l_shape_layout(), RoomType::Combat),
        t.room_type == RoomType::Combat,
        t.width == 16,
        t.height == 14,
        t.tiles@.len() == 16 * 14,
{
    let layout: [&str; 14] = [
        "WWWWWWWWWWWWWWWW",
        "W..........WWWWW",
        "W..S.......WWWWW",
        "W..........WWWWW",
        "W..........WWWWW",
        "W..............W",
        "D......S...S...W",
        "W..............W",
        "W..............W",
        "W..............W",
        "W......S.......W",
        "W..............W",
        "W..............W",
        "WWWWWWWWDWWWWWWW",
    ];
    proof {
        reveal_strlit("WWWWWWWWWWWWWWWW");
        reveal_strlit("W..........WWWWW");
        reveal_strlit("W..S.......WWWWW");
        reveal_strlit("W..............W");
        reveal_strlit("D......S...S...W");
        reveal_strlit("W......S.......W");
        reveal_strlit("WWWWWWWWDWWWWWWW");
        assert(vstd::string::is_ascii(layout@[0]));
        assert(template_fits(layout@));
        assert(layout@ =~= l_shape_layout());
    }
    parse_template(&layout, RoomType::Combat)
}

/// The rows of the treasure vault template.
pub open spec fn treasure_vault_layout() -> Seq<&'static str> {
    seq![
        "WWWWWWWWWW",
        "W........W",
        "W........W",
        "W...SS...W",
        "W...SS...W",
        "W........W",
        "W........W",
        "WWWWDWWWWW",
    ]
}

/// 7. Treasure Vault (10x8): Single entry. Chest spawn in center.
pub fn treasure_vault() -> (t: RoomTemplate)
    ensures
        parsed_as(t, treasure_vault_layout(), RoomType::Treasure),
        t.room_type == RoomType::Treasure,
        t.width == 10,
        t.height == 8,
        t.tiles@.len() == 10 * 8,
{
    let layout: [&str; 8] = [
        "WWWWWWWWWW",
        "W........W",
        "W........W",
        "W...SS...W",
        "W...SS...W",
        "W........W",
        "W........W",
        "WWWWDWWWWW",
    ];
    proof {
        reveal_strlit("WWWWWWWWWW");
        reveal_strlit("W........W");
        reveal_strlit("W...SS...W");
        reveal_strlit("WWWWDWWWWW");
        assert(vstd::string::is_ascii(layout@[0]));
        assert(template_fits(layout@));
        assert(layout@ =~= treasure_vault_layout());
    }
    parse_template(&layout, RoomType::Treasure)
}

/// The rows of the boss arena template.
pub open spec fn boss_arena_layout() -> Seq<&'static str> {
    seq![
        "WWWWWWWWWWWWWWWWWWWWWWWWWW",
        "W........................W",
        "W........................W",
        "W........................W",
        "W........................W",
        "W........................W",
        "W........................W",
        "W........................W",
        "W............S...........W",
        "W........................W",
        "W........................W",
        "W........................W",
        "W........................W",
        "W........................W",
        "W........................W",
        "W........................W",
        "W........................W",
        "W........................W",
        "W........................W",
        "WWWWWWWWWWWWDWWWWWWWWWWWWW",
    ]
}

/// 8. Boss Arena (26x20): Large open arena. Single entry south. Boss spawn center.
pub fn boss_arena() -> (t: RoomTemplate)
    ensures
        parsed_as(t, boss_arena_layout(), RoomType::Boss),
        t.room_type == RoomType::Boss,
        t.width == 26,
        t.height == 20,
        t.tiles@.len() == 26 * 20,
{
    let layout: [&str; 20] = [
        "WWWWWWWWWWWWWWWWWWWWWWWWWW",
        "W........................W",
        "W........................W",
        "W........................W",
        "W........................W",
        "W........................W",
        "W........................W",
        "W........................W",
        "W............S...........W",
        "W........................W",
        "W........................W",
        "W........................W",
        "W........................W",
        "W........................W",
        "W........................W",
        "W........................W",
        "W........................W",
        "W........................W",
        "W........................W",
        "WWWWWWWWWWWWDWWWWWWWWWWWWW",
    ];
    proof {
        reveal_strlit("WWWWWWWWWWWWWWWWWWWWWWWWWW");
        reveal_strlit("W........................W");
        reveal_strlit("W............S...........W");
        reveal_strlit("WWWWWWWWWWWWDWWWWWWWWWWWWW");
        assert(vstd::string::is_ascii(layout@[0]));
        assert(template_fits(layout@));
        assert(layout@ =~= boss_arena_layout());
    }
    parse_template(&layout, RoomType::Boss)
}

/// The rows of the shop template.
pub open spec fn shop_layout() -> Seq<&'static str> {
    seq![
        "WWWWWWWWWWWWWWWW",
        "W..............W",
        "W..............W",
        "W..WWWWWWWWWW..W",
        "W..W........W..W",
        "W..............W",
        "W..............W",
        "W..S...S...S...W",
        "W..............W",
        "W..............W",
        "W..............W",
        "WWWWWWWDWWWWWWWW",
    ]
}

/// 9. Shop (16x12): Counter-like wall structure. Single entry.
pub fn shop() -> (t: RoomTemplate)
    ensures
        parsed_as(t, shop_layout(), RoomType::Shop),
        t.room_type == RoomType::Shop,
        t.width == 16,
        t.height == 12,
        t.tiles@.len() == 16 * 12,
{
    let layout: [&str; 12] = [
        "WWWWWWWWWWWWWWWW",
        "W..............W",
        "W..............W",
        "W..WWWWWWWWWW..W",
        "W..W........W..W",
        "W..............W",
        "W..............W",
        "W..S...S...S...W",
        "W..............W",
        "W..............W",
        "W..............W",
        "WWWWWWWDWWWWWWWW",
    ];
    proof {
        reveal_strlit("WWWWWWWWWWWWWWWW");
        reveal_strlit("W..............W");
        reveal_strlit("W..WWWWWWWWWW..W");
        reveal_strlit("W..W........W..W");
        reveal_strlit("W..S...S...S...W");
        reveal_strlit("WWWWWWWDWWWWWWWW");
        assert(vstd::string::is_ascii(layout@[0]));
        assert(template_fits(layout@));
        assert(layout@ =~= shop_layout());
    }
    parse_template(&layout, RoomType::Shop)
}

/// The rows of the exit room template.
pub open spec fn exit_room_layout() -> Seq<&'static str> {
    seq![
        "WWWWWWWWWWWW",
        "W..........W",
        "W..........W",
        "W..........W",
        "W.....E....W",
        "W..........W",
        "W..........W",
        "W..........W",
        "W..........W",
        "WWWWWDWWWWWW",
    ]
}

/// 10. Exit Room (12x10): Stairs-down in center. Single entry.
pub fn exit_room() -> (t: RoomTemplate)
    ensures
        parsed_as(t, exit_room_layout(), RoomType::Exit),
        t.room_type == RoomType::Exit,
        t.width == 12,
        t.height == 10,
        t.tiles@.len() == 12 * 10,
{
    let layout: [&str; 10] = [
        "WWWWWWWWWWWW",
        "W..........W",
        "W..........W",
        "W..........W",
        "W.....E....W",
        "W..........W",
        "W..........W",
        "W..........W",
        "W..........W",
        "WWWWWDWWWWWW",
    ];
    proof {
        reveal_strlit("WWWWWWWWWWWW");
        reveal_strlit("W..........W");
        reveal_strlit("W.....E....W");
        reveal_strlit("WWWWWDWWWWWW");
        assert(vstd::string::is_ascii(layout@[0]));
        assert(template_fits(layout@));
        assert(layout@ =~= exit_room_layout());
    }
    parse_template(&layout, RoomType::Exit)
}

/// Returns all available room templates.
pub fn all_templates() -> (v: Vec<RoomTemplate>)
    ensures
        v@.len() == 10,
        forall|i: int| 0 <= i < 10 ==> #[trigger] v@[i].tiles@.len() == v@[i].width * v@[i].height,
        v@[0].room_type == RoomType::Start,
        v@[1].room_type == RoomType::Combat,
        v@[2].room_type == RoomType::Combat,
        v@[3].room_type == RoomType::Corridor,
        v@[4].room_type == RoomType::Corridor,
        v@[5].room_type == RoomType::Combat,
        v@[6].room_type == RoomType::Treasure,
        v@[7].room_type == RoomType::Boss,
        v@[8].room_type == RoomType::Shop,
        v@[9].room_type == RoomType::Exit,
{
    let mut v: Vec<RoomTemplate> = Vec::new();
    v.push(start_room());
    v.push(arena());
    v.push(pillared_hall());
    v.push(corridor_h());
    v.push(corridor_v());
    v.push(l_shape());
    v.push(treasure_vault());
    v.push(boss_arena());
    v.push(shop());
    v.push(exit_room());
    v
}

} // verus!
