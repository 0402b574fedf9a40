//! Encounter definitions for dungeon rooms.
//!
//! Each combat room selects an `EncounterDef` based on difficulty and floor number.
//! An encounter consists of one or more waves of enemies that spawn in sequence.
use vstd::prelude::*;
use crate::game::enemies::{EnemyType, EnemyCore, Brain, SkeletonBrain, SkeletonState, GhostBrain, GhostState, BossBrain, BoneKingState, BOSS_HP};
use crate::game::dungeon::room_template::SpawnPoint;

verus! {

/// A complete encounter for a room.
pub struct EncounterDef {
    pub waves: Vec<WaveDef>,
}

/// A single wave within an encounter.
pub struct WaveDef {
    pub enemies: Vec<EnemySpawn>,
    pub trigger: WaveTrigger,
}

/// An enemy to spawn as part of a wave.
#[derive(Clone, Copy, PartialEq, Eq, Debug, Structural)]
pub struct EnemySpawn {
    pub enemy_type: EnemyType,
    /// Index into the room's spawn_points array (wraps around if out of bounds).
    pub spawn_index: usize,
}

/// When a wave should activate.
#[derive(Clone, Copy, PartialEq, Eq, Debug, Structural)]
pub enum WaveTrigger {
    /// Spawn when room combat starts.
    Immediate,
    /// Spawn after the previous wave is fully cleared.
    OnPreviousWaveCleared,
    /// Spawn when fewer than N enemies remain alive.
    OnEnemyCountBelow(usize),
}

/// Difficulty tier for encounter selection.
#[derive(Clone, Copy, PartialEq, Eq, Debug, Structural)]
pub enum EncounterDifficulty {
    Easy,
    Medium,
    Hard,
    Boss,
}

/// `skeletons` skeletons then `ghosts` ghosts, with spawn indices counting up from `offset`.
pub open spec fn spawns_spec(skeletons: int, ghosts: int, offset: int) -> Seq<EnemySpawn> {
    Seq::new((skeletons + ghosts) as nat, |i: int| EnemySpawn {
        enemy_type: if i < skeletons { EnemyType::Skeleton } else { EnemyType::Specter },
        spawn_index: (offset + i) as usize,
    })
}

pub open spec fn min_spec(a: int, b: int) -> int {
    if a < b { a } else { b }
}

pub open spec fn sat_sub(a: int, b: int) -> int {
    if a >= b { a - b } else { 0 }
}

/// An encounter as plain values: per wave its spawns and trigger.
pub open spec fn encounter_view(e: EncounterDef) -> Seq<(Seq<EnemySpawn>, WaveTrigger)> {
    e.waves@.map_values(|w: WaveDef| (w.enemies@, w.trigger))
}

/// The encounter `select_encounter` builds.
pub open spec fn encounter_spec(difficulty: EncounterDifficulty, floor_number: u32, num_spawn_points: usize, seed: u64) -> Seq<(Seq<EnemySpawn>, WaveTrigger)> {
    let n = num_spawn_points as int;
    let bonus_sk = min_spec(sat_sub(floor_number as int, 1), 3);
    let bonus_gh = min_spec(sat_sub(floor_number as int, 2), 2);
    let variant = (seed % 3) as int;
    if n == 0 {
        Seq::empty()
    } else {
        match difficulty {
            EncounterDifficulty::Easy => {
                let sk = min_spec(2 + bonus_sk + variant % 2, n);
                seq![(spawns_spec(sk, 0, 0), WaveTrigger::Immediate)]
            },
            EncounterDifficulty::Medium => {
                let w1_sk = min_spec(2 + bonus_sk, n);
                let w2_sk = min_spec(1 + bonus_sk / 2, n);
                let w2_gh = min_spec(1 + bonus_gh, sat_sub(n, w2_sk));
                seq![
                    (spawns_spec(w1_sk, 0, 0), WaveTrigger::Immediate),
                    (spawns_spec(w2_sk, w2_gh, w1_sk), WaveTrigger::OnPreviousWaveCleared),
                ]
            },
            EncounterDifficulty::Hard => {
                let w1_sk = min_spec(3 + bonus_sk, n);
                let w1_gh = min_spec(1 + bonus_gh, sat_sub(n, w1_sk));
                let w2_sk = min_spec(2 + bonus_sk, n);
                let w2_gh = min_spec(2 + bonus_gh, sat_sub(n, w2_sk));
                seq![
                    (spawns_spec(w1_sk, w1_gh, 0), WaveTrigger::Immediate),
                    (spawns_spec(w2_sk, w2_gh, w1_sk + w1_gh), WaveTrigger::OnEnemyCountBelow(2)),
                ]
            },
            EncounterDifficulty::Boss => {
                seq![(seq![EnemySpawn { enemy_type: EnemyType::BoneKing, spawn_index: 0 }], WaveTrigger::Immediate)]
            },
        }
    }
}

fn wave(enemies: Vec<EnemySpawn>, trigger: WaveTrigger) -> (w: WaveDef)
    ensures
        w.enemies@ == enemies@,
        w.trigger == trigger,
{
    WaveDef { enemies, trigger }
}

/// Select an encounter based on difficulty, floor, and available spawn points.
pub fn select_encounter(
    difficulty: EncounterDifficulty,
    floor_number: u32,
    num_spawn_points: usize,
    seed: u64,
) -> (e: EncounterDef)
    ensures
        encounter_view(e) == encounter_spec(difficulty, floor_number, num_spawn_points, seed),
{
    if num_spawn_points == 0 {
        let e = EncounterDef { waves: Vec::new() };
        assert(encounter_view(e) =~= Seq::empty());
        return e;
    }

    // Floor scaling: each floor beyond 1 adds extra enemies
    let a = floor_number.saturating_sub(1) as usize;
    let floor_bonus_sk: usize = if a < 3 { a } else { 3 };
    let b = floor_number.saturating_sub(2) as usize;
    let floor_bonus_gh: usize = if b < 2 { b } else { 2 };

    // Use seed to add variety within the same difficulty tier
    let variant = (seed % 3) as usize;
    let n = num_spawn_points;

    let mut waves: Vec<WaveDef> = Vec::new();
    match difficulty {
        EncounterDifficulty::Easy => {
            // Single wave, skeletons only
            let sk_count = min_usize(2 + floor_bonus_sk + variant % 2, n);
            waves.push(wave(make_spawns(sk_count, 0, 0), WaveTrigger::Immediate));
        },
        EncounterDifficulty::Medium => {
            // Two waves: skeletons, then skeletons + ghosts
            let w1_sk = min_usize(2 + floor_bonus_sk, n);
            let w2_sk = min_usize(1 + floor_bonus_sk / 2, n);
            let w2_gh = min_usize(1 + floor_bonus_gh, n.saturating_sub(w2_sk));
            waves.push(wave(make_spawns(w1_sk, 0, 0), WaveTrigger::Immediate));
            waves.push(wave(make_spawns(w2_sk, w2_gh, w1_sk), WaveTrigger::OnPreviousWaveCleared));
        },
        EncounterDifficulty::Hard => {
            // Two waves, both with ghosts
            let w1_sk = min_usize(3 + floor_bonus_sk, n);
            let w1_gh = min_usize(1 + floor_bonus_gh, n.saturating_sub(w1_sk));
            let w2_sk = min_usize(2 + floor_bonus_sk, n);
            let w2_gh = min_usize(2 + floor_bonus_gh, n.saturating_sub(w2_sk));
            waves.push(wave(make_spawns(w1_sk, w1_gh, 0), WaveTrigger::Immediate));
            waves.push(wave(make_spawns(w2_sk, w2_gh, w1_sk + w1_gh), WaveTrigger::OnEnemyCountBelow(2)));
        },
        EncounterDifficulty::Boss => {
            // Single wave: one Bone King boss
            let mut enemies: Vec<EnemySpawn> = Vec::new();
            enemies.push(EnemySpawn { enemy_type: EnemyType::BoneKing, spawn_index: 0 });
            waves.push(wave(enemies, WaveTrigger::Immediate));
        },
    }
    let e = EncounterDef { waves };
    assert(encounter_view(e) =~= encounter_spec(difficulty, floor_number, num_spawn_points, seed));
    e
}

fn min_usize(a: usize, b: usize) -> (m: usize)
    ensures
        m == min_spec(a as int, b as int),
{
    if a < b { a } else { b }
}

/// Build a list of `EnemySpawn`s: skeletons first, then ghosts.
/// `offset` shifts spawn_index so later waves use different spawn points.
pub fn make_spawns(skeleton_count: usize, ghost_count: usize, offset: usize) -> (v: Vec<EnemySpawn>)
    requires
        offset + skeleton_count + ghost_count <= usize::MAX,
    ensures
        v@ == spawns_spec(skeleton_count as int, ghost_count as int, offset as int),
{
    let total = skeleton_count + ghost_count;
    let mut spawns: Vec<EnemySpawn> = Vec::with_capacity(total);
    let mut i: usize = 0;
    while i < skeleton_count
        invariant
            offset + skeleton_count + ghost_count <= usize::MAX,
            i <= skeleton_count,
            spawns@ =~= spawns_spec(skeleton_count as int, ghost_count as int, offset as int).take(i as int),
        decreases skeleton_count - i,
    {
        spawns.push(EnemySpawn { enemy_type: EnemyType::Skeleton, spawn_index: offset + i });
        i += 1;
    }
    let mut j: usize = 0;
    while j < ghost_count
        invariant
            offset + skeleton_count + ghost_count <= usize::MAX,
            j <= ghost_count,
            spawns@ =~= spawns_spec(skeleton_count as int, ghost_count as int, offset as int).take(skeleton_count + j),
        decreases ghost_count - j,
    {
        spawns.push(EnemySpawn { enemy_type: EnemyType::Specter, spawn_index: offset + skeleton_count + j });
        j += 1;
    }
    spawns
}

/// Tracks wave progression during combat in a room.
pub struct WaveTracker {
    pub encounter: EncounterDef,
    pub current_wave: usize,
    /// Number of enemies spawned by completed waves (used to detect wave clears)
    pub wave_spawned_count: usize,
}

pub open spec fn trigger_met(trigger: WaveTrigger, alive_count: usize) -> bool {
    match trigger {
        WaveTrigger::Immediate => true,
        WaveTrigger::OnPreviousWaveCleared => alive_count == 0,
        WaveTrigger::OnEnemyCountBelow(n) => alive_count < n,
    }
}

impl WaveTracker {
    pub fn new(encounter: EncounterDef) -> (t: Self)
        ensures
            t.encounter == encounter,
            t.current_wave == 0,
            t.wave_spawned_count == 0,
    {
        Self { current_wave: 0, wave_spawned_count: 0, encounter }
    }

    /// Check if there are more waves to spawn.
    pub fn has_more_waves(&self) -> (b: bool)
        ensures
            b == (self.current_wave < self.encounter.waves@.len()),
    {
        self.current_wave < self.encounter.waves.len()
    }

    /// Check if the current wave's trigger condition is met.
    /// `alive_count` = number of currently alive enemies.
    pub fn should_spawn_next_wave(&self, alive_count: usize) -> (b: bool)
        ensures
            b == (self.current_wave < self.encounter.waves@.len() && trigger_met(
                self.encounter.waves@[self.current_wave as int].trigger,
                alive_count,
            )),
    {
        if self.current_wave >= self.encounter.waves.len() {
            return false;
        }

        let wave = &self.encounter.waves[self.current_wave];
        match wave.trigger {
            WaveTrigger::Immediate => true,
            WaveTrigger::OnPreviousWaveCleared => alive_count == 0,
            WaveTrigger::OnEnemyCountBelow(n) => alive_count < n,
        }
    }

    /// Advance to the next wave, returning a reference to the wave to spawn.
    /// Returns None if no more waves.
    pub fn advance(&mut self) -> (w: Option<&WaveDef>)
        requires
            old(self).current_wave < old(self).encounter.waves@.len() ==> old(self).wave_spawned_count
                + old(self).encounter.waves@[old(self).current_wave as int].enemies@.len() <= usize::MAX,
        ensures
            final(self).encounter == old(self).encounter,
            old(self).current_wave >= old(self).encounter.waves@.len() ==> w is None && *final(self) == *old(self),
            old(self).current_wave < old(self).encounter.waves@.len() ==> {
                &&& w == Some(&old(self).encounter.waves@[old(self).current_wave as int])
                &&& final(self).current_wave == old(self).current_wave + 1
                &&& final(self).wave_spawned_count == old(self).wave_spawned_count
                    + old(self).encounter.waves@[old(self).current_wave as int].enemies@.len()
            },
    {
        if self.current_wave >= self.encounter.waves.len() {
            return None;
        }
        let count = self.encounter.waves[self.current_wave].enemies.len();
        self.wave_spawned_count += count;
        self.current_wave += 1;
        Some(&self.encounter.waves[self.current_wave - 1])
    }

    /// Check if the entire encounter is complete (all waves spawned, all enemies dead).
    /// Start the next wave when its trigger is met: returns the wave's index, or None (and
    /// no change) when no wave is due or its enemies would overflow the spawned count.
    pub fn next_wave(&mut self, alive_count: usize) -> (w: Option<usize>)
        ensures
            ({
                let cur = old(self).current_wave as int;
                let due = cur < old(self).encounter.waves@.len()
                    && trigger_met(old(self).encounter.waves@[cur].trigger, alive_count)
                    && old(self).wave_spawned_count + old(self).encounter.waves@[cur].enemies@.len() <= usize::MAX;
                if due {
                    &&& w == Some(old(self).current_wave)
                    &&& final(self).encounter == old(self).encounter
                    &&& final(self).current_wave == old(self).current_wave + 1
                    &&& final(self).wave_spawned_count == old(self).wave_spawned_count
                        + old(self).encounter.waves@[cur].enemies@.len()
                } else {
                    &&& w is None
                    &&& *final(self) == *old(self)
                }
            }),
    {
        if !self.should_spawn_next_wave(alive_count) {
            return None;
        }
        let index = self.current_wave;
        if self.encounter.waves[index].enemies.len() > usize::MAX - self.wave_spawned_count {
            return None;
        }
        self.advance();
        Some(index)
    }

    pub fn is_encounter_complete(&self, alive_count: usize) -> (b: bool)
        ensures
            b == (self.current_wave >= self.encounter.waves@.len() && alive_count == 0 && self.wave_spawned_count > 0),
    {
        !self.has_more_waves() && alive_count == 0 && self.wave_spawned_count > 0
    }
}

/// An enemy of a wave, placed at a pixel position.
#[derive(Clone, Copy, PartialEq, Eq, Debug, Structural)]
pub struct PlacedEnemy {
    pub core: EnemyCore,
    pub x: usize,
    pub y: usize,
}

/// The seed of the `i`-th enemy of a wave in room `room_index`: the room index times 31337
/// plus the floor's seed plus 7919 per enemy plus one, all on 32 bits.
pub open spec fn enemy_seed(room_index: usize, base_seed: u64, i: int) -> u32 {
    (((room_index as u32) as int * 31337 + (base_seed as u32) as int + (i * 7919 + 1)) % 0x1_0000_0000int) as u32
}

/// The enemy that a spawn entry makes, with its seed.
pub open spec fn spawned_core(t: EnemyType, seed: u32) -> EnemyCore {
    match t {
        EnemyType::Slime => EnemyCore { kind: EnemyType::Slime, hp: 3, alive: true, brain: Brain::Inert },
        EnemyType::Skeleton => EnemyCore { kind: EnemyType::Skeleton, hp: 3, alive: true,
            brain: Brain::Skeleton(SkeletonBrain { state: SkeletonState::Idle, rng: seed }) },
        EnemyType::Specter => EnemyCore { kind: EnemyType::Specter, hp: 2, alive: true,
            brain: Brain::Specter(GhostBrain { state: GhostState::Float, rng: seed }) },
        EnemyType::BoneKing => EnemyCore { kind: EnemyType::BoneKing, hp: BOSS_HP, alive: true,
            brain: Brain::Boss(BossBrain { state: BoneKingState::Idle, rng: seed, phase2: false, phase2_triggered: false,
                next_is_slam: true, slam_impact_fired: false, charge_wall_hit_fired: false }) },
    }
}

proof fn lemma_seed_wrap(a: int, b: int, c: int, m: int, s1: int, s2: int)
    requires
        a >= 0 && b >= 0 && c >= 0,
        m == (a * 31337) % 0x1_0000_0000int,
        s1 == (m + b) % 0x1_0000_0000int,
        s2 == (s1 + c) % 0x1_0000_0000int,
    ensures
        s2 == (a * 31337 + b + c) % 0x1_0000_0000int,
{
    let mm = 0x1_0000_0000int;
    vstd::arithmetic::div_mod::lemma_add_mod_noop(a * 31337, b, mm);
    vstd::arithmetic::div_mod::lemma_mod_twice(b, mm);
    vstd::arithmetic::div_mod::lemma_add_mod_noop(a * 31337 + b, c, mm);
    vstd::arithmetic::div_mod::lemma_mod_twice(c, mm);
    vstd::arithmetic::div_mod::lemma_mod_twice(a * 31337 + b, mm);
    vstd::arithmetic::div_mod::lemma_add_mod_noop(m, b, mm);
    vstd::arithmetic::div_mod::lemma_add_mod_noop(s1, c, mm);
}

/// The enemies of a wave, each at its spawn point (the entry's index wrapping around the
/// room's points) and with its own seed; none when the room has no spawn points.
pub fn instantiate_wave(wave: &WaveDef, spawn_points: &Vec<SpawnPoint>, room_index: usize, base_seed: u64) -> (v: Vec<PlacedEnemy>)
    requires
        wave.enemies@.len() * 7919 + 1 <= u32::MAX,
        forall|i: int| 0 <= i < spawn_points@.len() ==> #[trigger] spawn_points@[i].x * 8 <= usize::MAX && spawn_points@[i].y * 8 <= usize::MAX,
    ensures
        spawn_points@.len() == 0 ==> v@.len() == 0,
        spawn_points@.len() > 0 ==> v@.len() == wave.enemies@.len(),
        spawn_points@.len() > 0 ==> forall|i: int| 0 <= i < v@.len() ==> {
            let e = wave.enemies@[i];
            let sp = spawn_points@[(e.spawn_index as nat % spawn_points@.len()) as int];
            &&& (#[trigger] v@[i]).x == sp.x * 8
            &&& v@[i].y == sp.y * 8
            &&& v@[i].core == spawned_core(e.enemy_type, enemy_seed(room_index, base_seed, i))
        },
{
    let mut v: Vec<PlacedEnemy> = Vec::new();
    let n = spawn_points.len();
    if n == 0 {
        return v;
    }
    let room = room_index as u32;
    let base = base_seed as u32;
    let mut i: usize = 0;
    while i < wave.enemies.len()
        invariant
            n == spawn_points@.len(),
            n > 0,
            i <= wave.enemies@.len(),
            v@.len() == i,
            room == room_index as u32,
            base == base_seed as u32,
            wave.enemies@.len() * 7919 + 1 <= u32::MAX,
            forall|j: int| 0 <= j < spawn_points@.len() ==> #[trigger] spawn_points@[j].x * 8 <= usize::MAX && spawn_points@[j].y * 8 <= usize::MAX,
            forall|j: int| 0 <= j < i ==> {
                let e = wave.enemies@[j];
                let sp = spawn_points@[(e.spawn_index as nat % spawn_points@.len()) as int];
                &&& (#[trigger] v@[j]).x == sp.x * 8
                &&& v@[j].y == sp.y * 8
                &&& v@[j].core == spawned_core(e.enemy_type, enemy_seed(room_index, base_seed, j))
            },
        decreases wave.enemies@.len() - i,
    {
        let es = wave.enemies[i];
        let sp = &spawn_points[es.spawn_index % n];
        let m = room.wrapping_mul(31337);
        let s1 = m.wrapping_add(base);
        let c: u32 = (i as u32) * 7919 + 1;
        let seed = s1.wrapping_add(c);
        proof {
            assert((i as u32) as nat == i as nat);
            lemma_seed_wrap(room as int, base as int, c as int, m as int, s1 as int, seed as int);
        }
        let core = match es.enemy_type {
            EnemyType::Skeleton => EnemyCore::new_skeleton(seed),
            EnemyType::Specter => EnemyCore::new_ghost(seed),
            EnemyType::Slime => EnemyCore::new_slime(),
            EnemyType::BoneKing => EnemyCore::new_bone_king(seed),
        };
        v.push(PlacedEnemy { core, x: sp.x * 8, y: sp.y * 8 });
        i += 1;
    }
    v
}

/// The kind of enemies each difficulty fields: with no spawn points there is no wave; a
/// boss encounter is one immediate wave of exactly one Bone King; every other encounter
/// fields only skeletons and ghosts, opens with an immediate wave, lists its skeletons
/// before its ghosts, and never puts more enemies in a wave than there are spawn points.
pub proof fn law_encounter_shape(difficulty: EncounterDifficulty, floor_number: u32, num_spawn_points: usize, seed: u64)
    ensures
        ({
            let e = encounter_spec(difficulty, floor_number, num_spawn_points, seed);
            &&& num_spawn_points == 0 ==> e.len() == 0
            &&& num_spawn_points > 0 && difficulty == EncounterDifficulty::Boss ==> {
                &&& e.len() == 1
                &&& e[0].1 == WaveTrigger::Immediate
                &&& e[0].0.len() == 1
                &&& e[0].0[0].enemy_type == EnemyType::BoneKing
            }
            &&& num_spawn_points > 0 && difficulty != EncounterDifficulty::Boss ==> {
                &&& e.len() >= 1
                &&& e[0].1 == WaveTrigger::Immediate
                &&& forall|w: int, k: int| 0 <= w < e.len() && 0 <= k < e[w].0.len() ==> {
                    let t = (#[trigger] e[w].0[k]).enemy_type;
                    t == EnemyType::Skeleton || t == EnemyType::Specter
                }
                &&& forall|w: int, k: int, m: int| 0 <= w < e.len() && 0 <= k < m < e[w].0.len()
                    && (#[trigger] e[w].0[k]).enemy_type == EnemyType::Specter
                    ==> (#[trigger] e[w].0[m]).enemy_type == EnemyType::Specter
                &&& forall|w: int| 0 <= w < e.len() ==> (#[trigger] e[w]).0.len() <= num_spawn_points
            }
        }),
{
}

} // verus!
