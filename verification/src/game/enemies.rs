use vstd::prelude::*;

verus! {

/// The kinds of enemy.
#[derive(Clone, Copy, PartialEq, Eq, Debug, Structural)]
pub enum EnemyType {
    Slime,
    Skeleton,
    Specter,
    BoneKing,
}

/// The behaviour states of a skeleton.
#[derive(Clone, Copy, PartialEq, Eq, Debug, Structural)]
pub enum SkeletonState {
    Idle,
    Patrol,
    Chase,
    WindUp,
    Attack,
    Cooldown,
    Stagger,
}

/// The behaviour states of a ghost.
#[derive(Clone, Copy, PartialEq, Eq, Debug, Structural)]
pub enum GhostState {
    Float,
    Reposition,
    Aim,
    Shoot,
    Cooldown,
    Stagger,
}

/// The behaviour states of the Bone King boss.
#[derive(Clone, Copy, PartialEq, Eq, Debug, Structural)]
pub enum BoneKingState {
    Idle,
    Chase,
    SlamWindup,
    SlamActive,
    SlamRecover,
    SweepWindup,
    SweepActive,
    SweepRecover,
    ChargeWindup,
    ChargeActive,
    ChargeStunned,
    Roar,
    Dying,
}

/// The enemies' random generator: one linear congruential step.
pub open spec fn lcg_next(s: u32) -> u32 {
    ((s as nat * 1103515245nat + 12345nat) % 0x1_0000_0000nat) as u32
}

/// The sample that a draw from generator state `s` yields: the upper 16 bits of the next state.
pub open spec fn sample_after(s: u32) -> u32 {
    lcg_next(s) / 65536
}

/// Advance the generator; the sample, in 0..65536, stands for the fraction sample / 65536.
pub fn draw_sample(rng: &mut u32) -> (k: u32)
    ensures
        *final(rng) == lcg_next(*old(rng)),
        k == sample_after(*old(rng)),
        k < 65536,
{
    let s = *rng;
    let m = s.wrapping_mul(1103515245);
    let n = m.wrapping_add(12345);
    proof {
        lemma_lcg_wrap(s as nat * 1103515245nat, m as int, n as int);
    }
    *rng = n;
    n / 65536
}

/// A draw in min..=max: min plus the sample modulo the range's size (min when the range
/// is empty or a single value, without drawing).
pub fn draw_in_range(rng: &mut u32, min: u32, max: u32) -> (k: u32)
    requires
        max - min < u32::MAX,
    ensures
        min >= max ==> k == min && *final(rng) == *old(rng),
        min < max ==> *final(rng) == lcg_next(*old(rng)) && k == min + sample_after(*old(rng)) % ((max - min + 1) as u32),
        min < max ==> min <= k <= max,
{
    if min >= max {
        return min;
    }
    let k = draw_sample(rng);
    let span = max - min + 1;
    min + k % span
}

/// Adding after reducing modulo 2^32 and reducing again is adding and reducing once.
proof fn lemma_lcg_wrap(big: nat, m: int, n: int)
    requires
        m == big % 0x1_0000_0000nat,
        n == if m + 12345 > 0xffff_ffff { m + 12345 - 0x1_0000_0000 } else { m + 12345 },
    ensures
        n == (big + 12345nat) % 0x1_0000_0000nat,
{
    vstd::arithmetic::div_mod::lemma_add_mod_noop(big as int, 12345int, 0x1_0000_0000int);
    assert(12345int % 0x1_0000_0000int == 12345int);
    if m + 12345 > 0xffff_ffff {
        vstd::arithmetic::div_mod::lemma_fundamental_div_mod_converse(m + 12345, 0x1_0000_0000int, 1, m + 12345 - 0x1_0000_0000int);
    } else {
        vstd::arithmetic::div_mod::lemma_small_mod((m + 12345) as nat, 0x1_0000_0000nat);
    }
}

/// How a timer is set: left as it is, set to a number of milliseconds, or set to
/// `base_ms + sample / 65536 * spread_ms` milliseconds for a sample drawn from the generator.
#[derive(Clone, Copy, PartialEq, Eq, Debug, Structural)]
pub enum TimerSet {
    Keep,
    Fixed(u32),
    Random { base_ms: u32, spread_ms: u32, sample: u32 },
}

/// What a skeleton perceives in a frame: the player within detection range (80 px), within
/// striking range (20 px), beyond the range at which it gives up (120 px), at a distance
/// that gives a heading (over 0.01 px); and whether its timer has run out.
#[derive(Clone, Copy, PartialEq, Eq, Debug, Structural)]
pub struct SkeletonSense {
    pub near: bool,
    pub in_reach: bool,
    pub lost: bool,
    pub has_heading: bool,
    pub timer_done: bool,
}

/// What a skeleton does in a frame, besides changing state.
#[derive(Clone, Copy, PartialEq, Eq, Debug, Structural)]
pub struct SkeletonAct {
    pub timer: TimerSet,
    /// A new patrol heading, as a sample standing for a fraction of a full turn.
    pub patrol_angle: Option<u32>,
    /// Fix the attack heading toward the player.
    pub lock_aim: bool,
    /// Restart the lunge of an attack.
    pub reset_lunge: bool,
    /// Walking: along the patrol heading, or toward the player while chasing.
    pub walking: bool,
    /// Winding up an attack, which is telegraphed.
    pub winding_up: bool,
    /// Lunging with its attack hitbox live.
    pub attacking: bool,
}

/// The decision state of a skeleton: its behaviour and its random generator.
#[derive(Clone, Copy, PartialEq, Eq, Debug, Structural)]
pub struct SkeletonBrain {
    pub state: SkeletonState,
    pub rng: u32,
}

/// The skeleton's state after a frame with senses `s`, starting in `st`.
pub open spec fn skeleton_next(st: SkeletonState, s: SkeletonSense) -> SkeletonState {
    match st {
        SkeletonState::Idle => if s.near { SkeletonState::Chase } else if s.timer_done { SkeletonState::Patrol } else { st },
        SkeletonState::Patrol => if s.near { SkeletonState::Chase } else if s.timer_done { SkeletonState::Idle } else { st },
        SkeletonState::Chase => if s.in_reach { SkeletonState::WindUp } else if s.lost { SkeletonState::Idle } else { st },
        SkeletonState::WindUp => if s.timer_done { SkeletonState::Attack } else { st },
        SkeletonState::Attack => if s.timer_done { SkeletonState::Cooldown } else { st },
        SkeletonState::Cooldown | SkeletonState::Stagger => if s.timer_done {
            if s.near { SkeletonState::Chase } else { SkeletonState::Idle }
        } else {
            st
        },
    }
}

/// How many samples a skeleton draws in that frame: two to start a patrol (heading, then
/// duration), one to go idle, none otherwise.
pub open spec fn skeleton_draws(st: SkeletonState, s: SkeletonSense) -> nat {
    let next = skeleton_next(st, s);
    if next == SkeletonState::Patrol && st == SkeletonState::Idle {
        2
    } else if next == SkeletonState::Idle && st != SkeletonState::Idle {
        1
    } else {
        0
    }
}

/// The timer setting of that frame, given the samples `k1` and `k2` that the draws yield.
pub open spec fn skeleton_timer(st: SkeletonState, s: SkeletonSense, k1: u32, k2: u32) -> TimerSet {
    let next = skeleton_next(st, s);
    if next == st {
        TimerSet::Keep
    } else {
        match next {
            SkeletonState::Chase => if st == SkeletonState::Idle || st == SkeletonState::Patrol { TimerSet::Fixed(0) } else { TimerSet::Keep },
            SkeletonState::Patrol => TimerSet::Random { base_ms: 1500, spread_ms: 2000, sample: k2 },
            SkeletonState::Idle => TimerSet::Random { base_ms: 1000, spread_ms: 1000, sample: k1 },
            SkeletonState::WindUp => TimerSet::Fixed(400),
            SkeletonState::Attack => TimerSet::Fixed(150),
            SkeletonState::Cooldown => TimerSet::Fixed(600),
            SkeletonState::Stagger => TimerSet::Keep,
        }
    }
}

impl SkeletonBrain {
    /// A skeleton starts idle.
    pub fn new(seed: u32) -> (b: Self)
        ensures
            b.state == SkeletonState::Idle,
            b.rng == seed,
    {
        SkeletonBrain { state: SkeletonState::Idle, rng: seed }
    }

    /// A hit staggers the skeleton unless it already is; the answer says whether the
    /// stagger timer (0.3 s) restarts.
    pub fn stagger(&mut self, staggered: bool) -> (restart: bool)
        ensures
            restart == (staggered && old(self).state != SkeletonState::Stagger),
            final(self).state == if restart { SkeletonState::Stagger } else { old(self).state },
            final(self).rng == old(self).rng,
    {
        if staggered && self.state != SkeletonState::Stagger {
            self.state = SkeletonState::Stagger;
            true
        } else {
            false
        }
    }

    /// One frame of the skeleton's behaviour: idle and patrol until the player comes near,
    /// chase, wind up, lunge, cool down; a stagger or a cool-down ends in a chase when the
    /// player is near and in idleness otherwise.
    pub fn step(&mut self, s: SkeletonSense) -> (a: SkeletonAct)
        ensures
            final(self).state == skeleton_next(old(self).state, s),
            skeleton_draws(old(self).state, s) == 0 ==> final(self).rng == old(self).rng,
            skeleton_draws(old(self).state, s) == 1 ==> final(self).rng == lcg_next(old(self).rng),
            skeleton_draws(old(self).state, s) == 2 ==> final(self).rng == lcg_next(lcg_next(old(self).rng)),
            a.timer == skeleton_timer(old(self).state, s, sample_after(old(self).rng), sample_after(lcg_next(old(self).rng))),
            a.patrol_angle == if skeleton_draws(old(self).state, s) == 2 { Some(sample_after(old(self).rng)) } else { None::<u32> },
            a.lock_aim == (old(self).state == SkeletonState::Chase && s.in_reach && s.has_heading),
            a.reset_lunge == (old(self).state == SkeletonState::WindUp && s.timer_done),
            a.walking == (old(self).state == SkeletonState::Patrol || (old(self).state == SkeletonState::Chase && s.has_heading)),
            a.winding_up == (old(self).state == SkeletonState::WindUp),
            a.attacking == (old(self).state == SkeletonState::Attack),
    {
        let mut act = SkeletonAct {
            timer: TimerSet::Keep,
            patrol_angle: None,
            lock_aim: false,
            reset_lunge: false,
            walking: false,
            winding_up: false,
            attacking: false,
        };
        match self.state {
            SkeletonState::Idle => {
                if s.near {
                    self.state = SkeletonState::Chase;
                    act.timer = TimerSet::Fixed(0);
                } else if s.timer_done {
                    self.state = SkeletonState::Patrol;
                    let angle = draw_sample(&mut self.rng);
                    let k = draw_sample(&mut self.rng);
                    act.patrol_angle = Some(angle);
                    act.timer = TimerSet::Random { base_ms: 1500, spread_ms: 2000, sample: k };
                }
            },
            SkeletonState::Patrol => {
                act.walking = true;
                if s.near {
                    self.state = SkeletonState::Chase;
                    act.timer = TimerSet::Fixed(0);
                } else if s.timer_done {
                    self.state = SkeletonState::Idle;
                    let k = draw_sample(&mut self.rng);
                    act.timer = TimerSet::Random { base_ms: 1000, spread_ms: 1000, sample: k };
                }
            },
            SkeletonState::Chase => {
                act.walking = s.has_heading;
                if s.in_reach {
                    self.state = SkeletonState::WindUp;
                    act.timer = TimerSet::Fixed(400);
                    act.lock_aim = s.has_heading;
                } else if s.lost {
                    self.state = SkeletonState::Idle;
                    let k = draw_sample(&mut self.rng);
                    act.timer = TimerSet::Random { base_ms: 1000, spread_ms: 1000, sample: k };
                }
            },
            SkeletonState::WindUp => {
                act.winding_up = true;
                if s.timer_done {
                    self.state = SkeletonState::Attack;
                    act.timer = TimerSet::Fixed(150);
                    act.reset_lunge = true;
                }
            },
            SkeletonState::Attack => {
                act.attacking = true;
                if s.timer_done {
                    self.state = SkeletonState::Cooldown;
                    act.timer = TimerSet::Fixed(600);
                }
            },
            SkeletonState::Cooldown | SkeletonState::Stagger => {
                if s.timer_done {
                    if s.near {
                        self.state = SkeletonState::Chase;
                    } else {
                        self.state = SkeletonState::Idle;
                        let k = draw_sample(&mut self.rng);
                        act.timer = TimerSet::Random { base_ms: 1000, spread_ms: 1000, sample: k };
                    }
                }
            },
        }
        act
    }
}

/// What a ghost perceives in a frame: the player closer than 40 px, farther than its
/// preferred 60 px, closer than 28 px (which spoils an aim), farther than its 120 px range;
/// and whether its timer has run out.
#[derive(Clone, Copy, PartialEq, Eq, Debug, Structural)]
pub struct GhostSense {
    pub too_close: bool,
    pub beyond_preferred: bool,
    pub aim_spoiled: bool,
    pub out_of_range: bool,
    pub timer_done: bool,
}

/// What a ghost does in a frame, besides changing state.
#[derive(Clone, Copy, PartialEq, Eq, Debug, Structural)]
pub struct GhostAct {
    pub timer: TimerSet,
    /// Take the heading away from the player for repositioning.
    pub flee: bool,
    /// Fix the aim toward the player.
    pub lock_aim: bool,
    /// Fire a projectile along the aim this frame.
    pub fire: bool,
    /// Drifting along its repositioning heading.
    pub moving: bool,
    /// Aiming, which is telegraphed.
    pub aiming: bool,
}

/// The decision state of a ghost: its behaviour and its random generator.
#[derive(Clone, Copy, PartialEq, Eq, Debug, Structural)]
pub struct GhostBrain {
    pub state: GhostState,
    pub rng: u32,
}

/// The ghost's state after a frame with senses `s`, starting in `st`.
pub open spec fn ghost_next(st: GhostState, s: GhostSense) -> GhostState {
    match st {
        GhostState::Float => if s.too_close { GhostState::Reposition } else if s.timer_done { GhostState::Aim } else { st },
        GhostState::Reposition => if s.timer_done || s.beyond_preferred { GhostState::Float } else { st },
        GhostState::Aim => if s.aim_spoiled { GhostState::Reposition } else if s.out_of_range { GhostState::Float }
            else if s.timer_done { GhostState::Shoot } else { st },
        GhostState::Shoot => GhostState::Cooldown,
        GhostState::Cooldown => if s.too_close { GhostState::Reposition } else if s.timer_done { GhostState::Float } else { st },
        GhostState::Stagger => if s.timer_done { GhostState::Float } else { st },
    }
}

/// The ghost draws a sample when it starts to reposition from its float, and whenever it
/// goes back to floating.
pub open spec fn ghost_draws(st: GhostState, s: GhostSense) -> bool {
    let next = ghost_next(st, s);
    next != st && (next == GhostState::Float || (st == GhostState::Float && next == GhostState::Reposition))
}

/// The timer setting of that frame, given the sample `k` that a draw yields.
pub open spec fn ghost_timer(st: GhostState, s: GhostSense, k: u32) -> TimerSet {
    let next = ghost_next(st, s);
    if next == st {
        TimerSet::Keep
    } else {
        match (st, next) {
            (GhostState::Float, GhostState::Reposition) => TimerSet::Random { base_ms: 800, spread_ms: 500, sample: k },
            (GhostState::Float, _) => TimerSet::Fixed(600),
            (GhostState::Reposition, _) => TimerSet::Random { base_ms: 500, spread_ms: 500, sample: k },
            (GhostState::Aim, GhostState::Reposition) => TimerSet::Fixed(600),
            (GhostState::Aim, GhostState::Float) => TimerSet::Random { base_ms: 500, spread_ms: 500, sample: k },
            (GhostState::Aim, _) => TimerSet::Fixed(0),
            (GhostState::Shoot, _) => TimerSet::Fixed(1200),
            (GhostState::Cooldown, GhostState::Reposition) => TimerSet::Fixed(800),
            (GhostState::Cooldown, _) => TimerSet::Random { base_ms: 300, spread_ms: 500, sample: k },
            (GhostState::Stagger, _) => TimerSet::Random { base_ms: 500, spread_ms: 300, sample: k },
        }
    }
}

impl GhostBrain {
    /// A ghost starts floating.
    pub fn new(seed: u32) -> (b: Self)
        ensures
            b.state == GhostState::Float,
            b.rng == seed,
    {
        GhostBrain { state: GhostState::Float, rng: seed }
    }

    /// A hit staggers the ghost unless it already is; the answer says whether the stagger
    /// timer (0.3 s) restarts.
    pub fn stagger(&mut self, staggered: bool) -> (restart: bool)
        ensures
            restart == (staggered && old(self).state != GhostState::Stagger),
            final(self).state == if restart { GhostState::Stagger } else { old(self).state },
            final(self).rng == old(self).rng,
    {
        if staggered && self.state != GhostState::Stagger {
            self.state = GhostState::Stagger;
            true
        } else {
            false
        }
    }

    /// One frame of the ghost's behaviour: float at a distance, back away from a player who
    /// comes close, aim, shoot, cool down.
    pub fn step(&mut self, s: GhostSense) -> (a: GhostAct)
        ensures
            final(self).state == ghost_next(old(self).state, s),
            final(self).rng == if ghost_draws(old(self).state, s) { lcg_next(old(self).rng) } else { old(self).rng },
            a.timer == ghost_timer(old(self).state, s, sample_after(old(self).rng)),
            a.flee == (final(self).state == GhostState::Reposition && old(self).state != GhostState::Reposition),
            a.lock_aim == (old(self).state == GhostState::Float && final(self).state == GhostState::Aim),
            a.fire == (old(self).state == GhostState::Aim && final(self).state == GhostState::Shoot),
            a.moving == (old(self).state == GhostState::Reposition),
            a.aiming == (old(self).state == GhostState::Aim),
    {
        let mut act = GhostAct { timer: TimerSet::Keep, flee: false, lock_aim: false, fire: false, moving: false, aiming: false };
        match self.state {
            GhostState::Float => {
                if s.too_close {
                    self.state = GhostState::Reposition;
                    act.flee = true;
                    let k = draw_sample(&mut self.rng);
                    act.timer = TimerSet::Random { base_ms: 800, spread_ms: 500, sample: k };
                } else if s.timer_done {
                    self.state = GhostState::Aim;
                    act.timer = TimerSet::Fixed(600);
                    act.lock_aim = true;
                }
            },
            GhostState::Reposition => {
                act.moving = true;
                if s.timer_done || s.beyond_preferred {
                    self.state = GhostState::Float;
                    let k = draw_sample(&mut self.rng);
                    act.timer = TimerSet::Random { base_ms: 500, spread_ms: 500, sample: k };
                }
            },
            GhostState::Aim => {
                act.aiming = true;
                if s.aim_spoiled {
                    self.state = GhostState::Reposition;
                    act.flee = true;
                    act.timer = TimerSet::Fixed(600);
                } else if s.out_of_range {
                    self.state = GhostState::Float;
                    let k = draw_sample(&mut self.rng);
                    act.timer = TimerSet::Random { base_ms: 500, spread_ms: 500, sample: k };
                } else if s.timer_done {
                    self.state = GhostState::Shoot;
                    act.timer = TimerSet::Fixed(0);
                    act.fire = true;
                }
            },
            GhostState::Shoot => {
                self.state = GhostState::Cooldown;
                act.timer = TimerSet::Fixed(1200);
            },
            GhostState::Cooldown => {
                if s.too_close {
                    self.state = GhostState::Reposition;
                    act.flee = true;
                    act.timer = TimerSet::Fixed(800);
                } else if s.timer_done {
                    self.state = GhostState::Float;
                    let k = draw_sample(&mut self.rng);
                    act.timer = TimerSet::Random { base_ms: 300, spread_ms: 500, sample: k };
                }
            },
            GhostState::Stagger => {
                if s.timer_done {
                    self.state = GhostState::Float;
                    let k = draw_sample(&mut self.rng);
                    act.timer = TimerSet::Random { base_ms: 500, spread_ms: 300, sample: k };
                }
            },
        }
        act
    }
}

/// The Bone King's health.
pub const BOSS_HP: i32 = 20;

/// At or below this health the Bone King enters its second phase.
pub const PHASE2_HP_THRESHOLD: i32 = 10;

/// Which attack hitbox of the Bone King is live.
#[derive(Clone, Copy, PartialEq, Eq, Debug, Structural)]
pub enum BossHitbox {
    Off,
    Slam,
    Sweep,
    Charge,
}

/// What the Bone King perceives in a frame: the player farther than its chase range
/// (60 px), within its attack range (35 px), a wall in the way of its charge; whether its
/// timer has run out; and whether it is alive.
#[derive(Clone, Copy, PartialEq, Eq, Debug, Structural)]
pub struct BossSense {
    pub far: bool,
    pub in_attack_range: bool,
    pub wall_hit: bool,
    pub timer_done: bool,
    pub alive: bool,
}

/// What the Bone King does in a frame, besides changing state.
#[derive(Clone, Copy, PartialEq, Eq, Debug, Structural)]
pub struct BossAct {
    pub timer: TimerSet,
    /// Walking toward the player.
    pub chasing: bool,
    /// Launch the charge along the locked heading.
    pub start_charge: bool,
    /// Moving with the charge.
    pub charging: bool,
    pub hitbox: BossHitbox,
    pub telegraph: bool,
    /// The slam lands this frame (once per slam).
    pub slam_impact: bool,
    /// The charge meets a wall this frame (once per charge).
    pub charge_wall_hit: bool,
    pub stunned: bool,
    pub roaring: bool,
    pub invulnerable: bool,
    pub dying: bool,
    /// The dying sequence has run its course.
    pub death_finished: bool,
}

/// The decision state of the Bone King.
#[derive(Clone, Copy, PartialEq, Eq, Debug, Structural)]
pub struct BossBrain {
    pub state: BoneKingState,
    pub rng: u32,
    pub phase2: bool,
    /// The second phase has begun once; it begins only once.
    pub phase2_triggered: bool,
    /// Slam and sweep take turns.
    pub next_is_slam: bool,
    pub slam_impact_fired: bool,
    pub charge_wall_hit_fired: bool,
}

/// The attack the Bone King picks: a chase when the player is far; in its second phase a
/// charge when the sample falls under 0.33 (as a fraction of 65536); else slam or sweep,
/// whichever is due.
pub open spec fn boss_choice(far: bool, phase2: bool, next_is_slam: bool, k: u32) -> BoneKingState {
    if far {
        BoneKingState::Chase
    } else if phase2 && k < 21627 {
        BoneKingState::ChargeWindup
    } else if next_is_slam {
        BoneKingState::SlamWindup
    } else {
        BoneKingState::SweepWindup
    }
}

/// How long, in milliseconds, the chosen move's first stage lasts; wind-ups are shorter in
/// the second phase.
pub open spec fn boss_choice_ms(choice: BoneKingState, phase2: bool) -> u32 {
    match choice {
        BoneKingState::Chase => 3000,
        BoneKingState::ChargeWindup => 400,
        BoneKingState::SlamWindup => if phase2 { 450 } else { 600 },
        BoneKingState::SweepWindup => if phase2 { 350 } else { 500 },
        _ => 0,
    }
}

/// The Bone King acts this frame: it is alive or in its dying sequence.
pub open spec fn boss_active(b: BossBrain, s: BossSense) -> bool {
    s.alive || b.state == BoneKingState::Dying
}

/// The Bone King picks an attack this frame: its idle time is up, or it caught up with the
/// player in a chase.
pub open spec fn boss_chooses(b: BossBrain, s: BossSense) -> bool {
    boss_active(b, s) && ((b.state == BoneKingState::Idle && s.timer_done) || (b.state == BoneKingState::Chase && s.in_attack_range))
}

/// The Bone King's state after a frame.
pub open spec fn boss_next_state(b: BossBrain, s: BossSense) -> BoneKingState {
    if !boss_active(b, s) {
        b.state
    } else if boss_chooses(b, s) {
        boss_choice(s.far, b.phase2, b.next_is_slam, sample_after(b.rng))
    } else if b.state == BoneKingState::ChargeActive && s.wall_hit {
        BoneKingState::ChargeStunned
    } else if !s.timer_done {
        b.state
    } else {
        match b.state {
            BoneKingState::Chase => BoneKingState::Idle,
            BoneKingState::SlamWindup => BoneKingState::SlamActive,
            BoneKingState::SlamActive => BoneKingState::SlamRecover,
            BoneKingState::SweepWindup => BoneKingState::SweepActive,
            BoneKingState::SweepActive => BoneKingState::SweepRecover,
            BoneKingState::ChargeWindup => BoneKingState::ChargeActive,
            BoneKingState::ChargeActive => BoneKingState::ChargeStunned,
            BoneKingState::SlamRecover | BoneKingState::SweepRecover | BoneKingState::ChargeStunned
                | BoneKingState::Roar => BoneKingState::Idle,
            _ => b.state,
        }
    }
}

/// The timer setting of that frame; idling lasts 0.5 s, 0.35 s in the second phase.
pub open spec fn boss_timer(b: BossBrain, s: BossSense) -> TimerSet {
    let idle = TimerSet::Fixed(if b.phase2 { 350 } else { 500 });
    if !boss_active(b, s) {
        TimerSet::Keep
    } else if boss_chooses(b, s) {
        TimerSet::Fixed(boss_choice_ms(boss_choice(s.far, b.phase2, b.next_is_slam, sample_after(b.rng)), b.phase2))
    } else if b.state == BoneKingState::ChargeActive && s.wall_hit {
        TimerSet::Fixed(1000)
    } else if !s.timer_done {
        TimerSet::Keep
    } else {
        match b.state {
            BoneKingState::SlamWindup => TimerSet::Fixed(150),
            BoneKingState::SlamActive => TimerSet::Fixed(400),
            BoneKingState::SweepWindup => TimerSet::Fixed(200),
            BoneKingState::SweepActive => TimerSet::Fixed(300),
            BoneKingState::ChargeWindup => TimerSet::Fixed(1500),
            BoneKingState::ChargeActive => TimerSet::Fixed(500),
            BoneKingState::Chase | BoneKingState::SlamRecover | BoneKingState::SweepRecover
                | BoneKingState::ChargeStunned | BoneKingState::Roar => idle,
            _ => TimerSet::Keep,
        }
    }
}

impl BossBrain {
    /// The Bone King starts idle, in its first phase, with a slam due.
    pub fn new(seed: u32) -> (b: Self)
        ensures
            b.state == BoneKingState::Idle,
            b.rng == seed,
            !b.phase2 && !b.phase2_triggered,
            b.next_is_slam,
            !b.slam_impact_fired && !b.charge_wall_hit_fired,
    {
        BossBrain {
            state: BoneKingState::Idle,
            rng: seed,
            phase2: false,
            phase2_triggered: false,
            next_is_slam: true,
            slam_impact_fired: false,
            charge_wall_hit_fired: false,
        }
    }

    /// The Bone King's health.
    pub fn max_hp(&self) -> (h: i32)
        ensures
            h == BOSS_HP,
    {
        BOSS_HP
    }

    /// Enter the second phase, once, when the health has dropped to the threshold but not
    /// to zero: the Bone King roars (for 0.8 s). The answer says whether it did.
    pub fn check_phase_transition(&mut self, current_hp: i32) -> (entered: bool)
        ensures
            entered == (!old(self).phase2_triggered && current_hp <= PHASE2_HP_THRESHOLD && current_hp > 0),
            *final(self) == boss_after_damage(*old(self), current_hp),
    {
        if !self.phase2_triggered && current_hp <= PHASE2_HP_THRESHOLD && current_hp > 0 {
            self.phase2_triggered = true;
            self.phase2 = true;
            self.state = BoneKingState::Roar;
            true
        } else {
            false
        }
    }

    /// Begin the dying sequence (which lasts 1.5 s).
    pub fn start_dying(&mut self)
        ensures
            *final(self) == (BossBrain { state: BoneKingState::Dying, ..*old(self) }),
    {
        self.state = BoneKingState::Dying;
    }

    /// Pick the next move; slam and sweep take turns.
    fn choose_attack(&mut self, far: bool) -> (t: TimerSet)
        ensures
            final(self).state == boss_choice(far, old(self).phase2, old(self).next_is_slam, sample_after(old(self).rng)),
            final(self).rng == if !far && old(self).phase2 { lcg_next(old(self).rng) } else { old(self).rng },
            final(self).next_is_slam == if final(self).state == BoneKingState::SlamWindup || final(self).state == BoneKingState::SweepWindup {
                !old(self).next_is_slam
            } else {
                old(self).next_is_slam
            },
            t == TimerSet::Fixed(boss_choice_ms(final(self).state, old(self).phase2)),
            final(self).phase2 == old(self).phase2,
            final(self).phase2_triggered == old(self).phase2_triggered,
            final(self).slam_impact_fired == old(self).slam_impact_fired,
            final(self).charge_wall_hit_fired == old(self).charge_wall_hit_fired,
    {
        if far {
            self.state = BoneKingState::Chase;
            return TimerSet::Fixed(3000);
        }
        if self.phase2 {
            let k = draw_sample(&mut self.rng);
            if k < 21627 {
                self.state = BoneKingState::ChargeWindup;
                return TimerSet::Fixed(400);
            }
        }
        let t = if self.next_is_slam {
            self.state = BoneKingState::SlamWindup;
            TimerSet::Fixed(if self.phase2 { 450 } else { 600 })
        } else {
            self.state = BoneKingState::SweepWindup;
            TimerSet::Fixed(if self.phase2 { 350 } else { 500 })
        };
        self.next_is_slam = !self.next_is_slam;
        t
    }

    /// One frame of the Bone King: idle, chase, and alternate slam and sweep (with a chance
    /// of a charge in the second phase), each wound up, struck and recovered from; a charge
    /// that meets a wall stuns it for longer; the roar and the dying sequence run out their
    /// time.
    pub fn step(&mut self, s: BossSense) -> (a: BossAct)
        ensures
            ({
                let b = *old(self);
                let on = boss_active(b, s);
                &&& final(self).state == boss_next_state(b, s)
                &&& a.timer == boss_timer(b, s)
                &&& final(self).rng == if boss_chooses(b, s) && !s.far && b.phase2 { lcg_next(b.rng) } else { b.rng }
                &&& final(self).next_is_slam == if boss_chooses(b, s) && (final(self).state == BoneKingState::SlamWindup
                    || final(self).state == BoneKingState::SweepWindup) { !b.next_is_slam } else { b.next_is_slam }
                &&& final(self).phase2 == b.phase2
                &&& final(self).phase2_triggered == b.phase2_triggered
                &&& final(self).slam_impact_fired == if on && b.state == BoneKingState::SlamWindup && s.timer_done { false }
                    else if on && b.state == BoneKingState::SlamActive { true } else { b.slam_impact_fired }
                &&& final(self).charge_wall_hit_fired == if on && b.state == BoneKingState::ChargeWindup && s.timer_done { false }
                    else if on && b.state == BoneKingState::ChargeActive && s.wall_hit { true } else { b.charge_wall_hit_fired }
                &&& a.chasing == (on && b.state == BoneKingState::Chase)
                &&& a.start_charge == (on && b.state == BoneKingState::ChargeWindup && s.timer_done)
                &&& a.charging == (on && b.state == BoneKingState::ChargeActive)
                &&& a.hitbox == if !on { BossHitbox::Off } else {
                    match b.state {
                        BoneKingState::SlamActive => BossHitbox::Slam,
                        BoneKingState::SweepActive => BossHitbox::Sweep,
                        BoneKingState::ChargeActive => BossHitbox::Charge,
                        _ => BossHitbox::Off,
                    }
                }
                &&& a.telegraph == (on && (b.state == BoneKingState::SlamWindup || b.state == BoneKingState::SweepWindup
                    || b.state == BoneKingState::ChargeWindup))
                &&& a.slam_impact == (on && b.state == BoneKingState::SlamActive && !b.slam_impact_fired)
                &&& a.charge_wall_hit == (on && b.state == BoneKingState::ChargeActive && s.wall_hit && !b.charge_wall_hit_fired)
                &&& a.stunned == (on && b.state == BoneKingState::ChargeStunned)
                &&& a.roaring == (on && b.state == BoneKingState::Roar)
                &&& a.invulnerable == (on && b.state == BoneKingState::Roar)
                &&& a.dying == (b.state == BoneKingState::Dying)
                &&& a.death_finished == (b.state == BoneKingState::Dying && s.timer_done)
            }),
    {
        let mut act = BossAct {
            timer: TimerSet::Keep,
            chasing: false,
            start_charge: false,
            charging: false,
            hitbox: BossHitbox::Off,
            telegraph: false,
            slam_impact: false,
            charge_wall_hit: false,
            stunned: false,
            roaring: false,
            invulnerable: false,
            dying: false,
            death_finished: false,
        };
        if !s.alive && self.state != BoneKingState::Dying {
            return act;
        }
        let idle = TimerSet::Fixed(if self.phase2 { 350 } else { 500 });
        match self.state {
            BoneKingState::Idle => {
                if s.timer_done {
                    act.timer = self.choose_attack(s.far);
                }
            },
            BoneKingState::Chase => {
                act.chasing = true;
                if s.in_attack_range {
                    act.timer = self.choose_attack(s.far);
                } else if s.timer_done {
                    self.state = BoneKingState::Idle;
                    act.timer = idle;
                }
            },
            BoneKingState::SlamWindup => {
                act.telegraph = true;
                if s.timer_done {
                    self.state = BoneKingState::SlamActive;
                    act.timer = TimerSet::Fixed(150);
                    self.slam_impact_fired = false;
                }
            },
            BoneKingState::SlamActive => {
                act.hitbox = BossHitbox::Slam;
                if !self.slam_impact_fired {
                    act.slam_impact = true;
                    self.slam_impact_fired = true;
                }
                if s.timer_done {
                    self.state = BoneKingState::SlamRecover;
                    act.timer = TimerSet::Fixed(400);
                }
            },
            BoneKingState::SweepWindup => {
                act.telegraph = true;
                if s.timer_done {
                    self.state = BoneKingState::SweepActive;
                    act.timer = TimerSet::Fixed(200);
                }
            },
            BoneKingState::SweepActive => {
                act.hitbox = BossHitbox::Sweep;
                if s.timer_done {
                    self.state = BoneKingState::SweepRecover;
                    act.timer = TimerSet::Fixed(300);
                }
            },
            BoneKingState::ChargeWindup => {
                act.telegraph = true;
                if s.timer_done {
                    self.state = BoneKingState::ChargeActive;
                    act.timer = TimerSet::Fixed(1500);
                    act.start_charge = true;
                    self.charge_wall_hit_fired = false;
                }
            },
            BoneKingState::ChargeActive => {
                act.charging = true;
                act.hitbox = BossHitbox::Charge;
                if s.wall_hit {
                    if !self.charge_wall_hit_fired {
                        act.charge_wall_hit = true;
                        self.charge_wall_hit_fired = true;
                    }
                    self.state = BoneKingState::ChargeStunned;
                    act.timer = TimerSet::Fixed(1000);
                } else if s.timer_done {
                    self.state = BoneKingState::ChargeStunned;
                    act.timer = TimerSet::Fixed(500);
                }
            },
            BoneKingState::SlamRecover | BoneKingState::SweepRecover => {
                if s.timer_done {
                    self.state = BoneKingState::Idle;
                    act.timer = idle;
                }
            },
            BoneKingState::ChargeStunned => {
                act.stunned = true;
                if s.timer_done {
                    self.state = BoneKingState::Idle;
                    act.timer = idle;
                }
            },
            BoneKingState::Roar => {
                act.roaring = true;
                act.invulnerable = true;
                if s.timer_done {
                    self.state = BoneKingState::Idle;
                    act.timer = idle;
                }
            },
            BoneKingState::Dying => {
                act.dying = true;
                act.death_finished = s.timer_done;
            },
        }
        act
    }
}

/// The Bone King after its health fell to `hp`: it enters the second phase when due.
pub open spec fn boss_after_damage(b: BossBrain, hp: i32) -> BossBrain {
    if !b.phase2_triggered && hp <= PHASE2_HP_THRESHOLD && hp > 0 {
        BossBrain { phase2_triggered: true, phase2: true, state: BoneKingState::Roar, ..b }
    } else {
        b
    }
}

/// The decision state of each kind of enemy; a slime has none.
#[derive(Clone, Copy, PartialEq, Eq, Debug, Structural)]
pub enum Brain {
    Inert,
    Skeleton(SkeletonBrain),
    Specter(GhostBrain),
    Boss(BossBrain),
}

/// What a hit did to an enemy.
#[derive(Clone, Copy, PartialEq, Eq, Debug, Structural)]
pub enum HitResult {
    /// The Bone King shrugged it off while roaring or dying.
    Ignored,
    Hurt,
    /// The Bone King was hurt into its second phase and roars.
    PhaseTwo,
    /// A common enemy died.
    Killed,
    /// The Bone King began its dying sequence.
    Dying,
}

/// The integer part of an enemy: its kind, health, whether it lives, and its brain.
#[derive(Clone, Copy, PartialEq, Eq, Debug, Structural)]
pub struct EnemyCore {
    pub kind: EnemyType,
    pub hp: i32,
    pub alive: bool,
    pub brain: Brain,
}

/// The Bone King's guard is up: it is roaring or dying.
pub open spec fn boss_guarded(brain: Brain) -> bool {
    match brain {
        Brain::Boss(b) => b.state == BoneKingState::Roar || b.state == BoneKingState::Dying,
        _ => false,
    }
}

impl EnemyCore {
    /// A slime: 3 health, no brain.
    pub fn new_slime() -> (e: Self)
        ensures
            e == (EnemyCore { kind: EnemyType::Slime, hp: 3, alive: true, brain: Brain::Inert }),
    {
        EnemyCore { kind: EnemyType::Slime, hp: 3, alive: true, brain: Brain::Inert }
    }

    /// A skeleton: 3 health.
    pub fn new_skeleton(seed: u32) -> (e: Self)
        ensures
            e == (EnemyCore { kind: EnemyType::Skeleton, hp: 3, alive: true, brain: Brain::Skeleton(SkeletonBrain { state: SkeletonState::Idle, rng: seed }) }),
    {
        EnemyCore { kind: EnemyType::Skeleton, hp: 3, alive: true, brain: Brain::Skeleton(SkeletonBrain::new(seed)) }
    }

    /// A ghost: 2 health.
    pub fn new_ghost(seed: u32) -> (e: Self)
        ensures
            e == (EnemyCore { kind: EnemyType::Specter, hp: 2, alive: true, brain: Brain::Specter(GhostBrain { state: GhostState::Float, rng: seed }) }),
    {
        EnemyCore { kind: EnemyType::Specter, hp: 2, alive: true, brain: Brain::Specter(GhostBrain::new(seed)) }
    }

    /// The Bone King: 20 health.
    pub fn new_bone_king(seed: u32) -> (e: Self)
        ensures
            e.kind == EnemyType::BoneKing && e.hp == BOSS_HP && e.alive,
            e.brain == Brain::Boss(BossBrain {
                state: BoneKingState::Idle,
                rng: seed,
                phase2: false,
                phase2_triggered: false,
                next_is_slam: true,
                slam_impact_fired: false,
                charge_wall_hit_fired: false,
            }),
    {
        EnemyCore { kind: EnemyType::BoneKing, hp: BOSS_HP, alive: true, brain: Brain::Boss(BossBrain::new(seed)) }
    }

    /// The boss's full health, for a boss.
    pub fn boss_max_hp(&self) -> (h: Option<i32>)
        ensures
            h == match self.brain {
                Brain::Boss(_) => Some(BOSS_HP),
                _ => None::<i32>,
            },
    {
        match self.brain {
            Brain::Boss(b) => Some(b.max_hp()),
            _ => None,
        }
    }

    /// Only a living slime whose contact cooldown is over hurts by touch.
    pub fn can_deal_contact_damage(&self, cooldown_over: bool) -> (b: bool)
        ensures
            b == (self.alive && self.kind == EnemyType::Slime && cooldown_over),
    {
        self.alive && self.kind == EnemyType::Slime && cooldown_over
    }

    /// Take `dmg` damage. The Bone King ignores hits while roaring or dying; when its health
    /// runs out it begins to die, and at half health it enters its second phase. Other
    /// enemies die when their health runs out.
    pub fn take_hit(&mut self, dmg: i32) -> (r: HitResult)
        requires
            i32::MIN <= old(self).hp - dmg <= i32::MAX,
        ensures
            boss_guarded(old(self).brain) ==> r == HitResult::Ignored && *final(self) == *old(self),
            !boss_guarded(old(self).brain) ==> {
                let hp = (old(self).hp - dmg) as i32;
                &&& final(self).hp == hp
                &&& final(self).kind == old(self).kind
                &&& if hp <= 0 && old(self).kind != EnemyType::BoneKing {
                    r == HitResult::Killed && !final(self).alive && final(self).brain == old(self).brain
                } else {
                    &&& final(self).alive == old(self).alive
                    &&& match old(self).brain {
                        Brain::Boss(b) if old(self).kind == EnemyType::BoneKing => if hp <= 0 {
                            r == HitResult::Dying && final(self).brain == Brain::Boss(BossBrain { state: BoneKingState::Dying, ..b })
                        } else {
                            final(self).brain == Brain::Boss(boss_after_damage(b, hp))
                            && r == if boss_after_damage(b, hp) != b { HitResult::PhaseTwo } else { HitResult::Hurt }
                        },
                        _ => r == HitResult::Hurt && final(self).brain == old(self).brain,
                    }
                }
            },
    {
        if let Brain::Boss(b) = self.brain {
            if b.state == BoneKingState::Roar || b.state == BoneKingState::Dying {
                return HitResult::Ignored;
            }
        }
        self.hp = self.hp - dmg;
        if self.hp <= 0 {
            if self.kind == EnemyType::BoneKing {
                if let Brain::Boss(b) = self.brain {
                    let mut b2 = b;
                    b2.start_dying();
                    self.brain = Brain::Boss(b2);
                    return HitResult::Dying;
                }
                HitResult::Hurt
            } else {
                self.alive = false;
                HitResult::Killed
            }
        } else if self.kind == EnemyType::BoneKing {
            if let Brain::Boss(b) = self.brain {
                let mut b2 = b;
                let entered = b2.check_phase_transition(self.hp);
                self.brain = Brain::Boss(b2);
                if entered {
                    return HitResult::PhaseTwo;
                }
            }
            HitResult::Hurt
        } else {
            HitResult::Hurt
        }
    }
}

/// The second phase begins only once: a Bone King that has entered it is left as it is by
/// any later damage.
pub proof fn law_phase_two_once(b: BossBrain, first_hp: i32, later_hp: i32)
    requires
        boss_after_damage(b, first_hp) != b,
    ensures
        boss_after_damage(boss_after_damage(b, first_hp), later_hp) == boss_after_damage(b, first_hp),
        boss_after_damage(b, first_hp).phase2,
{
}

/// Slam and sweep take turns: in the first phase, near the player, the attack picked after
/// one pick (which flips the turn, see `step`) is the other one.
pub proof fn law_slam_and_sweep_alternate(b: BossBrain, s1: BossSense, s2: BossSense)
    requires
        !b.phase2,
        boss_chooses(b, s1),
        !s1.far,
        boss_chooses((BossBrain { state: BoneKingState::Idle, next_is_slam: !b.next_is_slam, ..b }), s2),
        !s2.far,
    ensures
        boss_next_state(b, s1) == if b.next_is_slam { BoneKingState::SlamWindup } else { BoneKingState::SweepWindup },
        boss_next_state((BossBrain { state: BoneKingState::Idle, next_is_slam: !b.next_is_slam, ..b }), s2)
            == if b.next_is_slam { BoneKingState::SweepWindup } else { BoneKingState::SlamWindup },
{
}

/// A skeleton's attack hitbox, relative to its sprite's origin (x, y, width, height): a
/// 10x8 box in front of it, live only during the lunge.
pub fn skeleton_attack_rect(state: SkeletonState, facing_right: bool) -> (r: Option<(i32, i32, i32, i32)>)
    ensures
        r == if state != SkeletonState::Attack { None } else if facing_right { Some((8i32, 3i32, 10i32, 8i32)) }
            else { Some((-10i32, 3i32, 10i32, 8i32)) },
{
    if state != SkeletonState::Attack {
        None
    } else if facing_right {
        Some((8, 3, 10, 8))
    } else {
        Some((-10, 3, 10, 8))
    }
}

/// The Bone King's attack hitbox, relative to its sprite's origin: the slam's 15x12 box and
/// the sweep's wide 30x10 box in front of it, the charge's 16x16 box over its body.
pub fn boss_attack_rect(state: BoneKingState, facing_right: bool) -> (r: Option<(i32, i32, i32, i32)>)
    ensures
        r == match state {
            BoneKingState::SlamActive => Some(if facing_right { (14i32, 8i32, 15i32, 12i32) } else { (-9i32, 8i32, 15i32, 12i32) }),
            BoneKingState::SweepActive => Some(if facing_right { (8i32, 10i32, 30i32, 10i32) } else { (-18i32, 10i32, 30i32, 10i32) }),
            BoneKingState::ChargeActive => Some((2i32, 4i32, 16i32, 16i32)),
            _ => None,
        },
{
    match state {
        BoneKingState::SlamActive => Some(if facing_right { (14, 8, 15, 12) } else { (-9, 8, 15, 12) }),
        BoneKingState::SweepActive => Some(if facing_right { (8, 10, 30, 10) } else { (-18, 10, 30, 10) }),
        BoneKingState::ChargeActive => Some((2, 4, 16, 16)),
        _ => None,
    }
}

/// Where an enemy can be hit, relative to its sprite's origin.
pub fn hurtbox_rect(kind: EnemyType) -> (r: (i32, i32, i32, i32))
    ensures
        r == match kind {
            EnemyType::Slime => (2i32, 1i32, 6i32, 8i32),
            EnemyType::Skeleton => (2i32, 3i32, 6i32, 8i32),
            EnemyType::Specter => (2i32, 2i32, 6i32, 7i32),
            EnemyType::BoneKing => (4i32, 4i32, 12i32, 16i32),
        },
{
    match kind {
        EnemyType::Slime => (2, 1, 6, 8),
        EnemyType::Skeleton => (2, 3, 6, 8),
        EnemyType::Specter => (2, 2, 6, 7),
        EnemyType::BoneKing => (4, 4, 12, 16),
    }
}

/// The box that an enemy collides with walls by, relative to its sprite's origin: its feet.
pub fn collision_rect(kind: EnemyType) -> (r: (i32, i32, i32, i32))
    ensures
        r == match kind {
            EnemyType::Slime => (2i32, 6i32, 6i32, 4i32),
            EnemyType::Skeleton => (1i32, 10i32, 8i32, 4i32),
            EnemyType::Specter => (2i32, 6i32, 6i32, 4i32),
            EnemyType::BoneKing => (4i32, 18i32, 12i32, 6i32),
        },
{
    match kind {
        EnemyType::Slime => (2, 6, 6, 4),
        EnemyType::Skeleton => (1, 10, 8, 4),
        EnemyType::Specter => (2, 6, 6, 4),
        EnemyType::BoneKing => (4, 18, 12, 6),
    }
}

/// An enemy's center relative to its sprite's origin.
pub fn center_offset(kind: EnemyType) -> (r: (i32, i32))
    ensures
        r == match kind {
            EnemyType::Slime => (5i32, 5i32),
            EnemyType::Skeleton => (5i32, 7i32),
            EnemyType::Specter => (5i32, 6i32),
            EnemyType::BoneKing => (10i32, 12i32),
        },
{
    match kind {
        EnemyType::Slime => (5, 5),
        EnemyType::Skeleton => (5, 7),
        EnemyType::Specter => (5, 6),
        EnemyType::BoneKing => (10, 12),
    }
}

/// Damage of an enemy's melee hit on the player: two from the Bone King, one otherwise.
pub fn melee_damage(kind: EnemyType) -> (d: i32)
    ensures
        d == if kind == EnemyType::BoneKing { 2i32 } else { 1i32 },
{
    if kind == EnemyType::BoneKing { 2 } else { 1 }
}

/// How a skeleton reacts: idle or patrolling, it gives chase the moment the player comes
/// near (timer reset to zero); otherwise it switches between idling (1 to 2 s) and
/// patrolling (1.5 to 3.5 s) as its timer runs out. Chasing, it winds up (0.4 s) once the
/// player is in reach and gives up (idle) once the player is lost. A wind-up ends in a
/// strike (0.15 s), a strike in a cooldown (0.6 s); after a cooldown or a stagger it chases
/// a near player and idles otherwise. While its timer runs, it holds its state and timer.
pub proof fn law_skeleton_reactions(st: SkeletonState, s: SkeletonSense, k1: u32, k2: u32)
    ensures
        (st == SkeletonState::Idle || st == SkeletonState::Patrol) && s.near ==> skeleton_next(st, s) == SkeletonState::Chase
            && skeleton_timer(st, s, k1, k2) == TimerSet::Fixed(0),
        st == SkeletonState::Idle && !s.near && s.timer_done ==> skeleton_next(st, s) == SkeletonState::Patrol
            && skeleton_timer(st, s, k1, k2) == (TimerSet::Random { base_ms: 1500, spread_ms: 2000, sample: k2 }),
        st == SkeletonState::Patrol && !s.near && s.timer_done ==> skeleton_next(st, s) == SkeletonState::Idle
            && skeleton_timer(st, s, k1, k2) == (TimerSet::Random { base_ms: 1000, spread_ms: 1000, sample: k1 }),
        (st == SkeletonState::Idle || st == SkeletonState::Patrol) && !s.near && !s.timer_done ==> skeleton_next(st, s) == st
            && skeleton_timer(st, s, k1, k2) == TimerSet::Keep,
        st == SkeletonState::Chase && s.in_reach ==> skeleton_next(st, s) == SkeletonState::WindUp
            && skeleton_timer(st, s, k1, k2) == TimerSet::Fixed(400),
        st == SkeletonState::Chase && !s.in_reach && s.lost ==> skeleton_next(st, s) == SkeletonState::Idle
            && skeleton_timer(st, s, k1, k2) == (TimerSet::Random { base_ms: 1000, spread_ms: 1000, sample: k1 }),
        st == SkeletonState::Chase && !s.in_reach && !s.lost ==> skeleton_next(st, s) == SkeletonState::Chase
            && skeleton_timer(st, s, k1, k2) == TimerSet::Keep,
        st == SkeletonState::WindUp && s.timer_done ==> skeleton_next(st, s) == SkeletonState::Attack
            && skeleton_timer(st, s, k1, k2) == TimerSet::Fixed(150),
        st == SkeletonState::Attack && s.timer_done ==> skeleton_next(st, s) == SkeletonState::Cooldown
            && skeleton_timer(st, s, k1, k2) == TimerSet::Fixed(600),
        (st == SkeletonState::Cooldown || st == SkeletonState::Stagger) && s.timer_done && s.near ==> skeleton_next(st, s)
            == SkeletonState::Chase,
        (st == SkeletonState::Cooldown || st == SkeletonState::Stagger) && s.timer_done && !s.near ==> skeleton_next(st, s)
            == SkeletonState::Idle && skeleton_timer(st, s, k1, k2) == (TimerSet::Random { base_ms: 1000, spread_ms: 1000, sample: k1 }),
        (st == SkeletonState::WindUp || st == SkeletonState::Attack || st == SkeletonState::Cooldown || st == SkeletonState::Stagger)
            && !s.timer_done ==> skeleton_next(st, s) == st && skeleton_timer(st, s, k1, k2) == TimerSet::Keep,
{
}

/// How a ghost reacts: floating, it backs off when the player is too close and otherwise
/// starts aiming (0.6 s) when its timer runs out. Repositioning ends when its timer runs
/// out or it is beyond its preferred distance. Aiming, it repositions if the aim is spoiled,
/// drifts back to floating when the player is out of range, and shoots when its timer runs
/// out. A shot always leads to a cooldown (1.2 s); a cooldown ends in a reposition when the
/// player is too close (0.8 s) or in floating; a stagger ends in floating.
pub proof fn law_ghost_reactions(st: GhostState, s: GhostSense, k: u32)
    ensures
        st == GhostState::Float && s.too_close ==> ghost_next(st, s) == GhostState::Reposition,
        st == GhostState::Float && !s.too_close && s.timer_done ==> ghost_next(st, s) == GhostState::Aim
            && ghost_timer(st, s, k) == TimerSet::Fixed(600),
        st == GhostState::Reposition ==> ghost_next(st, s) == if s.timer_done || s.beyond_preferred {
            GhostState::Float
        } else {
            GhostState::Reposition
        },
        st == GhostState::Aim && s.aim_spoiled ==> ghost_next(st, s) == GhostState::Reposition,
        st == GhostState::Aim && !s.aim_spoiled && s.out_of_range ==> ghost_next(st, s) == GhostState::Float,
        st == GhostState::Aim && !s.aim_spoiled && !s.out_of_range && s.timer_done ==> ghost_next(st, s) == GhostState::Shoot,
        st == GhostState::Shoot ==> ghost_next(st, s) == GhostState::Cooldown && ghost_timer(st, s, k) == TimerSet::Fixed(1200),
        st == GhostState::Cooldown && s.too_close ==> ghost_next(st, s) == GhostState::Reposition
            && ghost_timer(st, s, k) == TimerSet::Fixed(800),
        st == GhostState::Cooldown && !s.too_close && s.timer_done ==> ghost_next(st, s) == GhostState::Float,
        st == GhostState::Stagger ==> ghost_next(st, s) == if s.timer_done { GhostState::Float } else { GhostState::Stagger },
        ghost_next(st, s) == st ==> ghost_timer(st, s, k) == TimerSet::Keep,
{
}

/// How the Bone King picks and plays its attacks: from a distance it chases (3 s);
/// up close in its first phase it alternates slam and sweep as `next_is_slam` says, and in
/// its second phase it may also charge. Each wind-up turns into its attack when its timer
/// runs out, each attack into its recovery, and a charge that hits a wall stuns the boss
/// (1 s). A boss that is neither alive nor dying does nothing.
pub proof fn law_boss_reactions(b: BossBrain, s: BossSense, far: bool, slam: bool, k: u32)
    ensures
        boss_choice(true, b.phase2, slam, k) == BoneKingState::Chase,
        boss_choice_ms(BoneKingState::Chase, b.phase2) == 3000,
        boss_choice(false, false, true, k) == BoneKingState::SlamWindup,
        boss_choice(false, false, false, k) == BoneKingState::SweepWindup,
        boss_choice(far, b.phase2, slam, k) != BoneKingState::ChargeWindup ==> (boss_choice(far, b.phase2, slam, k)
            == if far { BoneKingState::Chase } else if slam { BoneKingState::SlamWindup } else { BoneKingState::SweepWindup }),
        boss_choice(far, b.phase2, slam, k) == BoneKingState::ChargeWindup ==> !far && b.phase2,
        !s.alive && b.state != BoneKingState::Dying ==> boss_next_state(b, s) == b.state && boss_timer(b, s) == TimerSet::Keep,
        boss_active(b, s) && b.state == BoneKingState::ChargeActive && s.wall_hit ==> boss_next_state(b, s)
            == BoneKingState::ChargeStunned && boss_timer(b, s) == TimerSet::Fixed(1000),
        boss_active(b, s) && s.timer_done && b.state == BoneKingState::SlamWindup ==> boss_next_state(b, s) == BoneKingState::SlamActive,
        boss_active(b, s) && s.timer_done && b.state == BoneKingState::SweepWindup ==> boss_next_state(b, s) == BoneKingState::SweepActive,
        boss_active(b, s) && s.timer_done && b.state == BoneKingState::ChargeWindup ==> boss_next_state(b, s) == BoneKingState::ChargeActive,
        boss_active(b, s) && s.timer_done && b.state == BoneKingState::SlamActive ==> boss_next_state(b, s) == BoneKingState::SlamRecover,
        boss_active(b, s) && s.timer_done && b.state == BoneKingState::SweepActive ==> boss_next_state(b, s) == BoneKingState::SweepRecover,
        boss_active(b, s) && b.state == BoneKingState::Idle && s.timer_done ==> boss_next_state(b, s)
            == boss_choice(s.far, b.phase2, b.next_is_slam, sample_after(b.rng)),
{
}

/// How damage affects the Bone King: it shrugs off hits only while roaring or dying; the
/// first hit that leaves it alive at 10 health or less starts its second phase with a
/// roar; any other hit leaves its brain as it was. Other enemies are never guarded.
pub proof fn law_boss_damage(b: BossBrain, hp: i32, brain: Brain)
    ensures
        boss_guarded(Brain::Boss(b)) <==> (b.state == BoneKingState::Roar || b.state == BoneKingState::Dying),
        !(brain is Boss) ==> !boss_guarded(brain),
        !b.phase2_triggered && 0 < hp <= 10 ==> boss_after_damage(b, hp).phase2 && boss_after_damage(b, hp).phase2_triggered
            && boss_after_damage(b, hp).state == BoneKingState::Roar,
        (b.phase2_triggered || hp > 10 || hp <= 0) ==> boss_after_damage(b, hp) == b,
{
}

} // verus!
