use vstd::prelude::*;

verus! {

/// The player's action states.
#[derive(Clone, Copy, PartialEq, Eq, Debug, Structural)]
pub enum PlayerState {
    Idle,
    Walking,
    Dashing,
    Attacking,
    Hit,
    Dead,
}

/// The attack's hitbox is live on this frame of the attack animation.
pub const ATTACK_ACTIVE_FRAME: usize = 2;

impl PlayerState {
    pub fn is_dashing(&self) -> (b: bool)
        ensures
            b == (*self == PlayerState::Dashing),
    {
        match self {
            PlayerState::Dashing => true,
            _ => false,
        }
    }

    pub fn is_attacking(&self) -> (b: bool)
        ensures
            b == (*self == PlayerState::Attacking),
    {
        match self {
            PlayerState::Attacking => true,
            _ => false,
        }
    }

    pub fn is_dead(&self) -> (b: bool)
        ensures
            b == (*self == PlayerState::Dead),
    {
        match self {
            PlayerState::Dead => true,
            _ => false,
        }
    }

    /// The player cannot be hurt while the invincibility timer runs or while dashing.
    pub fn is_invincible(&self, timer_running: bool) -> (b: bool)
        ensures
            b == (timer_running || *self == PlayerState::Dashing),
    {
        timer_running || self.is_dashing()
    }

    /// The attack hitbox is live only while attacking, on the attack animation's active frame.
    pub fn attack_live(&self, frame: usize) -> (b: bool)
        ensures
            b == (*self == PlayerState::Attacking && frame == ATTACK_ACTIVE_FRAME),
    {
        self.is_attacking() && frame == ATTACK_ACTIVE_FRAME
    }
}

/// What the controls and the player's timers say in a frame: a direction is held; attack
/// and dash were pressed; the attack cooldown is over; the current animation has finished;
/// the dash has run its time.
#[derive(Clone, Copy, PartialEq, Eq, Debug, Structural)]
pub struct PlayerSense {
    pub moving: bool,
    pub attack: bool,
    pub dash: bool,
    pub attack_ready: bool,
    pub anim_finished: bool,
    pub dash_over: bool,
}

/// The player's animations.
#[derive(Clone, Copy, PartialEq, Eq, Debug, Structural)]
pub enum PlayerAnim {
    Idle,
    Walk,
    Attack,
    Dash,
    Hit,
    Death,
}

/// How the player moves in a frame: not at all, walking along the input, starting a dash
/// along the input, or carrying on a dash along its own heading.
#[derive(Clone, Copy, PartialEq, Eq, Debug, Structural)]
pub enum PlayerMotion {
    Still,
    Walk,
    DashStart,
    DashCarry,
}

/// What the player does in a frame, besides changing state.
#[derive(Clone, Copy, PartialEq, Eq, Debug, Structural)]
pub struct PlayerAct {
    /// The animation to play, if it changes.
    pub anim: Option<PlayerAnim>,
    pub motion: PlayerMotion,
    /// An attack starts: its cooldown (0.3 s) restarts.
    pub start_attack: bool,
    /// A dash starts: its timer (0.15 s) and heading are set.
    pub start_dash: bool,
}

/// Idle or walking, by whether a direction is held.
pub open spec fn rest_state(moving: bool) -> PlayerState {
    if moving { PlayerState::Walking } else { PlayerState::Idle }
}

/// The player's state after a frame.
pub open spec fn player_next(st: PlayerState, s: PlayerSense) -> PlayerState {
    match st {
        PlayerState::Dead => st,
        PlayerState::Attacking | PlayerState::Hit => if s.anim_finished { rest_state(s.moving) } else { st },
        PlayerState::Dashing => if s.dash_over { rest_state(s.moving) } else { st },
        _ => if s.attack && s.attack_ready {
            PlayerState::Attacking
        } else if s.dash && s.moving {
            PlayerState::Dashing
        } else {
            rest_state(s.moving)
        },
    }
}

/// The animation that goes with a state that the player enters.
pub open spec fn anim_for(st: PlayerState) -> PlayerAnim {
    match st {
        PlayerState::Idle => PlayerAnim::Idle,
        PlayerState::Walking => PlayerAnim::Walk,
        PlayerState::Dashing => PlayerAnim::Dash,
        PlayerState::Attacking => PlayerAnim::Attack,
        PlayerState::Hit => PlayerAnim::Hit,
        PlayerState::Dead => PlayerAnim::Death,
    }
}

/// One frame of the player's controls: an attack (once its cooldown is over) takes priority
/// over a dash, which needs a direction; attacks and hits lock the player in place until
/// their animation ends; a dash runs its time; a dead player does nothing.
pub fn player_step(st: PlayerState, s: PlayerSense) -> (r: (PlayerState, PlayerAct))
    ensures
        r.0 == player_next(st, s),
        r.1.anim == if st == PlayerState::Dead || r.0 == st && (st == PlayerState::Attacking || st == PlayerState::Hit
            || st == PlayerState::Dashing) {
            None::<PlayerAnim>
        } else {
            Some(anim_for(r.0))
        },
        r.1.motion == match st {
            PlayerState::Dashing => PlayerMotion::DashCarry,
            PlayerState::Idle | PlayerState::Walking => match r.0 {
                PlayerState::Dashing => PlayerMotion::DashStart,
                PlayerState::Walking => PlayerMotion::Walk,
                _ => PlayerMotion::Still,
            },
            _ => PlayerMotion::Still,
        },
        r.1.start_attack == ((st == PlayerState::Idle || st == PlayerState::Walking) && r.0 == PlayerState::Attacking),
        r.1.start_dash == ((st == PlayerState::Idle || st == PlayerState::Walking) && r.0 == PlayerState::Dashing),
{
    let rest = if s.moving { PlayerState::Walking } else { PlayerState::Idle };
    let rest_anim = if s.moving { PlayerAnim::Walk } else { PlayerAnim::Idle };
    let mut act = PlayerAct { anim: None, motion: PlayerMotion::Still, start_attack: false, start_dash: false };
    match st {
        PlayerState::Dead => (st, act),
        PlayerState::Attacking | PlayerState::Hit => {
            if s.anim_finished {
                act.anim = Some(rest_anim);
                (rest, act)
            } else {
                (st, act)
            }
        },
        PlayerState::Dashing => {
            act.motion = PlayerMotion::DashCarry;
            if s.dash_over {
                act.anim = Some(rest_anim);
                (rest, act)
            } else {
                (st, act)
            }
        },
        _ => {
            if s.attack && s.attack_ready {
                act.anim = Some(PlayerAnim::Attack);
                act.start_attack = true;
                (PlayerState::Attacking, act)
            } else if s.dash && s.moving {
                act.anim = Some(PlayerAnim::Dash);
                act.start_dash = true;
                act.motion = PlayerMotion::DashStart;
                (PlayerState::Dashing, act)
            } else {
                act.anim = Some(rest_anim);
                if s.moving {
                    act.motion = PlayerMotion::Walk;
                }
                (rest, act)
            }
        },
    }
}

/// Health after a pickup heals `amount`: raised by it when positive, capped at `max_hp`.
pub fn player_heal(hp: i32, amount: i32, max_hp: i32) -> (h: i32)
    requires
        hp + amount <= i32::MAX,
    ensures
        h == if amount > 0 {
            if hp + amount < max_hp { hp + amount } else { max_hp as int }
        } else {
            hp as int
        },
{
    if amount > 0 {
        let raised = hp + amount;
        if raised < max_hp { raised } else { max_hp }
    } else {
        hp
    }
}

/// What a hit did to the player.
#[derive(Clone, Copy, PartialEq, Eq, Debug, Structural)]
pub struct PlayerHurt {
    pub hp: i32,
    pub state: PlayerState,
    /// The hit landed: the invincibility timer (1 s) and the knockback start.
    pub landed: bool,
    /// The hit was fatal.
    pub died: bool,
}

/// Damage to the player: none while invincible (timer running or dashing) or dead;
/// otherwise health drops by `dmg`, floored at zero, and the player dies at zero or is
/// stunned by the hit.
pub fn player_take_damage(hp: i32, st: PlayerState, timer_running: bool, dmg: i32) -> (h: PlayerHurt)
    requires
        i32::MIN <= hp - dmg <= i32::MAX,
    ensures
        (timer_running || st == PlayerState::Dashing || st == PlayerState::Dead) ==> h == (PlayerHurt { hp, state: st, landed: false, died: false }),
        !(timer_running || st == PlayerState::Dashing || st == PlayerState::Dead) ==> {
            &&& h.landed
            &&& h.died == (hp - dmg <= 0)
            &&& h.hp == if hp - dmg <= 0 { 0 } else { hp - dmg }
            &&& h.state == if hp - dmg <= 0 { PlayerState::Dead } else { PlayerState::Hit }
        },
        h.landed ==> h.hp >= 0,
{
    if st.is_invincible(timer_running) || st.is_dead() {
        return PlayerHurt { hp, state: st, landed: false, died: false };
    }
    let left = hp - dmg;
    if left <= 0 {
        PlayerHurt { hp: 0, state: PlayerState::Dead, landed: true, died: true }
    } else {
        PlayerHurt { hp: left, state: PlayerState::Hit, landed: true, died: false }
    }
}

/// The player's attack hitbox relative to the sprite's origin (x, y, width, height): a
/// 10x8 box in front.
pub fn player_attack_rect(facing_right: bool) -> (r: (i32, i32, i32, i32))
    ensures
        r == if facing_right { (8i32, 3i32, 10i32, 8i32) } else { (-10i32, 3i32, 10i32, 8i32) },
{
    if facing_right { (8, 3, 10, 8) } else { (-10, 3, 10, 8) }
}

/// Where the player can be hit, relative to the sprite's origin.
pub const PLAYER_HURTBOX: (i32, i32, i32, i32) = (2, 3, 6, 8);

/// The box that the player collides with walls by: the feet.
pub const PLAYER_COLLISION: (i32, i32, i32, i32) = (1, 10, 8, 4);

/// How the player's controls act: a dead player stays dead; free to act, an attack (once
/// ready) wins over a dash, a dash needs a direction, and otherwise the player walks when a
/// direction is held and idles when none is; an attack or a hit locks the player until its
/// animation ends, and a dash until it is over, after which the player walks or idles.
/// Each state entered plays its own animation.
pub proof fn law_player_controls(st: PlayerState, s: PlayerSense)
    ensures
        st == PlayerState::Dead ==> player_next(st, s) == PlayerState::Dead,
        (st == PlayerState::Idle || st == PlayerState::Walking) && s.attack && s.attack_ready ==> player_next(st, s)
            == PlayerState::Attacking,
        (st == PlayerState::Idle || st == PlayerState::Walking) && !(s.attack && s.attack_ready) && s.dash && s.moving
            ==> player_next(st, s) == PlayerState::Dashing,
        (st == PlayerState::Idle || st == PlayerState::Walking) && !(s.attack && s.attack_ready) && !s.moving
            ==> player_next(st, s) == PlayerState::Idle,
        (st == PlayerState::Idle || st == PlayerState::Walking) && !(s.attack && s.attack_ready) && !s.dash && s.moving
            ==> player_next(st, s) == PlayerState::Walking,
        (st == PlayerState::Attacking || st == PlayerState::Hit) && !s.anim_finished ==> player_next(st, s) == st,
        (st == PlayerState::Attacking || st == PlayerState::Hit || st == PlayerState::Dashing) && (if st == PlayerState::Dashing {
            s.dash_over
        } else {
            s.anim_finished
        }) ==> player_next(st, s) == if s.moving { PlayerState::Walking } else { PlayerState::Idle },
        st == PlayerState::Dashing && !s.dash_over ==> player_next(st, s) == PlayerState::Dashing,
        anim_for(PlayerState::Idle) == PlayerAnim::Idle && anim_for(PlayerState::Walking) == PlayerAnim::Walk
            && anim_for(PlayerState::Dashing) == PlayerAnim::Dash && anim_for(PlayerState::Attacking) == PlayerAnim::Attack
            && anim_for(PlayerState::Hit) == PlayerAnim::Hit && anim_for(PlayerState::Dead) == PlayerAnim::Death,
{
}

} // verus!
