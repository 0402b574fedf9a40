use vstd::prelude::*;
use std::time::{Duration, Instant};

verus! {

/// Release timeout: if a key hasn't been re-seen in this duration, consider it released.
pub const HELD_TIMEOUT_MS: u64 = 150;

pub const NANOS_PER_MILLI: u64 = 1_000_000;

#[derive(Debug, Clone, Copy, PartialEq, Eq, Hash, Structural)]
pub enum GameKey {
    Up,
    Down,
    Left,
    Right,
    Attack,
    Dash,
    Pause,
    Quit,
}

/// The key of a keyboard event, as far as the game reads it.
#[derive(Debug, Clone, Copy, PartialEq, Eq, Structural)]
pub enum KeyInput {
    Up,
    Down,
    Left,
    Right,
    Enter,
    Esc,
    Char(char),
    Other,
}

pub open spec fn key_index_spec(k: GameKey) -> int {
    match k {
        GameKey::Up => 0,
        GameKey::Down => 1,
        GameKey::Left => 2,
        GameKey::Right => 3,
        GameKey::Attack => 4,
        GameKey::Dash => 5,
        GameKey::Pause => 6,
        GameKey::Quit => 7,
    }
}

pub open spec fn key_at(i: int) -> GameKey {
    if i == 0 {
        GameKey::Up
    } else if i == 1 {
        GameKey::Down
    } else if i == 2 {
        GameKey::Left
    } else if i == 3 {
        GameKey::Right
    } else if i == 4 {
        GameKey::Attack
    } else if i == 5 {
        GameKey::Dash
    } else if i == 6 {
        GameKey::Pause
    } else {
        GameKey::Quit
    }
}

fn key_index(k: GameKey) -> (i: usize)
    ensures
        i == key_index_spec(k),
        i < 8,
        key_at(i as int) == k,
{
    match k {
        GameKey::Up => 0,
        GameKey::Down => 1,
        GameKey::Left => 2,
        GameKey::Right => 3,
        GameKey::Attack => 4,
        GameKey::Dash => 5,
        GameKey::Pause => 6,
        GameKey::Quit => 7,
    }
}

/// The four movement keys.
pub open spec fn is_direction(k: GameKey) -> bool {
    k == GameKey::Up || k == GameKey::Down || k == GameKey::Left || k == GameKey::Right
}

pub open spec fn map_key_spec(code: KeyInput) -> Option<GameKey> {
    match code {
        KeyInput::Up => Some(GameKey::Up),
        KeyInput::Down => Some(GameKey::Down),
        KeyInput::Left => Some(GameKey::Left),
        KeyInput::Right => Some(GameKey::Right),
        KeyInput::Enter => Some(GameKey::Attack),
        KeyInput::Esc => Some(GameKey::Pause),
        KeyInput::Char(c) => {
            if c == 'w' {
                Some(GameKey::Up)
            } else if c == 's' {
                Some(GameKey::Down)
            } else if c == 'a' {
                Some(GameKey::Left)
            } else if c == 'd' {
                Some(GameKey::Right)
            } else if c == 'z' {
                Some(GameKey::Attack)
            } else if c == 'x' || c == ' ' {
                Some(GameKey::Dash)
            } else if c == 'q' {
                Some(GameKey::Quit)
            } else {
                None
            }
        },
        KeyInput::Other => None,
    }
}

/// Map a key code to a GameKey, if applicable.
pub fn map_key(code: KeyInput) -> (k: Option<GameKey>)
    ensures
        k == map_key_spec(code),
{
    match code {
        KeyInput::Up => Some(GameKey::Up),
        KeyInput::Down => Some(GameKey::Down),
        KeyInput::Left => Some(GameKey::Left),
        KeyInput::Right => Some(GameKey::Right),
        KeyInput::Enter => Some(GameKey::Attack),
        KeyInput::Esc => Some(GameKey::Pause),
        KeyInput::Char(c) => {
            if c == 'w' {
                Some(GameKey::Up)
            } else if c == 's' {
                Some(GameKey::Down)
            } else if c == 'a' {
                Some(GameKey::Left)
            } else if c == 'd' {
                Some(GameKey::Right)
            } else if c == 'z' {
                Some(GameKey::Attack)
            } else if c == 'x' || c == ' ' {
                Some(GameKey::Dash)
            } else if c == 'q' {
                Some(GameKey::Quit)
            } else {
                None
            }
        },
        KeyInput::Other => None,
    }
}

#[verifier::external_type_specification]
#[verifier::external_body]
pub struct ExInstant(Instant);

/// `Instant::now`: the current reading of the monotonic clock. Nothing is stated
/// of the value; it depends on the time of the call.
#[verifier::external_body]
fn clock_now() -> Instant {
    Instant::now()
}

/// `Instant::elapsed`: time passed since `origin`. Nothing is stated of the value;
/// it depends on the time of the call.
#[verifier::external_body]
fn instant_elapsed(origin: &Instant) -> Duration {
    origin.elapsed()
}

/// `Duration::as_nanos`: the whole nanoseconds of `d`. Nothing is stated: `Duration`
/// is opaque here.
#[verifier::external_body]
fn duration_as_nanos(d: &Duration) -> u128 {
    d.as_nanos()
}

/// Nanoseconds since `origin`, saturating at `u64::MAX`.
fn nanos_since(origin: &Instant) -> u64 {
    let n = duration_as_nanos(&instant_elapsed(origin));
    if n > u64::MAX as u128 { u64::MAX } else { n as u64 }
}

/// Keyboard state for one frame. Per key: newly pressed this frame, held (with the
/// time it was last seen, in nanoseconds since `origin`), and released this frame.
pub struct InputState {
    /// Keys newly pressed this frame.
    pressed: [bool; 8],
    /// Keys currently held, with the time of the last event seen.
    held: [Option<u64>; 8],
    /// Keys that timed out (inferred release) this frame.
    released: [bool; 8],
    origin: Instant,
}

/// The per-key state as plain values.
pub struct InputView {
    pub pressed: Seq<bool>,
    pub held: Seq<Option<u64>>,
    pub released: Seq<bool>,
}

impl InputView {
    pub open spec fn valid(self) -> bool {
        self.pressed.len() == 8 && self.held.len() == 8 && self.released.len() == 8
    }

    /// The most recent time any movement key was seen.
    pub open spec fn latest_direction_time(self) -> Option<u64> {
        let t0 = self.held[0];
        let t1 = max_opt(t0, self.held[1]);
        let t2 = max_opt(t1, self.held[2]);
        max_opt(t2, self.held[3])
    }

    /// The time that counts for key `i`: movement keys share the latest movement time.
    pub open spec fn effective_time(self, i: int) -> u64 {
        let last = self.held[i]->Some_0;
        if is_direction(key_at(i)) {
            match self.latest_direction_time() {
                Some(t) => t,
                None => last,
            }
        } else {
            last
        }
    }

    /// Key `i` has not been seen for longer than the release timeout at time `now`.
    pub open spec fn timed_out(self, i: int, now: u64) -> bool {
        self.held[i] is Some && sat_sub(now, self.effective_time(i)) / (NANOS_PER_MILLI as int) > HELD_TIMEOUT_MS
    }

    /// Some event in `events` maps to key `i`.
    pub open spec fn hit(events: Seq<KeyInput>, i: int) -> bool {
        exists|e: int| 0 <= e < events.len() && map_key_spec(#[trigger] events[e]) == Some(key_at(i))
    }
}

pub open spec fn max_opt(a: Option<u64>, b: Option<u64>) -> Option<u64> {
    match (a, b) {
        (Some(x), Some(y)) => Some(if x >= y { x } else { y }),
        (Some(x), None) => Some(x),
        (None, Some(y)) => Some(y),
        (None, None) => None,
    }
}

pub open spec fn sat_sub(a: u64, b: u64) -> int {
    if a >= b { a - b } else { 0 }
}

impl View for InputState {
    type V = InputView;

    closed spec fn view(&self) -> InputView {
        InputView { pressed: self.pressed@, held: self.held@, released: self.released@ }
    }
}

impl InputState {
    pub fn new() -> (s: Self)
        ensures
            s@.valid(),
            forall|i: int| 0 <= i < 8 ==> !(#[trigger] s@.pressed[i]) && s@.held[i] is None && !s@.released[i],
    {
        Self { pressed: [false; 8], held: [None; 8], released: [false; 8], origin: clock_now() }
    }

    /// Every input state's view is well formed: one entry per key in each table.
    pub proof fn lemma_valid(&self)
        ensures
            self@.valid(),
    {
    }

    /// Call at the start of each frame before processing events.
    /// Clears per-frame state and checks for timed-out held keys.
    pub fn begin_frame(&mut self)
        ensures
            exists|now: u64| Self::frame_begun(old(self)@, final(self)@, now),
    {
        let now = nanos_since(&self.origin);
        self.begin_frame_at(now);
    }

    /// `new` is `old` after starting a frame at time `now`.
    pub open spec fn frame_begun(old: InputView, new: InputView, now: u64) -> bool {
        &&& new.valid()
        &&& forall|i: int| 0 <= i < 8 ==> {
            &&& !(#[trigger] new.pressed[i])
            &&& new.released[i] == old.timed_out(i, now)
            &&& new.held[i] == if old.timed_out(i, now) { None } else { old.held[i] }
        }
    }

    /// Start a frame at time `now` (nanoseconds since this state was created).
    ///
    /// Terminals only send key repeats for one key at a time, so when
    /// holding two directional keys simultaneously, the first key stops
    /// getting events and would time out. Fix: use the most recent
    /// directional key timestamp for all held directional keys.
    pub fn begin_frame_at(&mut self, now: u64)
        ensures
            Self::frame_begun(old(self)@, final(self)@, now),
    {
        let ghost v0 = self@;
        self.pressed = [false; 8];
        self.released = [false; 8];

        let mut latest_dir_time: Option<u64> = None;
        let mut d: usize = 0;
        while d < 4
            invariant
                d <= 4,
                self.held@ == v0.held,
                latest_dir_time == if d == 0 {
                    None
                } else if d == 1 {
                    v0.held[0]
                } else if d == 2 {
                    max_opt(v0.held[0], v0.held[1])
                } else if d == 3 {
                    max_opt(max_opt(v0.held[0], v0.held[1]), v0.held[2])
                } else {
                    v0.latest_direction_time()
                },
            decreases 4 - d,
        {
            latest_dir_time = match (latest_dir_time, self.held[d]) {
                (Some(x), Some(y)) => Some(if x >= y { x } else { y }),
                (Some(x), None) => Some(x),
                (None, Some(y)) => Some(y),
                (None, None) => None,
            };
            d += 1;
        }

        let mut i: usize = 0;
        while i < 8
            invariant
                i <= 8,
                latest_dir_time == v0.latest_direction_time(),
                v0.valid(),
                self@.valid(),
                forall|k: int| 0 <= k < 8 ==> !(#[trigger] self@.pressed[k]),
                forall|k: int| 0 <= k < i ==> {
                    &&& (#[trigger] self@.released[k]) == v0.timed_out(k, now)
                    &&& self@.held[k] == if v0.timed_out(k, now) { None } else { v0.held[k] }
                },
                forall|k: int| i <= k < 8 ==> !(#[trigger] self@.released[k]) && self@.held[k] == v0.held[k],
            decreases 8 - i,
        {
            let ghost before = self@;
            assert(is_direction(key_at(i as int)) == (i < 4));
            assert(!self@.released[i as int] && self@.held[i as int] == v0.held[i as int]);
            if let Some(last_seen) = self.held[i] {
                let effective_time = if i < 4 {
                    match latest_dir_time {
                        Some(t) => t,
                        None => last_seen,
                    }
                } else {
                    last_seen
                };
                let elapsed = if now >= effective_time { now - effective_time } else { 0 };
                assert(effective_time == v0.effective_time(i as int));
                if elapsed / NANOS_PER_MILLI > HELD_TIMEOUT_MS {
                    self.held[i] = None;
                    self.released[i] = true;
                    assert(self@.held == before.held.update(i as int, None));
                    assert(self@.released == before.released.update(i as int, true));
                }
                assert(elapsed == sat_sub(now, v0.effective_time(i as int)));
            }
            assert(self@.released[i as int] == v0.timed_out(i as int, now));
            assert(self@.held[i as int] == if v0.timed_out(i as int, now) { None } else { v0.held[i as int] });
            assert forall|k: int| 0 <= k < 8 && k != i implies self@.released[k] == before.released[k]
                && self@.held[k] == before.held[k] by {}
            assert forall|k: int| 0 <= k < i + 1 implies {
                &&& (#[trigger] self@.released[k]) == v0.timed_out(k, now)
                &&& self@.held[k] == if v0.timed_out(k, now) { None } else { v0.held[k] }
            } by {
                if k < i {
                    assert(before.released[k] == v0.timed_out(k, now));
                    assert(before.held[k] == if v0.timed_out(k, now) { None } else { v0.held[k] });
                }
            }
            i += 1;
        }
    }

    /// Process the key events of this frame. Call after `begin_frame()`.
    pub fn process_events(&mut self, events: &[KeyInput])
        ensures
            exists|now: u64| Self::events_processed(old(self)@, final(self)@, events@, now),
    {
        let now = nanos_since(&self.origin);
        self.process_events_at(events, now);
    }

    /// `new` is `old` after the key events `events` seen at time `now`.
    pub open spec fn events_processed(old: InputView, new: InputView, events: Seq<KeyInput>, now: u64) -> bool {
        &&& new.valid()
        &&& forall|i: int| 0 <= i < 8 ==> {
            let fresh = InputView::hit(events, i) && old.held[i] is None;
            &&& (#[trigger] new.held[i]) == if InputView::hit(events, i) { Some(now) } else { old.held[i] }
            &&& new.pressed[i] == (old.pressed[i] || fresh)
            &&& new.released[i] == (old.released[i] && !fresh)
        }
    }

    /// Process key events seen at time `now`.
    pub fn process_events_at(&mut self, events: &[KeyInput], now: u64)
        requires
            old(self)@.valid(),
        ensures
            Self::events_processed(old(self)@, final(self)@, events@, now),
    {
        let ghost v0 = self@;
        let mut e: usize = 0;
        while e < events.len()
            invariant
                e <= events@.len(),
                self@.valid(),
                forall|i: int| 0 <= i < 8 ==> {
                    let h = InputView::hit(events@.take(e as int), i);
                    let fresh = h && v0.held[i] is None;
                    &&& (#[trigger] self@.held[i]) == if h { Some(now) } else { v0.held[i] }
                    &&& self@.pressed[i] == (v0.pressed[i] || fresh)
                    &&& self@.released[i] == (v0.released[i] && !fresh)
                },
            decreases events@.len() - e,
        {
            let ghost before = self@;
            if let Some(game_key) = map_key(events[e]) {
                let k = key_index(game_key);
                if self.held[k].is_some() {
                    // Already held — update timestamp
                    self.held[k] = Some(now);
                } else {
                    // Newly pressed
                    self.pressed[k] = true;
                    self.held[k] = Some(now);
                    // If it was in released this frame (rapid re-press), remove from released
                    self.released[k] = false;
                }
            }
            proof {
                let evs = events@.take(e as int + 1);
                assert forall|i: int| 0 <= i < 8 implies InputView::hit(evs, i) == (InputView::hit(events@.take(e as int), i)
                    || map_key_spec(events@[e as int]) == Some(key_at(i))) by {
                    if InputView::hit(evs, i) {
                        let m = choose|m: int| 0 <= m < evs.len() && map_key_spec(#[trigger] evs[m]) == Some(key_at(i));
                        if m < e {
                            assert(events@.take(e as int)[m] == evs[m]);
                        }
                    }
                    if InputView::hit(events@.take(e as int), i) {
                        let m = choose|m: int| 0 <= m < e && map_key_spec(#[trigger] events@.take(e as int)[m]) == Some(key_at(i));
                        assert(evs[m] == events@.take(e as int)[m]);
                    }
                    if map_key_spec(events@[e as int]) == Some(key_at(i)) {
                        assert(evs[e as int] == events@[e as int]);
                    }
                }
                assert forall|i: int, j: int| 0 <= i < 8 && 0 <= j < 8 && i != j implies key_at(i) != key_at(j) by {}
            }
            e += 1;
        }
        assert(events@.take(events@.len() as int) =~= events@);
    }

    /// True only on the first frame of a key press.
    pub fn is_pressed(&self, key: GameKey) -> (b: bool)
        ensures
            b == self@.pressed[key_index_spec(key)],
    {
        self.pressed[key_index(key)]
    }

    /// True while a key is being held (including the first frame).
    pub fn is_held(&self, key: GameKey) -> (b: bool)
        ensures
            b == self@.held[key_index_spec(key)] is Some,
    {
        self.held[key_index(key)].is_some()
    }

    /// The held direction as unit steps on each axis: -1, 0 or 1 for x (left, right) and
    /// for y (up, down); opposite keys cancel. A diagonal is scaled to unit length by the
    /// caller.
    pub fn direction_axes(&self) -> (d: (i32, i32))
        ensures
            d.0 == (if self@.held[key_index_spec(GameKey::Right)] is Some { 1i32 } else { 0i32 })
                - (if self@.held[key_index_spec(GameKey::Left)] is Some { 1i32 } else { 0i32 }),
            d.1 == (if self@.held[key_index_spec(GameKey::Down)] is Some { 1i32 } else { 0i32 })
                - (if self@.held[key_index_spec(GameKey::Up)] is Some { 1i32 } else { 0i32 }),
    {
        let mut dx: i32 = 0;
        let mut dy: i32 = 0;
        if self.is_held(GameKey::Left) {
            dx -= 1;
        }
        if self.is_held(GameKey::Right) {
            dx += 1;
        }
        if self.is_held(GameKey::Up) {
            dy -= 1;
        }
        if self.is_held(GameKey::Down) {
            dy += 1;
        }
        (dx, dy)
    }

    /// True on the frame the key times out (inferred release).
    pub fn is_released(&self, key: GameKey) -> (b: bool)
        ensures
            b == self@.released[key_index_spec(key)],
    {
        self.released[key_index(key)]
    }
}

impl Default for InputState {
    fn default() -> (s: Self)
        ensures
            s@.valid(),
            forall|i: int| 0 <= i < 8 ==> !(#[trigger] s@.pressed[i]) && s@.held[i] is None && !s@.released[i],
    {
        Self::new()
    }
}

/// A key seen in a frame's events stays held through the start of any later frame
/// that begins within the hold timeout of that frame.
pub proof fn law_held_until_timeout(
    v0: InputView,
    v1: InputView,
    v2: InputView,
    events: Seq<KeyInput>,
    seen: u64,
    later: u64,
    i: int,
)
    requires
        v0.valid(),
        0 <= i < 8,
        InputState::events_processed(v0, v1, events, seen),
        InputState::frame_begun(v1, v2, later),
        InputView::hit(events, i),
        sat_sub(later, seen) / (NANOS_PER_MILLI as int) <= HELD_TIMEOUT_MS,
    ensures
        v2.held[i] == Some(seen),
        !v2.released[i],
{
    assert(v1.held[i] == Some(seen));
    assert(!v2.pressed[i]);
    let eff = v1.effective_time(i);
    if is_direction(key_at(i)) {
        assert(i < 4);
        lemma_latest_direction_at_least(v1, i);
        assert(eff == v1.latest_direction_time()->Some_0);
    } else {
        assert(eff == seen);
    }
    assert(eff >= seen);
    let a = sat_sub(later, eff);
    let b = sat_sub(later, seen);
    assert(a <= b);
    assert(a / (NANOS_PER_MILLI as int) <= b / (NANOS_PER_MILLI as int)) by (nonlinear_arith) requires a <= b;
    assert(!v1.timed_out(i, later));
}

/// The most recent movement-key time is at least the time of any held movement key.
proof fn lemma_latest_direction_at_least(v: InputView, i: int)
    requires
        v.valid(),
        0 <= i < 4,
        v.held[i] is Some,
    ensures
        v.latest_direction_time() is Some,
        v.latest_direction_time()->Some_0 >= v.held[i]->Some_0,
{
    let t1 = max_opt(v.held[0], v.held[1]);
    let t2 = max_opt(t1, v.held[2]);
    lemma_max_opt(v.held[0], v.held[1]);
    lemma_max_opt(t1, v.held[2]);
    lemma_max_opt(t2, v.held[3]);
}

proof fn lemma_max_opt(a: Option<u64>, b: Option<u64>)
    ensures
        (a is Some || b is Some) ==> max_opt(a, b) is Some,
        a is Some ==> max_opt(a, b)->Some_0 >= a->Some_0,
        b is Some ==> max_opt(a, b)->Some_0 >= b->Some_0,
{
}

/// The key bindings: the arrow keys and W/A/S/D move (W up, A left, S down, D right),
/// Enter and Z attack, X and space dash, Esc pauses and Q quits; every other key is
/// ignored.
pub proof fn law_key_bindings(code: KeyInput)
    ensures
        map_key_spec(code) == Some(GameKey::Up) <==> (code == KeyInput::Up || code == KeyInput::Char('w')),
        map_key_spec(code) == Some(GameKey::Down) <==> (code == KeyInput::Down || code == KeyInput::Char('s')),
        map_key_spec(code) == Some(GameKey::Left) <==> (code == KeyInput::Left || code == KeyInput::Char('a')),
        map_key_spec(code) == Some(GameKey::Right) <==> (code == KeyInput::Right || code == KeyInput::Char('d')),
        map_key_spec(code) == Some(GameKey::Attack) <==> (code == KeyInput::Enter || code == KeyInput::Char('z')),
        map_key_spec(code) == Some(GameKey::Dash) <==> (code == KeyInput::Char('x') || code == KeyInput::Char(' ')),
        map_key_spec(code) == Some(GameKey::Pause) <==> code == KeyInput::Esc,
        map_key_spec(code) == Some(GameKey::Quit) <==> code == KeyInput::Char('q'),
        map_key_spec(code) is None <==> !(code == KeyInput::Up || code == KeyInput::Down || code == KeyInput::Left
            || code == KeyInput::Right || code == KeyInput::Enter || code == KeyInput::Esc || code == KeyInput::Char('w')
            || code == KeyInput::Char('a') || code == KeyInput::Char('s') || code == KeyInput::Char('d')
            || code == KeyInput::Char('z') || code == KeyInput::Char('x') || code == KeyInput::Char(' ')
            || code == KeyInput::Char('q')),
{
}

/// A single key event acts on its game key alone: the key it maps to is held from that
/// moment (and newly pressed if it was not held), while every other game key keeps its
/// held and pressed state.
pub proof fn law_key_event(old: InputView, new: InputView, code: KeyInput, now: u64, k: GameKey)
    requires
        InputState::events_processed(old, new, seq![code], now),
    ensures
        map_key_spec(code) == Some(k) ==> new.held[key_index_spec(k)] == Some(now)
            && (old.held[key_index_spec(k)] is None ==> new.pressed[key_index_spec(k)]),
        map_key_spec(code) != Some(k) ==> new.held[key_index_spec(k)] == old.held[key_index_spec(k)]
            && new.pressed[key_index_spec(k)] == old.pressed[key_index_spec(k)],
{
    let i = key_index_spec(k);
    assert(key_at(i) == k);
    let ev = seq![code];
    if map_key_spec(code) == Some(k) {
        assert(map_key_spec(ev[0]) == Some(key_at(i)));
        assert(InputView::hit(ev, i));
    } else {
        assert(!InputView::hit(ev, i));
    }
    assert(new.held[i] == if InputView::hit(ev, i) { Some(now) } else { old.held[i] });
}

} // verus!
