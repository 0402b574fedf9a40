use vstd::prelude::*;
use crate::game::boons::{BoonCategory, BoonDef, BoonId, Rarity};
use crate::game::dungeon::floor_gen::xorshift64;

verus! {

/// Simple seeded pseudo-random number generator (xorshift64).
pub struct Rng {
    pub state: u64,
}

impl Rng {
    pub fn new(seed: u64) -> (r: Self)
        ensures
            r.state == if seed == 0 { 1 } else { seed },
    {
        Self { state: if seed == 0 { 1 } else { seed } }
    }

    pub fn next(&mut self) -> (v: u64)
        ensures
            v == xorshift64(old(self).state),
            final(self).state == v,
    {
        self.state = self.state ^ (self.state << 13u64);
        self.state = self.state ^ (self.state >> 7u64);
        self.state = self.state ^ (self.state << 17u64);
        self.state
    }
}

pub open spec fn rarity_weight_spec(rarity: Rarity, lucky: bool) -> u32 {
    match (rarity, lucky) {
        (Rarity::Common, false) => 60,
        (Rarity::Rare, false) => 30,
        (Rarity::Legendary, false) => 10,
        (Rarity::Common, true) => 40,
        (Rarity::Rare, true) => 40,
        (Rarity::Legendary, true) => 20,
    }
}

/// Rarity weight tables.
pub fn rarity_weight(rarity: Rarity, lucky: bool) -> (w: u32)
    ensures
        w == rarity_weight_spec(rarity, lucky),
{
    match (rarity, lucky) {
        (Rarity::Common, false) => 60,
        (Rarity::Rare, false) => 30,
        (Rarity::Legendary, false) => 10,
        (Rarity::Common, true) => 40,
        (Rarity::Rare, true) => 40,
        (Rarity::Legendary, true) => 20,
    }
}

/// Index `i` may be drawn: not used yet and, when a category is excluded, of another category.
pub open spec fn eligible(cats: Seq<BoonCategory>, excluded: Seq<usize>, cat: Option<BoonCategory>, i: int) -> bool {
    &&& !excluded.contains(i as usize)
    &&& match cat {
        Some(c) => cats[i] != c,
        None => true,
    }
}

/// Total weight of the eligible indices below `k`.
pub open spec fn weight_sum(w: Seq<u32>, cats: Seq<BoonCategory>, excluded: Seq<usize>, cat: Option<BoonCategory>, k: int) -> int
    decreases k,
{
    if k <= 0 {
        0
    } else {
        weight_sum(w, cats, excluded, cat, k - 1) + if eligible(cats, excluded, cat, k - 1) {
            w[k - 1] as int
        } else {
            0
        }
    }
}

/// The first eligible index from `i` on whose running weight total passes `roll`.
pub open spec fn pick_from(w: Seq<u32>, cats: Seq<BoonCategory>, excluded: Seq<usize>, cat: Option<BoonCategory>, roll: int, i: int) -> Option<int>
    decreases w.len() - i,
{
    if i >= w.len() || i < 0 {
        None
    } else if eligible(cats, excluded, cat, i) && roll < weight_sum(w, cats, excluded, cat, i + 1) {
        Some(i)
    } else {
        pick_from(w, cats, excluded, cat, roll, i + 1)
    }
}

/// One weighted draw: no draw (and no random number used) when nothing eligible
/// has weight; otherwise the generator steps once and picks by the roll.
pub open spec fn draw(w: Seq<u32>, cats: Seq<BoonCategory>, excluded: Seq<usize>, cat: Option<BoonCategory>, state: u64) -> (Option<int>, u64) {
    let total = weight_sum(w, cats, excluded, cat, w.len() as int);
    if total == 0 {
        (None, state)
    } else {
        let s2 = xorshift64(state);
        (pick_from(w, cats, excluded, cat, (s2 % (total as u64)) as int, 0), s2)
    }
}

pub open spec fn opt_index(r: Option<usize>) -> Option<int> {
    match r {
        Some(i) => Some(i as int),
        None => None,
    }
}

/// A boon is offered if it stacks or the player does not have it yet.
pub open spec fn is_candidate(b: BoonDef, active: Seq<BoonId>) -> bool {
    b.stackable || !active.contains(b.id)
}

/// The boons of `available` that may be offered, in order.
pub open spec fn candidates_spec(available: Seq<BoonDef>, active: Seq<BoonId>) -> Seq<BoonDef>
    decreases available.len(),
{
    if available.len() == 0 {
        Seq::empty()
    } else {
        let r = candidates_spec(available.drop_last(), active);
        if is_candidate(available.last(), active) {
            r.push(available.last())
        } else {
            r
        }
    }
}

pub open spec fn weights_of(c: Seq<BoonDef>, lucky: bool) -> Seq<u32> {
    c.map_values(|b: BoonDef| rarity_weight_spec(b.rarity, lucky))
}

pub open spec fn cats_of(c: Seq<BoonDef>) -> Seq<BoonCategory> {
    c.map_values(|b: BoonDef| b.category)
}

/// Pick number `pick` given the indices used so far: the third pick first tries
/// a category other than the two equal ones already chosen.
pub open spec fn pick_step(c: Seq<BoonDef>, w: Seq<u32>, used: Seq<usize>, pick: int, state: u64) -> (Option<int>, u64) {
    let cats = cats_of(c);
    if pick == 2 && used.len() == 2 && cats[used[0] as int] == cats[used[1] as int] {
        let first = draw(w, cats, used, Some(cats[used[0] as int]), state);
        if first.0 is Some {
            first
        } else {
            draw(w, cats, used, None, first.1)
        }
    } else {
        draw(w, cats, used, None, state)
    }
}

/// The indices chosen by the first `k` picks, and the generator state after them.
pub open spec fn picks(c: Seq<BoonDef>, w: Seq<u32>, k: int, state: u64) -> (Seq<usize>, u64)
    decreases k,
{
    if k <= 0 {
        (Seq::empty(), state)
    } else {
        let prev = picks(c, w, k - 1, state);
        let step = pick_step(c, w, prev.0, k - 1, prev.1);
        match step.0 {
            Some(i) => (prev.0.push(i as usize), step.1),
            None => (prev.0, step.1),
        }
    }
}

/// The options `select_boon_options` offers.
pub open spec fn selection_spec(available: Seq<BoonDef>, active: Seq<BoonId>, lucky: bool, seed: u64) -> Seq<BoonDef> {
    let c = candidates_spec(available, active);
    let w = weights_of(c, lucky);
    if c.len() == 0 {
        Seq::empty()
    } else if c.len() <= 3 {
        c
    } else if weight_sum(w, cats_of(c), Seq::empty(), None, w.len() as int) == 0 {
        Seq::empty()
    } else {
        picks(c, w, 3, if seed == 0 { 1 } else { seed }).0.map_values(|i: usize| c[i as int])
    }
}

proof fn lemma_weight_sum_mono(w: Seq<u32>, cats: Seq<BoonCategory>, excluded: Seq<usize>, cat: Option<BoonCategory>, a: int, b: int)
    requires
        0 <= a <= b,
    ensures
        weight_sum(w, cats, excluded, cat, a) <= weight_sum(w, cats, excluded, cat, b),
    decreases b - a,
{
    if a < b {
        lemma_weight_sum_mono(w, cats, excluded, cat, a, b - 1);
    }
}

/// When the roll is below the total, some eligible index passes it.
proof fn lemma_roll_below_total(w: Seq<u32>, cats: Seq<BoonCategory>, excluded: Seq<usize>, cat: Option<BoonCategory>, roll: int, k: int)
    requires
        0 <= k <= w.len(),
        0 <= roll < weight_sum(w, cats, excluded, cat, k),
    ensures
        exists|j: int| 0 <= j < k && eligible(cats, excluded, cat, j) && roll < weight_sum(w, cats, excluded, cat, j + 1),
    decreases k,
{
    if !(eligible(cats, excluded, cat, k - 1)) {
        lemma_roll_below_total(w, cats, excluded, cat, roll, k - 1);
        let j = choose|j: int| 0 <= j < k - 1 && eligible(cats, excluded, cat, j) && roll < weight_sum(w, cats, excluded, cat, j + 1);
    }
}

/// `pick_from` returns an eligible index at or after `i` and passes by no index that would do.
proof fn lemma_pick_from(w: Seq<u32>, cats: Seq<BoonCategory>, excluded: Seq<usize>, cat: Option<BoonCategory>, roll: int, i: int, j: int)
    requires
        0 <= i <= j < w.len(),
        eligible(cats, excluded, cat, j),
        roll < weight_sum(w, cats, excluded, cat, j + 1),
    ensures
        pick_from(w, cats, excluded, cat, roll, i) matches Some(r) && i <= r <= j && eligible(cats, excluded, cat, r),
    decreases j - i,
{
    if !(eligible(cats, excluded, cat, i) && roll < weight_sum(w, cats, excluded, cat, i + 1)) {
        lemma_pick_from(w, cats, excluded, cat, roll, i + 1, j);
    }
}

/// Without an excluded category, the categories play no part in a draw.
proof fn lemma_draw_ignores_cats(w: Seq<u32>, cats1: Seq<BoonCategory>, cats2: Seq<BoonCategory>, excluded: Seq<usize>, state: u64)
    ensures
        draw(w, cats1, excluded, None, state) == draw(w, cats2, excluded, None, state),
        weight_sum(w, cats1, excluded, None, w.len() as int) == weight_sum(w, cats2, excluded, None, w.len() as int),
{
    lemma_weight_sum_ignores_cats(w, cats1, cats2, excluded, w.len() as int);
    let total = weight_sum(w, cats1, excluded, None, w.len() as int);
    if total != 0 {
        let s2 = xorshift64(state);
        lemma_pick_from_ignores_cats(w, cats1, cats2, excluded, (s2 % (total as u64)) as int, 0);
    }
}

proof fn lemma_weight_sum_ignores_cats(w: Seq<u32>, cats1: Seq<BoonCategory>, cats2: Seq<BoonCategory>, excluded: Seq<usize>, k: int)
    ensures
        weight_sum(w, cats1, excluded, None, k) == weight_sum(w, cats2, excluded, None, k),
    decreases k,
{
    if k > 0 {
        lemma_weight_sum_ignores_cats(w, cats1, cats2, excluded, k - 1);
    }
}

proof fn lemma_pick_from_ignores_cats(w: Seq<u32>, cats1: Seq<BoonCategory>, cats2: Seq<BoonCategory>, excluded: Seq<usize>, roll: int, i: int)
    ensures
        pick_from(w, cats1, excluded, None, roll, i) == pick_from(w, cats2, excluded, None, roll, i),
    decreases w.len() - i,
{
    if 0 <= i < w.len() {
        lemma_weight_sum_ignores_cats(w, cats1, cats2, excluded, i + 1);
        lemma_pick_from_ignores_cats(w, cats1, cats2, excluded, roll, i + 1);
    }
}

/// A draw returns an eligible index in range.
proof fn lemma_draw_result(w: Seq<u32>, cats: Seq<BoonCategory>, excluded: Seq<usize>, cat: Option<BoonCategory>, state: u64)
    ensures
        draw(w, cats, excluded, cat, state).0 matches Some(r) ==> 0 <= r < w.len() && eligible(cats, excluded, cat, r),
{
    let total = weight_sum(w, cats, excluded, cat, w.len() as int);
    if total != 0 {
        let s2 = xorshift64(state);
        lemma_pick_from_range(w, cats, excluded, cat, (s2 % (total as u64)) as int, 0);
    }
}

proof fn lemma_pick_from_range(w: Seq<u32>, cats: Seq<BoonCategory>, excluded: Seq<usize>, cat: Option<BoonCategory>, roll: int, i: int)
    ensures
        pick_from(w, cats, excluded, cat, roll, i) matches Some(r) ==> i <= r < w.len() && 0 <= r && eligible(cats, excluded, cat, r),
    decreases w.len() - i,
{
    if 0 <= i < w.len() {
        lemma_pick_from_range(w, cats, excluded, cat, roll, i + 1);
    }
}

fn contains_index(excluded: &[usize], i: usize) -> (b: bool)
    ensures
        b == excluded@.contains(i),
{
    let mut k: usize = 0;
    while k < excluded.len()
        invariant
            k <= excluded@.len(),
            forall|m: int| 0 <= m < k ==> excluded@[m] != i,
        decreases excluded@.len() - k,
    {
        if excluded[k] == i {
            return true;
        }
        k += 1;
    }
    false
}

/// Shared body of the two weighted draws: `cats`/`exclude_cat` only matter when a category is excluded.
fn weighted_draw(
    cats: &Vec<BoonCategory>,
    weights: &[u32],
    excluded: &[usize],
    exclude_cat: Option<BoonCategory>,
    rng: &mut Rng,
) -> (r: Option<usize>)
    requires
        exclude_cat is Some ==> cats@.len() == weights@.len(),
        weight_sum(weights@, cats@, excluded@, exclude_cat, weights@.len() as int) <= u32::MAX,
    ensures
        (opt_index(r), final(rng).state) == draw(weights@, cats@, excluded@, exclude_cat, old(rng).state),
{
    let ghost w = weights@;
    let ghost cs = cats@;
    let ghost ex = excluded@;
    let n = weights.len();
    let mut available_weight: u32 = 0;
    let mut i: usize = 0;
    while i < n
        invariant
            w == weights@,
            cs == cats@,
            ex == excluded@,
            n == w.len(),
            i <= n,
            exclude_cat is Some ==> cs.len() == n,
            weight_sum(w, cs, ex, exclude_cat, n as int) <= u32::MAX,
            available_weight == weight_sum(w, cs, ex, exclude_cat, i as int),
            rng.state == old(rng).state,
        decreases n - i,
    {
        proof {
            lemma_weight_sum_mono(w, cs, ex, exclude_cat, i as int + 1, n as int);
        }
        let ok = !contains_index(excluded, i) && match exclude_cat {
            Some(c) => cats[i] != c,
            None => true,
        };
        if ok {
            available_weight += weights[i];
        }
        i += 1;
    }

    if available_weight == 0 {
        return None;
    }

    let ghost s0 = rng.state;
    let roll = (rng.next() % available_weight as u64) as u32;
    let ghost s2 = rng.state;
    let ghost total = available_weight as int;
    assert(roll < total);
    let mut acc: u32 = 0;
    let mut i: usize = 0;
    while i < n
        invariant
            w == weights@,
            cs == cats@,
            ex == excluded@,
            n == w.len(),
            i <= n,
            exclude_cat is Some ==> cs.len() == n,
            total == weight_sum(w, cs, ex, exclude_cat, n as int),
            total <= u32::MAX,
            roll < total,
            s2 == xorshift64(s0),
            s0 == old(rng).state,
            rng.state == s2,
            roll == (s2 % (total as u64)) as int,
            acc == weight_sum(w, cs, ex, exclude_cat, i as int),
            pick_from(w, cs, ex, exclude_cat, roll as int, 0) == pick_from(w, cs, ex, exclude_cat, roll as int, i as int),
            forall|j: int| 0 <= j < i && eligible(cs, ex, exclude_cat, j) ==> roll >= weight_sum(w, cs, ex, exclude_cat, j + 1),
        decreases n - i,
    {
        proof {
            lemma_weight_sum_mono(w, cs, ex, exclude_cat, i as int + 1, n as int);
        }
        let ok = !contains_index(excluded, i) && match exclude_cat {
            Some(c) => cats[i] != c,
            None => true,
        };
        if ok {
            acc += weights[i];
            if roll < acc {
                assert(pick_from(w, cs, ex, exclude_cat, roll as int, i as int) == Some(i as int));
                return Some(i);
            }
        }
        i += 1;
    }
    proof {
        lemma_roll_below_total(w, cs, ex, exclude_cat, roll as int, n as int);
        let j = choose|j: int| 0 <= j < n && eligible(cs, ex, exclude_cat, j) && roll < weight_sum(w, cs, ex, exclude_cat, j + 1);
        assert(false);
    }

    // Fallback: return last eligible
    let mut k: usize = n;
    #[verifier::loop_isolation(false)]
    while k > 0
        decreases k,
    {
        let ok = !contains_index(excluded, k - 1) && match exclude_cat {
            Some(c) => cats[k - 1] != c,
            None => true,
        };
        if ok {
            return Some(k - 1);
        }
        k -= 1;
    }
    None
}

/// Weighted draw over the indices not yet used.
pub fn weighted_pick(weights: &[u32], excluded: &[usize], rng: &mut Rng) -> (r: Option<usize>)
    requires
        weight_sum(weights@, Seq::empty(), excluded@, None, weights@.len() as int) <= u32::MAX,
    ensures
        (opt_index(r), final(rng).state) == draw(weights@, Seq::empty(), excluded@, None, old(rng).state),
{
    let cats: Vec<BoonCategory> = Vec::new();
    assert(cats@ =~= Seq::empty());
    weighted_draw(&cats, weights, excluded, None, rng)
}

/// Weighted draw over the indices not yet used whose category differs from `exclude_cat`.
pub fn weighted_pick_excluding_category(
    candidates: &[&BoonDef],
    weights: &[u32],
    excluded: &[usize],
    exclude_cat: BoonCategory,
    rng: &mut Rng,
) -> (r: Option<usize>)
    requires
        candidates@.len() == weights@.len(),
        weight_sum(weights@, candidates@.map_values(|b: &BoonDef| b.category), excluded@, Some(exclude_cat), weights@.len() as int) <= u32::MAX,
    ensures
        (opt_index(r), final(rng).state) == draw(
            weights@,
            candidates@.map_values(|b: &BoonDef| b.category),
            excluded@,
            Some(exclude_cat),
            old(rng).state,
        ),
{
    let mut cats: Vec<BoonCategory> = Vec::new();
    let mut i: usize = 0;
    while i < candidates.len()
        invariant
            i <= candidates@.len(),
            cats@ =~= candidates@.take(i as int).map_values(|b: &BoonDef| b.category),
        decreases candidates@.len() - i,
    {
        cats.push(candidates[i].category);
        i += 1;
    }
    assert(candidates@.take(candidates@.len() as int) =~= candidates@);
    weighted_draw(&cats, weights, excluded, Some(exclude_cat), rng)
}

pub open spec fn deref_defs(s: Seq<&BoonDef>) -> Seq<BoonDef> {
    s.map_values(|b: &BoonDef| *b)
}

/// Excluding more indices, or a category, never adds weight.
proof fn lemma_weight_sum_restricted(w: Seq<u32>, cats: Seq<BoonCategory>, excluded: Seq<usize>, cat: Option<BoonCategory>, k: int)
    requires
        0 <= k,
    ensures
        weight_sum(w, cats, excluded, cat, k) <= weight_sum(w, cats, Seq::empty(), None, k),
    decreases k,
{
    if k > 0 {
        lemma_weight_sum_restricted(w, cats, excluded, cat, k - 1);
    }
}

fn contains_id(active: &[BoonId], id: BoonId) -> (b: bool)
    ensures
        b == active@.contains(id),
{
    let mut k: usize = 0;
    while k < active.len()
        invariant
            k <= active@.len(),
            forall|m: int| 0 <= m < k ==> active@[m] != id,
        decreases active@.len() - k,
    {
        if active[k] == id {
            return true;
        }
        k += 1;
    }
    false
}

/// Select 3 boon options for the player to choose from.
///
/// - Weights by rarity (Common 60/30/10, Lucky 40/40/20)
/// - Excludes non-stackable boons the player already has
/// - Tries to include at least 2 different categories
/// - Uses seeded RNG for determinism
pub fn select_boon_options<'a>(
    available: &'a [BoonDef],
    active: &[BoonId],
    lucky: bool,
    seed: u64,
) -> (r: Vec<&'a BoonDef>)
    requires
        ({
            let c = candidates_spec(available@, active@);
            c.len() > 3 ==> weight_sum(weights_of(c, lucky), cats_of(c), Seq::empty(), None, c.len() as int) <= u32::MAX
        }),
    ensures
        deref_defs(r@) == selection_spec(available@, active@, lucky, seed),
{
    let mut rng = Rng::new(seed);

    // Filter out non-stackable boons the player already has
    let mut candidates: Vec<&'a BoonDef> = Vec::new();
    let mut i: usize = 0;
    while i < available.len()
        invariant
            i <= available@.len(),
            deref_defs(candidates@) == candidates_spec(available@.take(i as int), active@),
        decreases available@.len() - i,
    {
        let b = &available[i];
        assert(available@.take(i as int + 1).drop_last() =~= available@.take(i as int));
        if b.stackable || !contains_id(active, b.id) {
            candidates.push(b);
        }
        assert(deref_defs(candidates@) =~= candidates_spec(available@.take(i as int + 1), active@));
        i += 1;
    }
    assert(available@.take(available@.len() as int) =~= available@);
    let ghost c = deref_defs(candidates@);

    if candidates.len() == 0 {
        let r: Vec<&'a BoonDef> = Vec::new();
        assert(deref_defs(r@) =~= Seq::empty());
        return r;
    }

    if candidates.len() <= 3 {
        return candidates;
    }

    // Build weighted list
    let mut weights: Vec<u32> = Vec::new();
    let mut k: usize = 0;
    while k < candidates.len()
        invariant
            c == deref_defs(candidates@),
            k <= candidates@.len(),
            weights@ =~= weights_of(c, lucky).take(k as int),
        decreases candidates@.len() - k,
    {
        weights.push(rarity_weight(candidates[k].rarity, lucky));
        k += 1;
    }
    assert(weights@ =~= weights_of(c, lucky));
    let ghost w = weights@;
    let ghost cats = cats_of(c);

    let mut total_weight: u32 = 0;
    let mut k: usize = 0;
    while k < weights.len()
        invariant
            w == weights@,
            k <= w.len(),
            weight_sum(w, cats, Seq::empty(), None, w.len() as int) <= u32::MAX,
            total_weight == weight_sum(w, cats, Seq::empty(), None, k as int),
        decreases w.len() - k,
    {
        proof {
            lemma_weight_sum_mono(w, cats, Seq::empty(), None, k as int + 1, w.len() as int);
        }
        total_weight += weights[k];
        k += 1;
    }

    if total_weight == 0 {
        let r: Vec<&'a BoonDef> = Vec::new();
        assert(deref_defs(r@) =~= Seq::empty());
        return r;
    }

    let mut selected: Vec<&'a BoonDef> = Vec::with_capacity(3);
    let mut used_indices: Vec<usize> = Vec::with_capacity(3);
    let ghost s0 = rng.state;

    // Pick 3 boons using weighted random selection
    let mut pick: usize = 0;
    while pick < 3
        invariant
            c == deref_defs(candidates@),
            c.len() > 3,
            w == weights@,
            w == weights_of(c, lucky),
            cats == cats_of(c),
            weight_sum(w, cats, Seq::empty(), None, w.len() as int) <= u32::MAX,
            s0 == if seed == 0 { 1 } else { seed },
            pick <= 3,
            (used_indices@, rng.state) == picks(c, w, pick as int, s0),
            used_indices@.len() <= pick,
            forall|m: int| 0 <= m < used_indices@.len() ==> (#[trigger] used_indices@[m]) < c.len(),
            deref_defs(selected@) == used_indices@.map_values(|i: usize| c[i as int]),
            selected@.len() == used_indices@.len(),
        decreases 3 - pick,
    {
        proof {
            lemma_weight_sum_restricted(w, cats, used_indices@, None, w.len() as int);
            lemma_draw_ignores_cats(w, cats, Seq::empty(), used_indices@, rng.state);
        }
        // On the third pick, try to ensure category diversity
        let force_different_category: Option<BoonCategory> = if pick == 2 && selected.len() == 2 {
            let cat0 = selected[0].category;
            let cat1 = selected[1].category;
            assert(deref_defs(selected@)[0] == c[used_indices@[0] as int]);
            assert(deref_defs(selected@)[1] == c[used_indices@[1] as int]);
            assert(cat0 == cats[used_indices@[0] as int]);
            assert(cat1 == cats[used_indices@[1] as int]);
            if cat0 == cat1 {
                Some(cat0)
            } else {
                None
            }
        } else {
            None
        };

        let chosen = match force_different_category {
            Some(exclude_cat) => {
                proof {
                    lemma_weight_sum_restricted(w, cats, used_indices@, Some(exclude_cat), w.len() as int);
                    assert(candidates@.map_values(|b: &BoonDef| b.category) =~= cats);
                }
                // Try to pick from a different category
                let first = weighted_pick_excluding_category(&candidates, &weights, &used_indices, exclude_cat, &mut rng);
                if first.is_some() {
                    first
                } else {
                    proof {
                        lemma_draw_ignores_cats(w, cats, Seq::empty(), used_indices@, rng.state);
                    }
                    // Fallback: pick any remaining boon
                    weighted_pick(&weights, &used_indices, &mut rng)
                }
            },
            None => weighted_pick(&weights, &used_indices, &mut rng),
        };

        if let Some(idx) = chosen {
            proof {
                lemma_draw_result(w, cats, used_indices@, None, picks(c, w, pick as int, s0).1);
                if force_different_category is Some {
                    let st = picks(c, w, pick as int, s0).1;
                    lemma_draw_result(w, cats, used_indices@, force_different_category, st);
                    lemma_draw_result(w, cats, used_indices@, None, draw(w, cats, used_indices@, force_different_category, st).1);
                }
            }
            let ghost before_sel = selected@;
            let ghost before_used = used_indices@;
            selected.push(candidates[idx]);
            used_indices.push(idx);
            assert(deref_defs(selected@) =~= used_indices@.map_values(|i: usize| c[i as int])) by {
                assert(deref_defs(before_sel) == before_used.map_values(|i: usize| c[i as int]));
                assert forall|m: int| 0 <= m < selected@.len() implies deref_defs(selected@)[m] == used_indices@.map_values(|i: usize| c[i as int])[m] by {
                    if m < before_sel.len() {
                        assert(deref_defs(before_sel)[m] == before_used.map_values(|i: usize| c[i as int])[m]);
                    }
                }
            }
        }
        pick += 1;
    }

    selected
}

/// The ids of `defs` are pairwise distinct.
pub open spec fn ids_distinct(defs: Seq<BoonDef>) -> bool {
    forall|i: int, j: int| 0 <= i < j < defs.len() ==> (#[trigger] defs[i]).id != (#[trigger] defs[j]).id
}

proof fn lemma_candidates(available: Seq<BoonDef>, active: Seq<BoonId>)
    ensures
        candidates_spec(available, active).len() <= available.len(),
        forall|i: int| 0 <= i < candidates_spec(available, active).len() ==> {
            let b = #[trigger] candidates_spec(available, active)[i];
            is_candidate(b, active) && available.contains(b)
        },
        ids_distinct(available) ==> ids_distinct(candidates_spec(available, active)),
    decreases available.len(),
{
    if available.len() > 0 {
        let rest = available.drop_last();
        lemma_candidates(rest, active);
        let r = candidates_spec(rest, active);
        let c = candidates_spec(available, active);
        assert forall|i: int| 0 <= i < c.len() implies {
            let b = #[trigger] c[i];
            is_candidate(b, active) && available.contains(b)
        } by {
            if i < r.len() {
                assert(c[i] == r[i]);
                let k = choose|k: int| 0 <= k < rest.len() && rest[k] == r[i];
                assert(available[k] == r[i]);
            } else {
                assert(available[available.len() - 1] == c[i]);
            }
        }
        if ids_distinct(available) {
            assert(ids_distinct(rest));
            assert forall|i: int, j: int| 0 <= i < j < c.len() implies (#[trigger] c[i]).id != (#[trigger] c[j]).id by {
                if j == r.len() {
                    assert(c[i] == r[i]);
                    let k = choose|k: int| 0 <= k < rest.len() && rest[k] == r[i];
                    assert(available[k] == c[i]);
                    assert(c[j] == available[available.len() - 1]);
                } else {
                    assert(c[i] == r[i] && c[j] == r[j]);
                }
            }
        }
    }
}

/// An eligible index with positive weight makes the total positive.
proof fn lemma_weight_sum_positive(w: Seq<u32>, cats: Seq<BoonCategory>, excluded: Seq<usize>, cat: Option<BoonCategory>, j: int, k: int)
    requires
        0 <= j < k <= w.len(),
        eligible(cats, excluded, cat, j),
        w[j] > 0,
    ensures
        weight_sum(w, cats, excluded, cat, k) > 0,
    decreases k,
{
    lemma_weight_sum_mono(w, cats, excluded, cat, 0, k - 1);
    if j < k - 1 {
        lemma_weight_sum_positive(w, cats, excluded, cat, j, k - 1);
    }
}

/// With an eligible index of positive weight, a draw yields an eligible index.
proof fn lemma_draw_succeeds(w: Seq<u32>, cats: Seq<BoonCategory>, excluded: Seq<usize>, cat: Option<BoonCategory>, j: int, state: u64)
    requires
        0 <= j < w.len(),
        eligible(cats, excluded, cat, j),
        w[j] > 0,
        weight_sum(w, cats, excluded, cat, w.len() as int) <= u32::MAX,
    ensures
        draw(w, cats, excluded, cat, state).0 matches Some(r) && 0 <= r < w.len() && eligible(cats, excluded, cat, r),
{
    lemma_weight_sum_positive(w, cats, excluded, cat, j, w.len() as int);
    let total = weight_sum(w, cats, excluded, cat, w.len() as int);
    let s2 = xorshift64(state);
    let roll = (s2 % (total as u64)) as int;
    assert(0 <= roll < total);
    lemma_roll_below_total(w, cats, excluded, cat, roll, w.len() as int);
    let k = choose|k: int| 0 <= k < w.len() && eligible(cats, excluded, cat, k) && roll < weight_sum(w, cats, excluded, cat, k + 1);
    lemma_pick_from(w, cats, excluded, cat, roll, 0, k);
}

/// A sequence of at most two indices misses one of 0, 1, 2.
proof fn lemma_free_index(used: Seq<usize>) -> (j: int)
    requires
        used.len() <= 2,
    ensures
        0 <= j < 3,
        !used.contains(j as usize),
{
    if !used.contains(0) {
        0
    } else if !used.contains(1) {
        1
    } else {
        let a = choose|k: int| 0 <= k < used.len() && used[k] == 0usize;
        let b = choose|k: int| 0 <= k < used.len() && used[k] == 1usize;
        if used.contains(2) {
            let c = choose|k: int| 0 <= k < used.len() && used[k] == 2usize;
            assert(false);
        }
        2
    }
}

/// The first `k` picks (k at most 3, more than 3 candidates) choose `k` distinct candidate indices.
proof fn lemma_picks(c: Seq<BoonDef>, lucky: bool, k: int, state: u64)
    requires
        c.len() > 3,
        0 <= k <= 3,
        weight_sum(weights_of(c, lucky), cats_of(c), Seq::empty(), None, c.len() as int) <= u32::MAX,
    ensures
        ({
            let used = picks(c, weights_of(c, lucky), k, state).0;
            &&& used.len() == k
            &&& forall|m: int| 0 <= m < k ==> (#[trigger] used[m]) < c.len()
            &&& forall|a: int, b: int| 0 <= a < b < k ==> #[trigger] used[a] != #[trigger] used[b]
        }),
    decreases k,
{
    let w = weights_of(c, lucky);
    if k > 0 {
        lemma_picks(c, lucky, k - 1, state);
        let prev = picks(c, w, k - 1, state);
        let used = prev.0;
        let cats = cats_of(c);
        let j = lemma_free_index(used);
        assert(eligible(cats, used, None, j));
        assert(w[j] > 0);
        lemma_weight_sum_restricted(w, cats, used, None, w.len() as int);
        lemma_draw_succeeds(w, cats, used, None, j, prev.1);
        let step = pick_step(c, w, used, k - 1, prev.1);
        if k - 1 == 2 && used.len() == 2 && cats[used[0] as int] == cats[used[1] as int] {
            let first = draw(w, cats, used, Some(cats[used[0] as int]), prev.1);
            lemma_draw_result(w, cats, used, Some(cats[used[0] as int]), prev.1);
            lemma_draw_succeeds(w, cats, used, None, j, first.1);
        }
        let r = step.0->Some_0;
        assert(!used.contains(r as usize));
        let nu = used.push(r as usize);
        assert(picks(c, w, k, state).0 == nu);
        assert forall|a: int, b: int| 0 <= a < b < k implies #[trigger] nu[a] != #[trigger] nu[b] by {
            if b == k - 1 {
                assert(used[a] == nu[a]);
                assert(used.contains(nu[a]));
            } else {
                assert(nu[a] == used[a] && nu[b] == used[b]);
            }
        }
    }
}

/// The positions in `available` of its candidates, in order.
pub open spec fn candidate_positions(available: Seq<BoonDef>, active: Seq<BoonId>) -> Seq<int>
    decreases available.len(),
{
    if available.len() == 0 {
        Seq::empty()
    } else {
        let r = candidate_positions(available.drop_last(), active);
        if is_candidate(available.last(), active) {
            r.push(available.len() - 1)
        } else {
            r
        }
    }
}

proof fn lemma_candidate_positions(available: Seq<BoonDef>, active: Seq<BoonId>)
    ensures
        candidate_positions(available, active).len() == candidates_spec(available, active).len(),
        forall|k: int| 0 <= k < candidate_positions(available, active).len() ==> {
            let p = #[trigger] candidate_positions(available, active)[k];
            0 <= p < available.len() && available[p] == candidates_spec(available, active)[k]
        },
        forall|a: int, b: int| 0 <= a < b < candidate_positions(available, active).len() ==>
            #[trigger] candidate_positions(available, active)[a] < #[trigger] candidate_positions(available, active)[b],
    decreases available.len(),
{
    if available.len() > 0 {
        let rest = available.drop_last();
        lemma_candidate_positions(rest, active);
        let p = candidate_positions(available, active);
        let q = candidate_positions(rest, active);
        assert forall|k: int| 0 <= k < p.len() implies {
            let x = #[trigger] p[k];
            0 <= x < available.len() && available[x] == candidates_spec(available, active)[k]
        } by {
            if k < q.len() {
                assert(p[k] == q[k]);
                assert(available[q[k]] == rest[q[k]]);
            }
        }
        assert forall|a: int, b: int| 0 <= a < b < p.len() implies #[trigger] p[a] < #[trigger] p[b] by {
            assert(p[a] == q[a]);
            if b < q.len() {
                assert(p[b] == q[b]);
            }
        }
    }
}

/// The options `r` sit at the distinct positions `pos` of `available`, each a candidate.
pub open spec fn offered_at(available: Seq<BoonDef>, active: Seq<BoonId>, r: Seq<BoonDef>, pos: Seq<int>) -> bool {
    &&& pos.len() == r.len()
    &&& forall|k: int| 0 <= k < pos.len() ==> {
        &&& 0 <= #[trigger] pos[k] < available.len()
        &&& available[pos[k]] == r[k]
        &&& is_candidate(r[k], active)
    }
    &&& forall|a: int, b: int| 0 <= a < b < pos.len() ==> #[trigger] pos[a] != #[trigger] pos[b]
}

/// No entry of `available` is offered twice: the options come from distinct positions of
/// `available`, each a boon that stacks or that the player does not hold.
pub proof fn law_options_distinct_entries(available: Seq<BoonDef>, active: Seq<BoonId>, lucky: bool, seed: u64)
    requires
        ({
            let c = candidates_spec(available, active);
            c.len() > 3 ==> weight_sum(weights_of(c, lucky), cats_of(c), Seq::empty(), None, c.len() as int) <= u32::MAX
        }),
    ensures
        exists|pos: Seq<int>| #[trigger] offered_at(available, active, selection_spec(available, active, lucky, seed), pos),
{
    let c = candidates_spec(available, active);
    let r = selection_spec(available, active, lucky, seed);
    let cp = candidate_positions(available, active);
    lemma_candidates(available, active);
    lemma_candidate_positions(available, active);
    let w = weights_of(c, lucky);
    if c.len() == 0 || (c.len() > 3 && weight_sum(w, cats_of(c), Seq::empty(), None, w.len() as int) == 0) {
        assert(offered_at(available, active, r, Seq::empty()));
    } else if c.len() <= 3 {
        assert(offered_at(available, active, r, cp));
    } else {
        let s0: u64 = if seed == 0 { 1 } else { seed };
        lemma_picks(c, lucky, 3, s0);
        let used = picks(c, w, 3, s0).0;
        let pos = used.map_values(|i: usize| cp[i as int]);
        assert(r == used.map_values(|i: usize| c[i as int]));
        assert forall|a: int, b: int| 0 <= a < b < pos.len() implies #[trigger] pos[a] != #[trigger] pos[b] by {
            assert(used[a] != used[b]);
            if used[a] < used[b] {
                assert(cp[used[a] as int] < cp[used[b] as int]);
            } else {
                assert(cp[used[b] as int] < cp[used[a] as int]);
            }
        }
        assert forall|k: int| 0 <= k < pos.len() implies {
            &&& 0 <= #[trigger] pos[k] < available.len()
            &&& available[pos[k]] == r[k]
            &&& is_candidate(r[k], active)
        } by {
            assert(r[k] == c[used[k] as int]);
            assert(pos[k] == cp[used[k] as int]);
        }
        assert(offered_at(available, active, r, pos));
    }
}

/// When the first two options share a category, the third is of another category
/// whenever some candidate is.
pub proof fn law_third_option_other_category(available: Seq<BoonDef>, active: Seq<BoonId>, lucky: bool, seed: u64, j: int)
    requires
        ({
            let c = candidates_spec(available, active);
            c.len() > 3 ==> weight_sum(weights_of(c, lucky), cats_of(c), Seq::empty(), None, c.len() as int) <= u32::MAX
        }),
        selection_spec(available, active, lucky, seed).len() == 3,
        selection_spec(available, active, lucky, seed)[0].category == selection_spec(available, active, lucky, seed)[1].category,
        available.len() <= usize::MAX,
        0 <= j < candidates_spec(available, active).len(),
        candidates_spec(available, active)[j].category != selection_spec(available, active, lucky, seed)[0].category,
    ensures
        selection_spec(available, active, lucky, seed)[2].category != selection_spec(available, active, lucky, seed)[0].category,
{
    let c = candidates_spec(available, active);
    let r = selection_spec(available, active, lucky, seed);
    let w = weights_of(c, lucky);
    let cats = cats_of(c);
    lemma_candidates(available, active);
    if c.len() <= 3 {
        assert(r == c);
        assert(j != 0 && j != 1);
    } else {
        let s0: u64 = if seed == 0 { 1 } else { seed };
        lemma_picks(c, lucky, 2, s0);
        lemma_picks(c, lucky, 3, s0);
        let prev = picks(c, w, 2, s0);
        let used = prev.0;
        let all = picks(c, w, 3, s0).0;
        assert(r == all.map_values(|i: usize| c[i as int]));
        let step = pick_step(c, w, used, 2, prev.1);
        assert(step.0 is Some);
        assert(all == used.push(step.0->Some_0 as usize));
        assert(r[0] == c[used[0] as int] && r[1] == c[used[1] as int]);
        let cat0 = cats[used[0] as int];
        assert(cats[used[1] as int] == cat0);
        assert(cats[j] != cat0);
        assert(!used.contains(j as usize)) by {
            if used.contains(j as usize) {
                let m = choose|m: int| 0 <= m < used.len() && used[m] == j as usize;
                assert(m == 0 || m == 1);
            }
        }
        assert(eligible(cats, used, Some(cat0), j));
        lemma_weight_sum_restricted(w, cats, used, Some(cat0), w.len() as int);
        lemma_draw_succeeds(w, cats, used, Some(cat0), j, prev.1);
        let first = draw(w, cats, used, Some(cat0), prev.1);
        assert(step == first);
        assert(r[2] == c[all[2] as int]);
    }
}

/// What the selection guarantees (when the candidates' weights fit a u32, as
/// `select_boon_options` requires): min(3, #candidates) options, all of them
/// candidates (stackable, or not yet held) from `available`, with no id twice
/// when `available` has no id twice; with at most three candidates, all of them.
pub proof fn lemma_selection_properties(available: Seq<BoonDef>, active: Seq<BoonId>, lucky: bool, seed: u64)
    requires
        ({
            let c = candidates_spec(available, active);
            c.len() > 3 ==> weight_sum(weights_of(c, lucky), cats_of(c), Seq::empty(), None, c.len() as int) <= u32::MAX
        }),
    ensures
        ({
            let c = candidates_spec(available, active);
            let r = selection_spec(available, active, lucky, seed);
            &&& r.len() == if c.len() < 3 { c.len() } else { 3 }
            &&& forall|i: int| 0 <= i < r.len() ==> is_candidate(#[trigger] r[i], active) && available.contains(r[i])
            &&& c.len() <= 3 ==> r == c
            &&& ids_distinct(available) ==> ids_distinct(r)
        }),
{
    let c = candidates_spec(available, active);
    lemma_candidates(available, active);
    if c.len() > 3 {
        let w = weights_of(c, lucky);
        let cats = cats_of(c);
        assert(eligible(cats, Seq::empty(), None, 0));
        lemma_weight_sum_positive(w, cats, Seq::empty(), None, 0, w.len() as int);
        let s0: u64 = if seed == 0 { 1 } else { seed };
        lemma_picks(c, lucky, 3, s0);
        let used = picks(c, w, 3, s0).0;
        let r = selection_spec(available, active, lucky, seed);
        assert(r == used.map_values(|i: usize| c[i as int]));
        assert forall|i: int| 0 <= i < r.len() implies is_candidate(#[trigger] r[i], active) && available.contains(r[i]) by {
            assert(r[i] == c[used[i] as int]);
        }
        if ids_distinct(available) {
            assert forall|i: int, j: int| 0 <= i < j < r.len() implies (#[trigger] r[i]).id != (#[trigger] r[j]).id by {
                assert(r[i] == c[used[i] as int] && r[j] == c[used[j] as int]);
                assert(used[i] != used[j]);
                if used[i] < used[j] {
                    assert(c[used[i] as int].id != c[used[j] as int].id);
                } else {
                    assert(c[used[j] as int].id != c[used[i] as int].id);
                }
            }
        }
    }
}

/// The rarity weights: each table sums to 100 and never favours a rarer boon over a more
/// common one (common 60, rare 30, legendary 10); luck moves weight from common boons to
/// rare and legendary ones (40, 40, 20).
pub proof fn law_rarity_weights(lucky: bool)
    ensures
        rarity_weight_spec(Rarity::Common, lucky) + rarity_weight_spec(Rarity::Rare, lucky) + rarity_weight_spec(Rarity::Legendary, lucky) == 100,
        rarity_weight_spec(Rarity::Common, lucky) >= rarity_weight_spec(Rarity::Rare, lucky) >= rarity_weight_spec(Rarity::Legendary, lucky) > 0,
        rarity_weight_spec(Rarity::Common, true) < rarity_weight_spec(Rarity::Common, false),
        rarity_weight_spec(Rarity::Rare, true) > rarity_weight_spec(Rarity::Rare, false),
        rarity_weight_spec(Rarity::Legendary, true) > rarity_weight_spec(Rarity::Legendary, false),
        rarity_weight_spec(Rarity::Common, false) == 60 && rarity_weight_spec(Rarity::Rare, false) == 30
            && rarity_weight_spec(Rarity::Legendary, false) == 10,
        rarity_weight_spec(Rarity::Common, true) == 40 && rarity_weight_spec(Rarity::Rare, true) == 40
            && rarity_weight_spec(Rarity::Legendary, true) == 20,
{
}

} // verus!
