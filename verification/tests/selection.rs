use cryptfall::game::boons::selection::select_boon_options;
use cryptfall::game::boons::{boon_defs, BoonCategory, BoonDef, BoonId, Rarity};

#[test]
fn test_returns_3_options() {
    let defs = boon_defs();
    let result = select_boon_options(&defs, &[], false, 42);
    assert_eq!(result.len(), 3);
}

#[test]
fn test_no_duplicate_ids() {
    let defs = boon_defs();
    for seed in 1..100 {
        let result = select_boon_options(&defs, &[], false, seed);
        assert_eq!(result.len(), 3);
        let ids: Vec<BoonId> = result.iter().map(|b| b.id).collect();
        for i in 0..ids.len() {
            for j in (i + 1)..ids.len() {
                assert_ne!(ids[i], ids[j], "duplicate at seed {seed}");
            }
        }
    }
}

#[test]
fn test_excludes_non_stackable_active() {
    let defs = boon_defs();
    let active = vec![BoonId::BerserkersRage, BoonId::Lucky];
    for seed in 1..50 {
        let result = select_boon_options(&defs, &active, false, seed);
        assert_eq!(result.len(), 3);
        for b in &result {
            if !b.stackable {
                assert!(
                    !active.contains(&b.id),
                    "offered non-stackable active boon {:?} at seed {seed}",
                    b.id
                );
            }
        }
    }
}

#[test]
fn test_stackable_boons_can_repeat() {
    let defs = boon_defs();
    // SharpenedBlade is stackable, so it should still be offered even if active
    let active = vec![BoonId::SharpenedBlade];
    let mut seen_sharpened = false;
    for seed in 1..200 {
        let result = select_boon_options(&defs, &active, false, seed);
        if result.iter().any(|b| b.id == BoonId::SharpenedBlade) {
            seen_sharpened = true;
            break;
        }
    }
    assert!(seen_sharpened, "stackable boon should still be offered");
}

#[test]
fn test_category_diversity() {
    let defs = boon_defs();
    let mut diverse_count = 0;
    let total = 200;
    for seed in 1..=total {
        let result = select_boon_options(&defs, &[], false, seed);
        let cats: Vec<BoonCategory> = result.iter().map(|b| b.category).collect();
        let unique: std::collections::HashSet<_> = cats.iter().collect();
        if unique.len() >= 2 {
            diverse_count += 1;
        }
    }
    // At least 80% should have 2+ categories
    assert!(
        diverse_count > total * 80 / 100,
        "only {diverse_count}/{total} had 2+ categories"
    );
}

#[test]
fn test_lucky_shifts_rarity() {
    let defs = boon_defs();
    let mut legendary_normal = 0;
    let mut legendary_lucky = 0;
    let trials = 1000;

    for seed in 1..=trials {
        let result = select_boon_options(&defs, &[], false, seed);
        legendary_normal += result
            .iter()
            .filter(|b| b.rarity == Rarity::Legendary)
            .count();

        let result_lucky = select_boon_options(&defs, &[], true, seed);
        legendary_lucky += result_lucky
            .iter()
            .filter(|b| b.rarity == Rarity::Legendary)
            .count();
    }

    assert!(
        legendary_lucky > legendary_normal,
        "lucky should produce more legendaries: normal={legendary_normal}, lucky={legendary_lucky}"
    );
}

#[test]
fn test_deterministic_with_same_seed() {
    let defs = boon_defs();
    let r1 = select_boon_options(&defs, &[], false, 12345);
    let r2 = select_boon_options(&defs, &[], false, 12345);
    let ids1: Vec<BoonId> = r1.iter().map(|b| b.id).collect();
    let ids2: Vec<BoonId> = r2.iter().map(|b| b.id).collect();
    assert_eq!(ids1, ids2);
}

#[test]
fn test_empty_available() {
    let defs = boon_defs();
    let result = select_boon_options(&[], &[], false, 42);
    assert!(result.is_empty());
}

#[test]
fn test_fewer_than_3_available() {
    let defs = boon_defs();
    let small: Vec<BoonDef> = defs.iter().take(2).map(|b| BoonDef {
        id: b.id,
        name: b.name,
        description: b.description,
        rarity: b.rarity,
        category: b.category,
        stackable: b.stackable,
    }).collect();
    let result = select_boon_options(&small, &[], false, 42);
    assert_eq!(result.len(), 2);
}
