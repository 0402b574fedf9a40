use cryptfall::game::save::{upgrades, PermanentUpgrades, SaveData};

#[test]
fn test_default_save_data() {
    let data = SaveData::default();
    assert_eq!(data.total_gold, 0);
    assert_eq!(data.total_runs, 0);
    assert_eq!(data.best_floor, 0);
    assert_eq!(data.total_kills, 0);
    assert_eq!(data.total_deaths, 0);
    assert_eq!(data.upgrades.vitality_level, 0);
    assert_eq!(data.upgrades.strength_level, 0);
    assert!(!data.upgrades.twin_dash);
    assert_eq!(data.upgrades.boon_reroll_level, 0);
}

#[test]
fn test_can_afford() {
    let data = SaveData {
        total_gold: 50,
        ..Default::default()
    };
    assert!(data.can_afford(50));
    assert!(data.can_afford(30));
    assert!(!data.can_afford(51));
}

#[test]
fn test_spend_gold_success() {
    let mut data = SaveData {
        total_gold: 100,
        ..Default::default()
    };
    assert!(data.spend_gold(30));
    assert_eq!(data.total_gold, 70);
    assert!(data.spend_gold(70));
    assert_eq!(data.total_gold, 0);
}

#[test]
fn test_spend_gold_insufficient() {
    let mut data = SaveData {
        total_gold: 20,
        ..Default::default()
    };
    assert!(!data.spend_gold(30));
    assert_eq!(data.total_gold, 20); // unchanged
}

#[test]
fn test_upgrade_costs() {
    let ups = upgrades();
    // Vitality: 30, 60, 120
    assert_eq!(ups[0].cost, 30);
    assert_eq!(ups[1].cost, 60);
    assert_eq!(ups[2].cost, 120);
    // Strength: 50, 100
    assert_eq!(ups[3].cost, 50);
    assert_eq!(ups[4].cost, 100);
    // Twin Dash: 80
    assert_eq!(ups[5].cost, 80);
    // Boon Reroll: 40, 80
    assert_eq!(ups[6].cost, 40);
    assert_eq!(ups[7].cost, 80);
}

#[test]
fn test_upgrade_current_level_fns() {
    let empty = PermanentUpgrades::default();
    for upgrade in upgrades() {
        assert_eq!(upgrade.current_level(&empty), 0);
    }

    let full = PermanentUpgrades {
        vitality_level: 3,
        strength_level: 2,
        twin_dash: true,
        boon_reroll_level: 2,
    };
    // All individual upgrades should report level 1 (maxed)
    for upgrade in upgrades() {
        assert_eq!(
            upgrade.current_level(&full),
            1,
            "upgrade '{}' should be maxed",
            upgrade.name
        );
    }
}

#[test]
fn test_upgrade_names_non_empty() {
    for upgrade in upgrades() {
        assert!(!upgrade.name.is_empty());
        assert!(!upgrade.description.is_empty());
        assert!(upgrade.cost > 0);
    }
}

use cryptfall::game::run_state::RunState;

#[test]
fn record_run_folds_totals() {
    let mut data = SaveData { total_gold: 10, best_floor: 2, ..Default::default() };
    let mut run = RunState::new();
    run.kills = 4;
    run.gold_earned = 7;
    run.floor_reached = 3;
    data.record_run(&run, false);
    assert_eq!(data.total_runs, 1);
    assert_eq!(data.total_kills, 4);
    assert_eq!(data.total_deaths, 1);
    assert_eq!(data.total_gold, 17);
    assert_eq!(data.best_floor, 3);
    run.floor_reached = 1;
    data.record_run(&run, true);
    assert_eq!(data.total_runs, 2);
    assert_eq!(data.total_deaths, 1);
    assert_eq!(data.best_floor, 3);
    assert_eq!(data.total_gold, 24);
}

#[test]
fn upgrade_names_and_prices() {
    let ups = upgrades();
    assert_eq!(ups[0].name, "Vitality I");
    assert_eq!(ups[5].name, "Twin Dash");
    assert_eq!(ups[7].description, "+1 reroll per run");
    assert!(ups.iter().all(|u| u.max_level == 1));
}
