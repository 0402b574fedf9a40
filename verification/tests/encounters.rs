use cryptfall::game::dungeon::encounters::{instantiate_wave, EnemySpawn, WaveDef, WaveTrigger};
use cryptfall::game::dungeon::room_template::SpawnPoint;
use cryptfall::game::enemies::{Brain, EnemyType};

fn seed(room: usize, base: u64, i: u32) -> u32 {
    (room as u32).wrapping_mul(31337).wrapping_add(base as u32).wrapping_add(i * 7919 + 1)
}

#[test]
fn test_instantiate_wave_places_and_seeds() {
    let wave = WaveDef {
        enemies: vec![
            EnemySpawn { enemy_type: EnemyType::Skeleton, spawn_index: 0 },
            EnemySpawn { enemy_type: EnemyType::Specter, spawn_index: 3 },
            EnemySpawn { enemy_type: EnemyType::BoneKing, spawn_index: 1 },
        ],
        trigger: WaveTrigger::Immediate,
    };
    let points = vec![SpawnPoint { x: 2, y: 3, group: 0 }, SpawnPoint { x: 10, y: 4, group: 0 }];
    let base = 0x1_2345_6789u64;
    let placed = instantiate_wave(&wave, &points, 7, base);
    assert_eq!(placed.len(), 3);
    assert_eq!((placed[0].x, placed[0].y), (16, 24));
    // Index 3 wraps around the two points to the second.
    assert_eq!((placed[1].x, placed[1].y), (80, 32));
    assert_eq!((placed[2].x, placed[2].y), (80, 32));
    assert!(matches!(placed[0].core.brain, Brain::Skeleton(b) if b.rng == seed(7, base, 0)));
    assert!(matches!(placed[1].core.brain, Brain::Specter(g) if g.rng == seed(7, base, 1)));
    assert!(matches!(placed[2].core.brain, Brain::Boss(b) if b.rng == seed(7, base, 2)));
    assert_eq!(placed[1].core.hp, 2);
    assert_eq!(placed[2].core.hp, 20);
}

#[test]
fn test_instantiate_wave_without_spawn_points() {
    let wave = WaveDef {
        enemies: vec![EnemySpawn { enemy_type: EnemyType::Slime, spawn_index: 0 }],
        trigger: WaveTrigger::Immediate,
    };
    assert!(instantiate_wave(&wave, &Vec::new(), 0, 0).is_empty());
}
