use cryptfall::engine::input::{InputState, KeyInput};
use cryptfall::game::controls::{death_step, pause_step, DeathPhase, DeathStep, PauseStep};
use cryptfall::game::dungeon::encounters::{make_spawns, EncounterDef, WaveDef, WaveTrigger, WaveTracker};
use cryptfall::game::player::player_heal;

fn pressed(keys: &[KeyInput]) -> InputState {
    let mut input = InputState::new();
    input.process_events_at(keys, 0);
    input
}

#[test]
fn pause_key_toggles_and_quit_ends_a_paused_run() {
    assert_eq!(pause_step(false, &pressed(&[KeyInput::Esc])), PauseStep::Toggle);
    assert_eq!(pause_step(true, &pressed(&[KeyInput::Esc, KeyInput::Char('q')])), PauseStep::Toggle);
    assert_eq!(pause_step(true, &pressed(&[KeyInput::Char('q')])), PauseStep::EndRun);
    assert_eq!(pause_step(true, &pressed(&[])), PauseStep::Hold);
    assert_eq!(pause_step(false, &pressed(&[KeyInput::Char('q')])), PauseStep::Play { debug: true });
    assert_eq!(pause_step(false, &pressed(&[])), PauseStep::Play { debug: false });
}

#[test]
fn death_sequence_runs_in_order() {
    let none = pressed(&[]);
    assert_eq!(
        death_step(DeathPhase::Dying, false, true, &none),
        DeathStep { phase: DeathPhase::Dying, restart_timer: false, end_run: false }
    );
    assert_eq!(
        death_step(DeathPhase::Dying, true, false, &none),
        DeathStep { phase: DeathPhase::FadeOut, restart_timer: true, end_run: false }
    );
    assert_eq!(death_step(DeathPhase::FadeOut, true, false, &none).phase, DeathPhase::FadeOut);
    assert_eq!(death_step(DeathPhase::FadeOut, false, true, &none).phase, DeathPhase::Dead);
    assert!(!death_step(DeathPhase::Dead, true, true, &none).end_run);
    assert!(death_step(DeathPhase::Dead, false, false, &pressed(&[KeyInput::Enter])).end_run);
    assert_eq!(death_step(DeathPhase::Alive, true, true, &pressed(&[KeyInput::Enter])).phase, DeathPhase::Alive);
}

#[test]
fn heal_is_capped_at_max() {
    assert_eq!(player_heal(3, 2, 5), 5);
    assert_eq!(player_heal(2, 1, 5), 3);
    assert_eq!(player_heal(5, 2, 5), 5);
    assert_eq!(player_heal(2, 0, 5), 2);
}

#[test]
fn waves_start_when_their_trigger_is_met() {
    let encounter = EncounterDef {
        waves: vec![
            WaveDef { enemies: make_spawns(2, 0, 0), trigger: WaveTrigger::Immediate },
            WaveDef { enemies: make_spawns(1, 1, 2), trigger: WaveTrigger::OnEnemyCountBelow(1) },
        ],
    };
    let mut tracker = WaveTracker::new(encounter);
    assert_eq!(tracker.next_wave(0), Some(0));
    assert_eq!(tracker.wave_spawned_count, 2);
    assert_eq!(tracker.next_wave(1), None);
    assert_eq!(tracker.current_wave, 1);
    assert_eq!(tracker.next_wave(0), Some(1));
    assert_eq!(tracker.wave_spawned_count, 4);
    assert_eq!(tracker.next_wave(0), None);
    assert!(tracker.is_encounter_complete(0));
}
