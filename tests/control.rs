use conway_life::grid::Position;
use conway_life::input::{pause_switch_action, toggle_pause_action, toggle_simulation_paused, AppState, InputAction};
use conway_life::schedule::{
    change_simulation_rate, reset_simulation_update_timer, set_simulation_rate,
    tick_simulation_update_timer, SimulationConfig, SimulationUpdateTimer,
    DEFAULT_TICKS_PER_SECOND,
};

fn default_schedule() -> (SimulationConfig, SimulationUpdateTimer) {
    (
        SimulationConfig { ticks_per_second: DEFAULT_TICKS_PER_SECOND },
        SimulationUpdateTimer::from_ticks_per_second(DEFAULT_TICKS_PER_SECOND),
    )
}

#[test]
fn timer_period_from_rate() {
    let (_, timer) = default_schedule();
    assert_eq!(timer.period_nanos, 250_000_000);
    assert_eq!(timer.elapsed_nanos, 0);
    assert_eq!(SimulationUpdateTimer::from_ticks_per_second(3).period_nanos, 333_333_333);
}

#[test]
fn timer_fires_once_per_period() {
    let (_, mut timer) = default_schedule();
    assert_eq!(tick_simulation_update_timer(&mut timer, 100_000_000), None);
    assert_eq!(timer.elapsed_nanos, 100_000_000);
    assert_eq!(tick_simulation_update_timer(&mut timer, 100_000_000), None);
    assert_eq!(
        tick_simulation_update_timer(&mut timer, 50_000_000),
        Some(InputAction::AdvanceSimulation)
    );
    assert_eq!(timer.elapsed_nanos, 0);
}

#[test]
fn timer_drops_lag_beyond_one_period() {
    let (_, mut timer) = default_schedule();
    // Three and a half periods at once fire a single time.
    assert_eq!(
        tick_simulation_update_timer(&mut timer, 875_000_000),
        Some(InputAction::AdvanceSimulation)
    );
    assert_eq!(timer.elapsed_nanos, 125_000_000);
    assert_eq!(tick_simulation_update_timer(&mut timer, 100_000_000), None);
}

#[test]
fn timer_saturates() {
    let mut timer = SimulationUpdateTimer { period_nanos: 7, elapsed_nanos: 5 };
    assert!(timer.tick(u64::MAX));
    assert_eq!(timer.elapsed_nanos, u64::MAX % 7);
}

#[test]
fn reset_clears_elapsed_time() {
    let (_, mut timer) = default_schedule();
    tick_simulation_update_timer(&mut timer, 200_000_000);
    reset_simulation_update_timer(&mut timer);
    assert_eq!(timer.elapsed_nanos, 0);
    assert_eq!(timer.period_nanos, 250_000_000);
    assert_eq!(tick_simulation_update_timer(&mut timer, 200_000_000), None);
}

#[test]
fn rate_changes_are_clamped_and_reset_the_timer() {
    let (mut config, mut timer) = default_schedule();
    tick_simulation_update_timer(&mut timer, 100_000_000);

    change_simulation_rate(&mut config, &mut timer, false, true);
    assert_eq!(config.ticks_per_second, 5);
    assert_eq!(timer.period_nanos, 200_000_000);
    assert_eq!(timer.elapsed_nanos, 0);

    tick_simulation_update_timer(&mut timer, 100_000_000);
    change_simulation_rate(&mut config, &mut timer, true, true);
    assert_eq!(config.ticks_per_second, 5);
    // Unchanged rate: the timer keeps its phase.
    assert_eq!(timer.elapsed_nanos, 100_000_000);

    set_simulation_rate(&mut config, &mut timer, 1000);
    assert_eq!(config.ticks_per_second, 64);
    assert_eq!(timer.period_nanos, 15_625_000);
    set_simulation_rate(&mut config, &mut timer, -3);
    assert_eq!(config.ticks_per_second, 1);
    assert_eq!(timer.period_nanos, 1_000_000_000);
    change_simulation_rate(&mut config, &mut timer, true, false);
    assert_eq!(config.ticks_per_second, 1);

    let mut odd = SimulationConfig { ticks_per_second: i32::MIN };
    change_simulation_rate(&mut odd, &mut timer, true, false);
    assert_eq!(odd.ticks_per_second, 1);
}

#[test]
fn pause_key_toggles() {
    assert_eq!(toggle_pause_action(AppState::Running), Some(InputAction::PauseSimulation));
    assert_eq!(toggle_pause_action(AppState::Paused), Some(InputAction::UnpauseSimulation));
    assert_eq!(toggle_pause_action(AppState::Startup), None);
    assert_eq!(toggle_pause_action(AppState::Initial), None);
}

#[test]
fn pause_switch() {
    assert_eq!(pause_switch_action(AppState::Paused, false), Some(InputAction::UnpauseSimulation));
    assert_eq!(pause_switch_action(AppState::Running, true), Some(InputAction::PauseSimulation));
    assert_eq!(pause_switch_action(AppState::Paused, true), None);
    assert_eq!(pause_switch_action(AppState::Running, false), None);
    assert_eq!(pause_switch_action(AppState::Startup, true), None);
}

#[test]
fn pause_commands_switch_state() {
    let step = [InputAction::PauseSimulation, InputAction::AdvanceSimulation];
    assert_eq!(toggle_simulation_paused(AppState::Running, &step), Some(AppState::Paused));
    assert_eq!(toggle_simulation_paused(AppState::Paused, &step), None);
    let resume = [InputAction::ToggleCell(Position::new(1, 1)), InputAction::UnpauseSimulation];
    assert_eq!(toggle_simulation_paused(AppState::Paused, &resume), Some(AppState::Running));
    assert_eq!(toggle_simulation_paused(AppState::Running, &resume), None);
    assert_eq!(toggle_simulation_paused(AppState::Startup, &step), None);
    assert_eq!(toggle_simulation_paused(AppState::Running, &[]), None);
}
