use arena_combat::components::attributes::{Energy, Health, Invulnerability};
use arena_combat::components::entities::boss::BossSkills;
use arena_combat::components::entities::player::{PlayerDash, Shield};
use arena_combat::constants::boundaries::{GameBoundaries, HALF_HEIGHT, HALF_WIDTH};
use arena_combat::geometry::Vec2;
use arena_combat::resources::PauseState;
use arena_combat::states::AppState;
use arena_combat::systems::boundary::{
    enforce_boss_boundaries, enforce_boundaries, update_edge_warnings, EdgeType, WARNING_DISTANCE,
    WARNING_OPACITY,
};
use arena_combat::systems::movement::player_movement::{
    manage_player_invulnerability, player_face_mouse, player_movement, DashReport, BASE_SPEED,
    INDICATOR_DISTANCE,
};
use arena_combat::systems::movement::shield_system::{
    animate_shield, handle_shield_input, IndicatorChange, RAISED_LENGTH,
};
use arena_combat::systems::pause_systems::{
    handle_pause_input, reset_pause_state, update_pause_timer, ClockChange,
};
use arena_combat::systems::player_death::check_player_death;

const TICK: u64 = 10_000_000;

#[test]
fn arena_measures() {
    assert_eq!(HALF_WIDTH, 3_200_000);
    assert_eq!(HALF_HEIGHT, 1_800_000);
    assert_eq!(GameBoundaries::width(), 6_400_000);
    assert_eq!(GameBoundaries::height(), 3_600_000);
    assert_eq!(GameBoundaries::min_x(), -3_200_000);
    assert_eq!(GameBoundaries::max_x(), 3_200_000);
    assert_eq!(GameBoundaries::min_y(), -1_800_000);
    assert_eq!(GameBoundaries::max_y(), 1_800_000);
}

#[test]
fn clamp_position_holds_each_coordinate_on_its_own() {
    assert_eq!(GameBoundaries::clamp_position(Vec2::new(5, -7)), Vec2::new(5, -7));
    assert_eq!(
        GameBoundaries::clamp_position(Vec2::new(3_200_001, -7)),
        Vec2::new(3_200_000, -7)
    );
    assert_eq!(
        GameBoundaries::clamp_position(Vec2::new(-4_000_000, 1_800_001)),
        Vec2::new(-3_200_000, 1_800_000)
    );
    assert_eq!(
        GameBoundaries::clamp_position(Vec2::new(i32::MAX, i32::MIN)),
        Vec2::new(3_200_000, -1_800_000)
    );
}

#[test]
fn bounds_include_the_edges() {
    assert!(GameBoundaries::is_within_bounds(Vec2::new(3_200_000, -1_800_000)));
    assert!(GameBoundaries::is_within_bounds(Vec2::zero()));
    assert!(!GameBoundaries::is_within_bounds(Vec2::new(3_200_001, 0)));
    assert!(!GameBoundaries::is_within_bounds(Vec2::new(0, -1_800_001)));
}

#[test]
fn containment_leaves_actors_inside_alone() {
    let mut dash = PlayerDash::default();
    dash.start_dash(Vec2::new(1, 0), Vec2::zero());
    let inside = Vec2::new(3_200_000, 100);
    assert_eq!(enforce_boundaries(inside, Some(dash)), (inside, Some(dash)));
    assert_eq!(enforce_boundaries(inside, None), (inside, None));
}

#[test]
fn containment_interrupts_a_dash_at_the_boundary() {
    let mut dash = PlayerDash::default();
    dash.start_dash(Vec2::new(1, 0), Vec2::new(3_100_000, 0));
    let (position, contained) = enforce_boundaries(Vec2::new(3_230_000, 50), Some(dash));
    assert_eq!(position, Vec2::new(3_200_000, 50));
    assert_eq!(contained, Some(PlayerDash::default()));
    let ready = PlayerDash::default();
    assert_eq!(
        enforce_boundaries(Vec2::new(0, 2_000_000), Some(ready)),
        (Vec2::new(0, 1_800_000), Some(ready))
    );
    assert_eq!(
        enforce_boundaries(Vec2::new(0, -2_000_000), None),
        (Vec2::new(0, -1_800_000), None)
    );
}

#[test]
fn containment_interrupts_a_boss_dash_at_the_boundary() {
    let mut skills = BossSkills::default();
    skills.dash_cooldown.tick(3_000_000_000);
    skills.start_dash(Vec2::new(0, 5_000_000), Vec2::new(0, 1_700_000));
    skills.mark_player_hit();
    let before = skills;
    assert_eq!(enforce_boss_boundaries(Vec2::new(0, 1_800_000), &mut skills), Vec2::new(0, 1_800_000));
    assert_eq!(skills, before);
    assert_eq!(enforce_boss_boundaries(Vec2::new(7, 1_800_001), &mut skills), Vec2::new(7, 1_800_000));
    assert!(!skills.is_dashing);
    assert!(!skills.has_hit_player);
    assert_eq!(skills.dash_target, Vec2::zero());
    assert_eq!(skills.dash_start_position, Vec2::zero());
    let mut ready = BossSkills::default();
    assert_eq!(enforce_boss_boundaries(Vec2::new(-9_000_000, 0), &mut ready), Vec2::new(-3_200_000, 0));
    assert_eq!(ready, BossSkills::default());
}

#[test]
fn edge_warnings_rise_toward_the_edge() {
    assert_eq!(WARNING_DISTANCE, 400_000);
    assert_eq!(WARNING_OPACITY, 300);
    assert_eq!(update_edge_warnings(EdgeType::Right, Vec2::zero()), 0);
    assert_eq!(update_edge_warnings(EdgeType::Right, Vec2::new(2_799_999, 0)), 0);
    assert_eq!(update_edge_warnings(EdgeType::Right, Vec2::new(2_800_000, 0)), 0);
    assert_eq!(update_edge_warnings(EdgeType::Right, Vec2::new(3_000_000, 0)), 150);
    assert_eq!(update_edge_warnings(EdgeType::Right, Vec2::new(3_200_000, 0)), 300);
    assert_eq!(update_edge_warnings(EdgeType::Right, Vec2::new(i32::MAX, 0)), 300);
    assert_eq!(update_edge_warnings(EdgeType::Left, Vec2::new(-3_100_000, 0)), 225);
    assert_eq!(update_edge_warnings(EdgeType::Top, Vec2::new(0, 1_500_000)), 75);
    assert_eq!(update_edge_warnings(EdgeType::Bottom, Vec2::new(0, -1_799_000)), 299);
    assert_eq!(update_edge_warnings(EdgeType::Bottom, Vec2::new(0, 1_799_000)), 0);
}

#[test]
fn aim_indicator_sits_toward_the_cursor() {
    let mut dash = PlayerDash::default();
    assert_eq!(INDICATOR_DISTANCE, 32_000);
    assert_eq!(
        player_face_mouse(Vec2::new(100, 100), &dash, Vec2::new(100, 900)),
        Some(Vec2::new(0, 32_000))
    );
    assert_eq!(
        player_face_mouse(Vec2::zero(), &dash, Vec2::new(-3_000, -4_000)),
        Some(Vec2::new(-19_200, -25_600))
    );
    assert_eq!(player_face_mouse(Vec2::new(5, 5), &dash, Vec2::new(5, 5)), Some(Vec2::zero()));
    dash.start_dash(Vec2::new(1, 0), Vec2::zero());
    assert_eq!(player_face_mouse(Vec2::zero(), &dash, Vec2::new(0, 900)), None);
}

#[test]
fn player_walks_at_base_speed() {
    assert_eq!(BASE_SPEED, 300_000);
    let mut position = Vec2::zero();
    let mut dash = PlayerDash::default();
    let mut energy = Energy::new(100_000, 25_000);
    let report = player_movement(&mut position, &mut dash, &mut energy, None, false, Vec2::new(1, 0), TICK);
    assert_eq!(report, DashReport { started: false, completed: false });
    assert_eq!(position, Vec2::new(3_000, 0));
    player_movement(&mut position, &mut dash, &mut energy, None, false, Vec2::new(-1, 1), TICK);
    assert_eq!(position, Vec2::new(879, 2_121));
    player_movement(&mut position, &mut dash, &mut energy, None, false, Vec2::zero(), TICK);
    assert_eq!(position, Vec2::new(879, 2_121));
    assert_eq!(dash, PlayerDash::default());
}

#[test]
fn dash_trigger_needs_a_direction() {
    let mut position = Vec2::zero();
    let mut dash = PlayerDash::default();
    let mut energy = Energy::new(100_000, 25_000);
    let report = player_movement(&mut position, &mut dash, &mut energy, None, true, Vec2::zero(), TICK);
    assert!(!report.started);
    assert!(!dash.is_dashing);
    assert_eq!(energy.current, 100_000);
    assert_eq!(position, Vec2::zero());
}

#[test]
fn dash_trigger_without_energy_is_rejected() {
    let mut position = Vec2::zero();
    let mut dash = PlayerDash::default();
    let mut energy = Energy::new(100_000, 25_000);
    assert!(energy.consume(61_000));
    let report = player_movement(&mut position, &mut dash, &mut energy, None, true, Vec2::new(1, 0), TICK);
    assert!(!report.started);
    assert!(!dash.is_dashing);
    assert_eq!(energy.current, 39_250);
    assert_eq!(position, Vec2::new(3_000, 0));
}

#[test]
fn dash_scenario_from_the_origin() {
    let mut position = Vec2::zero();
    let mut dash = PlayerDash::default();
    let mut energy = Energy::new(100_000, 25_000);
    let first = player_movement(&mut position, &mut dash, &mut energy, None, true, Vec2::new(1, 0), TICK);
    assert_eq!(first, DashReport { started: true, completed: false });
    assert_eq!(energy.current, 60_000);
    assert!(dash.is_dashing);
    assert_eq!(dash.dash_target, Vec2::new(400_000, 0));
    assert_eq!(position, Vec2::new(8_000, 0));
    let mut completed_at = 0;
    for tick in 2..=50 {
        let report = player_movement(&mut position, &mut dash, &mut energy, None, false, Vec2::zero(), TICK);
        assert!(!report.started);
        if report.completed {
            assert_eq!(completed_at, 0);
            completed_at = tick;
        }
    }
    assert_eq!(completed_at, 49);
    assert!(!dash.is_dashing);
    assert_eq!(position, Vec2::new(392_000, 0));
    assert_eq!(energy.current, 60_000 + 49 * 250);
}

#[test]
fn dash_while_dashing_costs_nothing() {
    let mut position = Vec2::zero();
    let mut dash = PlayerDash::default();
    let mut energy = Energy::new(100_000, 0);
    player_movement(&mut position, &mut dash, &mut energy, None, true, Vec2::new(1, 0), TICK);
    assert_eq!(energy.current, 60_000);
    let target = dash.dash_target;
    let again = player_movement(&mut position, &mut dash, &mut energy, None, true, Vec2::new(0, 1), TICK);
    assert!(!again.started);
    assert_eq!(energy.current, 60_000);
    assert_eq!(dash.dash_target, target);
    assert_eq!(position, Vec2::new(16_000, 0));
}

#[test]
fn raised_shield_keeps_energy_from_recharging() {
    let mut position = Vec2::zero();
    let mut dash = PlayerDash::default();
    let mut energy = Energy::new(100_000, 25_000);
    assert!(energy.consume(50_000));
    let mut shield = Shield::new();
    shield.is_active = true;
    shield.length = 10;
    player_movement(&mut position, &mut dash, &mut energy, Some(shield), false, Vec2::zero(), TICK);
    assert_eq!(energy.current, 50_000);
    shield.length = 0;
    player_movement(&mut position, &mut dash, &mut energy, Some(shield), false, Vec2::zero(), TICK);
    assert_eq!(energy.current, 50_250);
    player_movement(&mut position, &mut dash, &mut energy, None, false, Vec2::zero(), TICK);
    assert_eq!(energy.current, 50_500);
}

#[test]
fn invulnerability_follows_the_dash() {
    let mut dash = PlayerDash::default();
    let mut invulnerability = Invulnerability::new();
    manage_player_invulnerability(Vec2::zero(), &dash, &mut invulnerability);
    assert!(!invulnerability.is_active());
    dash.start_dash(Vec2::new(1, 0), Vec2::zero());
    manage_player_invulnerability(Vec2::new(120_000, 0), &dash, &mut invulnerability);
    assert!(invulnerability.is_active());
    manage_player_invulnerability(Vec2::new(128_000, 0), &dash, &mut invulnerability);
    assert!(!invulnerability.is_active());
}

#[test]
fn shield_button_raises_and_lowers() {
    assert_eq!(RAISED_LENGTH, 500);
    let mut shield = Shield::new();
    let mut energy = Energy::new(100_000, 25_000);
    assert_eq!(handle_shield_input(&mut shield, &mut energy, false, false), IndicatorChange::Unchanged);
    assert_eq!(shield, Shield::new());
    assert_eq!(handle_shield_input(&mut shield, &mut energy, true, false), IndicatorChange::Hide);
    assert!(shield.is_active);
    assert_eq!(shield.target_length, 500);
    assert_eq!(energy.current, 90_000);
    assert_eq!(handle_shield_input(&mut shield, &mut energy, true, false), IndicatorChange::Unchanged);
    assert_eq!(energy.current, 90_000);
    assert_eq!(handle_shield_input(&mut shield, &mut energy, false, true), IndicatorChange::Show);
    assert!(shield.is_active);
    assert_eq!(shield.target_length, 0);
}

#[test]
fn shield_button_without_energy_does_nothing() {
    let mut shield = Shield::new();
    let mut energy = Energy::new(9_999, 0);
    assert_eq!(handle_shield_input(&mut shield, &mut energy, true, false), IndicatorChange::Unchanged);
    assert_eq!(shield, Shield::new());
    assert_eq!(energy.current, 9_999);
}

#[test]
fn shield_grows_drains_and_shrinks() {
    let mut shield = Shield::new();
    let mut energy = Some(Energy::new(100_000, 25_000));
    shield.activate(500);
    assert_eq!(animate_shield(&mut shield, &mut energy, 100_000_000), IndicatorChange::Hide);
    assert_eq!(shield.length, 300);
    assert_eq!(energy.unwrap().current, 100_000);
    assert_eq!(animate_shield(&mut shield, &mut energy, 100_000_000), IndicatorChange::Hide);
    assert_eq!(shield.length, 500);
    assert_eq!(energy.unwrap().current, 98_000);
    assert_eq!(animate_shield(&mut shield, &mut energy, 100_000_000), IndicatorChange::Unchanged);
    assert_eq!(shield.length, 500);
    assert_eq!(energy.unwrap().current, 96_000);
    shield.deactivate();
    assert_eq!(animate_shield(&mut shield, &mut energy, 100_000_000), IndicatorChange::Unchanged);
    assert_eq!(shield.length, 200);
    assert!(shield.is_active);
    assert_eq!(energy.unwrap().current, 94_000);
    assert_eq!(animate_shield(&mut shield, &mut energy, 100_000_000), IndicatorChange::Show);
    assert_eq!(shield.length, 0);
    assert!(!shield.is_active);
    assert_eq!(energy.unwrap().current, 92_000);
    assert_eq!(animate_shield(&mut shield, &mut energy, 100_000_000), IndicatorChange::Unchanged);
    assert_eq!(shield, Shield::new());
    assert_eq!(energy.unwrap().current, 92_000);
}

#[test]
fn shield_that_runs_out_of_energy_comes_down() {
    let mut shield = Shield::new();
    shield.activate(500);
    shield.length = 500;
    let mut energy = Some(Energy::new(3_000, 0));
    assert_eq!(animate_shield(&mut shield, &mut energy, 100_000_000), IndicatorChange::Unchanged);
    assert_eq!(energy.unwrap().current, 1_000);
    assert_eq!(shield.target_length, 500);
    assert_eq!(animate_shield(&mut shield, &mut energy, 100_000_000), IndicatorChange::Unchanged);
    assert_eq!(energy.unwrap().current, 1_000);
    assert_eq!(shield.target_length, 0);
    assert_eq!(shield.length, 200);
    assert!(shield.is_active);
}

#[test]
fn shield_without_energy_to_draw_on_still_animates() {
    let mut shield = Shield::new();
    shield.activate(500);
    let mut energy: Option<Energy> = None;
    assert_eq!(animate_shield(&mut shield, &mut energy, 50_000_000), IndicatorChange::Hide);
    assert_eq!(shield.length, 150);
    assert_eq!(energy, None);
}

#[test]
fn pause_toggles_only_in_play() {
    let mut pause = PauseState::new();
    assert!(!pause.is_paused);
    assert_eq!(handle_pause_input(&mut pause, AppState::MainMenu, true), ClockChange::Unchanged);
    assert_eq!(handle_pause_input(&mut pause, AppState::GameOver, true), ClockChange::Unchanged);
    assert_eq!(handle_pause_input(&mut pause, AppState::Game, false), ClockChange::Unchanged);
    assert!(!pause.is_paused);
    assert_eq!(handle_pause_input(&mut pause, AppState::Game, true), ClockChange::Pause);
    assert!(pause.is_paused);
    assert_eq!(handle_pause_input(&mut pause, AppState::Debug, true), ClockChange::Unpause);
    assert!(!pause.is_paused);
}

#[test]
fn pause_state_methods() {
    let mut pause = PauseState::default();
    assert_eq!(pause, PauseState::new());
    pause.pause();
    assert!(pause.is_paused);
    pause.pause_timer.tick(5);
    assert!(pause.pause_timer.finished());
    pause.resume();
    assert!(!pause.is_paused);
    pause.toggle();
    assert!(pause.is_paused);
    assert!(!pause.pause_timer.finished());
    pause.toggle();
    assert!(!pause.is_paused);
}

#[test]
fn pause_timer_runs_only_while_paused() {
    let mut pause = PauseState::new();
    update_pause_timer(&mut pause, 1_000);
    assert!(!pause.pause_timer.finished());
    pause.pause();
    update_pause_timer(&mut pause, 1_000);
    assert!(pause.pause_timer.finished());
    assert_eq!(pause.pause_timer.elapsed(), 0);
    reset_pause_state(&mut pause);
    assert!(!pause.is_paused);
}

#[test]
fn death_ends_the_encounter_only_in_play() {
    let mut health = Health::new(10_000);
    assert_eq!(check_player_death(&health, AppState::Game), None);
    health.take_damage(10_000);
    assert_eq!(check_player_death(&health, AppState::Game), Some(AppState::GameOver));
    assert_eq!(check_player_death(&health, AppState::Debug), Some(AppState::GameOver));
    assert_eq!(check_player_death(&health, AppState::MainMenu), None);
    assert_eq!(check_player_death(&health, AppState::GameOver), None);
    assert_eq!(AppState::default(), AppState::MainMenu);
}
