use arena_combat::components::entities::boss::{
    BossSkills, MineBossBundle, RotationAnimation, BOSS_ARRIVAL_RADIUS, STUCK_FRAME_LIMIT,
    STUCK_MOVEMENT,
};
use arena_combat::geometry::Vec2;
use arena_combat::timer::{Timer, TimerMode};

const TICK: u64 = 10_000_000;

fn dashing_from_origin() -> BossSkills {
    let mut skills = BossSkills::default();
    skills.dash_cooldown.tick(3_000_000_000);
    skills.start_dash(Vec2::new(2_000_000, 0), Vec2::zero());
    assert!(skills.is_dashing);
    skills
}

#[test]
fn default_skills_are_cooling_down() {
    let skills = BossSkills::default();
    assert!(!skills.is_dashing);
    assert!(!skills.can_dash());
    assert!(!skills.can_hit_player());
    assert_eq!(skills.dash_cooldown, Timer::new(3_000_000_000, TimerMode::Repeating));
    assert_eq!(skills.dash_timer, Timer::new(2_000_000_000, TimerMode::Once));
    assert_eq!(skills.dash_speed, 800_000);
    assert_eq!(skills.dash_damage, 25_000);
    assert_eq!(skills.dash_distance, 800_000);
    assert_eq!(skills.stuck_frames, 0);
    assert_eq!(BOSS_ARRIVAL_RADIUS, 50_000);
    assert_eq!(STUCK_MOVEMENT, 1_000);
    assert_eq!(STUCK_FRAME_LIMIT, 10);
}

#[test]
fn start_dash_before_the_cooldown_does_nothing() {
    let mut skills = BossSkills::default();
    let before = skills;
    skills.start_dash(Vec2::new(100_000, 0), Vec2::zero());
    assert_eq!(skills, before);
    skills.dash_cooldown.tick(2_999_999_999);
    assert!(!skills.can_dash());
    skills.start_dash(Vec2::new(100_000, 0), Vec2::zero());
    assert!(!skills.is_dashing);
}

#[test]
fn start_dash_resets_timers_and_hit_flag() {
    let mut skills = BossSkills::default();
    skills.has_hit_player = true;
    skills.stuck_frames = 4;
    skills.dash_timer.tick(1_000_000_000);
    skills.dash_cooldown.tick(3_200_000_000);
    assert!(skills.can_dash());
    skills.start_dash(Vec2::new(500_000, 0), Vec2::new(10, 20));
    assert!(skills.is_dashing);
    assert_eq!(skills.dash_target, Vec2::new(500_000, 0));
    assert_eq!(skills.dash_start_position, Vec2::new(10, 20));
    assert_eq!(skills.last_position, Vec2::new(10, 20));
    assert!(!skills.has_hit_player);
    assert_eq!(skills.stuck_frames, 0);
    assert_eq!(skills.dash_timer.elapsed(), 0);
    assert!(!skills.dash_timer.finished());
    assert_eq!(skills.dash_cooldown.elapsed(), 0);
    assert!(!skills.dash_cooldown.finished());
    assert!(!skills.can_dash());
}

#[test]
fn boss_dash_completes_after_the_full_distance() {
    let mut skills = dashing_from_origin();
    assert!(!skills.update_dash(Vec2::new(799_999, 0), TICK));
    assert!(skills.is_dashing);
    assert!(skills.update_dash(Vec2::new(800_000, 0), TICK));
    assert!(!skills.is_dashing);
    assert_eq!(skills.dash_target, Vec2::zero());
    assert_eq!(skills.dash_start_position, Vec2::zero());
}

#[test]
fn boss_dash_completes_near_the_target() {
    let mut skills = dashing_from_origin();
    skills.dash_target = Vec2::new(300_000, 0);
    assert!(!skills.update_dash(Vec2::new(250_000, 0), TICK));
    assert!(skills.update_dash(Vec2::new(250_001, 0), TICK));
}

#[test]
fn boss_dash_is_given_up_after_ten_stuck_checks() {
    let mut skills = dashing_from_origin();
    let wall = Vec2::new(100_000, 0);
    assert!(!skills.update_dash(wall, TICK));
    assert_eq!(skills.stuck_frames, 0);
    for n in 1..10 {
        assert!(!skills.update_dash(Vec2::new(100_000 + n as i32 * 10, 0), TICK));
        assert_eq!(skills.stuck_frames, n);
    }
    assert!(skills.update_dash(Vec2::new(100_100, 0), TICK));
    assert_eq!(skills.stuck_frames, 10);
    assert!(!skills.is_dashing);
}

#[test]
fn movement_resets_the_stuck_count() {
    let mut skills = dashing_from_origin();
    assert!(!skills.update_dash(Vec2::new(0, 999), TICK));
    assert_eq!(skills.stuck_frames, 1);
    assert!(!skills.update_dash(Vec2::new(0, 1_998), TICK));
    assert_eq!(skills.stuck_frames, 2);
    assert!(!skills.update_dash(Vec2::new(0, 2_998), TICK));
    assert_eq!(skills.stuck_frames, 0);
    assert_eq!(skills.last_position, Vec2::new(0, 2_998));
}

#[test]
fn boss_dash_times_out_after_two_seconds() {
    let mut skills = dashing_from_origin();
    let mut x: i32 = 0;
    let mut checks = 0;
    loop {
        x += 2_000;
        checks += 1;
        if skills.update_dash(Vec2::new(x, 0), TICK) {
            break;
        }
        assert!(checks < 200);
    }
    assert_eq!(checks, 200);
    assert!(!skills.is_dashing);
    assert!(skills.dash_timer.finished());
}

#[test]
fn dash_ends_within_the_time_left_wherever_the_boss_is() {
    for delta in [1u64, 7_000_000, 16_666_667, 1_999_999_999, 2_000_000_000, 5_000_000_000] {
        let mut skills = dashing_from_origin();
        let needed = (2_000_000_000 + delta - 1) / delta;
        let mut checks: u64 = 0;
        let mut x: i32 = 0;
        while skills.is_dashing && checks < needed.min(1_000) {
            x = if x == 0 { 5_000 } else { 0 };
            skills.update_dash(Vec2::new(x, 0), delta);
            checks += 1;
        }
        if needed <= 1_000 {
            assert!(!skills.is_dashing);
            assert!(checks <= needed);
        }
    }
}

#[test]
fn update_of_a_ready_boss_does_nothing() {
    let mut skills = BossSkills::default();
    let before = skills;
    assert!(!skills.update_dash(Vec2::new(5_000_000, 0), 3_000_000_000));
    assert_eq!(skills, before);
}

#[test]
fn a_dash_can_hit_only_once() {
    let mut skills = dashing_from_origin();
    assert!(skills.can_hit_player());
    skills.mark_player_hit();
    assert!(!skills.can_hit_player());
    assert!(!skills.update_dash(Vec2::new(200_000, 0), TICK));
    assert!(!skills.can_hit_player());
    assert!(skills.update_dash(Vec2::new(900_000, 0), TICK));
    assert!(!skills.can_hit_player());
    assert!(!skills.has_hit_player);
}

#[test]
fn rotation_starts_and_stops() {
    let mut r = RotationAnimation::default();
    assert_eq!(r.speed, 3_000_000);
    assert!(!r.enabled);
    r.start();
    assert!(r.enabled);
    r.stop();
    assert!(!r.enabled);
    assert_eq!(r.speed, 3_000_000);
}

#[test]
fn boss_bundle_carries_the_starting_values() {
    let b = MineBossBundle::new(10_000, 200_000, Vec2::new(200_000, 200_000));
    assert_eq!(b.health.current, 10_000);
    assert_eq!(b.health.max, 10_000);
    assert_eq!(b.speed.value, 200_000);
    assert_eq!(b.skills, BossSkills::default());
    assert_eq!(b.collision_damage.damage_per_second, 20_000);
    assert_eq!(b.collision_damage.damage_interval, 500_000_000);
    assert_eq!(b.collision_damage.last_damage_time, 0);
    assert_eq!(b.collider.radius, 30_000);
    assert_eq!(b.rotation_animation, RotationAnimation::default());
    assert_eq!(b.position, Vec2::new(200_000, 200_000));
}
