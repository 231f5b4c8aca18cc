use arena_combat::components::attributes::{
    Collider, CollisionDamage, Energy, Health, Invulnerability, Speed,
};
use arena_combat::geometry::Vec2;

#[test]
fn health_starts_full() {
    let h = Health::new(100_000);
    assert_eq!(h.current, 100_000);
    assert_eq!(h.max, 100_000);
    assert!(h.is_alive());
    assert_eq!(h.percentage(), 1000);
}

#[test]
fn take_damage_stops_at_zero() {
    let mut h = Health::new(100_000);
    h.take_damage(30_000);
    assert_eq!(h.current, 70_000);
    h.take_damage(0);
    assert_eq!(h.current, 70_000);
    h.take_damage(70_001);
    assert_eq!(h.current, 0);
    assert!(!h.is_alive());
    h.take_damage(u32::MAX);
    assert_eq!(h.current, 0);
}

#[test]
fn heal_stops_at_the_maximum() {
    let mut h = Health::new(100_000);
    h.take_damage(60_000);
    h.heal(25_000);
    assert_eq!(h.current, 65_000);
    h.heal(u32::MAX);
    assert_eq!(h.current, 100_000);
    assert_eq!(h.max, 100_000);
}

#[test]
fn health_stays_between_zero_and_max() {
    let mut h = Health::new(50_000);
    let changes: [(bool, u32); 8] = [
        (true, 20_000),
        (false, 5_000),
        (true, 40_000),
        (false, 90_000),
        (true, u32::MAX),
        (false, 1),
        (false, u32::MAX),
        (true, 49_999),
    ];
    for (damage, amount) in changes {
        if damage {
            h.take_damage(amount);
        } else {
            h.heal(amount);
        }
        assert!(h.current <= h.max);
        assert_eq!(h.max, 50_000);
    }
    assert_eq!(h.current, 1);
}

#[test]
fn health_percentage_is_in_thousandths() {
    let mut h = Health::new(80_000);
    h.take_damage(20_000);
    assert_eq!(h.percentage(), 750);
    assert_eq!(h.health_percentage(), 750);
    let empty = Health::new(0);
    assert_eq!(empty.percentage(), 0);
    assert_eq!(empty.health_percentage(), 0);
    let over = Health { current: 30, max: 10 };
    assert_eq!(over.percentage(), 1000);
    assert_eq!(over.health_percentage(), 3000);
}

#[test]
fn consume_pays_only_what_is_there() {
    let mut e = Energy::new(100_000, 25_000);
    assert!(e.consume(40_000));
    assert_eq!(e.current, 60_000);
    assert!(!e.consume(60_001));
    assert_eq!(e.current, 60_000);
    assert!(e.consume(60_000));
    assert_eq!(e.current, 0);
    assert!(!e.consume(1));
    assert_eq!(e.current, 0);
    assert!(e.consume(0));
}

#[test]
fn can_consume_agrees_with_consume() {
    let mut e = Energy::new(10_000, 0);
    assert!(e.can_consume(10_000));
    assert!(!e.can_consume(10_001));
    assert!(e.consume(10_000));
    assert!(!e.can_consume(1));
}

#[test]
fn recharge_accrues_up_to_the_maximum() {
    let mut e = Energy::new(100_000, 25_000);
    assert!(e.consume(40_000));
    e.recharge(1_000_000_000);
    assert_eq!(e.current, 85_000);
    e.recharge(16_666_667);
    assert_eq!(e.current, 85_416);
    assert!(!e.is_full());
    e.recharge(10_000_000_000);
    assert_eq!(e.current, 100_000);
    assert!(e.is_full());
}

#[test]
fn energy_percentage_is_in_thousandths() {
    let mut e = Energy::new(100_000, 25_000);
    assert_eq!(e.percentage(), 1000);
    assert!(e.consume(40_000));
    assert_eq!(e.percentage(), 600);
    assert_eq!(Energy::new(0, 5).percentage(), 0);
}

#[test]
fn speed_can_be_set_scaled_and_raised() {
    let mut s = Speed::new(300_000);
    assert_eq!(s.value, 300_000);
    s.set(200_000);
    assert_eq!(s.value, 200_000);
    s.modify(1_500);
    assert_eq!(s.value, 300_000);
    s.modify(333);
    assert_eq!(s.value, 99_900);
    s.add(100);
    assert_eq!(s.value, 100_000);
    s.add(u32::MAX);
    assert_eq!(s.value, u32::MAX);
    s.modify(2_000);
    assert_eq!(s.value, u32::MAX);
}

#[test]
fn circles_overlap_below_the_sum_of_the_radii() {
    let player = Collider::new(25_000);
    let boss = Collider::new(30_000);
    let at = Vec2::new(0, 0);
    assert!(player.overlaps(&at, &boss, &Vec2::new(54_999, 0)));
    assert!(!player.overlaps(&at, &boss, &Vec2::new(55_000, 0)));
    assert!(player.overlaps(&at, &boss, &Vec2::new(33_000, 43_999)));
    assert!(!player.overlaps(&at, &boss, &Vec2::new(33_000, 44_000)));
    assert!(boss.overlaps(&Vec2::new(54_999, 0), &player, &at));
}

#[test]
fn contact_damage_is_one_quantum_per_interval() {
    let mut c = CollisionDamage::new(20_000, 500_000_000);
    assert_eq!(c.last_damage_time, 0);
    assert!(!c.can_damage(499_999_999));
    assert!(c.can_damage(500_000_000));
    assert_eq!(c.apply_damage(700_000_000), 10_000);
    assert_eq!(c.last_damage_time, 700_000_000);
    assert!(!c.can_damage(1_199_999_999));
    assert!(c.can_damage(1_200_000_000));
    assert!(!c.can_damage(100));
    assert_eq!(c.apply_damage(5_000_000_000), 10_000);
}

#[test]
fn contact_damage_with_no_interval_is_always_due_after_the_last() {
    let mut c = CollisionDamage::new(20_000, 0);
    assert!(c.can_damage(0));
    assert_eq!(c.apply_damage(10), 0);
    assert!(c.can_damage(10));
    assert!(!c.can_damage(9));
}

#[test]
fn invulnerability_switches() {
    let mut i = Invulnerability::new();
    assert!(!i.is_active());
    i.activate();
    assert!(i.is_active());
    i.deactivate();
    assert!(!i.is_active());
}

#[test]
fn energy_stays_between_zero_and_max() {
    let mut e = Energy::new(50_000, 25_000);
    let steps: [(bool, u64); 8] = [
        (true, 20_000),
        (false, 400_000_000),
        (true, 60_000),
        (true, 40_000),
        (false, 10_000_000_000),
        (true, 50_000),
        (true, 1),
        (false, 1),
    ];
    let paid = [true, false, false, true, false, true, false, false];
    for (index, (consume, amount)) in steps.iter().enumerate() {
        let before = e.current;
        if *consume {
            assert_eq!(e.consume(*amount as u32), paid[index]);
            if !paid[index] {
                assert_eq!(e.current, before);
            }
        } else {
            e.recharge(*amount);
        }
        assert!(e.current <= e.max);
        assert_eq!(e.max, 50_000);
    }
    assert_eq!(e.current, 0);
}
