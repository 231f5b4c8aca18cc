//! The projectiles in flight, kept in the order in which they were fired.

use vstd::prelude::*;
use crate::components::attributes::collider::Collider;
use crate::components::attributes::health::Health;
use crate::components::entities::weapon::Weapon;
use crate::geometry::Vec2;
use crate::systems::boss_systems::stride;
use crate::systems::weapon_systems::{
    projectile_boss_collision_system, projectile_lifetime_system, projectile_movement_system,
    weapon_firing_system, Aim, ProjectileBundle,
};

verus! {

/// A projectile after `delta_time` nanoseconds of flight along its
/// direction.
pub open spec fn flown(bundle: ProjectileBundle, delta_time: u64) -> ProjectileBundle {
    ProjectileBundle {
        position: bundle.position.moved_along(
            bundle.projectile.direction,
            stride(bundle.speed.value, delta_time),
        ),
        ..bundle
    }
}

/// A projectile that is `delta_time` nanoseconds older.
pub open spec fn aged(bundle: ProjectileBundle, delta_time: u64) -> ProjectileBundle {
    ProjectileBundle {
        projectile: crate::components::entities::weapon::Projectile {
            lifetime_timer: bundle.projectile.lifetime_timer.ticked(delta_time),
            ..bundle.projectile
        },
        ..bundle
    }
}

/// Whether the lifetime of a projectile is over.
pub open spec fn spent(bundle: ProjectileBundle) -> bool {
    bundle.projectile.lifetime_timer.finished
}

/// The projectiles of a sequence after `delta_time` nanoseconds of aging,
/// without those whose lifetime is over, in their old order.
pub open spec fn lasting(bundles: Seq<ProjectileBundle>, delta_time: u64) -> Seq<ProjectileBundle>
    decreases bundles.len(),
{
    if bundles.len() == 0 {
        bundles
    } else {
        let earlier = lasting(bundles.drop_last(), delta_time);
        let last = aged(bundles.last(), delta_time);
        if spent(last) { earlier } else { earlier.push(last) }
    }
}

/// Whether a projectile overlaps the adversary.
pub open spec fn strikes(bundle: ProjectileBundle, boss_position: Vec2, boss_collider: Collider) -> bool {
    bundle.collider.touches(bundle.position, boss_collider, boss_position)
}

/// The projectiles of a sequence that do not overlap the adversary, in
/// their old order.
pub open spec fn passing(
    bundles: Seq<ProjectileBundle>,
    boss_position: Vec2,
    boss_collider: Collider,
) -> Seq<ProjectileBundle>
    decreases bundles.len(),
{
    if bundles.len() == 0 {
        bundles
    } else {
        let earlier = passing(bundles.drop_last(), boss_position, boss_collider);
        if strikes(bundles.last(), boss_position, boss_collider) {
            earlier
        } else {
            earlier.push(bundles.last())
        }
    }
}

/// The health of the adversary after every projectile of a sequence that
/// overlaps it has dealt its damage, one after the other.
pub open spec fn battered(
    health: Health,
    bundles: Seq<ProjectileBundle>,
    boss_position: Vec2,
    boss_collider: Collider,
) -> Health
    decreases bundles.len(),
{
    if bundles.len() == 0 {
        health
    } else {
        let earlier = battered(health, bundles.drop_last(), boss_position, boss_collider);
        if strikes(bundles.last(), boss_position, boss_collider) {
            earlier.damaged(bundles.last().projectile.damage)
        } else {
            earlier
        }
    }
}

/// The projectiles in flight.
pub struct Projectiles {
    pub in_flight: Vec<ProjectileBundle>,
}

impl View for Projectiles {
    type V = Seq<ProjectileBundle>;

    open spec fn view(&self) -> Seq<ProjectileBundle> {
        self.in_flight@
    }
}

/// Aging never adds a projectile.
pub proof fn lemma_lasting_shrinks(bundles: Seq<ProjectileBundle>, delta_time: u64)
    ensures
        lasting(bundles, delta_time).len() <= bundles.len(),
    decreases bundles.len(),
{
    if bundles.len() > 0 {
        lemma_lasting_shrinks(bundles.drop_last(), delta_time);
    }
}

/// Every projectile either passes the adversary or strikes it, and the
/// adversary's health only falls: by nothing where no projectile strikes.
pub proof fn lemma_strikes_accounted(
    health: Health,
    bundles: Seq<ProjectileBundle>,
    boss_position: Vec2,
    boss_collider: Collider,
)
    ensures
        passing(bundles, boss_position, boss_collider).len() <= bundles.len(),
        battered(health, bundles, boss_position, boss_collider).max == health.max,
        battered(health, bundles, boss_position, boss_collider).current <= health.current,
        passing(bundles, boss_position, boss_collider).len() == bundles.len() ==> battered(
            health,
            bundles,
            boss_position,
            boss_collider,
        ) == health,
        health.wf() ==> battered(health, bundles, boss_position, boss_collider).wf(),
    decreases bundles.len(),
{
    if bundles.len() > 0 {
        lemma_strikes_accounted(health, bundles.drop_last(), boss_position, boss_collider);
    }
}

impl Projectiles {
    /// No projectiles.
    pub fn new() -> (projectiles: Projectiles)
        ensures
            projectiles@ == Seq::<ProjectileBundle>::empty(),
    {
        Projectiles { in_flight: Vec::new() }
    }

    /// How many projectiles are in flight.
    pub fn len(&self) -> (count: usize)
        ensures
            count == self@.len(),
    {
        self.in_flight.len()
    }

    /// Advances the weapon by one tick with the trigger held and adds the
    /// projectile that it fires, if it fires one, behind the others.
    /// Returns whether it fired.
    pub fn fire(&mut self, weapon: &mut Weapon, aim: Option<Aim>, delta_time: u64) -> (fired: bool)
        ensures
            *final(weapon) == crate::systems::weapon_systems::weapon_after_tick(
                *old(weapon),
                aim,
                delta_time,
            ),
            fired == crate::systems::weapon_systems::fires(*old(weapon), aim, delta_time),
            final(self)@ == match aim {
                Some(a) => if fired {
                    old(self)@.push(
                        ProjectileBundle::launched(
                            old(weapon).damage,
                            crate::systems::weapon_systems::aim_direction(a),
                            old(weapon).projectile_speed,
                            crate::systems::weapon_systems::PROJECTILE_LIFETIME,
                            a.muzzle,
                        ),
                    )
                } else {
                    old(self)@
                },
                None => old(self)@,
            },
    {
        match weapon_firing_system(weapon, aim, delta_time) {
            Some(bundle) => {
                self.in_flight.push(bundle);
                true
            },
            None => false,
        }
    }

    /// Moves every projectile along its direction for one tick.
    pub fn move_all(&mut self, delta_time: u64)
        ensures
            final(self)@.len() == old(self)@.len(),
            forall|i: int|
                0 <= i < old(self)@.len() ==> #[trigger] final(self)@[i] == flown(
                    old(self)@[i],
                    delta_time,
                ),
    {
        let count: usize = self.in_flight.len();
        let mut index: usize = 0;
        while index < count
            invariant
                index <= count,
                count == old(self)@.len(),
                self@.len() == count,
                forall|i: int| 0 <= i < index ==> #[trigger] self@[i] == flown(old(self)@[i], delta_time),
                forall|i: int| index <= i < count ==> #[trigger] self@[i] == old(self)@[i],
            decreases count - index,
        {
            let mut bundle: ProjectileBundle = self.in_flight[index];
            projectile_movement_system(
                &mut bundle.position,
                &bundle.projectile,
                &bundle.speed,
                delta_time,
            );
            self.in_flight.set(index, bundle);
            index = index + 1;
        }
    }

    /// Ages every projectile by one tick and removes those whose lifetime
    /// is over. The others keep their order. Returns how many were
    /// removed.
    pub fn expire(&mut self, delta_time: u64) -> (removed: usize)
        ensures
            final(self)@ == lasting(old(self)@, delta_time),
            final(self)@.len() <= old(self)@.len(),
            removed == old(self)@.len() - final(self)@.len(),
    {
        let count: usize = self.in_flight.len();
        let mut kept: Vec<ProjectileBundle> = Vec::new();
        let mut index: usize = 0;
        while index < count
            invariant
                index <= count,
                count == self@.len(),
                self@ == old(self)@,
                kept@ == lasting(old(self)@.take(index as int), delta_time),
                kept@.len() <= index,
            decreases count - index,
        {
            let mut bundle: ProjectileBundle = self.in_flight[index];
            let expired: bool = projectile_lifetime_system(&mut bundle.projectile, delta_time);
            proof {
                let upto = old(self)@.take(index as int + 1);
                assert(upto.drop_last() == old(self)@.take(index as int));
                assert(upto.last() == old(self)@[index as int]);
                assert(bundle == aged(old(self)@[index as int], delta_time));
            }
            if !expired {
                kept.push(bundle);
            }
            index = index + 1;
        }
        proof {
            assert(old(self)@.take(count as int) == old(self)@);
            lemma_lasting_shrinks(old(self)@, delta_time);
        }
        let removed: usize = count - kept.len();
        self.in_flight = kept;
        removed
    }

    /// Resolves every projectile against the adversary, in the order in
    /// which they were fired: one that overlaps the adversary deals its
    /// damage and is removed. Returns how many hit.
    pub fn strike_boss(
        &mut self,
        boss_position: Vec2,
        boss_health: &mut Health,
        boss_collider: &Collider,
    ) -> (hits: usize)
        ensures
            final(self)@ == passing(old(self)@, boss_position, *boss_collider),
            *final(boss_health) == battered(
                *old(boss_health),
                old(self)@,
                boss_position,
                *boss_collider,
            ),
            final(self)@.len() <= old(self)@.len(),
            hits == old(self)@.len() - final(self)@.len(),
            hits == 0 ==> *final(boss_health) == *old(boss_health),
            final(boss_health).current <= old(boss_health).current,
            old(boss_health).wf() ==> final(boss_health).wf(),
    {
        let count: usize = self.in_flight.len();
        let mut kept: Vec<ProjectileBundle> = Vec::new();
        let mut index: usize = 0;
        while index < count
            invariant
                index <= count,
                count == self@.len(),
                self@ == old(self)@,
                kept@ == passing(old(self)@.take(index as int), boss_position, *boss_collider),
                kept@.len() <= index,
                *boss_health == battered(
                    *old(boss_health),
                    old(self)@.take(index as int),
                    boss_position,
                    *boss_collider,
                ),
            decreases count - index,
        {
            let bundle: ProjectileBundle = self.in_flight[index];
            proof {
                let upto = old(self)@.take(index as int + 1);
                assert(upto.drop_last() == old(self)@.take(index as int));
                assert(upto.last() == old(self)@[index as int]);
            }
            let hit: bool = projectile_boss_collision_system(
                bundle.position,
                &bundle.projectile,
                &bundle.collider,
                boss_position,
                boss_health,
                boss_collider,
            );
            if !hit {
                kept.push(bundle);
            }
            index = index + 1;
        }
        proof {
            assert(old(self)@.take(count as int) == old(self)@);
            lemma_strikes_accounted(*old(boss_health), old(self)@, boss_position, *boss_collider);
        }
        let hits: usize = count - kept.len();
        self.in_flight = kept;
        hits
    }
}

} // verus!
