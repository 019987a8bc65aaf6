//! Mob spawners: timed, seeded generators of a fixed number of enemies.
//!
//! A spawner becomes active when the player approaches it, then spawns one
//! enemy per interval, drawing each enemy's target number from a fixed option
//! list with a seeded random number generator, until its count reaches zero.
//! Time is measured in milliseconds of in-game (live) time.
use vstd::prelude::*;

use crate::logic::{Target, TargetRule};
use crate::num::Num;

verus! {

/// tinyrand's SplitMix generator, carried opaquely as the seeded per-level
/// random state.
#[verifier::external_type_specification]
#[verifier::external_body]
pub struct ExSplitMix(tinyrand::SplitMix);

/// Relies on tinyrand's `RandRange::next_range` over `u32`, which returns a
/// draw from `0..lim` and panics only on an empty range.
#[verifier::external_body]
fn rand_below(rng: &mut tinyrand::SplitMix, lim: u32) -> (r: u32)
    requires
        lim > 0,
    ensures
        r < lim,
{
    tinyrand::RandRange::next_range(rng, 0..lim)
}

/// Latest accepted in-game clock value, comfortably over a thousand years.
pub const MAX_LIVE_MS: i64 = 0x2000_0000_0000;

/// A spawner of mobs placed in a level.
#[derive(Debug, Clone)]
pub struct MobSpawner {
    /// count of mobs yet to be spawned; the spawner is done at 0
    pub count: u32,
    /// time to wait between spawns, in milliseconds
    pub spawn_interval_ms: u32,
    /// live time of the last spawn, in milliseconds
    pub last_spawn_ms: i64,
    /// the options for the target number, drawn at random per mob
    pub target_options: Vec<Num>,
    /// the rule for attacking the spawned targets
    pub target_rule: TargetRule,
    /// whether it is actively spawning mobs; starts disabled so it can be
    /// placed at level start
    pub active: bool,
}

impl MobSpawner {
    pub open spec fn wf(self) -> bool {
        &&& self.target_options@.len() > 0
        &&& self.target_options@.len() <= 0xFFFF_FFFF
        &&& forall|i: int|
            0 <= i < self.target_options@.len() ==> (#[trigger] self.target_options@[i]).wf()
        &&& self.spawn_interval_ms >= 1
        &&& -0x2_0000_0000 <= self.last_spawn_ms <= MAX_LIVE_MS + 0x10000
    }

    /// A new, inactive spawner under the default (factorize) rule.
    pub fn new(count: u32, spawn_interval_ms: u32, target_options: Vec<Num>) -> (r: MobSpawner)
        requires
            target_options@.len() > 0,
            target_options@.len() <= 0xFFFF_FFFF,
            forall|i: int|
                0 <= i < target_options@.len() ==> (#[trigger] target_options@[i]).wf(),
            spawn_interval_ms >= 1,
        ensures
            r.wf(),
            r == (MobSpawner {
                count,
                spawn_interval_ms,
                last_spawn_ms: 0i64,
                target_options,
                target_rule: TargetRule::Factorize,
                active: false,
            }),
    {
        MobSpawner::new_with_target_rule(
            count,
            spawn_interval_ms,
            target_options,
            TargetRule::Factorize,
        )
    }

    /// A new, inactive spawner under the given rule.
    pub fn new_with_target_rule(
        count: u32,
        spawn_interval_ms: u32,
        target_options: Vec<Num>,
        target_rule: TargetRule,
    ) -> (r: MobSpawner)
        requires
            target_options@.len() > 0,
            target_options@.len() <= 0xFFFF_FFFF,
            forall|i: int|
                0 <= i < target_options@.len() ==> (#[trigger] target_options@[i]).wf(),
            spawn_interval_ms >= 1,
        ensures
            r.wf(),
            r == (MobSpawner {
                count,
                spawn_interval_ms,
                last_spawn_ms: 0i64,
                target_options,
                target_rule,
                active: false,
            }),
    {
        MobSpawner {
            count,
            spawn_interval_ms,
            last_spawn_ms: 0,
            target_options,
            target_rule,
            active: false,
        }
    }

    /// Whether the spawner has spawned everything and should be removed.
    pub fn done(&self) -> (r: bool)
        ensures
            r == (self.count == 0),
    {
        self.count == 0
    }

    /// Start spawning: the first mob is due immediately.
    pub fn activate(&mut self, now_ms: i64)
        requires
            old(self).wf(),
            0 <= now_ms <= MAX_LIVE_MS,
        ensures
            final(self).wf(),
            *final(self) == (MobSpawner {
                active: true,
                last_spawn_ms: (now_ms - old(self).spawn_interval_ms) as i64,
                ..*old(self)
            }),
    {
        self.active = true;
        self.last_spawn_ms = now_ms - self.spawn_interval_ms as i64;
    }

    /// Bring the next spawn forward so that it happens shortly after `now`;
    /// used when no targets are left on the scene. Applies only to a spawner
    /// that is active with mobs left to spawn, and reports whether it did.
    pub fn hurry(&mut self, now_ms: i64) -> (applied: bool)
        requires
            old(self).wf(),
            0 <= now_ms <= MAX_LIVE_MS,
        ensures
            final(self).wf(),
            applied == (old(self).active && old(self).count > 0),
            !applied ==> *final(self) == *old(self),
            applied ==> *final(self) == (MobSpawner {
                last_spawn_ms: (now_ms - old(self).spawn_interval_ms + 150) as i64,
                ..*old(self)
            }),
    {
        if self.active && self.count > 0 {
            self.last_spawn_ms = now_ms - self.spawn_interval_ms as i64 + 150;
            true
        } else {
            false
        }
    }

    /// One polling step at live time `now_ms`: when the spawner is active,
    /// has mobs left, and a full interval has passed since the last spawn,
    /// produce the next mob's combat state, drawing its number from the
    /// option list; otherwise change nothing.
    pub fn spawn_step(&mut self, now_ms: i64, rng: &mut tinyrand::SplitMix) -> (r: Option<Target>)
        requires
            old(self).wf(),
            0 <= now_ms <= MAX_LIVE_MS,
        ensures
            final(self).wf(),
            r.is_some() == (old(self).active && old(self).count > 0 && now_ms - old(
                self,
            ).last_spawn_ms >= old(self).spawn_interval_ms),
            r.is_none() ==> *final(self) == *old(self),
            match r {
                Some(t) => {
                    &&& t.rule == old(self).target_rule
                    &&& t.num.wf()
                    &&& exists|i: int|
                        0 <= i < old(self).target_options@.len() && t.num == old(
                            self,
                        ).target_options@[i]
                    &&& *final(self) == (MobSpawner {
                        count: (old(self).count - 1) as u32,
                        last_spawn_ms: (old(self).last_spawn_ms + old(self).spawn_interval_ms) as i64,
                        ..*old(self)
                    })
                },
                None => true,
            },
    {
        if !self.active || self.count == 0 {
            return None;
        }
        if now_ms - self.last_spawn_ms < self.spawn_interval_ms as i64 {
            return None;
        }
        let lim: u32 = self.target_options.len() as u32;
        let choice = rand_below(rng, lim);
        let num = self.target_options[choice as usize];
        self.last_spawn_ms = self.last_spawn_ms + self.spawn_interval_ms as i64;
        self.count = self.count - 1;
        Some(Target { num, rule: self.target_rule })
    }
}

} // verus!
