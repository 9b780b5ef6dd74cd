//! Per-player cooldown tracking. Times are wall-clock milliseconds handed in
//! by the caller; a cooldown is active while `now` is before its deadline.

use std::collections::HashMap;

use vstd::prelude::*;

use crate::data::{ConsumableCooldownGroup, SkillCooldown, SkillData, SkillGroupId, SkillId};

verus! {

broadcast use vstd::std_specs::hash::group_hash_axioms;

/// Throttle armed by every skill use that passes the cooldown check.
pub const GLOBAL_COOLDOWN_MS: u64 = 250;

/// A cooldown started at `started` that lasts `duration` milliseconds.
#[derive(Clone, Copy, Debug, PartialEq, Eq, Structural)]
pub struct CooldownTimer {
    pub started: u64,
    pub duration: u64,
}

impl CooldownTimer {
    pub open spec fn deadline(self) -> int {
        self.started + self.duration
    }

    pub open spec fn spec_is_active(self, now: u64) -> bool {
        now < self.deadline()
    }

    pub fn is_active(&self, now: u64) -> (r: bool)
        ensures
            r == self.spec_is_active(now),
    {
        now < self.started || now - self.started < self.duration
    }
}

/// Whether an optional timer is present and active at `now`.
pub open spec fn timer_active(timer: Option<CooldownTimer>, now: u64) -> bool {
    match timer {
        Some(t) => t.spec_is_active(now),
        None => false,
    }
}

fn option_timer_active(timer: Option<CooldownTimer>, now: u64) -> (r: bool)
    ensures
        r == timer_active(timer, now),
{
    match timer {
        Some(t) => t.is_active(now),
        None => false,
    }
}

pub struct Cooldowns {
    pub global: Option<CooldownTimer>,
    pub skill: HashMap<SkillId, CooldownTimer>,
    pub skill_group: HashMap<SkillGroupId, CooldownTimer>,
    pub health_recovery: Option<CooldownTimer>,
    pub mana_recovery: Option<CooldownTimer>,
    pub magic_item: Option<CooldownTimer>,
    pub others: Option<CooldownTimer>,
}

impl Cooldowns {
    pub open spec fn spec_consumable(&self, group: ConsumableCooldownGroup) -> Option<
        CooldownTimer,
    > {
        match group {
            ConsumableCooldownGroup::HealthRecovery => self.health_recovery,
            ConsumableCooldownGroup::ManaRecovery => self.mana_recovery,
            ConsumableCooldownGroup::MagicItem => self.magic_item,
            ConsumableCooldownGroup::Others => self.others,
        }
    }

    pub open spec fn spec_has_global_cooldown(&self, now: u64) -> bool {
        timer_active(self.global, now)
    }

    pub open spec fn spec_has_skill_cooldown(&self, id: SkillId, now: u64) -> bool {
        self.skill@.contains_key(id) && self.skill@[id].spec_is_active(now)
    }

    pub open spec fn spec_has_skill_group_cooldown(&self, group: SkillGroupId, now: u64) -> bool {
        self.skill_group@.contains_key(group) && self.skill_group@[group].spec_is_active(now)
    }

    pub open spec fn spec_has_consumable_cooldown(
        &self,
        group: ConsumableCooldownGroup,
        now: u64,
    ) -> bool {
        timer_active(self.spec_consumable(group), now)
    }

    /// Percentage of the cooldown still to run, rounded down.
    pub open spec fn spec_remaining_percent(t: CooldownTimer, now: u64) -> int {
        if now < t.started {
            100
        } else {
            (t.deadline() - now) * 100 / (t.duration as int)
        }
    }

    pub fn new() -> (r: Self)
        ensures
            r.global is None,
            r.skill@ == Map::<SkillId, CooldownTimer>::empty(),
            r.skill_group@ == Map::<SkillGroupId, CooldownTimer>::empty(),
            r.health_recovery is None,
            r.mana_recovery is None,
            r.magic_item is None,
            r.others is None,
    {
        Cooldowns {
            global: None,
            skill: HashMap::new(),
            skill_group: HashMap::new(),
            health_recovery: None,
            mana_recovery: None,
            magic_item: None,
            others: None,
        }
    }

    pub fn has_global_cooldown(&self, now: u64) -> (r: bool)
        ensures
            r == self.spec_has_global_cooldown(now),
    {
        option_timer_active(self.global, now)
    }

    pub fn has_skill_cooldown(&self, id: SkillId, now: u64) -> (r: bool)
        ensures
            r == self.spec_has_skill_cooldown(id, now),
    {
        match self.skill.get(&id) {
            Some(t) => t.is_active(now),
            None => false,
        }
    }

    pub fn has_skill_group_cooldown(&self, group: SkillGroupId, now: u64) -> (r: bool)
        ensures
            r == self.spec_has_skill_group_cooldown(group, now),
    {
        match self.skill_group.get(&group) {
            Some(t) => t.is_active(now),
            None => false,
        }
    }

    fn consumable(&self, group: ConsumableCooldownGroup) -> (r: Option<CooldownTimer>)
        ensures
            r == self.spec_consumable(group),
    {
        match group {
            ConsumableCooldownGroup::HealthRecovery => self.health_recovery,
            ConsumableCooldownGroup::ManaRecovery => self.mana_recovery,
            ConsumableCooldownGroup::MagicItem => self.magic_item,
            ConsumableCooldownGroup::Others => self.others,
        }
    }

    pub fn has_consumable_cooldown(&self, group: ConsumableCooldownGroup, now: u64) -> (r: bool)
        ensures
            r == self.spec_has_consumable_cooldown(group, now),
    {
        option_timer_active(self.consumable(group), now)
    }

    /// How much of the cooldown of `group` is left, in percent, or `None`
    /// when that cooldown is not active.
    pub fn get_consumable_cooldown_percent(&self, group: ConsumableCooldownGroup, now: u64) -> (r:
        Option<u32>)
        ensures
            r is Some <==> self.spec_has_consumable_cooldown(group, now),
            r matches Some(p) ==> p == Self::spec_remaining_percent(
                self.spec_consumable(group).unwrap(),
                now,
            ) && p <= 100,
    {
        match self.consumable(group) {
            Some(t) => {
                if !t.is_active(now) {
                    None
                } else if now < t.started {
                    Some(100)
                } else {
                    let remaining = t.duration - (now - t.started);
                    assert(remaining <= t.duration);
                    assert((remaining as int) * 100 / (t.duration as int) <= 100) by (nonlinear_arith)
                        requires
                            remaining <= t.duration,
                            t.duration > 0,
                    ;
                    let p = (remaining as u128) * 100 / (t.duration as u128);
                    Some(p as u32)
                }
            },
            None => None,
        }
    }

    pub fn set_global_cooldown(&mut self, duration: u64, now: u64)
        ensures
            final(self).global == Some(CooldownTimer { started: now, duration }),
            final(self).skill@ == old(self).skill@,
            final(self).skill_group@ == old(self).skill_group@,
            final(self).health_recovery == old(self).health_recovery,
            final(self).mana_recovery == old(self).mana_recovery,
            final(self).magic_item == old(self).magic_item,
            final(self).others == old(self).others,
    {
        self.global = Some(CooldownTimer { started: now, duration });
    }

    pub fn set_skill_cooldown(&mut self, id: SkillId, duration: u64, now: u64)
        ensures
            final(self).skill@ == old(self).skill@.insert(id, CooldownTimer { started: now, duration }),
            final(self).global == old(self).global,
            final(self).skill_group@ == old(self).skill_group@,
            final(self).health_recovery == old(self).health_recovery,
            final(self).mana_recovery == old(self).mana_recovery,
            final(self).magic_item == old(self).magic_item,
            final(self).others == old(self).others,
    {
        self.skill.insert(id, CooldownTimer { started: now, duration });
    }

    pub fn set_skill_group_cooldown(&mut self, group: SkillGroupId, duration: u64, now: u64)
        ensures
            final(self).skill_group@ == old(self).skill_group@.insert(
                group,
                CooldownTimer { started: now, duration },
            ),
            final(self).global == old(self).global,
            final(self).skill@ == old(self).skill@,
            final(self).health_recovery == old(self).health_recovery,
            final(self).mana_recovery == old(self).mana_recovery,
            final(self).magic_item == old(self).magic_item,
            final(self).others == old(self).others,
    {
        self.skill_group.insert(group, CooldownTimer { started: now, duration });
    }

    pub fn set_consumable_cooldown(
        &mut self,
        group: ConsumableCooldownGroup,
        duration: u64,
        now: u64,
    )
        ensures
            final(self).spec_consumable(group) == Some(CooldownTimer { started: now, duration }),
            group != ConsumableCooldownGroup::HealthRecovery ==> final(self).health_recovery == old(self).health_recovery,
            group != ConsumableCooldownGroup::ManaRecovery ==> final(self).mana_recovery == old(self).mana_recovery,
            group != ConsumableCooldownGroup::MagicItem ==> final(self).magic_item == old(self).magic_item,
            group != ConsumableCooldownGroup::Others ==> final(self).others == old(self).others,
            final(self).global == old(self).global,
            final(self).skill@ == old(self).skill@,
            final(self).skill_group@ == old(self).skill_group@,
    {
        let timer = Some(CooldownTimer { started: now, duration });
        match group {
            ConsumableCooldownGroup::HealthRecovery => self.health_recovery = timer,
            ConsumableCooldownGroup::ManaRecovery => self.mana_recovery = timer,
            ConsumableCooldownGroup::MagicItem => self.magic_item = timer,
            ConsumableCooldownGroup::Others => self.others = timer,
        }
    }

    /// Arms the cooldown that `skill` declares: its own, or its group's.
    pub fn set_cooldown_of_skill(&mut self, skill: &SkillData, now: u64)
        ensures
            final(self).global == old(self).global,
            final(self).health_recovery == old(self).health_recovery,
            final(self).mana_recovery == old(self).mana_recovery,
            final(self).magic_item == old(self).magic_item,
            final(self).others == old(self).others,
            match skill.cooldown {
                SkillCooldown::Skill { duration } => {
                    &&& final(self).skill@ == old(self).skill@.insert(
                        skill.id,
                        CooldownTimer { started: now, duration },
                    )
                    &&& final(self).skill_group@ == old(self).skill_group@
                },
                SkillCooldown::Group { group, duration } => {
                    &&& final(self).skill_group@ == old(self).skill_group@.insert(
                        group,
                        CooldownTimer { started: now, duration },
                    )
                    &&& final(self).skill@ == old(self).skill@
                },
            },
    {
        match skill.cooldown {
            SkillCooldown::Skill { duration } => self.set_skill_cooldown(skill.id, duration, now),
            SkillCooldown::Group { group, duration } => self.set_skill_group_cooldown(
                group,
                duration,
                now,
            ),
        }
    }
}

/// Once the global cooldown is armed at `armed_at` for `duration`, it reads
/// as active at every later instant before the deadline and inactive from
/// the deadline on; so between two instants after arming it never turns
/// back on once it has turned off.
pub proof fn lemma_global_cooldown_monotonic(
    c: Cooldowns,
    armed_at: u64,
    duration: u64,
    t1: u64,
    t2: u64,
)
    requires
        c.global == Some(CooldownTimer { started: armed_at, duration }),
        armed_at <= t1 <= t2,
    ensures
        c.spec_has_global_cooldown(t1) <==> t1 < armed_at + duration,
        !c.spec_has_global_cooldown(t1) ==> !c.spec_has_global_cooldown(t2),
        c.spec_has_global_cooldown(t2) ==> c.spec_has_global_cooldown(t1),
{
}

} // verus!
