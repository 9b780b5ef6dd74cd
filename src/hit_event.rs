//! A hit of one entity on another, by a weapon or a skill.

use vstd::prelude::*;

use crate::data::SkillId;
use crate::world::Entity;

verus! {

pub type EffectId = u16;

#[derive(Clone, Copy, Debug, PartialEq, Eq, Structural)]
pub struct HitEvent {
    pub attacker: Entity,
    pub defender: Entity,
    pub effect_id: Option<EffectId>,
    pub skill_id: Option<SkillId>,
    pub apply_damage: bool,
}

impl HitEvent {
    pub fn with_weapon(attacker: Entity, defender: Entity, effect_id: Option<EffectId>) -> (r: Self)
        ensures
            r == (HitEvent { attacker, defender, effect_id, skill_id: None, apply_damage: true }),
    {
        HitEvent { attacker, defender, effect_id, skill_id: None, apply_damage: true }
    }

    pub fn with_skill(attacker: Entity, defender: Entity, skill_id: SkillId) -> (r: Self)
        ensures
            r == (HitEvent {
                attacker,
                defender,
                effect_id: None,
                skill_id: Some(skill_id),
                apply_damage: true,
            }),
    {
        HitEvent { attacker, defender, effect_id: None, skill_id: Some(skill_id), apply_damage: true }
    }

    pub fn apply_damage(self, apply_damage: bool) -> (r: Self)
        ensures
            r == (HitEvent { apply_damage, ..self }),
    {
        let mut event = self;
        event.apply_damage = apply_damage;
        event
    }
}

} // verus!
