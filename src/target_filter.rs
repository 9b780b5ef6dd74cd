//! Which entities a targeted skill may be cast on: a fixed boolean rule per
//! filter kind over facts read from the candidate and the caster.

use vstd::prelude::*;

use crate::data::SkillTargetFilter;
use crate::player::{ClientEntityType, PlayerQuery, SkillTargetQuery, DEFAULT_NPC_TEAM_ID};

verus! {

/// What the filter rules read of a candidate target, relative to the caster.
#[derive(Clone, Copy, Debug, PartialEq, Eq, Structural)]
pub struct TargetFacts {
    pub is_alive: bool,
    pub is_caster: bool,
    pub is_party_member: bool,
    pub is_clan_member: bool,
    pub team_id: u32,
    pub entity_type: ClientEntityType,
}

pub open spec fn spec_target_is_valid(
    filter: SkillTargetFilter,
    facts: TargetFacts,
    caster_team_id: u32,
) -> bool {
    let alive = facts.is_alive;
    let character = facts.entity_type == ClientEntityType::Character;
    let monster = facts.entity_type == ClientEntityType::Monster;
    match filter {
        SkillTargetFilter::OnlySelf => alive && facts.is_caster,
        SkillTargetFilter::Group => alive && (facts.is_caster || facts.is_party_member),
        SkillTargetFilter::Guild => alive && (facts.is_caster || facts.is_clan_member),
        SkillTargetFilter::Allied => alive && facts.team_id == caster_team_id,
        SkillTargetFilter::Monster => alive && monster,
        SkillTargetFilter::Enemy => alive && facts.team_id != DEFAULT_NPC_TEAM_ID && facts.team_id
            != caster_team_id,
        SkillTargetFilter::EnemyCharacter => alive && facts.team_id != caster_team_id && character,
        SkillTargetFilter::Character => alive && character,
        SkillTargetFilter::CharacterOrMonster => alive && (character || monster),
        SkillTargetFilter::DeadAlliedCharacter => !alive && facts.team_id == caster_team_id
            && character,
        SkillTargetFilter::EnemyMonster => alive && facts.team_id != caster_team_id && monster,
    }
}

/// Evaluates `filter` on a candidate. The result depends on the filter, the
/// facts and the caster's team alone.
pub fn target_is_valid(filter: SkillTargetFilter, facts: &TargetFacts, caster_team_id: u32) -> (r:
    bool)
    ensures
        r == spec_target_is_valid(filter, *facts, caster_team_id),
{
    let alive = facts.is_alive;
    let character = facts.entity_type == ClientEntityType::Character;
    let monster = facts.entity_type == ClientEntityType::Monster;
    match filter {
        SkillTargetFilter::OnlySelf => alive && facts.is_caster,
        SkillTargetFilter::Group => alive && (facts.is_caster || facts.is_party_member),
        SkillTargetFilter::Guild => alive && (facts.is_caster || facts.is_clan_member),
        SkillTargetFilter::Allied => alive && facts.team_id == caster_team_id,
        SkillTargetFilter::Monster => alive && monster,
        SkillTargetFilter::Enemy => alive && facts.team_id != DEFAULT_NPC_TEAM_ID && facts.team_id
            != caster_team_id,
        SkillTargetFilter::EnemyCharacter => alive && facts.team_id != caster_team_id && character,
        SkillTargetFilter::Character => alive && character,
        SkillTargetFilter::CharacterOrMonster => alive && (character || monster),
        SkillTargetFilter::DeadAlliedCharacter => !alive && facts.team_id == caster_team_id
            && character,
        SkillTargetFilter::EnemyMonster => alive && facts.team_id != caster_team_id && monster,
    }
}

/// The facts of `target` as seen by `player`.
pub open spec fn spec_target_facts(target: &SkillTargetQuery, player: &PlayerQuery) -> TargetFacts {
    TargetFacts {
        is_alive: !(target.command is Die),
        is_caster: target.entity == player.entity,
        is_party_member: match player.party_info {
            Some(party) => party.members@.contains(target.client_entity.id),
            None => false,
        },
        is_clan_member: match (&target.character_info, &player.clan) {
            (Some(info), Some(clan)) => clan.spec_has_member(info.name@),
            _ => false,
        },
        team_id: target.team.id,
        entity_type: target.client_entity.entity_type,
    }
}

pub fn target_facts(target: &SkillTargetQuery, player: &PlayerQuery) -> (r: TargetFacts)
    ensures
        r == spec_target_facts(target, player),
{
    let is_party_member = match &player.party_info {
        Some(party) => party.contains_member(target.client_entity.id),
        None => false,
    };
    let is_clan_member = match (&target.character_info, &player.clan) {
        (Some(info), Some(clan)) => clan.find_member(&info.name).is_some(),
        _ => false,
    };
    TargetFacts {
        is_alive: !target.command.is_die(),
        is_caster: target.entity == player.entity,
        is_party_member,
        is_clan_member,
        team_id: target.team.id,
        entity_type: target.client_entity.entity_type,
    }
}

} // verus!
