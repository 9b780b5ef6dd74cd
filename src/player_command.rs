//! Intent resolution: turns one player command event into at most one
//! outbound message and at most one chat notice, checking cooldowns,
//! inventory, targets and the equipment slot tables.

use vstd::prelude::*;

use crate::cooldowns::{timer_active, CooldownTimer, GLOBAL_COOLDOWN_MS};
use crate::data::{
    AmmoIndex, ConsumableCooldownGroup, EquipmentIndex, GameData, ItemClass, ItemData,
    ItemReference, ItemType, SkillBasicCommand, SkillCooldown, SkillData, SkillType,
    VehiclePartIndex,
};
use crate::connection::Connection;
use crate::messages::ClientMessage;
use crate::player::{
    first_index_of, hotbar_get, hotbar_set, hotbar_wf, DroppedItem, HotbarSlot, ItemSlot,
    PlayerQuery, SkillSlot, SkillTargetQuery, WorldQuery, DEFAULT_NPC_TEAM_ID,
};
use crate::target_filter::{
    spec_target_facts, spec_target_is_valid, target_facts, target_is_valid, TargetFacts,
};
use crate::world::{ClientEntityId, Entity, Position};

verus! {

/// Cooldown armed by using a magic item.
pub const MAGIC_ITEM_COOLDOWN_MS: u64 = 3000;

/// Cooldown armed by using any other consumable.
pub const CONSUMABLE_COOLDOWN_MS: u64 = 500;

#[derive(Clone, Copy, Debug, PartialEq, Eq, Structural)]
pub enum PlayerCommandEvent {
    UseHotbar(usize, usize),
    UseSkill(SkillSlot),
    UseItem(ItemSlot),
    EquipAmmo(ItemSlot),
    EquipEquipment(ItemSlot),
    EquipVehicle(ItemSlot),
    UnequipAmmo(AmmoIndex),
    UnequipEquipment(EquipmentIndex),
    UnequipVehicle(VehiclePartIndex),
    DropItem(ItemSlot),
    DropMoney(usize),
    Attack(Entity),
    Move(Position, Option<Entity>),
    SetHotbar(usize, usize, Option<HotbarSlot>),
    BankDepositItem(ItemSlot),
    BankWithdrawItem(usize),
}

/// A transient message for the player's chat box.
#[derive(Clone, Copy, Debug, PartialEq, Eq, Structural)]
pub enum Notice {
    /// A cooldown is still running.
    Waiting,
    /// The skill or item has no valid target.
    InvalidTarget,
}

impl Notice {
    pub fn text(&self) -> (r: &'static str)
        ensures
            *self == Notice::Waiting ==> r@ == "Waiting..."@,
            *self == Notice::InvalidTarget ==> r@ == "Invalid target"@,
    {
        match self {
            Notice::Waiting => {
                proof {
                    reveal_strlit("Waiting...");
                }
                "Waiting..."
            },
            Notice::InvalidTarget => {
                proof {
                    reveal_strlit("Invalid target");
                }
                "Invalid target"
            },
        }
    }
}

/// What one event produced.
pub struct Resolution {
    pub message: Option<ClientMessage>,
    pub notice: Option<Notice>,
}

pub open spec fn nothing() -> Resolution {
    Resolution { message: None, notice: None }
}

pub open spec fn send(message: Option<ClientMessage>) -> Resolution {
    Resolution { message, notice: None }
}

pub open spec fn notify(notice: Notice) -> Resolution {
    Resolution { message: None, notice: Some(notice) }
}

/// The part of the player that resolution changes: the global and the
/// consumable cooldowns, and the hotbar.
pub struct PlayerModel {
    pub global: Option<CooldownTimer>,
    pub health_recovery: Option<CooldownTimer>,
    pub mana_recovery: Option<CooldownTimer>,
    pub magic_item: Option<CooldownTimer>,
    pub others: Option<CooldownTimer>,
    pub hotbar: Seq<Seq<Option<HotbarSlot>>>,
}

impl PlayerModel {
    pub open spec fn consumable(self, group: ConsumableCooldownGroup) -> Option<CooldownTimer> {
        match group {
            ConsumableCooldownGroup::HealthRecovery => self.health_recovery,
            ConsumableCooldownGroup::ManaRecovery => self.mana_recovery,
            ConsumableCooldownGroup::MagicItem => self.magic_item,
            ConsumableCooldownGroup::Others => self.others,
        }
    }

    pub open spec fn with_consumable(
        self,
        group: ConsumableCooldownGroup,
        timer: Option<CooldownTimer>,
    ) -> PlayerModel {
        match group {
            ConsumableCooldownGroup::HealthRecovery => PlayerModel {
                health_recovery: timer,
                ..self
            },
            ConsumableCooldownGroup::ManaRecovery => PlayerModel { mana_recovery: timer, ..self },
            ConsumableCooldownGroup::MagicItem => PlayerModel { magic_item: timer, ..self },
            ConsumableCooldownGroup::Others => PlayerModel { others: timer, ..self },
        }
    }
}

/// The changing part of `player`.
pub open spec fn model(player: &PlayerQuery) -> PlayerModel {
    PlayerModel {
        global: player.cooldowns.global,
        health_recovery: player.cooldowns.health_recovery,
        mana_recovery: player.cooldowns.mana_recovery,
        magic_item: player.cooldowns.magic_item,
        others: player.cooldowns.others,
        hotbar: player.hotbar@,
    }
}

/// `a` and `b` agree on everything resolution does not change.
pub open spec fn same_fixed(a: &PlayerQuery, b: &PlayerQuery) -> bool {
    &&& a.entity == b.entity
    &&& a.bank == b.bank
    &&& a.cooldowns.skill@ == b.cooldowns.skill@
    &&& a.cooldowns.skill_group@ == b.cooldowns.skill_group@
    &&& a.inventory == b.inventory
    &&& a.position == b.position
    &&& a.skill_list == b.skill_list
    &&& a.team == b.team
    &&& a.clan == b.clan
    &&& a.party_info == b.party_info
}

/// What a player must satisfy to be resolved for: a well-formed hotbar.
pub open spec fn player_wf(player: &PlayerQuery) -> bool {
    hotbar_wf(player.hotbar@)
}

// ---------------------------------------------------------------------------
// Picking up the nearest dropped item

/// A world height as the protocol's unsigned 16-bit height, saturating.
pub open spec fn spec_height_u16(z: i32) -> u16 {
    if z < 0 {
        0
    } else if z > 65535 {
        65535
    } else {
        z as u16
    }
}

pub fn height_u16(z: i32) -> (r: u16)
    ensures
        r == spec_height_u16(z),
{
    if z < 0 {
        0
    } else if z > 65535 {
        65535
    } else {
        z as u16
    }
}

pub open spec fn planar_distance_squared(a: Position, b: Position) -> int {
    (a.x - b.x) * (a.x - b.x) + (a.y - b.y) * (a.y - b.y)
}

pub fn distance_squared_xy(a: Position, b: Position) -> (r: i128)
    ensures
        r == planar_distance_squared(a, b),
{
    let dx: i128 = a.x as i128 - b.x as i128;
    let dy: i128 = a.y as i128 - b.y as i128;
    assert(-0x1_0000_0000 <= dx <= 0x1_0000_0000 && -0x1_0000_0000 <= dy <= 0x1_0000_0000);
    assert(dx * dx <= 0x1_0000_0000_0000_0000) by (nonlinear_arith)
        requires
            -0x1_0000_0000 <= dx <= 0x1_0000_0000,
    ;
    assert(dy * dy <= 0x1_0000_0000_0000_0000) by (nonlinear_arith)
        requires
            -0x1_0000_0000 <= dy <= 0x1_0000_0000,
    ;
    assert(dx * dx >= 0 && dy * dy >= 0) by (nonlinear_arith);
    dx * dx + dy * dy
}

/// Item `i` is the nearest to `from` in the plane, the first one among equals.
pub open spec fn is_nearest_drop(drops: Seq<DroppedItem>, from: Position, i: int) -> bool {
    &&& 0 <= i < drops.len()
    &&& forall|j: int|
        0 <= j < i ==> planar_distance_squared(#[trigger] drops[j].position, from)
            > planar_distance_squared(drops[i].position, from)
    &&& forall|j: int|
        i < j < drops.len() ==> planar_distance_squared(#[trigger] drops[j].position, from)
            >= planar_distance_squared(drops[i].position, from)
}

pub open spec fn spec_nearest_drop(drops: Seq<DroppedItem>, from: Position) -> Option<int> {
    if exists|i: int| is_nearest_drop(drops, from, i) {
        Some(choose|i: int| is_nearest_drop(drops, from, i))
    } else {
        None
    }
}

proof fn lemma_nearest_unique(drops: Seq<DroppedItem>, from: Position, i: int, k: int)
    requires
        is_nearest_drop(drops, from, i),
        is_nearest_drop(drops, from, k),
    ensures
        i == k,
{
    if i < k {
        assert(planar_distance_squared(drops[i].position, from) > planar_distance_squared(
            drops[k].position,
            from,
        ));
    } else if k < i {
        assert(planar_distance_squared(drops[k].position, from) > planar_distance_squared(
            drops[i].position,
            from,
        ));
    }
}

/// The dropped item nearest to `from` in the plane; the first among equals.
pub fn nearest_item_drop(drops: &Vec<DroppedItem>, from: Position) -> (r: Option<usize>)
    ensures
        r matches Some(i) ==> i < drops@.len() && spec_nearest_drop(drops@, from) == Some(i as int),
        r is None <==> drops@.len() == 0,
        r is None ==> spec_nearest_drop(drops@, from) is None,
{
    if drops.len() == 0 {
        return None;
    }
    let mut best: usize = 0;
    let mut best_distance = distance_squared_xy(drops[0].position, from);
    let mut i: usize = 1;
    while i < drops.len()
        invariant
            1 <= i <= drops@.len(),
            best < i,
            best_distance == planar_distance_squared(drops@[best as int].position, from),
            forall|j: int|
                0 <= j < best ==> planar_distance_squared(#[trigger] drops@[j].position, from)
                    > best_distance,
            forall|j: int|
                best < j < i ==> planar_distance_squared(#[trigger] drops@[j].position, from)
                    >= best_distance,
        decreases drops@.len() - i,
    {
        let distance = distance_squared_xy(drops[i].position, from);
        if distance < best_distance {
            best = i;
            best_distance = distance;
        }
        i = i + 1;
    }
    proof {
        assert(is_nearest_drop(drops@, from, best as int));
        let c = choose|c: int| is_nearest_drop(drops@, from, c);
        lemma_nearest_unique(drops@, from, c, best as int);
    }
    Some(best)
}

// ---------------------------------------------------------------------------
// Skills

/// The id of the entity a target-requiring skill is cast on: the selected
/// entity, or the caster when nothing is selected, if it is in view and
/// passes the skill's filter.
pub open spec fn spec_skill_target(
    player: &PlayerQuery,
    world: &WorldQuery,
    selected_target: Option<Entity>,
    skill: SkillData,
) -> Option<ClientEntityId> {
    let candidate = match selected_target {
        Some(e) => e,
        None => player.entity,
    };
    match first_index_of(world.entities@, candidate) {
        Some(i) => if spec_target_is_valid(
            skill.target_filter,
            spec_target_facts(&world.entities@[i], player),
            player.team.id,
        ) {
            Some(world.entities@[i].client_entity.id)
        } else {
            None
        },
        None => None,
    }
}

pub fn skill_target(
    player: &PlayerQuery,
    world: &WorldQuery,
    selected_target: Option<Entity>,
    skill: &SkillData,
) -> (r: Option<ClientEntityId>)
    ensures
        r == spec_skill_target(player, world, selected_target, *skill),
{
    let candidate = match selected_target {
        Some(e) => e,
        None => player.entity,
    };
    match world.find(candidate) {
        Some(i) => {
            let target = &world.entities[i];
            let facts = target_facts(target, player);
            if target_is_valid(skill.target_filter, &facts, player.team.id) {
                Some(target.client_entity.id)
            } else {
                None
            }
        },
        None => None,
    }
}

/// Whether a skill is blocked: by its own or its group's cooldown, or by
/// the global cooldown.
pub open spec fn spec_skill_blocked(
    player: &PlayerQuery,
    m: PlayerModel,
    skill: SkillData,
    now: u64,
) -> bool {
    let own = match skill.cooldown {
        SkillCooldown::Skill { .. } => player.cooldowns.spec_has_skill_cooldown(skill.id, now),
        SkillCooldown::Group { group, .. } => player.cooldowns.spec_has_skill_group_cooldown(
            group,
            now,
        ),
    };
    own || timer_active(m.global, now)
}

/// The message of a basic-action skill.
pub open spec fn spec_basic_action(
    player: &PlayerQuery,
    world: &WorldQuery,
    selected_target: Option<Entity>,
    skill: SkillData,
) -> Option<ClientMessage> {
    match skill.basic_command {
        Some(SkillBasicCommand::Sit) => Some(ClientMessage::SitToggle),
        Some(SkillBasicCommand::PickupItem) => match spec_nearest_drop(
            world.dropped_items@,
            player.position,
        ) {
            Some(i) => {
                let drop = world.dropped_items@[i];
                Some(
                    ClientMessage::Move {
                        target_entity_id: Some(drop.client_entity.id),
                        x: drop.position.x,
                        y: drop.position.y,
                        z: spec_height_u16(drop.position.z),
                    },
                )
            },
            None => None,
        },
        Some(SkillBasicCommand::Attack) => match selected_target {
            Some(e) => match world.spec_team_of(e) {
                Some((target, team)) => if team.id != DEFAULT_NPC_TEAM_ID && team.id
                    != player.team.id {
                    Some(ClientMessage::Attack { target_entity_id: target.id })
                } else {
                    None
                },
                None => None,
            },
            None => None,
        },
        Some(SkillBasicCommand::Jump) | Some(SkillBasicCommand::AirJump) => match skill.action_motion_id {
            Some(motion_id) => Some(ClientMessage::UseEmote { motion_id, is_stop: true }),
            None => None,
        },
        Some(SkillBasicCommand::PartyInvite) => match selected_target {
            Some(e) => match world.spec_team_of(e) {
                Some((target, team)) => if team.id == player.team.id {
                    if player.party_info is None {
                        Some(ClientMessage::PartyCreate { invited_entity_id: target.id })
                    } else {
                        Some(ClientMessage::PartyInvite { invited_entity_id: target.id })
                    }
                } else {
                    None
                },
                None => None,
            },
            None => None,
        },
        Some(SkillBasicCommand::DriveVehicle) => Some(ClientMessage::DriveToggle),
        _ => None,
    }
}

fn basic_action(
    player: &PlayerQuery,
    world: &WorldQuery,
    selected_target: Option<Entity>,
    skill: &SkillData,
) -> (r: Option<ClientMessage>)
    ensures
        r == spec_basic_action(player, world, selected_target, *skill),
{
    match skill.basic_command {
        Some(SkillBasicCommand::Sit) => Some(ClientMessage::SitToggle),
        Some(SkillBasicCommand::PickupItem) => match nearest_item_drop(
            &world.dropped_items,
            player.position,
        ) {
            Some(i) => {
                let drop = world.dropped_items[i];
                Some(
                    ClientMessage::Move {
                        target_entity_id: Some(drop.client_entity.id),
                        x: drop.position.x,
                        y: drop.position.y,
                        z: height_u16(drop.position.z),
                    },
                )
            },
            None => None,
        },
        Some(SkillBasicCommand::Attack) => match selected_target {
            Some(e) => match world.team_of(e) {
                Some((target, team)) => if team.id != DEFAULT_NPC_TEAM_ID && team.id
                    != player.team.id {
                    Some(ClientMessage::Attack { target_entity_id: target.id })
                } else {
                    None
                },
                None => None,
            },
            None => None,
        },
        Some(SkillBasicCommand::Jump) | Some(SkillBasicCommand::AirJump) => match skill.action_motion_id {
            Some(motion_id) => Some(ClientMessage::UseEmote { motion_id, is_stop: true }),
            None => None,
        },
        Some(SkillBasicCommand::PartyInvite) => match selected_target {
            Some(e) => match world.team_of(e) {
                Some((target, team)) => if team.id == player.team.id {
                    if player.party_info.is_none() {
                        Some(ClientMessage::PartyCreate { invited_entity_id: target.id })
                    } else {
                        Some(ClientMessage::PartyInvite { invited_entity_id: target.id })
                    }
                } else {
                    None
                },
                None => None,
            },
            None => None,
        },
        Some(SkillBasicCommand::DriveVehicle) => Some(ClientMessage::DriveToggle),
        _ => None,
    }
}

/// Using the skill in `skill_slot`: nothing when the slot or its data is
/// missing; a `Waiting` notice when blocked by a cooldown; otherwise the
/// global cooldown is armed and the skill's message (or an `InvalidTarget`
/// notice) follows from its type.
pub open spec fn spec_use_skill(
    player: &PlayerQuery,
    m: PlayerModel,
    world: &WorldQuery,
    game_data: &GameData,
    selected_target: Option<Entity>,
    skill_slot: SkillSlot,
    now: u64,
) -> (PlayerModel, Resolution) {
    match player.skill_list.spec_get_skill(skill_slot) {
        None => (m, nothing()),
        Some(id) => match game_data.skills.spec_get_skill(id) {
            None => (m, nothing()),
            Some(skill) => if spec_skill_blocked(player, m, skill, now) {
                (m, notify(Notice::Waiting))
            } else {
                let armed = PlayerModel {
                    global: Some(CooldownTimer { started: now, duration: GLOBAL_COOLDOWN_MS }),
                    ..m
                };
                let t = skill.skill_type;
                let resolution = if t == SkillType::BasicAction {
                    send(spec_basic_action(player, world, selected_target, skill))
                } else if t == SkillType::Emote {
                    send(
                        match skill.action_motion_id {
                            Some(motion_id) => Some(
                                ClientMessage::UseEmote { motion_id, is_stop: true },
                            ),
                            None => None,
                        },
                    )
                } else if t.spec_targets_self() {
                    send(Some(ClientMessage::CastSkillSelf { skill_slot }))
                } else if t.spec_requires_target() {
                    match spec_skill_target(player, world, selected_target, skill) {
                        Some(target_entity_id) => send(
                            Some(ClientMessage::CastSkillTargetEntity { skill_slot, target_entity_id }),
                        ),
                        None => notify(Notice::InvalidTarget),
                    }
                } else {
                    nothing()
                };
                (armed, resolution)
            },
        },
    }
}

pub fn use_skill(
    player: &mut PlayerQuery,
    world: &WorldQuery,
    game_data: &GameData,
    selected_target: Option<Entity>,
    skill_slot: SkillSlot,
    now: u64,
) -> (r: Resolution)
    ensures
        same_fixed(final(player), old(player)),
        (model(final(player)), r) == spec_use_skill(
            old(player),
            model(old(player)),
            world,
            game_data,
            selected_target,
            skill_slot,
            now,
        ),
{
    let skill = match player.skill_list.get_skill(skill_slot) {
        Some(id) => match game_data.skills.get_skill(id) {
            Some(skill) => skill,
            None => return Resolution { message: None, notice: None },
        },
        None => return Resolution { message: None, notice: None },
    };
    let own = match skill.cooldown {
        SkillCooldown::Skill { .. } => player.cooldowns.has_skill_cooldown(skill.id, now),
        SkillCooldown::Group { group, .. } => player.cooldowns.has_skill_group_cooldown(group, now),
    };
    if own || player.cooldowns.has_global_cooldown(now) {
        return Resolution { message: None, notice: Some(Notice::Waiting) };
    }
    player.cooldowns.set_global_cooldown(GLOBAL_COOLDOWN_MS, now);
    let t = skill.skill_type;
    if t == SkillType::BasicAction {
        Resolution { message: basic_action(player, world, selected_target, &skill), notice: None }
    } else if t == SkillType::Emote {
        let message = match skill.action_motion_id {
            Some(motion_id) => Some(ClientMessage::UseEmote { motion_id, is_stop: true }),
            None => None,
        };
        Resolution { message, notice: None }
    } else if t.targets_self() {
        Resolution { message: Some(ClientMessage::CastSkillSelf { skill_slot }), notice: None }
    } else if t.requires_target() {
        match skill_target(player, world, selected_target, &skill) {
            Some(target_entity_id) => Resolution {
                message: Some(ClientMessage::CastSkillTargetEntity { skill_slot, target_entity_id }),
                notice: None,
            },
            None => Resolution { message: None, notice: Some(Notice::InvalidTarget) },
        }
    } else {
        Resolution { message: None, notice: None }
    }
}

/// The facts and id of the entity a target-requiring skill would be cast
/// on (the selection, or the caster), when it is in view.
pub open spec fn spec_candidate(
    player: &PlayerQuery,
    world: &WorldQuery,
    selected_target: Option<Entity>,
) -> Option<(TargetFacts, ClientEntityId)> {
    let candidate = match selected_target {
        Some(e) => e,
        None => player.entity,
    };
    match first_index_of(world.entities@, candidate) {
        Some(i) => Some(
            (spec_target_facts(&world.entities@[i], player), world.entities@[i].client_entity.id),
        ),
        None => None,
    }
}

/// Two uses of the same target-requiring skill that pass their cooldown
/// checks, by casters of the same team, on candidates with the same facts
/// and id, give the same message and the same notice, whatever state each
/// run was in otherwise: target validity depends on the filter kind, the
/// target's facts and the caster's team alone.
pub proof fn lemma_targeted_skill_depends_on_facts(
    p1: &PlayerQuery,
    m1: PlayerModel,
    w1: &WorldQuery,
    selected1: Option<Entity>,
    p2: &PlayerQuery,
    m2: PlayerModel,
    w2: &WorldQuery,
    selected2: Option<Entity>,
    game_data: &GameData,
    skill_slot: SkillSlot,
    now1: u64,
    now2: u64,
)
    requires
        p1.skill_list.spec_get_skill(skill_slot) == p2.skill_list.spec_get_skill(skill_slot),
        p1.skill_list.spec_get_skill(skill_slot) matches Some(id) && game_data.skills.spec_get_skill(id)
            matches Some(skill) && skill.skill_type.spec_requires_target() && !spec_skill_blocked(
            p1,
            m1,
            skill,
            now1,
        ) && !spec_skill_blocked(p2, m2, skill, now2),
        p1.team.id == p2.team.id,
        spec_candidate(p1, w1, selected1) == spec_candidate(p2, w2, selected2),
    ensures
        spec_use_skill(p1, m1, w1, game_data, selected1, skill_slot, now1).1 == spec_use_skill(
            p2,
            m2,
            w2,
            game_data,
            selected2,
            skill_slot,
            now2,
        ).1,
{
    let skill = game_data.skills.spec_get_skill(p1.skill_list.spec_get_skill(skill_slot)->0)->0;
    assert(spec_skill_target(p1, w1, selected1, skill) == spec_skill_target(
        p2,
        w2,
        selected2,
        skill,
    ));
}

/// While a global cooldown armed at `armed_at` runs, using any skill the
/// player has sends nothing, gives one `Waiting` notice and re-arms nothing.
pub proof fn lemma_global_cooldown_blocks_skills(
    player: &PlayerQuery,
    m: PlayerModel,
    world: &WorldQuery,
    game_data: &GameData,
    selected_target: Option<Entity>,
    skill_slot: SkillSlot,
    armed_at: u64,
    now: u64,
)
    requires
        m.global == Some(CooldownTimer { started: armed_at, duration: GLOBAL_COOLDOWN_MS }),
        armed_at <= now,
        now < armed_at + GLOBAL_COOLDOWN_MS,
        player.skill_list.spec_get_skill(skill_slot) matches Some(id)
            && game_data.skills.spec_get_skill(id) is Some,
    ensures
        spec_use_skill(player, m, world, game_data, selected_target, skill_slot, now) == (
            m,
            notify(Notice::Waiting),
        ),
        spec_resolve(
            player,
            m,
            world,
            game_data,
            selected_target,
            PlayerCommandEvent::UseSkill(skill_slot),
            now,
        ) == (m, notify(Notice::Waiting)),
{
}

// ---------------------------------------------------------------------------
// Items

pub open spec fn spec_consumable_cooldown_ms(group: ConsumableCooldownGroup) -> u64 {
    if group == ConsumableCooldownGroup::MagicItem {
        MAGIC_ITEM_COOLDOWN_MS
    } else {
        CONSUMABLE_COOLDOWN_MS
    }
}

/// A magic item whose skill is of a target-requiring type needs a selected target.
pub open spec fn spec_item_needs_target(game_data: &GameData, data: ItemData) -> bool {
    data.class == ItemClass::MagicItem && match data.use_skill_id {
        Some(id) => match game_data.skills.spec_get_skill(id) {
            Some(skill) => skill.skill_type.spec_requires_target(),
            None => false,
        },
        None => false,
    }
}

/// The id of the selected entity, if it is in view with a team.
pub open spec fn spec_selected_team_target(world: &WorldQuery, selected_target: Option<Entity>) -> Option<
    ClientEntityId,
> {
    match selected_target {
        Some(e) => match world.spec_team_of(e) {
            Some((target, _)) => Some(target.id),
            None => None,
        },
        None => None,
    }
}

/// Using the item in `item_slot`: only consumables the data knows do
/// anything; repair tools and quest scrolls are not handled here; a running
/// cooldown of the item's group gives `Waiting`; a target-bound magic item
/// without a selected target gives `InvalidTarget`; otherwise the group's
/// cooldown is armed and the item is used.
pub open spec fn spec_use_item(
    player: &PlayerQuery,
    m: PlayerModel,
    world: &WorldQuery,
    game_data: &GameData,
    selected_target: Option<Entity>,
    item_slot: ItemSlot,
    now: u64,
) -> (PlayerModel, Resolution) {
    match player.inventory.spec_get_item(item_slot) {
        None => (m, nothing()),
        Some(item) => if item.item_type != ItemType::Consumable {
            (m, nothing())
        } else {
            match game_data.items.spec_get_item(
                ItemReference { item_type: ItemType::Consumable, item_number: item.item_number },
            ) {
                None => (m, nothing()),
                Some(data) => {
                    let group = data.cooldown_group;
                    let needs_target = spec_item_needs_target(game_data, data);
                    let target = spec_selected_team_target(world, selected_target);
                    if data.class == ItemClass::RepairTool || data.class == ItemClass::QuestScroll {
                        (m, nothing())
                    } else if timer_active(m.consumable(group), now) {
                        (m, notify(Notice::Waiting))
                    } else if needs_target && target is None {
                        (m, notify(Notice::InvalidTarget))
                    } else {
                        (
                            m.with_consumable(
                                group,
                                Some(
                                    CooldownTimer {
                                        started: now,
                                        duration: spec_consumable_cooldown_ms(group),
                                    },
                                ),
                            ),
                            send(
                                Some(
                                    ClientMessage::UseItem {
                                        item_slot,
                                        target_entity_id: if needs_target {
                                            target
                                        } else {
                                            None
                                        },
                                    },
                                ),
                            ),
                        )
                    }
                },
            }
        },
    }
}

fn selected_team_target(world: &WorldQuery, selected_target: Option<Entity>) -> (r: Option<
    ClientEntityId,
>)
    ensures
        r == spec_selected_team_target(world, selected_target),
{
    match selected_target {
        Some(e) => match world.team_of(e) {
            Some((target, _)) => Some(target.id),
            None => None,
        },
        None => None,
    }
}

fn item_needs_target(game_data: &GameData, data: &ItemData) -> (r: bool)
    ensures
        r == spec_item_needs_target(game_data, *data),
{
    if data.class != ItemClass::MagicItem {
        return false;
    }
    match data.use_skill_id {
        Some(id) => match game_data.skills.get_skill(id) {
            Some(skill) => skill.skill_type.requires_target(),
            None => false,
        },
        None => false,
    }
}

pub fn use_item(
    player: &mut PlayerQuery,
    world: &WorldQuery,
    game_data: &GameData,
    selected_target: Option<Entity>,
    item_slot: ItemSlot,
    now: u64,
) -> (r: Resolution)
    requires
        game_data.wf(),
    ensures
        same_fixed(final(player), old(player)),
        (model(final(player)), r) == spec_use_item(
            old(player),
            model(old(player)),
            world,
            game_data,
            selected_target,
            item_slot,
            now,
        ),
{
    let item = match player.inventory.get_item(item_slot) {
        Some(item) => item,
        None => return Resolution { message: None, notice: None },
    };
    if item.get_item_type() != ItemType::Consumable {
        // Equipment is equipped through its own events.
        return Resolution { message: None, notice: None };
    }
    let data = match game_data.items.get_consumable_item(item.get_item_number()) {
        Some(data) => data,
        None => return Resolution { message: None, notice: None },
    };
    let group = match ConsumableCooldownGroup::from_item(&item.get_item_reference(), game_data) {
        Some(group) => group,
        None => return Resolution { message: None, notice: None },
    };
    let duration = if group == ConsumableCooldownGroup::MagicItem {
        MAGIC_ITEM_COOLDOWN_MS
    } else {
        CONSUMABLE_COOLDOWN_MS
    };
    if data.class == ItemClass::RepairTool || data.class == ItemClass::QuestScroll {
        return Resolution { message: None, notice: None };
    }
    if player.cooldowns.get_consumable_cooldown_percent(group, now).is_some() {
        return Resolution { message: None, notice: Some(Notice::Waiting) };
    }
    let mut target_entity_id = None;
    if item_needs_target(game_data, &data) {
        match selected_team_target(world, selected_target) {
            Some(id) => {
                target_entity_id = Some(id);
            },
            None => return Resolution { message: None, notice: Some(Notice::InvalidTarget) },
        }
    }
    player.cooldowns.set_consumable_cooldown(group, duration, now);
    Resolution { message: Some(ClientMessage::UseItem { item_slot, target_entity_id }), notice: None }
}

// ---------------------------------------------------------------------------
// Equipment slot tables

pub open spec fn spec_ammo_index(class: ItemClass) -> Option<AmmoIndex> {
    match class {
        ItemClass::Arrow => Some(AmmoIndex::Arrow),
        ItemClass::Bullet => Some(AmmoIndex::Bullet),
        ItemClass::Shell => Some(AmmoIndex::Throw),
        _ => None,
    }
}

pub fn ammo_index_for(class: ItemClass) -> (r: Option<AmmoIndex>)
    ensures
        r == spec_ammo_index(class),
{
    match class {
        ItemClass::Arrow => Some(AmmoIndex::Arrow),
        ItemClass::Bullet => Some(AmmoIndex::Bullet),
        ItemClass::Shell => Some(AmmoIndex::Throw),
        _ => None,
    }
}

pub open spec fn spec_vehicle_part_index(class: ItemClass) -> Option<VehiclePartIndex> {
    match class {
        ItemClass::CartBody | ItemClass::CastleGearBody => Some(VehiclePartIndex::Body),
        ItemClass::CartEngine | ItemClass::CastleGearEngine => Some(VehiclePartIndex::Engine),
        ItemClass::CartWheels | ItemClass::CastleGearLeg => Some(VehiclePartIndex::Leg),
        ItemClass::CartAccessory | ItemClass::CastleGearWeapon => Some(VehiclePartIndex::Arms),
        _ => None,
    }
}

pub fn vehicle_part_index_for(class: ItemClass) -> (r: Option<VehiclePartIndex>)
    ensures
        r == spec_vehicle_part_index(class),
{
    match class {
        ItemClass::CartBody | ItemClass::CastleGearBody => Some(VehiclePartIndex::Body),
        ItemClass::CartEngine | ItemClass::CastleGearEngine => Some(VehiclePartIndex::Engine),
        ItemClass::CartWheels | ItemClass::CastleGearLeg => Some(VehiclePartIndex::Leg),
        ItemClass::CartAccessory | ItemClass::CastleGearWeapon => Some(VehiclePartIndex::Arms),
        _ => None,
    }
}

pub open spec fn spec_jewellery_index(class: ItemClass) -> Option<EquipmentIndex> {
    match class {
        ItemClass::Ring => Some(EquipmentIndex::Ring),
        ItemClass::Necklace => Some(EquipmentIndex::Necklace),
        ItemClass::Earring => Some(EquipmentIndex::Earring),
        _ => None,
    }
}

/// The equipment slot of an item: by its type, and for jewellery by the
/// class its data gives.
pub open spec fn spec_equipment_index(item_type: ItemType, jewellery: Option<ItemData>) -> Option<
    EquipmentIndex,
> {
    match item_type {
        ItemType::Face => Some(EquipmentIndex::Face),
        ItemType::Head => Some(EquipmentIndex::Head),
        ItemType::Body => Some(EquipmentIndex::Body),
        ItemType::Hands => Some(EquipmentIndex::Hands),
        ItemType::Feet => Some(EquipmentIndex::Feet),
        ItemType::Back => Some(EquipmentIndex::Back),
        ItemType::Jewellery => match jewellery {
            Some(data) => spec_jewellery_index(data.class),
            None => None,
        },
        ItemType::Weapon => Some(EquipmentIndex::Weapon),
        ItemType::SubWeapon => Some(EquipmentIndex::SubWeapon),
        _ => None,
    }
}

pub fn equipment_index_for(item_type: ItemType, jewellery: Option<ItemData>) -> (r: Option<
    EquipmentIndex,
>)
    ensures
        r == spec_equipment_index(item_type, jewellery),
{
    match item_type {
        ItemType::Face => Some(EquipmentIndex::Face),
        ItemType::Head => Some(EquipmentIndex::Head),
        ItemType::Body => Some(EquipmentIndex::Body),
        ItemType::Hands => Some(EquipmentIndex::Hands),
        ItemType::Feet => Some(EquipmentIndex::Feet),
        ItemType::Back => Some(EquipmentIndex::Back),
        ItemType::Jewellery => match jewellery {
            Some(data) => match data.class {
                ItemClass::Ring => Some(EquipmentIndex::Ring),
                ItemClass::Necklace => Some(EquipmentIndex::Necklace),
                ItemClass::Earring => Some(EquipmentIndex::Earring),
                _ => None,
            },
            None => None,
        },
        ItemType::Weapon => Some(EquipmentIndex::Weapon),
        ItemType::SubWeapon => Some(EquipmentIndex::SubWeapon),
        _ => None,
    }
}

pub open spec fn spec_equip_ammo(player: &PlayerQuery, game_data: &GameData, item_slot: ItemSlot) -> Option<
    ClientMessage,
> {
    match player.inventory.spec_get_item(item_slot) {
        Some(item) => match game_data.items.spec_get_item(
            ItemReference { item_type: item.item_type, item_number: item.item_number },
        ) {
            Some(data) => match spec_ammo_index(data.class) {
                Some(ammo_index) => Some(
                    ClientMessage::ChangeAmmo { ammo_index, item_slot: Some(item_slot) },
                ),
                None => None,
            },
            None => None,
        },
        None => None,
    }
}

pub open spec fn spec_equip_equipment(
    player: &PlayerQuery,
    game_data: &GameData,
    item_slot: ItemSlot,
) -> Option<ClientMessage> {
    match player.inventory.spec_get_item(item_slot) {
        Some(item) => match spec_equipment_index(
            item.item_type,
            game_data.items.spec_get_item(
                ItemReference { item_type: ItemType::Jewellery, item_number: item.item_number },
            ),
        ) {
            Some(equipment_index) => Some(
                ClientMessage::ChangeEquipment { equipment_index, item_slot: Some(item_slot) },
            ),
            None => None,
        },
        None => None,
    }
}

pub open spec fn spec_equip_vehicle(player: &PlayerQuery, game_data: &GameData, item_slot: ItemSlot) -> Option<
    ClientMessage,
> {
    match player.inventory.spec_get_item(item_slot) {
        Some(item) => match game_data.items.spec_get_item(
            ItemReference { item_type: item.item_type, item_number: item.item_number },
        ) {
            Some(data) => match spec_vehicle_part_index(data.class) {
                Some(vehicle_part_index) => Some(
                    ClientMessage::ChangeVehiclePart {
                        vehicle_part_index,
                        item_slot: Some(item_slot),
                    },
                ),
                None => None,
            },
            None => None,
        },
        None => None,
    }
}

fn equip_ammo(player: &PlayerQuery, game_data: &GameData, item_slot: ItemSlot) -> (r: Option<
    ClientMessage,
>)
    requires
        game_data.wf(),
    ensures
        r == spec_equip_ammo(player, game_data, item_slot),
{
    let item = player.inventory.get_item(item_slot)?;
    let data = game_data.items.get_base_item(item.get_item_reference())?;
    let ammo_index = ammo_index_for(data.class)?;
    Some(ClientMessage::ChangeAmmo { ammo_index, item_slot: Some(item_slot) })
}

fn equip_equipment(player: &PlayerQuery, game_data: &GameData, item_slot: ItemSlot) -> (r: Option<
    ClientMessage,
>)
    requires
        game_data.wf(),
    ensures
        r == spec_equip_equipment(player, game_data, item_slot),
{
    let item = player.inventory.get_item(item_slot)?;
    let jewellery = game_data.items.get_jewellery_item(item.get_item_number());
    let equipment_index = equipment_index_for(item.get_item_type(), jewellery)?;
    Some(ClientMessage::ChangeEquipment { equipment_index, item_slot: Some(item_slot) })
}

fn equip_vehicle(player: &PlayerQuery, game_data: &GameData, item_slot: ItemSlot) -> (r: Option<
    ClientMessage,
>)
    requires
        game_data.wf(),
    ensures
        r == spec_equip_vehicle(player, game_data, item_slot),
{
    let item = player.inventory.get_item(item_slot)?;
    let data = game_data.items.get_base_item(item.get_item_reference())?;
    let vehicle_part_index = vehicle_part_index_for(data.class)?;
    Some(ClientMessage::ChangeVehiclePart { vehicle_part_index, item_slot: Some(item_slot) })
}

// ---------------------------------------------------------------------------
// One event

/// A hotbar press stands for the skill or item bound to the slot; any other
/// binding, an empty slot or any other event is left as it is.
pub open spec fn spec_redirect(
    hotbar: Seq<Seq<Option<HotbarSlot>>>,
    event: PlayerCommandEvent,
) -> PlayerCommandEvent {
    match event {
        PlayerCommandEvent::UseHotbar(page, index) => match hotbar_get(hotbar, page, index) {
            Some(HotbarSlot::Skill(skill_slot)) => PlayerCommandEvent::UseSkill(skill_slot),
            Some(HotbarSlot::Inventory(item_slot)) => PlayerCommandEvent::UseItem(item_slot),
            _ => event,
        },
        _ => event,
    }
}

/// The message and state change of one event, after hotbar indirection.
pub open spec fn spec_resolve(
    player: &PlayerQuery,
    m: PlayerModel,
    world: &WorldQuery,
    game_data: &GameData,
    selected_target: Option<Entity>,
    event: PlayerCommandEvent,
    now: u64,
) -> (PlayerModel, Resolution) {
    match spec_redirect(m.hotbar, event) {
        PlayerCommandEvent::UseSkill(skill_slot) => spec_use_skill(
            player,
            m,
            world,
            game_data,
            selected_target,
            skill_slot,
            now,
        ),
        PlayerCommandEvent::UseItem(item_slot) => spec_use_item(
            player,
            m,
            world,
            game_data,
            selected_target,
            item_slot,
            now,
        ),
        PlayerCommandEvent::EquipAmmo(item_slot) => (
            m,
            send(spec_equip_ammo(player, game_data, item_slot)),
        ),
        PlayerCommandEvent::EquipEquipment(item_slot) => (
            m,
            send(spec_equip_equipment(player, game_data, item_slot)),
        ),
        PlayerCommandEvent::EquipVehicle(item_slot) => (
            m,
            send(spec_equip_vehicle(player, game_data, item_slot)),
        ),
        PlayerCommandEvent::UnequipAmmo(ammo_index) => (
            m,
            send(Some(ClientMessage::ChangeAmmo { ammo_index, item_slot: None })),
        ),
        PlayerCommandEvent::UnequipEquipment(equipment_index) => (
            m,
            send(Some(ClientMessage::ChangeEquipment { equipment_index, item_slot: None })),
        ),
        PlayerCommandEvent::UnequipVehicle(vehicle_part_index) => (
            m,
            send(Some(ClientMessage::ChangeVehiclePart { vehicle_part_index, item_slot: None })),
        ),
        PlayerCommandEvent::DropItem(item_slot) => (
            m,
            send(
                match player.inventory.spec_get_item(item_slot) {
                    Some(item) => Some(
                        ClientMessage::DropItem { item_slot, quantity: item.quantity as usize },
                    ),
                    None => None,
                },
            ),
        ),
        PlayerCommandEvent::DropMoney(quantity) => (
            m,
            send(Some(ClientMessage::DropMoney { quantity })),
        ),
        PlayerCommandEvent::Attack(entity) => (
            m,
            send(
                match world.spec_team_of(entity) {
                    Some((target, team)) => if team.id != DEFAULT_NPC_TEAM_ID && team.id
                        != player.team.id {
                        Some(ClientMessage::Attack { target_entity_id: target.id })
                    } else {
                        None
                    },
                    None => None,
                },
            ),
        ),
        PlayerCommandEvent::Move(position, target) => (
            m,
            send(
                Some(
                    ClientMessage::Move {
                        target_entity_id: match target {
                            Some(e) => match world.spec_client_entity_of(e) {
                                Some(client_entity) => Some(client_entity.id),
                                None => None,
                            },
                            None => None,
                        },
                        x: position.x,
                        y: position.y,
                        z: spec_height_u16(position.z),
                    },
                ),
            ),
        ),
        PlayerCommandEvent::SetHotbar(page, index, slot) => {
            let slot_index = page * m.hotbar[0].len() + index;
            (
                PlayerModel { hotbar: hotbar_set(m.hotbar, page, index, slot), ..m },
                send(
                    if slot_index <= usize::MAX {
                        Some(ClientMessage::SetHotbarSlot { slot_index: slot_index as usize, slot })
                    } else {
                        None
                    },
                ),
            )
        },
        PlayerCommandEvent::BankDepositItem(item_slot) => (
            m,
            send(
                match player.inventory.spec_get_item(item_slot) {
                    Some(item) => Some(
                        ClientMessage::BankDepositItem { item_slot, item, is_premium: false },
                    ),
                    None => None,
                },
            ),
        ),
        PlayerCommandEvent::BankWithdrawItem(bank_slot) => (
            m,
            send(
                match player.bank {
                    Some(bank) => match bank.spec_get_item(bank_slot) {
                        Some(item) => Some(
                            ClientMessage::BankWithdrawItem { bank_slot, item, is_premium: false },
                        ),
                        None => None,
                    },
                    None => None,
                },
            ),
        ),
        PlayerCommandEvent::UseHotbar(_, _) => (m, nothing()),
    }
}

/// Resolves one player command event: at most one message for the server
/// and at most one notice for the player.
pub fn resolve_player_command(
    player: &mut PlayerQuery,
    world: &WorldQuery,
    game_data: &GameData,
    selected_target: Option<Entity>,
    event: PlayerCommandEvent,
    now: u64,
) -> (r: Resolution)
    requires
        player_wf(old(player)),
        game_data.wf(),
    ensures
        player_wf(final(player)),
        same_fixed(final(player), old(player)),
        (model(final(player)), r) == spec_resolve(
            old(player),
            model(old(player)),
            world,
            game_data,
            selected_target,
            event,
            now,
        ),
{
    let mut event = event;
    if let PlayerCommandEvent::UseHotbar(page, index) = event {
        match player.hotbar.get(page, index) {
            Some(HotbarSlot::Skill(skill_slot)) => {
                event = PlayerCommandEvent::UseSkill(skill_slot);
            },
            Some(HotbarSlot::Inventory(item_slot)) => {
                event = PlayerCommandEvent::UseItem(item_slot);
            },
            _ => {},
        }
    }
    let message = match event {
        PlayerCommandEvent::UseSkill(skill_slot) => {
            return use_skill(player, world, game_data, selected_target, skill_slot, now);
        },
        PlayerCommandEvent::UseItem(item_slot) => {
            return use_item(player, world, game_data, selected_target, item_slot, now);
        },
        PlayerCommandEvent::EquipAmmo(item_slot) => equip_ammo(player, game_data, item_slot),
        PlayerCommandEvent::EquipEquipment(item_slot) => equip_equipment(
            player,
            game_data,
            item_slot,
        ),
        PlayerCommandEvent::EquipVehicle(item_slot) => equip_vehicle(player, game_data, item_slot),
        PlayerCommandEvent::UnequipAmmo(ammo_index) => Some(
            ClientMessage::ChangeAmmo { ammo_index, item_slot: None },
        ),
        PlayerCommandEvent::UnequipEquipment(equipment_index) => Some(
            ClientMessage::ChangeEquipment { equipment_index, item_slot: None },
        ),
        PlayerCommandEvent::UnequipVehicle(vehicle_part_index) => Some(
            ClientMessage::ChangeVehiclePart { vehicle_part_index, item_slot: None },
        ),
        PlayerCommandEvent::DropItem(item_slot) => match player.inventory.get_item(item_slot) {
            Some(item) => Some(
                ClientMessage::DropItem { item_slot, quantity: item.get_quantity() as usize },
            ),
            None => None,
        },
        PlayerCommandEvent::DropMoney(quantity) => Some(ClientMessage::DropMoney { quantity }),
        PlayerCommandEvent::Attack(entity) => match world.team_of(entity) {
            Some((target, team)) => if team.id != DEFAULT_NPC_TEAM_ID && team.id
                != player.team.id {
                Some(ClientMessage::Attack { target_entity_id: target.id })
            } else {
                None
            },
            None => None,
        },
        PlayerCommandEvent::Move(position, target) => {
            let target_entity_id = match target {
                Some(e) => match world.client_entity_of(e) {
                    Some(client_entity) => Some(client_entity.id),
                    None => None,
                },
                None => None,
            };
            Some(
                ClientMessage::Move {
                    target_entity_id,
                    x: position.x,
                    y: position.y,
                    z: height_u16(position.z),
                },
            )
        },
        PlayerCommandEvent::SetHotbar(page, index, slot) => {
            proof {
                crate::player::lemma_hotbar_set_wf(player.hotbar@, page, index, slot);
            }
            let width = player.hotbar.width();
            player.hotbar.set(page, index, slot);
            assert((page as int) * (width as int) <= 0xffff_ffff_ffff_ffff * 0xffff_ffff_ffff_ffff)
                by (nonlinear_arith)
                requires
                    page <= 0xffff_ffff_ffff_ffff,
                    width <= 0xffff_ffff_ffff_ffff,
            ;
            let slot_index = (page as u128) * (width as u128) + (index as u128);
            if slot_index <= usize::MAX as u128 {
                Some(ClientMessage::SetHotbarSlot { slot_index: slot_index as usize, slot })
            } else {
                None
            }
        },
        PlayerCommandEvent::BankDepositItem(item_slot) => match player.inventory.get_item(
            item_slot,
        ) {
            Some(item) => Some(ClientMessage::BankDepositItem { item_slot, item, is_premium: false }),
            None => None,
        },
        PlayerCommandEvent::BankWithdrawItem(bank_slot) => match &player.bank {
            Some(bank) => match bank.get_item(bank_slot) {
                Some(item) => Some(
                    ClientMessage::BankWithdrawItem { bank_slot, item, is_premium: false },
                ),
                None => None,
            },
            None => None,
        },
        PlayerCommandEvent::UseHotbar(_, _) => None,
    };
    Resolution { message, notice: None }
}

/// Equipping the item in `item_slot` and unequipping the equipment slot it
/// fills give messages that differ only in naming the item slot or none.
pub proof fn lemma_equipment_round_trip(
    player: &PlayerQuery,
    m: PlayerModel,
    world: &WorldQuery,
    game_data: &GameData,
    selected_target: Option<Entity>,
    item_slot: ItemSlot,
    now: u64,
)
    ensures
        spec_resolve(player, m, world, game_data, selected_target, PlayerCommandEvent::EquipEquipment(item_slot), now).1.message matches Some(
            message,
        ) ==> message matches ClientMessage::ChangeEquipment { equipment_index, item_slot: Some(s) } && s
            == item_slot && spec_resolve(player, m, world, game_data, selected_target, PlayerCommandEvent::UnequipEquipment(equipment_index), now).1.message
            == Some(ClientMessage::ChangeEquipment { equipment_index, item_slot: None }),
{
    assert(spec_resolve(player, m, world, game_data, selected_target, PlayerCommandEvent::EquipEquipment(item_slot), now) == (
        m,
        send(spec_equip_equipment(player, game_data, item_slot)),
    ));
    if let Some(ClientMessage::ChangeEquipment { equipment_index, item_slot: _ }) = spec_equip_equipment(
        player,
        game_data,
        item_slot,
    ) {
        assert(spec_resolve(player, m, world, game_data, selected_target, PlayerCommandEvent::UnequipEquipment(equipment_index), now) == (
            m,
            send(Some(ClientMessage::ChangeEquipment { equipment_index, item_slot: None })),
        ));
    }
}

/// Equipping the ammunition in `item_slot` and unequipping its ammunition
/// slot give messages that differ only in naming the item slot or none.
pub proof fn lemma_ammo_round_trip(
    player: &PlayerQuery,
    m: PlayerModel,
    world: &WorldQuery,
    game_data: &GameData,
    selected_target: Option<Entity>,
    item_slot: ItemSlot,
    now: u64,
)
    ensures
        spec_resolve(player, m, world, game_data, selected_target, PlayerCommandEvent::EquipAmmo(item_slot), now).1.message matches Some(
            message,
        ) ==> message matches ClientMessage::ChangeAmmo { ammo_index, item_slot: Some(s) } && s
            == item_slot && spec_resolve(player, m, world, game_data, selected_target, PlayerCommandEvent::UnequipAmmo(ammo_index), now).1.message
            == Some(ClientMessage::ChangeAmmo { ammo_index, item_slot: None }),
{
    assert(spec_resolve(player, m, world, game_data, selected_target, PlayerCommandEvent::EquipAmmo(item_slot), now) == (
        m,
        send(spec_equip_ammo(player, game_data, item_slot)),
    ));
    if let Some(ClientMessage::ChangeAmmo { ammo_index, item_slot: _ }) = spec_equip_ammo(
        player,
        game_data,
        item_slot,
    ) {
        assert(spec_resolve(player, m, world, game_data, selected_target, PlayerCommandEvent::UnequipAmmo(ammo_index), now) == (
            m,
            send(Some(ClientMessage::ChangeAmmo { ammo_index, item_slot: None })),
        ));
    }
}

/// Equipping the vehicle part in `item_slot` and unequipping its part slot
/// give messages that differ only in naming the item slot or none.
#[verifier::rlimit(60)]
pub proof fn lemma_vehicle_round_trip(
    player: &PlayerQuery,
    m: PlayerModel,
    world: &WorldQuery,
    game_data: &GameData,
    selected_target: Option<Entity>,
    item_slot: ItemSlot,
    now: u64,
)
    ensures
        spec_resolve(player, m, world, game_data, selected_target, PlayerCommandEvent::EquipVehicle(item_slot), now).1.message matches Some(
            message,
        ) ==> message matches ClientMessage::ChangeVehiclePart { vehicle_part_index, item_slot: Some(s) } && s
            == item_slot && spec_resolve(player, m, world, game_data, selected_target, PlayerCommandEvent::UnequipVehicle(vehicle_part_index), now).1.message
            == Some(ClientMessage::ChangeVehiclePart { vehicle_part_index, item_slot: None }),
{
    assert(spec_resolve(player, m, world, game_data, selected_target, PlayerCommandEvent::EquipVehicle(item_slot), now) == (
        m,
        send(spec_equip_vehicle(player, game_data, item_slot)),
    ));
    if let Some(ClientMessage::ChangeVehiclePart { vehicle_part_index, item_slot: _ }) = spec_equip_vehicle(
        player,
        game_data,
        item_slot,
    ) {
        assert(spec_resolve(player, m, world, game_data, selected_target, PlayerCommandEvent::UnequipVehicle(vehicle_part_index), now) == (
            m,
            send(Some(ClientMessage::ChangeVehiclePart { vehicle_part_index, item_slot: None })),
        ));
    }
}

// ---------------------------------------------------------------------------
// A tick's worth of events

/// The state after resolving `events` in order, with the messages and the
/// notices they produced, in order.
pub open spec fn spec_run(
    player: &PlayerQuery,
    m: PlayerModel,
    world: &WorldQuery,
    game_data: &GameData,
    selected_target: Option<Entity>,
    events: Seq<PlayerCommandEvent>,
    now: u64,
) -> (PlayerModel, Seq<ClientMessage>, Seq<Notice>)
    decreases events.len(),
{
    if events.len() == 0 {
        (m, Seq::empty(), Seq::empty())
    } else {
        let before = spec_run(player, m, world, game_data, selected_target, events.drop_last(), now);
        let step = spec_resolve(player, before.0, world, game_data, selected_target, events.last(), now);
        (
            step.0,
            match step.1.message {
                Some(message) => before.1.push(message),
                None => before.1,
            },
            match step.1.notice {
                Some(notice) => before.2.push(notice),
                None => before.2,
            },
        )
    }
}

proof fn lemma_skill_reads_fixed(
    a: &PlayerQuery,
    b: &PlayerQuery,
    m: PlayerModel,
    world: &WorldQuery,
    game_data: &GameData,
    selected_target: Option<Entity>,
    skill_slot: SkillSlot,
    now: u64,
)
    requires
        same_fixed(a, b),
    ensures
        spec_use_skill(a, m, world, game_data, selected_target, skill_slot, now) == spec_use_skill(
            b,
            m,
            world,
            game_data,
            selected_target,
            skill_slot,
            now,
        ),
{
    assert forall|t: &SkillTargetQuery| #[trigger]
        spec_target_facts(t, a) == spec_target_facts(t, b) by {}
    assert forall|skill: SkillData| #[trigger]
        spec_skill_target(a, world, selected_target, skill) == spec_skill_target(
            b,
            world,
            selected_target,
            skill,
        ) by {}
    assert forall|skill: SkillData| #[trigger]
        spec_basic_action(a, world, selected_target, skill) == spec_basic_action(
            b,
            world,
            selected_target,
            skill,
        ) by {}
    assert forall|skill: SkillData| #[trigger]
        spec_skill_blocked(a, m, skill, now) == spec_skill_blocked(b, m, skill, now) by {}
}

proof fn lemma_item_reads_fixed(
    a: &PlayerQuery,
    b: &PlayerQuery,
    m: PlayerModel,
    world: &WorldQuery,
    game_data: &GameData,
    selected_target: Option<Entity>,
    item_slot: ItemSlot,
    now: u64,
)
    requires
        same_fixed(a, b),
    ensures
        spec_use_item(a, m, world, game_data, selected_target, item_slot, now) == spec_use_item(
            b,
            m,
            world,
            game_data,
            selected_target,
            item_slot,
            now,
        ),
        spec_equip_ammo(a, game_data, item_slot) == spec_equip_ammo(b, game_data, item_slot),
        spec_equip_equipment(a, game_data, item_slot) == spec_equip_equipment(
            b,
            game_data,
            item_slot,
        ),
        spec_equip_vehicle(a, game_data, item_slot) == spec_equip_vehicle(b, game_data, item_slot),
{
}

/// Resolution reads nothing of the player beyond what `same_fixed` keeps.
#[verifier::rlimit(40)]
proof fn lemma_resolve_reads_fixed(
    a: &PlayerQuery,
    b: &PlayerQuery,
    m: PlayerModel,
    world: &WorldQuery,
    game_data: &GameData,
    selected_target: Option<Entity>,
    event: PlayerCommandEvent,
    now: u64,
)
    requires
        same_fixed(a, b),
    ensures
        spec_resolve(a, m, world, game_data, selected_target, event, now) == spec_resolve(
            b,
            m,
            world,
            game_data,
            selected_target,
            event,
            now,
        ),
{
    match spec_redirect(m.hotbar, event) {
        PlayerCommandEvent::UseSkill(skill_slot) => {
            lemma_skill_reads_fixed(a, b, m, world, game_data, selected_target, skill_slot, now);
        },
        PlayerCommandEvent::UseItem(item_slot) => {
            lemma_item_reads_fixed(a, b, m, world, game_data, selected_target, item_slot, now);
        },
        PlayerCommandEvent::EquipAmmo(item_slot) => {
            lemma_item_reads_fixed(a, b, m, world, game_data, selected_target, item_slot, now);
        },
        PlayerCommandEvent::EquipEquipment(item_slot) => {
            lemma_item_reads_fixed(a, b, m, world, game_data, selected_target, item_slot, now);
        },
        PlayerCommandEvent::EquipVehicle(item_slot) => {
            lemma_item_reads_fixed(a, b, m, world, game_data, selected_target, item_slot, now);
        },
        _ => {},
    }
}

/// Resolves the events of one tick in order and sends each message through
/// `connection`. A message meets a dropped connection by being discarded:
/// nothing fails, and the connection stays as it was. Returns the notices
/// for the chat box, in order.
pub fn player_command_system(
    events: &Vec<PlayerCommandEvent>,
    player: &mut PlayerQuery,
    world: &WorldQuery,
    game_data: &GameData,
    selected_target: Option<Entity>,
    connection: &mut Connection,
    now: u64,
) -> (notices: Vec<Notice>)
    requires
        player_wf(old(player)),
        game_data.wf(),
    ensures
        player_wf(final(player)),
        same_fixed(final(player), old(player)),
        ({
            let run = spec_run(
                old(player),
                model(old(player)),
                world,
                game_data,
                selected_target,
                events@,
                now,
            );
            &&& model(final(player)) == run.0
            &&& notices@ == run.2
            &&& old(connection).spec_is_connected() ==> final(connection).spec_is_connected()
                && final(connection).pending() == old(connection).pending() + run.1
            &&& !old(connection).spec_is_connected() ==> final(connection).state == old(
                connection,
            ).state
        }),
        final(connection).role == old(connection).role,
{
    let ghost start = model(player);
    let mut notices: Vec<Notice> = Vec::new();
    let mut i: usize = 0;
    while i < events.len()
        invariant
            i <= events@.len(),
            player_wf(player),
            same_fixed(player, old(player)),
            game_data.wf(),
            connection.role == old(connection).role,
            ({
                let run = spec_run(
                    old(player),
                    start,
                    world,
                    game_data,
                    selected_target,
                    events@.take(i as int),
                    now,
                );
                &&& model(player) == run.0
                &&& notices@ == run.2
                &&& old(connection).spec_is_connected() ==> connection.spec_is_connected()
                    && connection.pending() == old(connection).pending() + run.1
                &&& !old(connection).spec_is_connected() ==> connection.state == old(
                    connection,
                ).state
            }),
        decreases events@.len() - i,
    {
        let ghost before = spec_run(
            old(player),
            start,
            world,
            game_data,
            selected_target,
            events@.take(i as int),
            now,
        );
        let ghost pending_before = connection.pending();
        proof {
            lemma_resolve_reads_fixed(
                player,
                old(player),
                model(player),
                world,
                game_data,
                selected_target,
                events@[i as int],
                now,
            );
            assert(events@.take(i as int + 1).drop_last() =~= events@.take(i as int));
            assert(events@.take(i as int + 1).last() == events@[i as int]);
        }
        let resolution = resolve_player_command(
            player,
            world,
            game_data,
            selected_target,
            events[i],
            now,
        );
        let Resolution { message, notice } = resolution;
        match message {
            Some(message) => {
                let ghost sent = message;
                // A dropped connection discards the message; the tick goes on.
                let _ = connection.send(message);
                proof {
                    if old(connection).spec_is_connected() {
                        assert(connection.pending() == old(connection).pending() + before.1.push(
                            sent,
                        ));
                    }
                }
            },
            None => {},
        }
        match notice {
            Some(notice) => notices.push(notice),
            None => {},
        }
        i = i + 1;
    }
    assert(events@.take(events@.len() as int) =~= events@);
    notices
}

} // verus!
