//! Static game data that intent resolution reads: skills, item kinds and
//! classes, and the equipment slot categories.

use vstd::prelude::*;

use crate::world::MotionId;

verus! {

pub type SkillId = u16;

pub type SkillGroupId = usize;

#[derive(Clone, Copy, Debug, PartialEq, Eq, Structural)]
pub enum SkillType {
    BasicAction,
    CreateWindow,
    Immediate,
    EnforceWeapon,
    EnforceBullet,
    FireBullet,
    AreaTarget,
    SelfBoundDuration,
    TargetBoundDuration,
    SelfBound,
    TargetBound,
    SelfStateDuration,
    TargetStateDuration,
    SummonPet,
    Passive,
    Emote,
    SelfDamage,
    Warp,
    SelfAndTarget,
    Resurrection,
}

impl SkillType {
    /// Skill types whose cast needs a target entity.
    pub open spec fn spec_requires_target(self) -> bool {
        match self {
            SkillType::EnforceWeapon | SkillType::Immediate | SkillType::TargetBound
            | SkillType::TargetBoundDuration | SkillType::TargetStateDuration
            | SkillType::SelfAndTarget | SkillType::Resurrection | SkillType::EnforceBullet
            | SkillType::FireBullet | SkillType::AreaTarget => true,
            _ => false,
        }
    }

    /// Skill types that are cast on the caster.
    pub open spec fn spec_targets_self(self) -> bool {
        match self {
            SkillType::SelfBoundDuration | SkillType::SelfBound | SkillType::SelfStateDuration
            | SkillType::SummonPet | SkillType::SelfDamage => true,
            _ => false,
        }
    }

    pub fn requires_target(&self) -> (r: bool)
        ensures
            r == self.spec_requires_target(),
    {
        matches!(
            self,
            SkillType::EnforceWeapon | SkillType::Immediate | SkillType::TargetBound
                | SkillType::TargetBoundDuration | SkillType::TargetStateDuration
                | SkillType::SelfAndTarget | SkillType::Resurrection | SkillType::EnforceBullet
                | SkillType::FireBullet | SkillType::AreaTarget
        )
    }

    pub fn targets_self(&self) -> (r: bool)
        ensures
            r == self.spec_targets_self(),
    {
        matches!(
            self,
            SkillType::SelfBoundDuration | SkillType::SelfBound | SkillType::SelfStateDuration
                | SkillType::SummonPet | SkillType::SelfDamage
        )
    }
}

/// Which entities a skill may be cast on.
#[derive(Clone, Copy, Debug, PartialEq, Eq, Structural)]
pub enum SkillTargetFilter {
    OnlySelf,
    Group,
    Guild,
    Allied,
    Monster,
    Enemy,
    EnemyCharacter,
    Character,
    CharacterOrMonster,
    DeadAlliedCharacter,
    EnemyMonster,
}

/// The basic commands a `BasicAction` skill stands for.
#[derive(Clone, Copy, Debug, PartialEq, Eq, Structural)]
pub enum SkillBasicCommand {
    Sit,
    PickupItem,
    Jump,
    AirJump,
    AutoTarget,
    Attack,
    DriveVehicle,
    AddFriend,
    PartyInvite,
    Trade,
    PrivateStore,
    SelfTarget,
    VehiclePassengerInvite,
}

/// How a skill's own cooldown is kept: per skill, or shared by a group.
/// Durations are in milliseconds.
#[derive(Clone, Copy, Debug, PartialEq, Eq, Structural)]
pub enum SkillCooldown {
    Skill { duration: u64 },
    Group { group: SkillGroupId, duration: u64 },
}

#[derive(Clone, Copy, Debug, PartialEq, Eq, Structural)]
pub struct SkillData {
    pub id: SkillId,
    pub skill_type: SkillType,
    pub basic_command: Option<SkillBasicCommand>,
    pub action_motion_id: Option<MotionId>,
    pub target_filter: SkillTargetFilter,
    pub cooldown: SkillCooldown,
}

/// Skill definitions, indexed by skill id.
pub struct SkillDatabase {
    pub skills: Vec<Option<SkillData>>,
}

impl SkillDatabase {
    pub open spec fn spec_get_skill(&self, id: SkillId) -> Option<SkillData> {
        if (id as int) < self.skills@.len() {
            self.skills@[id as int]
        } else {
            None
        }
    }

    pub fn get_skill(&self, id: SkillId) -> (r: Option<SkillData>)
        ensures
            r == self.spec_get_skill(id),
    {
        if (id as usize) < self.skills.len() {
            self.skills[id as usize]
        } else {
            None
        }
    }
}

#[derive(Clone, Copy, Debug, PartialEq, Eq, Structural)]
pub enum ItemType {
    Face,
    Head,
    Body,
    Hands,
    Feet,
    Back,
    Jewellery,
    Weapon,
    SubWeapon,
    Consumable,
    Gem,
    Material,
    Quest,
    Vehicle,
}

/// Number of item types, and of tables in an `ItemDatabase`.
pub const NUM_ITEM_TYPES: usize = 14;

impl ItemType {
    pub open spec fn spec_is_equipment_item(self) -> bool {
        match self {
            ItemType::Face | ItemType::Head | ItemType::Body | ItemType::Hands | ItemType::Feet
            | ItemType::Back | ItemType::Jewellery | ItemType::Weapon | ItemType::SubWeapon => true,
            _ => false,
        }
    }

    pub open spec fn spec_index(self) -> int {
        match self {
            ItemType::Face => 0,
            ItemType::Head => 1,
            ItemType::Body => 2,
            ItemType::Hands => 3,
            ItemType::Feet => 4,
            ItemType::Back => 5,
            ItemType::Jewellery => 6,
            ItemType::Weapon => 7,
            ItemType::SubWeapon => 8,
            ItemType::Consumable => 9,
            ItemType::Gem => 10,
            ItemType::Material => 11,
            ItemType::Quest => 12,
            ItemType::Vehicle => 13,
        }
    }

    pub fn is_equipment_item(&self) -> (r: bool)
        ensures
            r == self.spec_is_equipment_item(),
    {
        matches!(
            self,
            ItemType::Face | ItemType::Head | ItemType::Body | ItemType::Hands | ItemType::Feet
                | ItemType::Back | ItemType::Jewellery | ItemType::Weapon | ItemType::SubWeapon
        )
    }

    /// Position of this type's table in an `ItemDatabase`.
    pub fn index(&self) -> (r: usize)
        ensures
            r == self.spec_index(),
            r < NUM_ITEM_TYPES,
    {
        match self {
            ItemType::Face => 0,
            ItemType::Head => 1,
            ItemType::Body => 2,
            ItemType::Hands => 3,
            ItemType::Feet => 4,
            ItemType::Back => 5,
            ItemType::Jewellery => 6,
            ItemType::Weapon => 7,
            ItemType::SubWeapon => 8,
            ItemType::Consumable => 9,
            ItemType::Gem => 10,
            ItemType::Material => 11,
            ItemType::Quest => 12,
            ItemType::Vehicle => 13,
        }
    }
}

/// The item classes that intent resolution tells apart; every other class
/// is `Other`.
#[derive(Clone, Copy, Debug, PartialEq, Eq, Structural)]
pub enum ItemClass {
    Arrow,
    Bullet,
    Shell,
    Ring,
    Necklace,
    Earring,
    CartBody,
    CartEngine,
    CartWheels,
    CartAccessory,
    CastleGearBody,
    CastleGearEngine,
    CastleGearLeg,
    CastleGearWeapon,
    MagicItem,
    RepairTool,
    QuestScroll,
    Other,
}

/// Groups of consumables that share one cooldown.
#[derive(Clone, Copy, Debug, PartialEq, Eq, Structural)]
pub enum ConsumableCooldownGroup {
    HealthRecovery,
    ManaRecovery,
    MagicItem,
    Others,
}

/// Ammunition slots.
#[derive(Clone, Copy, Debug, PartialEq, Eq, Structural)]
pub enum AmmoIndex {
    Arrow,
    Bullet,
    Throw,
}

/// Equipment slots.
#[derive(Clone, Copy, Debug, PartialEq, Eq, Structural)]
pub enum EquipmentIndex {
    Face,
    Head,
    Body,
    Hands,
    Feet,
    Back,
    Ring,
    Necklace,
    Earring,
    Weapon,
    SubWeapon,
}

/// Vehicle part slots.
#[derive(Clone, Copy, Debug, PartialEq, Eq, Structural)]
pub enum VehiclePartIndex {
    Body,
    Engine,
    Leg,
    Ability,
    Arms,
}

#[derive(Clone, Copy, Debug, PartialEq, Eq, Structural)]
pub struct ItemReference {
    pub item_type: ItemType,
    pub item_number: usize,
}

/// An item instance held in an inventory or a bank.
#[derive(Clone, Copy, Debug, PartialEq, Eq, Structural)]
pub struct Item {
    pub item_type: ItemType,
    pub item_number: usize,
    pub quantity: u32,
}

impl Item {
    pub fn get_item_type(&self) -> (r: ItemType)
        ensures
            r == self.item_type,
    {
        self.item_type
    }

    pub fn get_item_number(&self) -> (r: usize)
        ensures
            r == self.item_number,
    {
        self.item_number
    }

    pub fn get_quantity(&self) -> (r: u32)
        ensures
            r == self.quantity,
    {
        self.quantity
    }

    pub fn get_item_reference(&self) -> (r: ItemReference)
        ensures
            r == (ItemReference { item_type: self.item_type, item_number: self.item_number }),
    {
        ItemReference { item_type: self.item_type, item_number: self.item_number }
    }
}

/// Definition of one item: its class, the skill a consumable casts when
/// used, and the cooldown group a consumable belongs to.
#[derive(Clone, Copy, Debug, PartialEq, Eq, Structural)]
pub struct ItemData {
    pub class: ItemClass,
    pub use_skill_id: Option<SkillId>,
    pub cooldown_group: ConsumableCooldownGroup,
}

/// Item definitions: one table per item type, indexed by item number.
pub struct ItemDatabase {
    pub tables: Vec<Vec<Option<ItemData>>>,
}

impl ItemDatabase {
    pub open spec fn wf(&self) -> bool {
        self.tables@.len() == NUM_ITEM_TYPES
    }

    pub open spec fn spec_get_item(&self, item: ItemReference) -> Option<ItemData> {
        let table = self.tables@[item.item_type.spec_index()]@;
        if item.item_number < table.len() {
            table[item.item_number as int]
        } else {
            None
        }
    }

    pub fn get_base_item(&self, item: ItemReference) -> (r: Option<ItemData>)
        requires
            self.wf(),
        ensures
            r == self.spec_get_item(item),
    {
        let table = &self.tables[item.item_type.index()];
        if item.item_number < table.len() {
            table[item.item_number]
        } else {
            None
        }
    }

    pub fn get_consumable_item(&self, item_number: usize) -> (r: Option<ItemData>)
        requires
            self.wf(),
        ensures
            r == self.spec_get_item(ItemReference { item_type: ItemType::Consumable, item_number }),
    {
        self.get_base_item(ItemReference { item_type: ItemType::Consumable, item_number })
    }

    pub fn get_jewellery_item(&self, item_number: usize) -> (r: Option<ItemData>)
        requires
            self.wf(),
        ensures
            r == self.spec_get_item(ItemReference { item_type: ItemType::Jewellery, item_number }),
    {
        self.get_base_item(ItemReference { item_type: ItemType::Jewellery, item_number })
    }
}

/// All static data the resolver reads.
pub struct GameData {
    pub skills: SkillDatabase,
    pub items: ItemDatabase,
}

impl GameData {
    pub open spec fn wf(&self) -> bool {
        self.items.wf()
    }
}

impl ConsumableCooldownGroup {
    pub open spec fn spec_from_item(item: ItemReference, game_data: &GameData) -> Option<
        ConsumableCooldownGroup,
    > {
        if item.item_type == ItemType::Consumable {
            match game_data.items.spec_get_item(item) {
                Some(data) => Some(data.cooldown_group),
                None => None,
            }
        } else {
            None
        }
    }

    /// The cooldown group of a consumable item, if it is one the data knows.
    pub fn from_item(item: &ItemReference, game_data: &GameData) -> (r: Option<Self>)
        requires
            game_data.wf(),
        ensures
            r == Self::spec_from_item(*item, game_data),
    {
        if item.item_type != ItemType::Consumable {
            return None;
        }
        match game_data.items.get_consumable_item(item.item_number) {
            Some(data) => Some(data.cooldown_group),
            None => None,
        }
    }
}

} // verus!
