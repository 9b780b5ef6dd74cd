//! Client-to-server protocol messages that the library produces.

use vstd::prelude::*;

use crate::data::{AmmoIndex, EquipmentIndex, Item, VehiclePartIndex};
use crate::player::{HotbarSlot, ItemSlot, SkillSlot};
use crate::world::{ClientEntityId, MotionId};

verus! {

#[allow(inconsistent_fields)]
pub enum ClientMessage {
    GetCharacterList,
    SelectCharacter { slot: u8, name: String },
    DeleteCharacter { slot: u8, name: String, is_delete: bool },
    JoinServer { server_id: usize, channel_id: usize },
    Move { target_entity_id: Option<ClientEntityId>, x: i32, y: i32, z: u16 },
    Attack { target_entity_id: ClientEntityId },
    SitToggle,
    DriveToggle,
    UseEmote { motion_id: MotionId, is_stop: bool },
    CastSkillSelf { skill_slot: SkillSlot },
    CastSkillTargetEntity { skill_slot: SkillSlot, target_entity_id: ClientEntityId },
    UseItem { item_slot: ItemSlot, target_entity_id: Option<ClientEntityId> },
    ChangeAmmo { ammo_index: AmmoIndex, item_slot: Option<ItemSlot> },
    ChangeEquipment { equipment_index: EquipmentIndex, item_slot: Option<ItemSlot> },
    ChangeVehiclePart { vehicle_part_index: VehiclePartIndex, item_slot: Option<ItemSlot> },
    DropItem { item_slot: ItemSlot, quantity: usize },
    DropMoney { quantity: usize },
    SetHotbarSlot { slot_index: usize, slot: Option<HotbarSlot> },
    BankDepositItem { item_slot: ItemSlot, item: Item, is_premium: bool },
    BankWithdrawItem { bank_slot: usize, item: Item, is_premium: bool },
    PartyCreate { invited_entity_id: ClientEntityId },
    PartyInvite { invited_entity_id: ClientEntityId },
}

} // verus!
