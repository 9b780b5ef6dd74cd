//! What intent resolution reads and writes of the player and of the other
//! entities in view: a snapshot taken by the caller at resolution time.

use vstd::prelude::*;

use crate::command::Command;
use crate::cooldowns::Cooldowns;
use crate::data::{Item, SkillId};
use crate::world::{ClientEntityId, Entity, Position};

verus! {

/// Team of monsters and non-player characters.
pub const DEFAULT_NPC_TEAM_ID: u32 = 1;

#[derive(Clone, Copy, Debug, PartialEq, Eq, Structural)]
pub struct Team {
    pub id: u32,
}

#[derive(Clone, Copy, Debug, PartialEq, Eq, Structural)]
pub enum ClientEntityType {
    Character,
    Monster,
    Npc,
    ItemDrop,
}

#[derive(Clone, Copy, Debug, PartialEq, Eq, Structural)]
pub struct ClientEntity {
    pub id: ClientEntityId,
    pub entity_type: ClientEntityType,
}

/// Index of a skill in the player's skill list.
#[derive(Clone, Copy, Debug, PartialEq, Eq, Structural)]
pub struct SkillSlot(pub usize);

/// Index of an item in the player's inventory.
#[derive(Clone, Copy, Debug, PartialEq, Eq, Structural)]
pub struct ItemSlot(pub usize);

/// What a hotbar slot is bound to.
#[derive(Clone, Copy, Debug, PartialEq, Eq, Structural)]
pub enum HotbarSlot {
    Skill(SkillSlot),
    Inventory(ItemSlot),
    Command(u16),
    Emote(u16),
    Dialog(u16),
    ClanSkill(SkillSlot),
}

/// Slot `index` of page `page` of a hotbar view, if in range.
pub open spec fn hotbar_get(pages: Seq<Seq<Option<HotbarSlot>>>, page: usize, index: usize) -> Option<
    HotbarSlot,
> {
    if page < pages.len() && index < pages[page as int].len() {
        pages[page as int][index as int]
    } else {
        None
    }
}

/// A hotbar view with `slot` written at (`page`, `index`); out of range, unchanged.
pub open spec fn hotbar_set(
    pages: Seq<Seq<Option<HotbarSlot>>>,
    page: usize,
    index: usize,
    slot: Option<HotbarSlot>,
) -> Seq<Seq<Option<HotbarSlot>>> {
    if page < pages.len() && index < pages[page as int].len() {
        pages.update(page as int, pages[page as int].update(index as int, slot))
    } else {
        pages
    }
}

/// At least one page, and every page as wide as the first.
pub open spec fn hotbar_wf(pages: Seq<Seq<Option<HotbarSlot>>>) -> bool {
    &&& pages.len() > 0
    &&& forall|p: int| 0 <= p < pages.len() ==> #[trigger] pages[p].len() == pages[0].len()
}

/// Pages of hotbar slots, all pages of the same width.
pub struct Hotbar {
    pub pages: Vec<Vec<Option<HotbarSlot>>>,
}

impl View for Hotbar {
    type V = Seq<Seq<Option<HotbarSlot>>>;

    open spec fn view(&self) -> Seq<Seq<Option<HotbarSlot>>> {
        self.pages@.map_values(|row: Vec<Option<HotbarSlot>>| row@)
    }
}

impl Hotbar {
    pub fn get(&self, page: usize, index: usize) -> (r: Option<HotbarSlot>)
        ensures
            r == hotbar_get(self@, page, index),
    {
        if page < self.pages.len() && index < self.pages[page].len() {
            self.pages[page][index]
        } else {
            None
        }
    }

    /// Number of slots on each page.
    pub fn width(&self) -> (r: usize)
        requires
            hotbar_wf(self@),
        ensures
            r == self@[0].len(),
    {
        self.pages[0].len()
    }

    /// Binds slot `index` of page `page` to `slot`; out of range, nothing changes.
    pub fn set(&mut self, page: usize, index: usize, slot: Option<HotbarSlot>)
        ensures
            final(self)@ == hotbar_set(old(self)@, page, index, slot),
    {
        if page < self.pages.len() && index < self.pages[page].len() {
            let mut row: Vec<Option<HotbarSlot>> = Vec::new();
            std::mem::swap(&mut row, &mut self.pages[page]);
            row.set(index, slot);
            self.pages.set(page, row);
            assert(self@ =~= hotbar_set(old(self)@, page, index, slot));
        }
    }
}

/// Writing one slot keeps a hotbar view well formed and as wide.
pub proof fn lemma_hotbar_set_wf(
    pages: Seq<Seq<Option<HotbarSlot>>>,
    page: usize,
    index: usize,
    slot: Option<HotbarSlot>,
)
    requires
        hotbar_wf(pages),
    ensures
        hotbar_wf(hotbar_set(pages, page, index, slot)),
        hotbar_set(pages, page, index, slot)[0].len() == pages[0].len(),
{
    let after = hotbar_set(pages, page, index, slot);
    assert forall|p: int| 0 <= p < after.len() implies #[trigger] after[p].len() == after[0].len() by {
        assert(pages[p].len() == pages[0].len());
    }
}

/// Inventory slots, each holding at most one item.
pub struct Inventory {
    pub slots: Vec<Option<Item>>,
}

impl Inventory {
    pub open spec fn spec_get_item(&self, slot: ItemSlot) -> Option<Item> {
        if slot.0 < self.slots@.len() {
            self.slots@[slot.0 as int]
        } else {
            None
        }
    }

    pub fn get_item(&self, slot: ItemSlot) -> (r: Option<Item>)
        ensures
            r == self.spec_get_item(slot),
    {
        if slot.0 < self.slots.len() {
            self.slots[slot.0]
        } else {
            None
        }
    }
}

/// Bank storage slots.
pub struct Bank {
    pub slots: Vec<Option<Item>>,
}

impl Bank {
    pub open spec fn spec_get_item(&self, slot: usize) -> Option<Item> {
        if slot < self.slots@.len() {
            self.slots@[slot as int]
        } else {
            None
        }
    }

    pub fn get_item(&self, slot: usize) -> (r: Option<Item>)
        ensures
            r == self.spec_get_item(slot),
    {
        if slot < self.slots.len() {
            self.slots[slot]
        } else {
            None
        }
    }
}

/// The skills the player has learned, by skill slot.
pub struct SkillList {
    pub skills: Vec<Option<SkillId>>,
}

impl SkillList {
    pub open spec fn spec_get_skill(&self, slot: SkillSlot) -> Option<SkillId> {
        if slot.0 < self.skills@.len() {
            self.skills@[slot.0 as int]
        } else {
            None
        }
    }

    pub fn get_skill(&self, slot: SkillSlot) -> (r: Option<SkillId>)
        ensures
            r == self.spec_get_skill(slot),
    {
        if slot.0 < self.skills.len() {
            self.skills[slot.0]
        } else {
            None
        }
    }
}

/// The player's party: the entity ids of its members in view.
pub struct PartyInfo {
    pub members: Vec<ClientEntityId>,
}

impl PartyInfo {
    pub fn contains_member(&self, id: ClientEntityId) -> (r: bool)
        ensures
            r == self.members@.contains(id),
    {
        let mut i: usize = 0;
        while i < self.members.len()
            invariant
                i <= self.members@.len(),
                forall|j: int| 0 <= j < i ==> self.members@[j] != id,
            decreases self.members@.len() - i,
        {
            if self.members[i] == id {
                assert(self.members@[i as int] == id);
                return true;
            }
            i = i + 1;
        }
        false
    }
}

pub struct ClanMember {
    pub name: String,
}

/// The player's clan: its members by character name.
pub struct Clan {
    pub members: Vec<ClanMember>,
}

impl Clan {
    pub open spec fn spec_has_member(&self, name: Seq<char>) -> bool {
        exists|i: int| 0 <= i < self.members@.len() && #[trigger] self.members@[i].name@ == name
    }

    pub fn find_member(&self, name: &String) -> (r: Option<&ClanMember>)
        ensures
            r is Some <==> self.spec_has_member(name@),
            r matches Some(m) ==> m.name@ == name@,
    {
        let mut i: usize = 0;
        while i < self.members.len()
            invariant
                i <= self.members@.len(),
                forall|j: int| 0 <= j < i ==> self.members@[j].name@ != name@,
            decreases self.members@.len() - i,
        {
            if self.members[i].name == *name {
                return Some(&self.members[i]);
            }
            i = i + 1;
        }
        None
    }
}

pub struct CharacterInfo {
    pub name: String,
}

/// The local player, as intent resolution sees it.
pub struct PlayerQuery {
    pub entity: Entity,
    pub bank: Option<Bank>,
    pub cooldowns: Cooldowns,
    pub hotbar: Hotbar,
    pub inventory: Inventory,
    pub position: Position,
    pub skill_list: SkillList,
    pub team: Team,
    pub clan: Option<Clan>,
    pub party_info: Option<PartyInfo>,
}

/// An entity in view that a skill may be cast on.
pub struct SkillTargetQuery {
    pub entity: Entity,
    pub character_info: Option<CharacterInfo>,
    pub client_entity: ClientEntity,
    pub command: Command,
    pub team: Team,
}

/// An item lying on the ground.
#[derive(Clone, Copy, Debug, PartialEq, Eq, Structural)]
pub struct DroppedItem {
    pub entity: Entity,
    pub client_entity: ClientEntity,
    pub position: Position,
}

/// The entities in view other than dropped items, and the dropped items.
pub struct WorldQuery {
    pub entities: Vec<SkillTargetQuery>,
    pub dropped_items: Vec<DroppedItem>,
}

/// Index of the first record of `entity`, if any.
pub open spec fn first_index_of(entities: Seq<SkillTargetQuery>, entity: Entity) -> Option<int> {
    if exists|i: int| 0 <= i < entities.len() && #[trigger] entities[i].entity == entity {
        Some(
            choose|i: int|
                0 <= i < entities.len() && #[trigger] entities[i].entity == entity && forall|
                    j: int,
                |
                    0 <= j < i ==> #[trigger] entities[j].entity != entity,
        )
    } else {
        None
    }
}

impl WorldQuery {
    pub fn find(&self, entity: Entity) -> (r: Option<usize>)
        ensures
            r matches Some(i) ==> i < self.entities@.len() && Some(i as int) == first_index_of(
                self.entities@,
                entity,
            ),
            r is None ==> first_index_of(self.entities@, entity) is None,
    {
        let mut i: usize = 0;
        while i < self.entities.len()
            invariant
                i <= self.entities@.len(),
                forall|j: int| 0 <= j < i ==> #[trigger] self.entities@[j].entity != entity,
            decreases self.entities@.len() - i,
        {
            if self.entities[i].entity == entity {
                proof {
                    let k = i as int;
                    assert(0 <= k < self.entities@.len() && self.entities@[k].entity == entity
                        && forall|j: int| 0 <= j < k ==> #[trigger] self.entities@[j].entity
                        != entity);
                    let c = first_index_of(self.entities@, entity)->0;
                    assert(c == k) by {
                        if c < k {
                            assert(self.entities@[c].entity != entity);
                        } else if c > k {
                            assert(self.entities@[k].entity != entity);
                        }
                    }
                }
                return Some(i);
            }
            i = i + 1;
        }
        None
    }
}

/// Index of the first dropped item of `entity`, if any.
pub open spec fn first_drop_index_of(drops: Seq<DroppedItem>, entity: Entity) -> Option<int> {
    if exists|i: int| 0 <= i < drops.len() && #[trigger] drops[i].entity == entity {
        Some(
            choose|i: int|
                0 <= i < drops.len() && #[trigger] drops[i].entity == entity && forall|j: int|
                    0 <= j < i ==> #[trigger] drops[j].entity != entity,
        )
    } else {
        None
    }
}

impl WorldQuery {
    /// The identity and team of `entity`, if it is in view with a team.
    pub open spec fn spec_team_of(&self, entity: Entity) -> Option<(ClientEntity, Team)> {
        match first_index_of(self.entities@, entity) {
            Some(i) => Some((self.entities@[i].client_entity, self.entities@[i].team)),
            None => None,
        }
    }

    /// The identity of `entity`, if it is in view, dropped items included.
    pub open spec fn spec_client_entity_of(&self, entity: Entity) -> Option<ClientEntity> {
        match first_index_of(self.entities@, entity) {
            Some(i) => Some(self.entities@[i].client_entity),
            None => match first_drop_index_of(self.dropped_items@, entity) {
                Some(i) => Some(self.dropped_items@[i].client_entity),
                None => None,
            },
        }
    }

    pub fn find_drop(&self, entity: Entity) -> (r: Option<usize>)
        ensures
            r matches Some(i) ==> i < self.dropped_items@.len() && Some(i as int)
                == first_drop_index_of(self.dropped_items@, entity),
            r is None ==> first_drop_index_of(self.dropped_items@, entity) is None,
    {
        let mut i: usize = 0;
        while i < self.dropped_items.len()
            invariant
                i <= self.dropped_items@.len(),
                forall|j: int| 0 <= j < i ==> #[trigger] self.dropped_items@[j].entity != entity,
            decreases self.dropped_items@.len() - i,
        {
            if self.dropped_items[i].entity == entity {
                proof {
                    let k = i as int;
                    assert(0 <= k < self.dropped_items@.len() && self.dropped_items@[k].entity
                        == entity && forall|j: int|
                        0 <= j < k ==> #[trigger] self.dropped_items@[j].entity != entity);
                    let c = first_drop_index_of(self.dropped_items@, entity)->0;
                    assert(c == k) by {
                        if c < k {
                            assert(self.dropped_items@[c].entity != entity);
                        } else if c > k {
                            assert(self.dropped_items@[k].entity != entity);
                        }
                    }
                }
                return Some(i);
            }
            i = i + 1;
        }
        None
    }

    pub fn team_of(&self, entity: Entity) -> (r: Option<(ClientEntity, Team)>)
        ensures
            r == self.spec_team_of(entity),
    {
        match self.find(entity) {
            Some(i) => Some((self.entities[i].client_entity, self.entities[i].team)),
            None => None,
        }
    }

    pub fn client_entity_of(&self, entity: Entity) -> (r: Option<ClientEntity>)
        ensures
            r == self.spec_client_entity_of(entity),
    {
        match self.find(entity) {
            Some(i) => Some(self.entities[i].client_entity),
            None => match self.find_drop(entity) {
                Some(i) => Some(self.dropped_items[i].client_entity),
                None => None,
            },
        }
    }
}

} // verus!
