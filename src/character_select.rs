//! The character selection screen's state machine: the character list, the
//! selection, deleting, creating and joining the game server.

use vstd::prelude::*;

use crate::connection::Connection;
use crate::messages::ClientMessage;

verus! {

pub type ZoneId = u16;

/// The model slot that shows the character at `index` of the list.
#[derive(Clone, Copy, Debug, PartialEq, Eq, Structural)]
pub struct CharacterSelectCharacter {
    pub index: usize,
}

#[derive(Clone, Copy, Debug, PartialEq, Eq, Structural)]
pub enum CharacterSelectState {
    Entering,
    CharacterSelect(Option<usize>),
    CharacterCreate,
    CharacterCreating,
    ConnectingGameServer,
    Leaving,
    Loading,
}

/// A character of the account; `delete_time` is set while it is pending deletion.
pub struct CharacterListItem {
    pub name: String,
    pub delete_time: Option<u64>,
}

pub struct CharacterList {
    pub characters: Vec<CharacterListItem>,
}

pub enum CharacterSelectEvent {
    SelectCharacter(usize),
    PlaySelected,
    DeleteSelected,
    Disconnect,
}

#[derive(Clone, Copy, Debug, PartialEq, Eq, Structural)]
pub enum CreateCharacterError {
    Failed,
    AlreadyExists,
    NoMoreSlots,
    InvalidValue,
}

pub enum WorldConnectionEvent {
    CreateCharacterSuccess { character_slot: usize },
    CreateCharacterError { error: CreateCharacterError },
    DeleteCharacterStart { name: String, delete_time: u64 },
    DeleteCharacterCancel { name: String },
    DeleteCharacterError { name: String },
}

/// The selected character, when the selection screen has one that the list holds.
pub open spec fn spec_selected(
    state: CharacterSelectState,
    list: &Option<CharacterList>,
) -> Option<(usize, CharacterListItem)> {
    match (state, list) {
        (CharacterSelectState::CharacterSelect(Some(i)), Some(list)) => if i
            < list.characters@.len() {
            Some((i, list.characters@[i as int]))
        } else {
            None
        },
        _ => None,
    }
}

fn selected<'a>(state: CharacterSelectState, list: &'a Option<CharacterList>) -> (r: Option<
    (usize, &'a CharacterListItem),
>)
    ensures
        r matches Some((i, c)) ==> spec_selected(state, list) == Some((i, *c)),
        r is None ==> spec_selected(state, list) is None,
{
    match (state, list) {
        (CharacterSelectState::CharacterSelect(Some(i)), Some(list)) => if i
            < list.characters.len() {
            Some((i, &list.characters[i]))
        } else {
            None
        },
        _ => None,
    }
}

/// Handles one event of the selection screen. Selecting only works on the
/// selection screen; playing needs a selected character that is not being
/// deleted, and then waits for the game server; deleting toggles the
/// selected character's deletion; disconnecting drops the world connection.
/// Messages meet a missing connection by being dropped.
pub fn character_select_event(
    event: &CharacterSelectEvent,
    state: &mut CharacterSelectState,
    list: &Option<CharacterList>,
    world_connection: &mut Connection,
)
    ensures
        final(world_connection).role == old(world_connection).role,
        match *event {
            CharacterSelectEvent::SelectCharacter(index) => {
                &&& (*old(state) is CharacterSelect ==> *final(state)
                    == CharacterSelectState::CharacterSelect(Some(index)))
                &&& (!(*old(state) is CharacterSelect) ==> *final(state) == *old(state))
                &&& final(world_connection).state == old(world_connection).state
            },
            CharacterSelectEvent::PlaySelected => match spec_selected(*old(state), list) {
                Some((i, c)) => if c.delete_time is None {
                    &&& *final(state) == CharacterSelectState::ConnectingGameServer
                    &&& sent_or_dropped(
                        *old(world_connection),
                        *final(world_connection),
                        |m: ClientMessage|
                            m matches ClientMessage::SelectCharacter { slot, name } && slot == i as u8
                                && name@ == c.name@,
                    )
                } else {
                    &&& *final(state) == *old(state)
                    &&& final(world_connection).state == old(world_connection).state
                },
                None => {
                    &&& *final(state) == *old(state)
                    &&& final(world_connection).state == old(world_connection).state
                },
            },
            CharacterSelectEvent::DeleteSelected => {
                &&& *final(state) == *old(state)
                &&& match spec_selected(*old(state), list) {
                    Some((i, c)) => sent_or_dropped(
                        *old(world_connection),
                        *final(world_connection),
                        |m: ClientMessage|
                            m matches ClientMessage::DeleteCharacter { slot, name, is_delete }
                                && slot == i as u8 && name@ == c.name@ && is_delete == (
                            c.delete_time is None),
                    ),
                    None => final(world_connection).state == old(world_connection).state,
                }
            },
            CharacterSelectEvent::Disconnect => {
                &&& *final(state) == *old(state)
                &&& final(world_connection).state is Disconnected
            },
        },
{
    match event {
        CharacterSelectEvent::SelectCharacter(index) => {
            if matches!(*state, CharacterSelectState::CharacterSelect(_)) {
                *state = CharacterSelectState::CharacterSelect(Some(*index));
            }
        },
        CharacterSelectEvent::PlaySelected => {
            if let Some((i, c)) = selected(*state, list) {
                if c.delete_time.is_none() {
                    let _ = world_connection.send(
                        ClientMessage::SelectCharacter {
                            slot: #[verifier::truncate] (i as u8),
                            name: c.name.clone(),
                        },
                    );
                    *state = CharacterSelectState::ConnectingGameServer;
                }
            }
        },
        CharacterSelectEvent::DeleteSelected => {
            if let Some((i, c)) = selected(*state, list) {
                let _ = world_connection.send(
                    ClientMessage::DeleteCharacter {
                        slot: #[verifier::truncate] (i as u8),
                        name: c.name.clone(),
                        is_delete: c.delete_time.is_none(),
                    },
                );
            }
        },
        CharacterSelectEvent::Disconnect => {
            world_connection.on_disconnected();
        },
    }
}

/// `after` is `before` with one message queued that satisfies `p`, or, when
/// `before` was not connected, `before` unchanged.
pub open spec fn sent_or_dropped(
    before: Connection,
    after: Connection,
    p: spec_fn(ClientMessage) -> bool,
) -> bool {
    &&& after.role == before.role
    &&& before.spec_is_connected() ==> after.spec_is_connected() && after.pending().len()
        == before.pending().len() + 1 && after.pending().drop_last() == before.pending() && p(
        after.pending().last(),
    )
    &&& !before.spec_is_connected() ==> after.state == before.state
}

/// Index of the first character called `name`, if any.
pub open spec fn first_named(characters: Seq<CharacterListItem>, name: Seq<char>) -> Option<int> {
    if exists|i: int| 0 <= i < characters.len() && #[trigger] characters[i].name@ == name {
        Some(
            choose|i: int|
                0 <= i < characters.len() && #[trigger] characters[i].name@ == name && forall|
                    j: int,
                |
                    0 <= j < i ==> #[trigger] characters[j].name@ != name,
        )
    } else {
        None
    }
}

/// Sets the deletion time of the first character called `name`. Returns
/// whether there was one; the list is otherwise unchanged.
pub fn set_delete_time(list: &mut CharacterList, name: &String, delete_time: Option<u64>) -> (r:
    bool)
    ensures
        final(list).characters@.len() == old(list).characters@.len(),
        r == first_named(old(list).characters@, name@) is Some,
        forall|j: int|
            0 <= j < old(list).characters@.len() ==> #[trigger] final(list).characters@[j].name@
                == old(list).characters@[j].name@,
        forall|j: int|
            0 <= j < old(list).characters@.len() ==> #[trigger] final(list).characters@[j].delete_time
                == if first_named(old(list).characters@, name@) == Some(j) {
                delete_time
            } else {
                old(list).characters@[j].delete_time
            },
{
    let mut i: usize = 0;
    while i < list.characters.len()
        invariant
            list.characters@ == old(list).characters@,
            i <= list.characters@.len(),
            forall|j: int| 0 <= j < i ==> #[trigger] list.characters@[j].name@ != name@,
        decreases list.characters@.len() - i,
    {
        if list.characters[i].name == *name {
            proof {
                let k = i as int;
                assert(0 <= k < list.characters@.len() && list.characters@[k].name@ == name@
                    && forall|j: int| 0 <= j < k ==> #[trigger] list.characters@[j].name@ != name@);
                let c = first_named(list.characters@, name@)->0;
                assert(c == k) by {
                    if c < k {
                        assert(list.characters@[c].name@ != name@);
                    } else if c > k {
                        assert(list.characters@[k].name@ != name@);
                    }
                }
            }
            list.characters[i].delete_time = delete_time;
            return true;
        }
        i = i + 1;
    }
    false
}

/// What the screen asks of its surroundings after a world server event.
#[derive(Clone, Copy, Debug, PartialEq, Eq, Structural)]
pub enum CharacterSelectAction {
    /// Nothing to do.
    Stay,
    /// A character was created: play the camera move back to the selection.
    LeaveCreate,
}

/// Handles one world server event. A created character returns to the
/// selection and asks for the new list; a failed creation returns to the
/// creation form; a deletion starting or being cancelled updates the
/// character of that name, or asks for the list when there is none.
pub fn world_connection_event(
    event: &WorldConnectionEvent,
    state: &mut CharacterSelectState,
    list: &mut Option<CharacterList>,
    world_connection: &mut Connection,
) -> (r: CharacterSelectAction)
    ensures
        final(world_connection).role == old(world_connection).role,
        match *event {
            WorldConnectionEvent::CreateCharacterSuccess { .. } => {
                &&& *final(state) == CharacterSelectState::CharacterSelect(None)
                &&& r == CharacterSelectAction::LeaveCreate
                &&& sent_or_dropped(
                    *old(world_connection),
                    *final(world_connection),
                    |m: ClientMessage| m is GetCharacterList,
                )
            },
            WorldConnectionEvent::CreateCharacterError { .. } => {
                &&& *final(state) == CharacterSelectState::CharacterCreate
                &&& r == CharacterSelectAction::Stay
                &&& final(world_connection).state == old(world_connection).state
            },
            WorldConnectionEvent::DeleteCharacterStart { name, delete_time } => {
                &&& *final(state) == *old(state)
                &&& r == CharacterSelectAction::Stay
                &&& delete_time_updated(*old(list), *final(list), name@, Some(delete_time))
                &&& (*old(list) is None ==> sent_or_dropped(
                    *old(world_connection),
                    *final(world_connection),
                    |m: ClientMessage| m is GetCharacterList,
                ))
                &&& (*old(list) is Some ==> final(world_connection).state == old(
                    world_connection,
                ).state)
            },
            WorldConnectionEvent::DeleteCharacterCancel { name } => {
                &&& *final(state) == *old(state)
                &&& r == CharacterSelectAction::Stay
                &&& delete_time_updated(*old(list), *final(list), name@, None)
                &&& (*old(list) is None ==> sent_or_dropped(
                    *old(world_connection),
                    *final(world_connection),
                    |m: ClientMessage| m is GetCharacterList,
                ))
                &&& (*old(list) is Some ==> final(world_connection).state == old(
                    world_connection,
                ).state)
            },
            WorldConnectionEvent::DeleteCharacterError { .. } => {
                &&& *final(state) == *old(state)
                &&& r == CharacterSelectAction::Stay
                &&& final(world_connection).state == old(world_connection).state
            },
        },
{
    match event {
        WorldConnectionEvent::CreateCharacterSuccess { .. } => {
            *state = CharacterSelectState::CharacterSelect(None);
            let _ = world_connection.send(ClientMessage::GetCharacterList);
            CharacterSelectAction::LeaveCreate
        },
        WorldConnectionEvent::CreateCharacterError { .. } => {
            *state = CharacterSelectState::CharacterCreate;
            CharacterSelectAction::Stay
        },
        WorldConnectionEvent::DeleteCharacterStart { name, delete_time } => {
            match list {
                Some(list) => {
                    set_delete_time(list, name, Some(*delete_time));
                },
                None => {
                    let _ = world_connection.send(ClientMessage::GetCharacterList);
                },
            }
            CharacterSelectAction::Stay
        },
        WorldConnectionEvent::DeleteCharacterCancel { name } => {
            match list {
                Some(list) => {
                    set_delete_time(list, name, None);
                },
                None => {
                    let _ = world_connection.send(ClientMessage::GetCharacterList);
                },
            }
            CharacterSelectAction::Stay
        },
        WorldConnectionEvent::DeleteCharacterError { .. } => CharacterSelectAction::Stay,
    }
}

/// `after` is `before` with the deletion time of its first character called
/// `name` set to `delete_time`; without a list, nothing changes.
pub open spec fn delete_time_updated(
    before: Option<CharacterList>,
    after: Option<CharacterList>,
    name: Seq<char>,
    delete_time: Option<u64>,
) -> bool {
    match (before, after) {
        (Some(b), Some(a)) => {
            &&& a.characters@.len() == b.characters@.len()
            &&& forall|j: int|
                0 <= j < b.characters@.len() ==> #[trigger] a.characters@[j].name@
                    == b.characters@[j].name@
            &&& forall|j: int|
                0 <= j < b.characters@.len() ==> #[trigger] a.characters@[j].delete_time == if first_named(
                    b.characters@,
                    name,
                ) == Some(j) {
                    delete_time
                } else {
                    b.characters@[j].delete_time
                }
        },
        (None, None) => true,
        _ => false,
    }
}

/// What the screen asks of its surroundings after a frame.
#[derive(Clone, Copy, Debug, PartialEq, Eq, Structural)]
pub enum CharacterSelectStep {
    /// Nothing to do.
    Stay,
    /// The world connection is gone: go back to the login screen.
    ReturnToLogin,
    /// The game server accepted the character: play the camera move into the game.
    LeaveSelect,
    /// Load the zone the character joins.
    LoadZone(ZoneId),
}

/// One frame of the selection screen, given whether the world connection
/// is alive, whether the camera move has finished, whether logging in is
/// automatic, and the zone of a game server connection made this frame.
pub open spec fn spec_character_select_update(
    state: CharacterSelectState,
    join_zone: Option<ZoneId>,
    world_connected: bool,
    camera_done: bool,
    auto_login: bool,
    game_connected: Option<ZoneId>,
) -> (CharacterSelectState, Option<ZoneId>, CharacterSelectStep) {
    if !world_connected {
        (state, join_zone, CharacterSelectStep::ReturnToLogin)
    } else {
        match state {
            CharacterSelectState::Entering => if camera_done || auto_login {
                (CharacterSelectState::CharacterSelect(None), join_zone, CharacterSelectStep::Stay)
            } else {
                (state, join_zone, CharacterSelectStep::Stay)
            },
            CharacterSelectState::ConnectingGameServer => match game_connected {
                Some(zone) => (CharacterSelectState::Leaving, Some(zone), CharacterSelectStep::LeaveSelect),
                None => (state, join_zone, CharacterSelectStep::Stay),
            },
            CharacterSelectState::Leaving => if camera_done || auto_login {
                (
                    CharacterSelectState::Loading,
                    None,
                    match join_zone {
                        Some(zone) => CharacterSelectStep::LoadZone(zone),
                        None => CharacterSelectStep::Stay,
                    },
                )
            } else {
                (state, join_zone, CharacterSelectStep::Stay)
            },
            _ => (state, join_zone, CharacterSelectStep::Stay),
        }
    }
}

pub fn character_select_system(
    state: &mut CharacterSelectState,
    join_zone: &mut Option<ZoneId>,
    world_connection: &Connection,
    camera_done: bool,
    auto_login: bool,
    game_connected: Option<ZoneId>,
) -> (r: CharacterSelectStep)
    ensures
        (*final(state), *final(join_zone), r) == spec_character_select_update(
            *old(state),
            *old(join_zone),
            world_connection.spec_is_connected(),
            camera_done,
            auto_login,
            game_connected,
        ),
{
    if !world_connection.is_connected() {
        return CharacterSelectStep::ReturnToLogin;
    }
    match *state {
        CharacterSelectState::Entering => {
            if camera_done || auto_login {
                *state = CharacterSelectState::CharacterSelect(None);
            }
            CharacterSelectStep::Stay
        },
        CharacterSelectState::ConnectingGameServer => match game_connected {
            Some(zone) => {
                *state = CharacterSelectState::Leaving;
                *join_zone = Some(zone);
                CharacterSelectStep::LeaveSelect
            },
            None => CharacterSelectStep::Stay,
        },
        CharacterSelectState::Leaving => {
            if camera_done || auto_login {
                *state = CharacterSelectState::Loading;
                match join_zone.take() {
                    Some(zone) => CharacterSelectStep::LoadZone(zone),
                    None => CharacterSelectStep::Stay,
                }
            } else {
                CharacterSelectStep::Stay
            }
        },
        _ => CharacterSelectStep::Stay,
    }
}

/// Longest gap between two clicks on the same character that plays it, in milliseconds.
pub const DOUBLE_CLICK_MS: u64 = 250;

/// A click on the model of character `clicked` at time `now`: it becomes
/// the selection; clicking the already selected character again within
/// the double-click gap asks to play it. Returns whether to play.
pub fn click_character(
    selected: &mut Option<usize>,
    last_click: &mut Option<u64>,
    clicked: usize,
    now: u64,
) -> (play: bool)
    ensures
        *final(selected) == Some(clicked),
        *final(last_click) == Some(now),
        play == (*old(selected) == Some(clicked) && match *old(last_click) {
            Some(t) => t <= now && now - t < DOUBLE_CLICK_MS,
            None => false,
        }),
{
    let play = match *last_click {
        Some(t) => *selected == Some(clicked) && t <= now && now - t < DOUBLE_CLICK_MS,
        None => false,
    };
    *selected = Some(clicked);
    *last_click = Some(now);
    play
}

/// The animation a character's model plays on the selection screen.
#[derive(Clone, Copy, Debug, PartialEq, Eq, Structural)]
pub enum CharacterModelMotion {
    /// Sitting: the character is pending deletion.
    Sit,
    /// The selection animation.
    Select,
    /// Standing idle.
    Stop,
}

/// The motion of the model of the character at `index`: a character being
/// deleted sits, the selected one plays the selection animation, the others
/// stand.
pub fn character_model_motion(
    state: CharacterSelectState,
    index: usize,
    character: &CharacterListItem,
) -> (r: CharacterModelMotion)
    ensures
        r == if character.delete_time is Some {
            CharacterModelMotion::Sit
        } else if state == CharacterSelectState::CharacterSelect(Some(index)) {
            CharacterModelMotion::Select
        } else {
            CharacterModelMotion::Stop
        },
{
    if character.delete_time.is_some() {
        CharacterModelMotion::Sit
    } else if state == CharacterSelectState::CharacterSelect(Some(index)) {
        CharacterModelMotion::Select
    } else {
        CharacterModelMotion::Stop
    }
}

/// Entering the selection screen: the state starts over at `Entering`,
/// with no zone to join, and one model slot is made for each of the
/// `num_positions` display positions, in order.
pub fn character_select_enter(
    state: &mut CharacterSelectState,
    join_zone: &mut Option<ZoneId>,
    num_positions: usize,
) -> (slots: Vec<CharacterSelectCharacter>)
    ensures
        *final(state) == CharacterSelectState::Entering,
        *final(join_zone) is None,
        slots@.len() == num_positions,
        forall|i: int| 0 <= i < num_positions ==> #[trigger] slots@[i].index == i,
{
    *state = CharacterSelectState::Entering;
    *join_zone = None;
    let mut slots: Vec<CharacterSelectCharacter> = Vec::new();
    let mut index: usize = 0;
    while index < num_positions
        invariant
            index <= num_positions,
            slots@.len() == index,
            forall|i: int| 0 <= i < index ==> #[trigger] slots@[i].index == i,
        decreases num_positions - index,
    {
        slots.push(CharacterSelectCharacter { index });
        index = index + 1;
    }
    slots
}

/// Leaving the selection screen drops the character list and the screen's
/// state, which starts over at `Entering` on the next visit.
pub fn character_select_exit(
    state: &mut CharacterSelectState,
    join_zone: &mut Option<ZoneId>,
    list: &mut Option<CharacterList>,
)
    ensures
        *final(state) == CharacterSelectState::Entering,
        *final(join_zone) is None,
        *final(list) is None,
{
    *state = CharacterSelectState::Entering;
    *join_zone = None;
    *list = None;
}

} // verus!
