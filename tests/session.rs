use rose_offline_client::character_select::{
    character_model_motion, character_select_enter, character_select_exit, click_character, CharacterModelMotion, character_select_event, character_select_system, set_delete_time, world_connection_event,
    CharacterList, CharacterListItem, CharacterSelectAction, CharacterSelectEvent,
    CharacterSelectState, CharacterSelectStep, CreateCharacterError, WorldConnectionEvent,
};
use rose_offline_client::connection::{Connection, ConnectionRole, ConnectionState};
use rose_offline_client::login::{
    login_event, login_port, login_state_enter, login_state_exit, login_system, Account, LoginEvent, LoginState, NetworkEvent,
    ServerConfiguration,
};
use rose_offline_client::messages::ClientMessage;
use rose_offline_client::session::{session_step, SessionAction, SessionEvent, SessionPhase};

fn connected(role: ConnectionRole) -> Connection {
    let mut connection = Connection::new(role);
    assert!(connection.request_connect());
    connection.on_connected();
    connection
}

fn configuration(port: &str) -> ServerConfiguration {
    ServerConfiguration { ip: "127.0.0.1".to_string(), port: port.to_string(), auto_login: false }
}

#[test]
fn connection_lifecycle() {
    let mut connection = Connection::new(ConnectionRole::World);
    assert!(!connection.is_connected());
    connection.on_connected();
    assert!(!connection.is_connected());
    assert!(connection.request_connect());
    assert!(!connection.request_connect());
    connection.on_connected();
    assert!(connection.is_connected());
    assert!(connection.send(ClientMessage::GetCharacterList).is_ok());
    assert!(connection.send(ClientMessage::SitToggle).is_ok());
    let drained = connection.drain();
    assert!(matches!(drained[..], [ClientMessage::GetCharacterList, ClientMessage::SitToggle]));
    assert!(connection.drain().is_empty());
    connection.on_disconnected();
    assert!(connection.send(ClientMessage::SitToggle).is_err());
    assert!(connection.request_connect());
}

#[test]
fn login_port_parses_or_defaults() {
    assert_eq!(login_port(&configuration("29100")), 29100);
    assert_eq!(login_port(&configuration("+80")), 80);
    assert_eq!(login_port(&configuration("65535")), 65535);
    assert_eq!(login_port(&configuration("65536")), 29000);
    assert_eq!(login_port(&configuration("")), 29000);
    assert_eq!(login_port(&configuration("port")), 29000);
    assert_eq!(login_port(&configuration(" 80")), 29000);
    assert_eq!(login_port(&configuration("-1")), 29000);
}

#[test]
fn login_flow() {
    let config = configuration("29123");
    let mut state = LoginState::Input;
    let mut account: Option<Account> = None;
    let mut connection = Connection::new(ConnectionRole::Login);
    let event = LoginEvent::Login { username: "user".to_string(), password: "pass".to_string() };
    let request = login_event(&event, &mut state, &mut account, &mut connection, &config);
    assert_eq!(state, LoginState::WaitServerList);
    assert_eq!(account.as_ref().unwrap().username, "user");
    assert!(matches!(request, Some(NetworkEvent::ConnectLogin { ref ip, port: 29123 }) if ip == "127.0.0.1"));
    // A second login attempt while waiting is ignored.
    assert!(login_event(&event, &mut state, &mut account, &mut connection, &config).is_none());

    assert!(connection.request_connect());
    connection.on_connected();
    login_system(&mut state, &connection, false);
    assert_eq!(state, LoginState::WaitServerList);
    login_system(&mut state, &connection, true);
    assert_eq!(state, LoginState::ServerSelect);

    let select = LoginEvent::SelectServer { server_id: 2, channel_id: 1 };
    assert!(login_event(&select, &mut state, &mut account, &mut connection, &config).is_none());
    assert_eq!(state, LoginState::JoiningServer);
    assert!(matches!(connection.drain()[..], [ClientMessage::JoinServer { server_id: 2, channel_id: 1 }]));

    connection.on_disconnected();
    login_system(&mut state, &connection, true);
    assert_eq!(state, LoginState::Input);
}

fn list() -> Option<CharacterList> {
    Some(CharacterList {
        characters: vec![
            CharacterListItem { name: "Aria".to_string(), delete_time: None },
            CharacterListItem { name: "Bram".to_string(), delete_time: Some(600) },
        ],
    })
}

#[test]
fn select_and_play_character() {
    let mut state = CharacterSelectState::Entering;
    let mut connection = connected(ConnectionRole::World);
    let characters = list();
    character_select_event(&CharacterSelectEvent::SelectCharacter(0), &mut state, &characters, &mut connection);
    assert_eq!(state, CharacterSelectState::Entering);
    state = CharacterSelectState::CharacterSelect(None);
    character_select_event(&CharacterSelectEvent::SelectCharacter(1), &mut state, &characters, &mut connection);
    assert_eq!(state, CharacterSelectState::CharacterSelect(Some(1)));
    // A character pending deletion cannot be played.
    character_select_event(&CharacterSelectEvent::PlaySelected, &mut state, &characters, &mut connection);
    assert_eq!(state, CharacterSelectState::CharacterSelect(Some(1)));
    assert!(connection.drain().is_empty());
    character_select_event(&CharacterSelectEvent::SelectCharacter(0), &mut state, &characters, &mut connection);
    character_select_event(&CharacterSelectEvent::PlaySelected, &mut state, &characters, &mut connection);
    assert_eq!(state, CharacterSelectState::ConnectingGameServer);
    let sent = connection.drain();
    assert!(matches!(sent[..], [ClientMessage::SelectCharacter { slot: 0, ref name }] if name == "Aria"));
}

#[test]
fn delete_toggles_and_disconnect_drops_connection() {
    let mut state = CharacterSelectState::CharacterSelect(Some(1));
    let mut connection = connected(ConnectionRole::World);
    let characters = list();
    character_select_event(&CharacterSelectEvent::DeleteSelected, &mut state, &characters, &mut connection);
    let sent = connection.drain();
    assert!(matches!(sent[..], [ClientMessage::DeleteCharacter { slot: 1, ref name, is_delete: false }] if name == "Bram"));
    state = CharacterSelectState::CharacterSelect(Some(5));
    character_select_event(&CharacterSelectEvent::DeleteSelected, &mut state, &characters, &mut connection);
    assert!(connection.drain().is_empty());
    character_select_event(&CharacterSelectEvent::Disconnect, &mut state, &characters, &mut connection);
    assert!(matches!(connection.state, ConnectionState::Disconnected));
}

#[test]
fn world_events_update_list_and_state() {
    let mut state = CharacterSelectState::CharacterCreating;
    let mut characters = list();
    let mut connection = connected(ConnectionRole::World);
    let r = world_connection_event(
        &WorldConnectionEvent::CreateCharacterError { error: CreateCharacterError::AlreadyExists },
        &mut state,
        &mut characters,
        &mut connection,
    );
    assert_eq!(r, CharacterSelectAction::Stay);
    assert_eq!(state, CharacterSelectState::CharacterCreate);
    let r = world_connection_event(
        &WorldConnectionEvent::CreateCharacterSuccess { character_slot: 2 },
        &mut state,
        &mut characters,
        &mut connection,
    );
    assert_eq!(r, CharacterSelectAction::LeaveCreate);
    assert_eq!(state, CharacterSelectState::CharacterSelect(None));
    assert!(matches!(connection.drain()[..], [ClientMessage::GetCharacterList]));

    world_connection_event(
        &WorldConnectionEvent::DeleteCharacterStart { name: "Aria".to_string(), delete_time: 900 },
        &mut state,
        &mut characters,
        &mut connection,
    );
    assert_eq!(characters.as_ref().unwrap().characters[0].delete_time, Some(900));
    world_connection_event(
        &WorldConnectionEvent::DeleteCharacterCancel { name: "Bram".to_string() },
        &mut state,
        &mut characters,
        &mut connection,
    );
    assert_eq!(characters.as_ref().unwrap().characters[1].delete_time, None);
    assert!(connection.drain().is_empty());

    let mut no_list: Option<CharacterList> = None;
    world_connection_event(
        &WorldConnectionEvent::DeleteCharacterCancel { name: "Bram".to_string() },
        &mut state,
        &mut no_list,
        &mut connection,
    );
    assert!(matches!(connection.drain()[..], [ClientMessage::GetCharacterList]));
}

#[test]
fn set_delete_time_touches_first_match_only() {
    let mut characters = CharacterList {
        characters: vec![
            CharacterListItem { name: "Aria".to_string(), delete_time: None },
            CharacterListItem { name: "Aria".to_string(), delete_time: None },
        ],
    };
    assert!(set_delete_time(&mut characters, &"Aria".to_string(), Some(5)));
    assert_eq!(characters.characters[0].delete_time, Some(5));
    assert_eq!(characters.characters[1].delete_time, None);
    assert!(!set_delete_time(&mut characters, &"Cid".to_string(), Some(5)));
}

#[test]
fn select_screen_frames() {
    let connection = connected(ConnectionRole::World);
    let mut state = CharacterSelectState::Entering;
    let mut zone = None;
    assert_eq!(character_select_system(&mut state, &mut zone, &connection, false, false, None), CharacterSelectStep::Stay);
    assert_eq!(state, CharacterSelectState::Entering);
    character_select_system(&mut state, &mut zone, &connection, true, false, None);
    assert_eq!(state, CharacterSelectState::CharacterSelect(None));

    state = CharacterSelectState::ConnectingGameServer;
    assert_eq!(character_select_system(&mut state, &mut zone, &connection, false, false, Some(22)), CharacterSelectStep::LeaveSelect);
    assert_eq!(state, CharacterSelectState::Leaving);
    assert_eq!(zone, Some(22));
    assert_eq!(character_select_system(&mut state, &mut zone, &connection, false, false, None), CharacterSelectStep::Stay);
    assert_eq!(character_select_system(&mut state, &mut zone, &connection, false, true, None), CharacterSelectStep::LoadZone(22));
    assert_eq!(state, CharacterSelectState::Loading);
    assert_eq!(zone, None);

    let gone = Connection::new(ConnectionRole::World);
    assert_eq!(character_select_system(&mut state, &mut zone, &gone, true, true, None), CharacterSelectStep::ReturnToLogin);
}

#[test]
fn double_click_plays_selected_character() {
    let mut selected = None;
    let mut last = None;
    assert!(!click_character(&mut selected, &mut last, 1, 1000));
    assert_eq!(selected, Some(1));
    assert!(click_character(&mut selected, &mut last, 1, 1249));
    assert!(!click_character(&mut selected, &mut last, 1, 1499));
    assert!(!click_character(&mut selected, &mut last, 2, 1500));
    assert_eq!(selected, Some(2));
    assert_eq!(last, Some(1500));
}

#[test]
fn character_models_pick_their_motion() {
    let alive = CharacterListItem { name: "Aria".to_string(), delete_time: None };
    let deleting = CharacterListItem { name: "Bram".to_string(), delete_time: Some(5) };
    let state = CharacterSelectState::CharacterSelect(Some(0));
    assert_eq!(character_model_motion(state, 0, &alive), CharacterModelMotion::Select);
    assert_eq!(character_model_motion(state, 1, &alive), CharacterModelMotion::Stop);
    assert_eq!(character_model_motion(state, 0, &deleting), CharacterModelMotion::Sit);
    assert_eq!(character_model_motion(CharacterSelectState::Entering, 0, &alive), CharacterModelMotion::Stop);
}

#[test]
fn session_worker_lifecycle() {
    let (phase, action) = session_step(SessionPhase::Connecting, SessionEvent::Outbound);
    assert_eq!((phase, action), (SessionPhase::Connecting, SessionAction::Idle));
    let (phase, action) = session_step(phase, SessionEvent::SocketOpened);
    assert_eq!((phase, action), (SessionPhase::Handshaking, SessionAction::StartHandshake));
    let (phase, action) = session_step(phase, SessionEvent::HandshakeDone);
    assert_eq!((phase, action), (SessionPhase::Running, SessionAction::ReportConnected));
    assert_eq!(session_step(phase, SessionEvent::Outbound), (SessionPhase::Running, SessionAction::WriteToSocket));
    assert_eq!(session_step(phase, SessionEvent::Inbound), (SessionPhase::Running, SessionAction::DeliverInbound));
    assert_eq!(session_step(phase, SessionEvent::FrameCorrupt), (SessionPhase::Closed, SessionAction::ReportDisconnected));
    assert_eq!(session_step(phase, SessionEvent::ChannelClosed), (SessionPhase::Closed, SessionAction::Exit));
    assert_eq!(session_step(SessionPhase::Connecting, SessionEvent::IoError), (SessionPhase::Closed, SessionAction::ReportDisconnected));
    assert_eq!(session_step(SessionPhase::Handshaking, SessionEvent::Inbound), (SessionPhase::Closed, SessionAction::ReportDisconnected));
    for event in [SessionEvent::SocketOpened, SessionEvent::HandshakeDone, SessionEvent::Outbound, SessionEvent::IoError] {
        assert_eq!(session_step(SessionPhase::Closed, event), (SessionPhase::Closed, SessionAction::Idle));
    }
}

#[test]
fn login_screen_enter_and_exit() {
    let mut state = LoginState::JoiningServer;
    let mut account = Some(Account { username: "u".to_string(), password: "p".to_string() });
    login_state_enter(&mut state, &mut account);
    assert_eq!(state, LoginState::Input);
    assert!(account.is_none());
    let mut connection = connected(ConnectionRole::Login);
    login_state_exit(&mut connection);
    assert!(matches!(connection.state, ConnectionState::Disconnected));
}

#[test]
fn select_screen_enter_and_exit() {
    let mut state = CharacterSelectState::Loading;
    let mut zone = Some(3);
    let slots = character_select_enter(&mut state, &mut zone, 3);
    assert_eq!(state, CharacterSelectState::Entering);
    assert_eq!(zone, None);
    assert_eq!(slots.iter().map(|s| s.index).collect::<Vec<_>>(), vec![0, 1, 2]);
    let mut characters = list();
    state = CharacterSelectState::CharacterSelect(Some(0));
    zone = Some(4);
    character_select_exit(&mut state, &mut zone, &mut characters);
    assert!(characters.is_none());
    assert_eq!(state, CharacterSelectState::Entering);
    assert_eq!(zone, None);
}
