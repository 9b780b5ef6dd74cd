//! The login screen's state machine: from credentials to a login
//! connection, a server list and a chosen channel.

use vstd::prelude::*;

use crate::connection::Connection;
use crate::messages::ClientMessage;

verus! {

/// Port of the login server when the configured one is not a port number.
pub const DEFAULT_LOGIN_PORT: u16 = 29000;

#[derive(Clone, Copy, Debug, PartialEq, Eq, Structural)]
pub enum LoginState {
    Input,
    WaitServerList,
    ServerSelect,
    JoiningServer,
}

pub struct Account {
    pub username: String,
    pub password: String,
}

pub struct ServerConfiguration {
    pub ip: String,
    pub port: String,
    pub auto_login: bool,
}

pub enum LoginEvent {
    Login { username: String, password: String },
    SelectServer { server_id: usize, channel_id: usize },
}

/// Requests for the network layer.
pub enum NetworkEvent {
    ConnectLogin { ip: String, port: u16 },
}

pub open spec fn is_ascii_digit(c: char) -> bool {
    '0' <= c && c <= '9'
}

/// The number written by a string of decimal digits.
pub open spec fn decimal_value(digits: Seq<char>) -> int
    decreases digits.len(),
{
    if digits.len() == 0 {
        0
    } else {
        decimal_value(digits.drop_last()) * 10 + (digits.last() as int - '0' as int)
    }
}

/// What parsing `s` as a `u16` gives: an optional `+` followed by one or
/// more decimal digits whose value fits, and nothing else.
pub open spec fn spec_parse_u16(s: Seq<char>) -> Option<u16> {
    let digits = if s.len() > 0 && s[0] == '+' {
        s.drop_first()
    } else {
        s
    };
    if digits.len() > 0 && (forall|i: int| 0 <= i < digits.len() ==> is_ascii_digit(
        #[trigger] digits[i],
    )) && decimal_value(digits) <= u16::MAX {
        Some(decimal_value(digits) as u16)
    } else {
        None
    }
}

/// Relies on `<u16 as FromStr>::from_str` (through `str::parse`): it accepts
/// an optional `+` followed by decimal digits, rejects anything else and
/// any value above `u16::MAX`.
#[verifier::external_body]
fn parse_u16(s: &str) -> (r: Option<u16>)
    ensures
        r == spec_parse_u16(s@),
{
    s.parse::<u16>().ok()
}

pub open spec fn spec_login_port(port: Seq<char>) -> u16 {
    match spec_parse_u16(port) {
        Some(p) => p,
        None => DEFAULT_LOGIN_PORT,
    }
}

/// The configured login port, or the default one when it is not a number.
pub fn login_port(configuration: &ServerConfiguration) -> (r: u16)
    ensures
        r == spec_login_port(configuration.port@),
{
    match parse_u16(configuration.port.as_str()) {
        Some(port) => port,
        None => DEFAULT_LOGIN_PORT,
    }
}

/// One frame of the login screen: losing the login connection anywhere but
/// on the input form returns there; a server list ends the wait for it.
pub open spec fn spec_login_update(state: LoginState, connected: bool, has_server_list: bool) -> LoginState {
    let state = if state != LoginState::Input && !connected {
        LoginState::Input
    } else {
        state
    };
    if state == LoginState::WaitServerList && has_server_list {
        LoginState::ServerSelect
    } else {
        state
    }
}

pub fn login_system(state: &mut LoginState, login_connection: &Connection, has_server_list: bool)
    ensures
        *final(state) == spec_login_update(
            *old(state),
            login_connection.spec_is_connected(),
            has_server_list,
        ),
{
    if *state != LoginState::Input && !login_connection.is_connected() {
        *state = LoginState::Input;
    }
    if *state == LoginState::WaitServerList && has_server_list {
        *state = LoginState::ServerSelect;
    }
}

/// Handles one login screen event. A login attempt is only taken from the
/// input form: it stores the account, waits for the server list and asks
/// for a login connection. Choosing a server asks the login server to join
/// it (dropped when there is no connection) and waits for that.
pub fn login_event(
    event: &LoginEvent,
    state: &mut LoginState,
    account: &mut Option<Account>,
    login_connection: &mut Connection,
    configuration: &ServerConfiguration,
) -> (r: Option<NetworkEvent>)
    ensures
        final(login_connection).role == old(login_connection).role,
        match *event {
            LoginEvent::Login { username, password } => if *old(state) == LoginState::Input {
                &&& *final(state) == LoginState::WaitServerList
                &&& *final(account) matches Some(a) && a.username@ == username@ && a.password@
                    == password@
                &&& r matches Some(NetworkEvent::ConnectLogin { ip, port }) && ip@
                    == configuration.ip@ && port == spec_login_port(configuration.port@)
                &&& final(login_connection).state == old(login_connection).state
            } else {
                &&& *final(state) == *old(state)
                &&& *final(account) == *old(account)
                &&& r is None
                &&& final(login_connection).state == old(login_connection).state
            },
            LoginEvent::SelectServer { server_id, channel_id } => {
                &&& *final(state) == LoginState::JoiningServer
                &&& *final(account) == *old(account)
                &&& r is None
                &&& old(login_connection).spec_is_connected() ==> final(login_connection).spec_is_connected() && final(login_connection).pending() == old(login_connection).pending().push(ClientMessage::JoinServer { server_id, channel_id })
                &&& !old(login_connection).spec_is_connected() ==> final(login_connection).state
                    == old(login_connection).state
            },
        },
{
    match event {
        LoginEvent::Login { username, password } => {
            if *state == LoginState::Input {
                *state = LoginState::WaitServerList;
                *account = Some(Account { username: username.clone(), password: password.clone() });
                Some(
                    NetworkEvent::ConnectLogin {
                        ip: configuration.ip.clone(),
                        port: login_port(configuration),
                    },
                )
            } else {
                None
            }
        },
        LoginEvent::SelectServer { server_id, channel_id } => {
            let _ = login_connection.send(
                ClientMessage::JoinServer { server_id: *server_id, channel_id: *channel_id },
            );
            *state = LoginState::JoiningServer;
            None
        },
    }
}

/// Entering the login screen: back to the input form, with no account kept.
pub fn login_state_enter(state: &mut LoginState, account: &mut Option<Account>)
    ensures
        *final(state) == LoginState::Input,
        *final(account) is None,
{
    *state = LoginState::Input;
    *account = None;
}

/// Leaving the login screen drops the login connection.
pub fn login_state_exit(login_connection: &mut Connection)
    ensures
        final(login_connection).role == old(login_connection).role,
        final(login_connection).state is Disconnected,
{
    login_connection.on_disconnected();
}

} // verus!
