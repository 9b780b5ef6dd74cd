//! Client session and command-orchestration layer of a 3D MMO game client:
//! the per-entity action state machine, cooldown tracking, the resolution of
//! player intents into outbound protocol messages, and the connection and
//! front-end state machines that carry them.

pub mod world;
pub mod command;
pub mod data;
pub mod cooldowns;
pub mod player;
pub mod messages;
pub mod target_filter;
pub mod connection;
pub mod player_command;
pub mod login;
pub mod character_select;
pub mod zone_object;
pub mod hit_event;
pub mod ui_resources;
pub mod session;
