//! Verified core of the TorchFlower Bedrock bot engine: wire encodings,
//! packet framing and observation parsers, batch compression and encryption,
//! and the bot-side decision rules.

pub mod varint;
pub mod wire;
pub mod names;
pub mod packets;
pub mod observe;
pub mod bot;
pub mod soft_enum;
pub mod chunk;
pub mod compression;
pub mod encryption;
pub mod codec;
pub mod terrain;
pub mod gameplay;
pub mod validation;
pub mod protocol_adapter;
pub mod client;
pub mod text;
pub mod commands;
pub mod menu;
pub mod auth;
pub mod transport;
pub mod inventory;
pub mod chat;
pub mod nbt;
pub mod start_game;
pub mod batch;
pub mod boundary;
pub mod candidates;
pub mod auth_input;
pub mod protocol_options;
pub mod addon;
pub mod data;
pub mod pool;
pub mod native_client;
pub mod easy_auth;
pub mod diagnostics;
pub mod status;
pub mod probes;
pub mod runs;
pub mod session_loop;
