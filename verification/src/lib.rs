//! Authoritative simulation core of a networked multiplayer game.
//!
//! The library ingests client commands (join, move, rotate, shoot,
//! leave), keeps the canonical world state, advances it on a fixed tick
//! against a physics engine, and emits change events for broadcast.
//! Transport, asset loading and the engine's own numerics stay outside;
//! the engine is reached only through the trusted movement adapter in
//! [`collider`].

pub mod rapier;
pub mod networking;
pub mod geometry;
pub mod collider;
pub mod player;
pub mod input_messages;
pub mod output_messages;
pub mod bullet;
pub mod message_queue;
pub mod game_info;
pub mod game_server;
pub mod enums;
pub mod attributes;
pub mod errors;
pub mod normalization;
pub mod indices;
