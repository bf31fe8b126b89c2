//! The command envelopes that arrive from clients, as plain values.
//! Decoding from the wire format happens outside the library; a decode
//! failure drops the datagram before anything here is built.

use vstd::prelude::*;
use crate::rapier::{Vect, Quat};

verus! {

/// A client asks to join, with its chosen id and display name.
#[derive(Debug)]
pub struct PlayerJoined {
    pub id: String,
    pub username: String,
}

/// A client announces that it leaves.
#[derive(Debug)]
pub struct PlayerLeft {
    pub id: String,
}

/// A client asks to move by the given displacement.
#[derive(Debug)]
pub struct Move {
    pub distance: Vect,
}

/// A client updates its facing.
#[derive(Debug)]
pub struct UpdateCamera {
    pub rotation: Quat,
}

/// A client fires a shot from its current position and facing.
#[derive(Debug)]
pub struct Shoot {}

/// One decoded command envelope: exactly one kind per message.
#[derive(Debug)]
pub enum GameEvent {
    Joined(PlayerJoined),
    Move(Move),
    Left(PlayerLeft),
    Shoot(Shoot),
    UpdateCamera(UpdateCamera),
}

} // verus!
