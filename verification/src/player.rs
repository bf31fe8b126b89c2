//! The player entity: plain data plus its physics handle pair.

use vstd::prelude::*;
use crate::collider::{BodyHandle, ColliderHandle};
use crate::networking::{NetAddress, PlayerServerInfo};

verus! {

/// A connected player. One body/collider handle pair per active player,
/// registered with the movement adapter on join and released on leave.
#[derive(Debug)]
pub struct Player {
    pub id: String,
    pub username: String,
    pub server_info: PlayerServerInfo,
    pub health: i32,
    pub body_handle: BodyHandle,
    pub collider_handle: ColliderHandle,
}

impl Player {
    /// A freshly joined player at full health.
    pub fn new(
        id: String,
        username: String,
        addr: NetAddress,
        body_handle: BodyHandle,
        collider_handle: ColliderHandle,
    ) -> (p: Player)
        ensures
            p.id == id,
            p.username == username,
            p.server_info.addr == addr,
            p.health == 100,
            p.body_handle == body_handle,
            p.collider_handle == collider_handle,
    {
        Player {
            id,
            username,
            body_handle,
            collider_handle,
            server_info: PlayerServerInfo { addr },
            health: 100,
        }
    }
}

} // verus!
