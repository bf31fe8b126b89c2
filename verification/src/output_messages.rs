//! The change events the core emits, broadcast to every connected
//! client once per tick. Encoding to the wire format happens outside
//! the library.

use vstd::prelude::*;
use crate::bullet::BulletInfo;
use crate::rapier::Vect;

verus! {

/// A player joined the world.
#[derive(Debug)]
pub struct AddedPlayer {
    pub id: String,
    pub username: String,
}

/// A player left the world.
#[derive(Debug)]
pub struct RemovedPlayer {
    pub id: String,
}

/// A player's position after a resolved move.
#[derive(Debug)]
pub struct ChangedPlayerPosition {
    pub id: String,
    pub position: Vect,
}

/// A bullet was spawned.
#[derive(Clone, Copy, Debug)]
pub struct CreateBullet {
    pub id: u128,
    pub position: Vect,
}

/// One bullet's delta for this tick; `destroy` marks it for removal.
#[derive(Clone, Copy, Debug)]
pub struct UpdateBulletPosition {
    pub id: u128,
    pub position: Vect,
    pub destroy: bool,
}

/// All bullet deltas of one tick, aggregated.
#[derive(Debug)]
pub struct UpdateAllBullets {
    pub update_bullet_position: Vec<UpdateBulletPosition>,
}

/// The outward event of one handled command or tick step.
#[derive(Debug)]
pub enum UpdateEvent {
    AddedPlayer(AddedPlayer),
    RemovedPlayer(RemovedPlayer),
    ChangedPlayerPosition(ChangedPlayerPosition),
    CreateBullet(CreateBullet),
    UpdateAllBullets(UpdateAllBullets),
}

impl CreateBullet {
    /// The spawn notification for a freshly created bullet.
    pub fn new(bullet_info: &BulletInfo) -> (r: CreateBullet)
        ensures
            r.id == bullet_info.id,
            r.position == bullet_info.position.vector,
    {
        CreateBullet { id: bullet_info.id, position: bullet_info.position.vector }
    }
}

} // verus!
