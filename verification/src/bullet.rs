//! Bullet entities: plain data plus the per-tick advance behaviour.
//! A bullet permanently excludes its shooter's collider from its own
//! collision queries, so a shot can never hit the one who fired it.

use vstd::prelude::*;
use crate::collider::{bodies_of, colliders_of, BodyHandle, ColliderHandle, GameCollider};
use crate::geometry::{Position, Velocity};
use crate::output_messages::UpdateBulletPosition;
use crate::rapier::Vect;

verus! {

/// Numerator of the default bullet speed, in world units per second.
pub const BULLET_SPEED_NUM: u64 = 1;

/// Denominator of the default bullet speed.
pub const BULLET_SPEED_DEN: u64 = 10;

/// The data every bullet kind shares.
#[derive(Clone, Copy, Debug)]
pub struct BulletInfo {
    pub id: u128,
    pub position: Position,
    pub velocity: Velocity,
    pub fired_by: ColliderHandle,
    pub body_handle: BodyHandle,
    pub collider_handle: ColliderHandle,
}

/// Relies on `uuid::Uuid::new_v4`, read back as its raw 128-bit value:
/// a randomly drawn bullet identity. Nothing is promised of the draw.
#[verifier::external_body]
fn new_bullet_id() -> u128 {
    uuid::Uuid::new_v4().as_u128()
}

impl BulletInfo {
    /// Advances the bullet by `velocity * (delta / 1000)`, resolved
    /// against the world with the shooter's collider excluded, and
    /// commits the resolved position. Returns every contacted collider
    /// and the bullet's delta record; the shooter's collider and the
    /// bullet's own collider are never among the contacts.
    pub fn update_position_in(&mut self, collider: &mut GameCollider, delta: u64)
        -> (r: (Vec<ColliderHandle>, UpdateBulletPosition))
        requires
            bodies_of(old(collider).bodies).contains(old(self).body_handle),
        ensures
            *final(self) == *old(self),
            bodies_of(final(collider).bodies) == bodies_of(old(collider).bodies),
            colliders_of(final(collider).colliders) == colliders_of(old(collider).colliders),
            r.1.id == old(self).id,
            !r.1.destroy,
            forall|i: int| 0 <= i < r.0@.len() ==> #[trigger] r.0@[i] != old(self).fired_by,
            forall|i: int| 0 <= i < r.0@.len() ==>
                colliders_of(final(collider).colliders).dom().contains(#[trigger] r.0@[i])
                && colliders_of(final(collider).colliders)[r.0@[i]] != old(self).body_handle,
    {
        let desired = self.velocity.displacement_in(delta);
        let movement = collider.calculate_movement(self.body_handle, Some(self.fired_by), &desired);
        let next = collider.commit_translation(self.body_handle, &movement.translation);
        (movement.collisions, UpdateBulletPosition { id: self.id, position: next, destroy: false })
    }
}

/// The one bullet kind currently in the game.
#[derive(Clone, Copy, Debug)]
pub struct BasicBullet {
    pub bullet_info: BulletInfo,
    pub damage: i16,
}

impl BasicBullet {
    /// Spawns a bullet entity at `position`, flying along `direction`
    /// at the default speed, with `fired_by` as its exclusion filter.
    /// The new body/collider handle pair is fresh.
    pub fn new(
        collider: &mut GameCollider,
        position: Position,
        direction: &Vect,
        fired_by: ColliderHandle,
    ) -> (r: BasicBullet)
        ensures
            r.bullet_info.position == position,
            r.bullet_info.fired_by == fired_by,
            r.damage == 20,
            !bodies_of(old(collider).bodies).contains(r.bullet_info.body_handle),
            bodies_of(final(collider).bodies)
                == bodies_of(old(collider).bodies).insert(r.bullet_info.body_handle),
            !colliders_of(old(collider).colliders).dom().contains(r.bullet_info.collider_handle),
            colliders_of(final(collider).colliders)
                == colliders_of(old(collider).colliders)
                    .insert(r.bullet_info.collider_handle, r.bullet_info.body_handle),
    {
        let (body_handle, collider_handle) = collider.load_player(&position.vector);
        BasicBullet {
            bullet_info: BulletInfo {
                id: new_bullet_id(),
                position,
                velocity: Velocity::new(direction, BULLET_SPEED_NUM, BULLET_SPEED_DEN),
                fired_by,
                body_handle,
                collider_handle,
            },
            damage: 20,
        }
    }
}

/// Tagged-variant projectile type: new projectile kinds extend this
/// enum with new variants sharing the per-tick behaviour below.
#[derive(Clone, Copy, Debug)]
pub enum Bullet {
    Basic { bullet: BasicBullet },
}

impl Bullet {
    /// The shared bullet data of whichever kind this is.
    pub open spec fn info(self) -> BulletInfo {
        match self {
            Bullet::Basic { bullet } => bullet.bullet_info,
        }
    }

    /// Per-tick advance: resolve this bullet's movement and report the
    /// contacts and the delta record.
    pub fn update_position(&mut self, collider: &mut GameCollider, delta: u64)
        -> (r: (Vec<ColliderHandle>, UpdateBulletPosition))
        requires
            bodies_of(old(collider).bodies).contains(old(self).info().body_handle),
        ensures
            *final(self) == *old(self),
            bodies_of(final(collider).bodies) == bodies_of(old(collider).bodies),
            colliders_of(final(collider).colliders) == colliders_of(old(collider).colliders),
            r.1.id == old(self).info().id,
            !r.1.destroy,
            forall|i: int| 0 <= i < r.0@.len() ==> #[trigger] r.0@[i] != old(self).info().fired_by,
            forall|i: int| 0 <= i < r.0@.len() ==>
                colliders_of(final(collider).colliders).dom().contains(#[trigger] r.0@[i])
                && colliders_of(final(collider).colliders)[r.0@[i]] != old(self).info().body_handle,
    {
        match self {
            Bullet::Basic { bullet } => bullet.bullet_info.update_position_in(collider, delta),
        }
    }

    /// The bullet's physics body handle.
    pub fn get_body_handle(&self) -> (r: BodyHandle)
        ensures
            r == self.info().body_handle,
    {
        match self {
            Bullet::Basic { bullet } => bullet.bullet_info.body_handle,
        }
    }

    /// The bullet's own collider handle.
    pub fn get_collider_handle(&self) -> (r: ColliderHandle)
        ensures
            r == self.info().collider_handle,
    {
        match self {
            Bullet::Basic { bullet } => bullet.bullet_info.collider_handle,
        }
    }

    /// Whether this bullet carries the given id.
    pub fn matches_id(&self, id: u128) -> (r: bool)
        ensures
            r == (self.info().id == id),
    {
        match self {
            Bullet::Basic { bullet } => bullet.bullet_info.id == id,
        }
    }

    /// Whether this bullet's id stands in the given id list.
    pub fn in_vector(&self, bullets: &Vec<u128>) -> (r: bool)
        ensures
            r == bullets@.contains(self.info().id),
    {
        match self {
            Bullet::Basic { bullet } => contains_id(bullets, bullet.bullet_info.id),
        }
    }
}

/// Linear scan for an id in a list.
fn contains_id(ids: &Vec<u128>, id: u128) -> (r: bool)
    ensures
        r == ids@.contains(id),
{
    let mut i: usize = 0;
    while i < ids.len()
        invariant
            0 <= i <= ids@.len(),
            forall|k: int| 0 <= k < i ==> ids@[k] != id,
        decreases ids@.len() - i,
    {
        if ids[i] == id {
            return true;
        }
        i = i + 1;
    }
    false
}

} // verus!
