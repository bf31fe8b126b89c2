//! World state and its command handlers. The tick orchestrator owns
//! one `GameInfo` exclusively; every handler takes the current state
//! plus one command and returns zero or one outward event.

use vstd::prelude::*;
use crate::bullet::{BasicBullet, Bullet};
use crate::collider::{bodies_of, colliders_of, BodyHandle, ColliderHandle, GameCollider};
use crate::geometry::{vector_of_units, Position};
use crate::input_messages::{Move, PlayerJoined, PlayerLeft, Shoot, UpdateCamera};
use crate::networking::NetAddress;
use crate::output_messages::{
    AddedPlayer, ChangedPlayerPosition, CreateBullet, RemovedPlayer, UpdateAllBullets,
    UpdateBulletPosition, UpdateEvent,
};
use crate::player::Player;

verus! {

/// Lower bound (inclusive) of the randomized spawn region on the two
/// horizontal axes, in world units.
pub const SPAWN_MIN: u32 = 2;

/// Upper bound (exclusive) of the randomized spawn region.
pub const SPAWN_MAX: u32 = 10;

/// Fixed spawn height, in world units.
pub const SPAWN_HEIGHT: u32 = 5;

/// Relies on `rand::thread_rng` and `Rng::gen_range`: an integer drawn
/// from `lo..hi`. Nothing holds of the draw beyond its range.
#[verifier::external_body]
fn random_unit_range(lo: u32, hi: u32) -> (r: u32)
    requires
        lo < hi,
    ensures
        lo <= r < hi,
{
    rand::Rng::gen_range(&mut rand::thread_rng(), lo..hi)
}

/// Some player of `players` is keyed by `addr`.
pub open spec fn has_player_for(players: Seq<Player>, addr: NetAddress) -> bool {
    exists|i: int| 0 <= i < players.len() && players[i].server_info.addr == addr
}

/// The index of the player keyed by `addr`; meaningful only when
/// `has_player_for` holds (with distinct addresses it is unique).
pub open spec fn player_index_for(players: Seq<Player>, addr: NetAddress) -> int {
    choose|i: int| 0 <= i < players.len() && players[i].server_info.addr == addr
}

/// No two players share a network address.
pub open spec fn distinct_addresses(players: Seq<Player>) -> bool {
    forall|i: int, j: int| 0 <= i < j < players.len()
        ==> players[i].server_info.addr != players[j].server_info.addr
}

/// No two players share a body or collider handle.
pub open spec fn distinct_player_handles(players: Seq<Player>) -> bool {
    forall|i: int, j: int| 0 <= i < j < players.len()
        ==> players[i].body_handle != players[j].body_handle
            && players[i].collider_handle != players[j].collider_handle
}

/// `h` is the collider handle of some player in `players`.
pub open spec fn is_player_collider(players: Seq<Player>, h: ColliderHandle) -> bool {
    exists|i: int| 0 <= i < players.len() && players[i].collider_handle == h
}

/// The player's handle pair is live in the engine and the collider is
/// attached to the body.
pub open spec fn player_registered(p: Player, c: GameCollider) -> bool {
    &&& bodies_of(c.bodies).contains(p.body_handle)
    &&& colliders_of(c.colliders).dom().contains(p.collider_handle)
    &&& colliders_of(c.colliders)[p.collider_handle] == p.body_handle
}

/// The bullet's handle pair is live in the engine and the collider is
/// attached to the body.
pub open spec fn bullet_registered(b: Bullet, c: GameCollider) -> bool {
    &&& bodies_of(c.bodies).contains(b.info().body_handle)
    &&& colliders_of(c.colliders).dom().contains(b.info().collider_handle)
    &&& colliders_of(c.colliders)[b.info().collider_handle] == b.info().body_handle
}

/// No two bullets share an id or a body handle.
pub open spec fn distinct_bullets(bullets: Seq<Bullet>) -> bool {
    forall|i: int, j: int| 0 <= i < j < bullets.len()
        ==> bullets[i].info().id != bullets[j].info().id
            && bullets[i].info().body_handle != bullets[j].info().body_handle
}

/// Players and bullets never share a body handle.
pub open spec fn entities_disjoint(players: Seq<Player>, bullets: Seq<Bullet>) -> bool {
    forall|i: int, j: int| 0 <= i < players.len() && 0 <= j < bullets.len()
        ==> players[i].body_handle != bullets[j].info().body_handle
}

/// The authoritative world: all players, all bullets, and the movement
/// adapter holding the static level geometry and every dynamic body.
pub struct GameInfo {
    pub players: Vec<Player>,
    pub bullets: Vec<Bullet>,
    pub collider: GameCollider,
}

impl GameInfo {
    /// The world-state invariant: addresses are unique session keys,
    /// every live entity owns exactly one registered handle pair, and
    /// no handle or bullet id is shared.
    pub open spec fn wf(self) -> bool {
        &&& distinct_addresses(self.players@)
        &&& distinct_player_handles(self.players@)
        &&& distinct_bullets(self.bullets@)
        &&& entities_disjoint(self.players@, self.bullets@)
        &&& forall|i: int| 0 <= i < self.players@.len()
            ==> player_registered(#[trigger] self.players@[i], self.collider)
        &&& forall|j: int| 0 <= j < self.bullets@.len()
            ==> bullet_registered(#[trigger] self.bullets@[j], self.collider)
    }

    /// A world with no entities yet, over the given movement adapter
    /// (its static geometry already loaded).
    pub fn new(collider: GameCollider) -> (g: GameInfo)
        ensures
            g.wf(),
            g.players@ == Seq::<Player>::empty(),
            g.bullets@ == Seq::<Bullet>::empty(),
            g.collider == collider,
    {
        GameInfo { players: Vec::new(), bullets: Vec::new(), collider }
    }

    /// Every currently known client address, in player order.
    pub fn get_addresses(&self) -> (r: Vec<NetAddress>)
        ensures
            r@.len() == self.players@.len(),
            forall|i: int| 0 <= i < r@.len()
                ==> #[trigger] r@[i] == self.players@[i].server_info.addr,
    {
        let mut addrs: Vec<NetAddress> = Vec::new();
        let mut i: usize = 0;
        while i < self.players.len()
            invariant
                0 <= i <= self.players@.len(),
                addrs@.len() == i,
                forall|k: int| 0 <= k < i
                    ==> #[trigger] addrs@[k] == self.players@[k].server_info.addr,
            decreases self.players@.len() - i,
        {
            addrs.push(self.players[i].server_info.addr);
            i = i + 1;
        }
        addrs
    }

    /// The position of the player keyed by `addr`, if any.
    fn find_player_by_address(&self, addr: NetAddress) -> (r: Option<usize>)
        ensures
            match r {
                Some(i) => i < self.players@.len()
                    && self.players@[i as int].server_info.addr == addr,
                None => !has_player_for(self.players@, addr),
            },
    {
        let mut i: usize = 0;
        while i < self.players.len()
            invariant
                0 <= i <= self.players@.len(),
                forall|k: int| 0 <= k < i
                    ==> (#[trigger] self.players@[k]).server_info.addr != addr,
            decreases self.players@.len() - i,
        {
            if self.players[i].server_info.addr == addr {
                return Some(i);
            }
            i = i + 1;
        }
        None
    }

    /// Join: a no-op when the address already has a player; otherwise
    /// spawns the new player at a randomized position inside the fixed
    /// spawn region, registers it with the adapter under a fresh handle
    /// pair, and reports the newcomer.
    pub fn add_player(&mut self, data: PlayerJoined, addr: NetAddress) -> (r: Option<UpdateEvent>)
        requires
            old(self).wf(),
        ensures
            final(self).wf(),
            join_rel(*old(self), *final(self), data, addr, r),
    {
        let pos = self.find_player_by_address(addr);
        if pos.is_none() {
            let x = random_unit_range(SPAWN_MIN, SPAWN_MAX);
            let z = random_unit_range(SPAWN_MIN, SPAWN_MAX);
            let spawn = vector_of_units(x, SPAWN_HEIGHT, z);
            let (body_handle, collider_handle) = self.collider.load_player(&spawn);
            let player = Player::new(
                data.id.clone(),
                data.username.clone(),
                addr,
                body_handle,
                collider_handle,
            );
            self.players.push(player);
            proof {
                lemma_registration_after_insert(
                    old(self).players@,
                    old(self).bullets@,
                    old(self).collider,
                    self.collider,
                    body_handle,
                    collider_handle,
                );
            }
            return Some(UpdateEvent::AddedPlayer(AddedPlayer {
                id: data.id,
                username: data.username,
            }));
        }

        None
    }

    /// Leave: a no-op when the address is unknown; otherwise removes
    /// the player, releases its physics handle pair, and reports the
    /// departure.
    pub fn remove_player(&mut self, _data: PlayerLeft, addr: NetAddress) -> (r: Option<UpdateEvent>)
        requires
            old(self).wf(),
        ensures
            final(self).wf(),
            leave_rel(*old(self), *final(self), addr, r),
    {
        let pos = self.find_player_by_address(addr);
        if let Some(i) = pos {
            proof {
                lemma_unique_index(old(self).players@, addr, i as int);
            }
            let player = self.players.swap_remove(i);
            self.collider.unload_player(player.body_handle);
            proof {
                lemma_registration_after_remove(
                    self.players@,
                    old(self).bullets@,
                    old(self).collider,
                    self.collider,
                    player.body_handle,
                );
                assert forall|k: int| 0 <= k < self.players@.len()
                    implies (#[trigger] self.players@[k]).server_info.addr != addr by {
                    assert(old(self).players@[i as int].server_info.addr == addr);
                    if k == i as int {
                        assert(self.players@[k] == old(self).players@.last());
                    }
                }
            }
            return Some(UpdateEvent::RemovedPlayer(RemovedPlayer { id: player.id }));
        }

        None
    }
    /// Move: a no-op when the address is unknown; otherwise resolves
    /// the desired displacement against the world from the player's
    /// current position, commits the resolved position, and reports the
    /// resolved (not requested) coordinates.
    pub fn move_player(&mut self, data: Move, addr: NetAddress) -> (r: Option<UpdateEvent>)
        requires
            old(self).wf(),
        ensures
            final(self).wf(),
            move_rel(*old(self), *final(self), addr, r),
    {
        let pos = self.find_player_by_address(addr);
        if let Some(i) = pos {
            proof {
                lemma_unique_index(old(self).players@, addr, i as int);
                assert(player_registered(old(self).players@[i as int], old(self).collider));
            }
            let body_handle = self.players[i].body_handle;
            let movement = self.collider.calculate_movement(body_handle, None, &data.distance);
            let next = self.collider.commit_translation(body_handle, &movement.translation);
            let id = self.players[i].id.clone();
            return Some(UpdateEvent::ChangedPlayerPosition(ChangedPlayerPosition {
                id,
                position: next,
            }));
        }

        None
    }

    /// Camera update: forwards the orientation quaternion to the
    /// adapter as the player's next facing. Facing is not broadcast, so
    /// no event comes back; an unknown address is a no-op.
    pub fn update_camera_rotation(&mut self, payload: UpdateCamera, addr: NetAddress)
        -> (r: Option<UpdateEvent>)
        requires
            old(self).wf(),
        ensures
            final(self).wf(),
            camera_rel(*old(self), *final(self), r),
    {
        let pos = self.find_player_by_address(addr);
        if let Some(i) = pos {
            proof {
                assert(player_registered(old(self).players@[i as int], old(self).collider));
            }
            let body_handle = self.players[i].body_handle;
            self.collider.update_entity_rotation(body_handle, &payload.rotation);
        }

        None
    }
    /// Whether some live bullet already carries `id`.
    fn bullet_id_exists(&self, id: u128) -> (r: bool)
        ensures
            r == exists|j: int| 0 <= j < self.bullets@.len()
                && (#[trigger] self.bullets@[j]).info().id == id,
    {
        let mut j: usize = 0;
        while j < self.bullets.len()
            invariant
                0 <= j <= self.bullets@.len(),
                forall|t: int| 0 <= t < j ==> (#[trigger] self.bullets@[t]).info().id != id,
            decreases self.bullets@.len() - j,
        {
            if self.bullets[j].matches_id(id) {
                return true;
            }
            j = j + 1;
        }
        false
    }

    /// Shoot: a no-op when the address is unknown; otherwise spawns a
    /// bullet at the shooter's current position, flying along its
    /// facing, with the shooter's collider as the bullet's permanent
    /// exclusion filter, and reports the spawn. In the vanishingly rare
    /// case that the randomly drawn bullet id is already in use, the
    /// shot is dropped and the fresh physics entity released, keeping
    /// bullet ids unique.
    pub fn shoot_bullet(&mut self, _payload: Shoot, addr: NetAddress) -> (r: Option<UpdateEvent>)
        requires
            old(self).wf(),
        ensures
            final(self).wf(),
            shoot_rel(*old(self), *final(self), addr, r),
    {
        let pos = self.find_player_by_address(addr);
        if pos.is_none() {
            return None;
        }
        let i = pos.unwrap();
        proof {
            lemma_unique_index(old(self).players@, addr, i as int);
            assert(player_registered(old(self).players@[i as int], old(self).collider));
        }
        let player_body_handle = self.players[i].body_handle;
        let player_collider_handle = self.players[i].collider_handle;

        let player_position = self.collider.body_position(player_body_handle);
        let player_rotation = self.collider.body_direction(player_body_handle);
        let basic_bullet = BasicBullet::new(
            &mut self.collider,
            Position { vector: player_position },
            &player_rotation,
            player_collider_handle,
        );
        proof {
            lemma_registration_after_insert(
                old(self).players@,
                old(self).bullets@,
                old(self).collider,
                self.collider,
                basic_bullet.bullet_info.body_handle,
                basic_bullet.bullet_info.collider_handle,
            );
        }

        if self.bullet_id_exists(basic_bullet.bullet_info.id) {
            let ghost mid = self.collider;
            self.collider.unload_player(basic_bullet.bullet_info.body_handle);
            proof {
                lemma_registration_after_remove(
                    old(self).players@,
                    old(self).bullets@,
                    mid,
                    self.collider,
                    basic_bullet.bullet_info.body_handle,
                );
                assert(bodies_of(self.collider.bodies)
                    =~= bodies_of(old(self).collider.bodies));
            }
            return None;
        }

        let response = Some(UpdateEvent::CreateBullet(CreateBullet::new(
            &basic_bullet.bullet_info,
        )));
        self.bullets.push(Bullet::Basic { bullet: basic_bullet });
        response
    }
    /// Whether any of the reported contacts is a currently-live
    /// player's collider: the caller-side hit test of a bullet's
    /// resolved movement.
    pub fn bullet_collided(
        players: &Vec<Player>,
        _bullet: &Bullet,
        collisions: &Vec<ColliderHandle>,
    ) -> (r: bool)
        ensures
            r == exists|k: int| 0 <= k < collisions@.len()
                && is_player_collider(players@, #[trigger] collisions@[k]),
    {
        let mut k: usize = 0;
        while k < collisions.len()
            invariant
                0 <= k <= collisions@.len(),
                forall|t: int| 0 <= t < k
                    ==> !is_player_collider(players@, #[trigger] collisions@[t]),
            decreases collisions@.len() - k,
        {
            let mut i: usize = 0;
            while i < players.len()
                invariant
                    0 <= i <= players@.len(),
                    k < collisions@.len(),
                    forall|t: int| 0 <= t < i
                        ==> (#[trigger] players@[t]).collider_handle != collisions@[k as int],
                decreases players@.len() - i,
            {
                if players[i].collider_handle == collisions[k] {
                    proof {
                        assert(is_player_collider(players@, collisions@[k as int]));
                    }
                    return true;
                }
                i = i + 1;
            }
            proof {
                assert(!is_player_collider(players@, collisions@[k as int]));
            }
            k = k + 1;
        }
        false
    }

    /// Bullet advance, run every tick whether or not anyone is
    /// connected: every live bullet's movement is resolved with its
    /// exclusion filter and committed; a bullet whose resolved movement
    /// touched a live player's collider is marked `destroy`, removed,
    /// and its physics handles released. Emits the aggregated
    /// per-bullet deltas.
    pub fn update_bullets(&mut self, delta: u64) -> (r: Option<UpdateEvent>)
        requires
            old(self).wf(),
        ensures
            final(self).wf(),
            final(self).players@ == old(self).players@,
            bullets_tick_rel(*old(self), *final(self), r),
    {
        let mut bullet_changes: Vec<UpdateBulletPosition> = Vec::new();
        let mut i: usize = 0;
        while i < self.bullets.len()
            invariant
                old(self).wf(),
                self.players@ == old(self).players@,
                self.bullets@ == old(self).bullets@,
                bodies_of(self.collider.bodies) == bodies_of(old(self).collider.bodies),
                colliders_of(self.collider.colliders)
                    == colliders_of(old(self).collider.colliders),
                0 <= i <= self.bullets@.len(),
                bullet_changes@.len() == i,
                forall|k: int| 0 <= k < i
                    ==> (#[trigger] bullet_changes@[k]).id == old(self).bullets@[k].info().id,
                forall|k: int| 0 <= k < i && (#[trigger] bullet_changes@[k]).destroy
                    ==> exists|h: ColliderHandle| is_player_collider(old(self).players@, h)
                        && h != old(self).bullets@[k].info().fired_by,
            decreases self.bullets@.len() - i,
        {
            let mut b = self.bullets[i];
            proof {
                assert(bullet_registered(old(self).bullets@[i as int], old(self).collider));
            }
            let (collisions, mut updates) = b.update_position(&mut self.collider, delta);
            let collided = GameInfo::bullet_collided(&self.players, &b, &collisions);
            if collided {
                updates.destroy = true;
                proof {
                    let k = choose|k: int| 0 <= k < collisions@.len()
                        && is_player_collider(self.players@, collisions@[k]);
                    assert(collisions@[k] != old(self).bullets@[i as int].info().fired_by);
                }
            }
            bullet_changes.push(updates);
            i = i + 1;
        }

        let ghost records = bullet_changes@;
        let mut bullets: Vec<Bullet> = Vec::new();
        core::mem::swap(&mut bullets, &mut self.bullets);
        let mut remaining: Vec<Bullet> = Vec::new();
        let mut j: usize = 0;
        while j < bullets.len()
            invariant
                old(self).wf(),
                bullets@ == old(self).bullets@,
                self.players@ == old(self).players@,
                records == bullet_changes@,
                bullet_changes@.len() == bullets@.len(),
                0 <= j <= bullets@.len(),
                remaining@ == surviving(bullets@.take(j as int), records.take(j as int)),
                forall|k: int| 0 <= k < j && (#[trigger] records[k]).destroy
                    ==> !bodies_of(self.collider.bodies).contains(bullets@[k].info().body_handle),
                forall|p: int| 0 <= p < self.players@.len()
                    ==> player_registered(#[trigger] self.players@[p], self.collider),
                forall|k: int| 0 <= k < bullets@.len() && (k >= j || !records[k].destroy)
                    ==> bullet_registered(#[trigger] bullets@[k], self.collider),
            decreases bullets@.len() - j,
        {
            let b = bullets[j];
            if bullet_changes[j].destroy {
                let ghost pre = self.collider;
                self.collider.unload_player(b.get_body_handle());
                proof {
                    let removed = bullets@[j as int].info().body_handle;
                    assert forall|p: int| 0 <= p < self.players@.len()
                        implies player_registered(#[trigger] self.players@[p], self.collider) by {
                        assert(player_registered(self.players@[p], pre));
                        assert(self.players@[p].body_handle != removed);
                        assert(colliders_of(pre.colliders).dom().contains(
                            self.players@[p].collider_handle));
                    }
                    assert forall|k: int| 0 <= k < bullets@.len() && (k >= j + 1 || !records[k].destroy)
                        implies bullet_registered(#[trigger] bullets@[k], self.collider) by {
                        if k != j as int {
                            assert(bullet_registered(bullets@[k], pre));
                            assert(bullets@[k].info().body_handle != removed);
                            assert(colliders_of(pre.colliders).dom().contains(
                                bullets@[k].info().collider_handle));
                        }
                    }
                }
            } else {
                remaining.push(b);
            }
            proof {
                assert(bullets@.take(j as int + 1)
                    =~= bullets@.take(j as int).push(bullets@[j as int]));
                assert(records.take(j as int + 1)
                    =~= records.take(j as int).push(records[j as int]));
                lemma_surviving_push(
                    bullets@.take(j as int),
                    records.take(j as int),
                    bullets@[j as int],
                    records[j as int],
                );
            }
            j = j + 1;
        }
        self.bullets = remaining;
        proof {
            assert(bullets@.take(bullets@.len() as int) =~= bullets@);
            assert(records.take(bullets@.len() as int) =~= records);
            lemma_surviving_distinct(old(self).bullets@, records);
            assert forall|k: int| 0 <= k < self.bullets@.len()
                implies bullet_registered(#[trigger] self.bullets@[k], self.collider)
                    && (forall|p: int| 0 <= p < self.players@.len()
                        ==> (#[trigger] self.players@[p]).body_handle
                            != self.bullets@[k].info().body_handle) by {
                assert(surviving(old(self).bullets@, records).contains(self.bullets@[k]));
                let t = choose|t: int| 0 <= t < old(self).bullets@.len()
                    && old(self).bullets@[t] == self.bullets@[k] && !records[t].destroy;
                assert(bullet_registered(old(self).bullets@[t], self.collider));
            }
            assert forall|k: int| 0 <= k < records.len() && (#[trigger] records[k]).destroy
                implies forall|t: int| 0 <= t < self.bullets@.len()
                    ==> (#[trigger] self.bullets@[t]).info().id
                        != old(self).bullets@[k].info().id by {
                assert forall|t: int| 0 <= t < self.bullets@.len()
                    implies (#[trigger] self.bullets@[t]).info().id
                        != old(self).bullets@[k].info().id by {
                    assert(surviving(old(self).bullets@, records).contains(self.bullets@[t]));
                    let s = choose|s: int| 0 <= s < old(self).bullets@.len()
                        && old(self).bullets@[s] == self.bullets@[t] && !records[s].destroy;
                    if old(self).bullets@[s].info().id == old(self).bullets@[k].info().id {
                        assert(s == k);
                    }
                }
            }
        }

        Some(UpdateEvent::UpdateAllBullets(UpdateAllBullets {
            update_bullet_position: bullet_changes,
        }))
    }

    /// One tick's world advance: run the bullet pass, then the engine's
    /// own step (required every tick for its internal bookkeeping).
    pub fn game_tick(&mut self, delta: u64) -> (events: Vec<Option<UpdateEvent>>)
        requires
            old(self).wf(),
        ensures
            final(self).wf(),
            events@.len() == 1,
            final(self).players@ == old(self).players@,
            bullets_tick_rel(*old(self), *final(self), events@[0]),
    {
        let mut events: Vec<Option<UpdateEvent>> = Vec::new();
        let bullet_update = self.update_bullets(delta);
        events.push(bullet_update);
        self.collider.run_step();
        events
    }
}

/// The bullets that survive a tick: those whose delta record, paired
/// by index, is not marked `destroy`.
pub open spec fn surviving(bullets: Seq<Bullet>, records: Seq<UpdateBulletPosition>) -> Seq<Bullet>
    decreases bullets.len(),
{
    if bullets.len() == 0 || records.len() == 0 {
        Seq::empty()
    } else if records[0].destroy {
        surviving(bullets.drop_first(), records.drop_first())
    } else {
        seq![bullets[0]] + surviving(bullets.drop_first(), records.drop_first())
    }
}

/// What the bullet pass of one tick does to the world. `pre` and `post`
/// are the world before and after; `r` its emitted event. The pass runs
/// every tick, connected players or not: the event carries one record
/// per previous bullet in order, a bullet is marked `destroy` only over
/// a contact with a live player's collider other than its shooter's,
/// exactly the unmarked bullets remain, and every marked bullet's body
/// handle is released and its id gone from the world.
pub open spec fn bullets_tick_rel(pre: GameInfo, post: GameInfo, r: Option<UpdateEvent>) -> bool {
    &&& post.players@ == pre.players@
    &&& (r matches Some(UpdateEvent::UpdateAllBullets(u))
        && bullet_records_ok(pre, post, u.update_bullet_position@))
}

/// The per-record guarantees of one bullet pass; see `bullets_tick_rel`.
pub open spec fn bullet_records_ok(
    pre: GameInfo,
    post: GameInfo,
    records: Seq<UpdateBulletPosition>,
) -> bool {
    &&& records.len() == pre.bullets@.len()
    &&& forall|k: int| 0 <= k < records.len()
        ==> (#[trigger] records[k]).id == pre.bullets@[k].info().id
    &&& forall|k: int| 0 <= k < records.len() && (#[trigger] records[k]).destroy
        ==> exists|h: ColliderHandle| is_player_collider(pre.players@, h)
            && h != pre.bullets@[k].info().fired_by
    &&& post.bullets@ == surviving(pre.bullets@, records)
    &&& forall|k: int| 0 <= k < records.len() && (#[trigger] records[k]).destroy
        ==> !bodies_of(post.collider.bodies).contains(pre.bullets@[k].info().body_handle)
    &&& forall|k: int| 0 <= k < records.len() && (#[trigger] records[k]).destroy
        ==> forall|t: int| 0 <= t < post.bullets@.len()
            ==> (#[trigger] post.bullets@[t]).info().id != pre.bullets@[k].info().id
}

/// Appending one bullet/record pair extends the surviving sequence by
/// the bullet exactly when the record is not marked `destroy`.
proof fn lemma_surviving_push(
    bullets: Seq<Bullet>,
    records: Seq<UpdateBulletPosition>,
    b: Bullet,
    rec: UpdateBulletPosition,
)
    requires
        bullets.len() == records.len(),
    ensures
        surviving(bullets.push(b), records.push(rec)) == (if rec.destroy {
            surviving(bullets, records)
        } else {
            surviving(bullets, records).push(b)
        }),
    decreases bullets.len(),
{
    if bullets.len() == 0 {
        assert(bullets.push(b).drop_first() =~= Seq::<Bullet>::empty());
        assert(records.push(rec).drop_first() =~= Seq::<UpdateBulletPosition>::empty());
        assert(bullets.push(b)[0] == b);
        assert(records.push(rec)[0] == rec);
        assert(surviving(Seq::<Bullet>::empty(), Seq::<UpdateBulletPosition>::empty())
            =~= Seq::<Bullet>::empty());
        if !rec.destroy {
            assert(surviving(bullets.push(b), records.push(rec))
                =~= surviving(bullets, records).push(b));
        }
    } else {
        assert(bullets.push(b).drop_first() =~= bullets.drop_first().push(b));
        assert(records.push(rec).drop_first() =~= records.drop_first().push(rec));
        lemma_surviving_push(bullets.drop_first(), records.drop_first(), b, rec);
        assert(bullets.push(b)[0] == bullets[0]);
        assert(records.push(rec)[0] == records[0]);
        if !records[0].destroy {
            if rec.destroy {
            } else {
                assert(seq![bullets[0]]
                    + surviving(bullets.drop_first(), records.drop_first()).push(b)
                    =~= (seq![bullets[0]]
                        + surviving(bullets.drop_first(), records.drop_first())).push(b));
            }
        }
    }
}

/// Every surviving bullet is one of the originals whose record was not
/// marked, and pairwise distinctness carries over.
proof fn lemma_surviving_distinct(bullets: Seq<Bullet>, records: Seq<UpdateBulletPosition>)
    requires
        bullets.len() == records.len(),
        distinct_bullets(bullets),
    ensures
        distinct_bullets(surviving(bullets, records)),
        forall|k: int| 0 <= k < surviving(bullets, records).len()
            ==> exists|t: int| 0 <= t < bullets.len()
                && bullets[t] == #[trigger] surviving(bullets, records)[k]
                && !records[t].destroy,
        forall|x: Bullet| #[trigger] surviving(bullets, records).contains(x)
            ==> exists|t: int| 0 <= t < bullets.len() && bullets[t] == x && !records[t].destroy,
    decreases bullets.len(),
{
    if bullets.len() == 0 || records.len() == 0 {
    } else {
        let tail_b = bullets.drop_first();
        let tail_r = records.drop_first();
        assert(distinct_bullets(tail_b)) by {
            assert forall|i: int, j: int| 0 <= i < j < tail_b.len()
                implies tail_b[i].info().id != tail_b[j].info().id
                    && tail_b[i].info().body_handle != tail_b[j].info().body_handle by {
                assert(tail_b[i] == bullets[i + 1]);
                assert(tail_b[j] == bullets[j + 1]);
            }
        }
        lemma_surviving_distinct(tail_b, tail_r);
        let s = surviving(bullets, records);
        let s_tail = surviving(tail_b, tail_r);
        assert forall|x: Bullet| #[trigger] s_tail.contains(x)
            implies exists|t: int| 0 <= t < bullets.len() && bullets[t] == x
                && !records[t].destroy by {
            let t = choose|t: int| 0 <= t < tail_b.len() && tail_b[t] == x && !tail_r[t].destroy;
            assert(bullets[t + 1] == x && !records[t + 1].destroy);
        }
        if records[0].destroy {
            assert forall|k: int| 0 <= k < s.len()
                implies exists|t: int| 0 <= t < bullets.len() && bullets[t] == #[trigger] s[k]
                    && !records[t].destroy by {
                assert(s_tail.contains(s_tail[k]));
            }
            assert forall|x: Bullet| #[trigger] s.contains(x)
                implies exists|t: int| 0 <= t < bullets.len() && bullets[t] == x
                    && !records[t].destroy by {
                assert(s_tail.contains(x));
            }
        } else {
            assert(s == seq![bullets[0]] + s_tail);
            assert forall|k: int| 0 <= k < s.len()
                implies exists|t: int| 0 <= t < bullets.len() && bullets[t] == #[trigger] s[k]
                    && !records[t].destroy by {
                if k == 0 {
                    assert(s[0] == bullets[0]);
                } else {
                    assert(s[k] == s_tail[k - 1]);
                    assert(s_tail.contains(s_tail[k - 1]));
                }
            }
            assert forall|x: Bullet| #[trigger] s.contains(x)
                implies exists|t: int| 0 <= t < bullets.len() && bullets[t] == x
                    && !records[t].destroy by {
                let k = choose|k: int| 0 <= k < s.len() && s[k] == x;
                if k == 0 {
                    assert(bullets[0] == x && !records[0].destroy);
                } else {
                    assert(s_tail.contains(s[k]));
                }
            }
            assert forall|i: int, j: int| 0 <= i < j < s.len()
                implies s[i].info().id != s[j].info().id
                    && s[i].info().body_handle != s[j].info().body_handle by {
                if i == 0 {
                    assert(s[j] == s_tail[j - 1]);
                    assert(s_tail.contains(s_tail[j - 1]));
                    let t = choose|t: int| 0 <= t < bullets.len() && bullets[t] == s[j]
                        && !records[t].destroy;
                    assert(t > 0 || bullets[t] == bullets[0]);
                    if t == 0 {
                    } else {
                        assert(bullets[0].info().id != bullets[t].info().id);
                    }
                } else {
                    assert(s[i] == s_tail[i - 1]);
                    assert(s[j] == s_tail[j - 1]);
                }
            }
        }
    }
}


/// What a Join does: a no-op (no entity, no event) when the address is
/// already present; otherwise exactly one new player, stored last, with
/// the given identity, full health, the session address, and a fresh
/// registered handle pair, announced by one `AddedPlayer` event.
pub open spec fn join_rel(
    pre: GameInfo,
    post: GameInfo,
    data: PlayerJoined,
    addr: NetAddress,
    r: Option<UpdateEvent>,
) -> bool {
    &&& post.bullets@ == pre.bullets@
    &&& (has_player_for(pre.players@, addr) ==> r is None
        && post.players@ == pre.players@
        && post.collider == pre.collider)
    &&& (!has_player_for(pre.players@, addr) ==> (
        (r matches Some(UpdateEvent::AddedPlayer(a))
            && a.id@ == data.id@ && a.username@ == data.username@)
        && post.players@.len() == pre.players@.len() + 1
        && post.players@ == pre.players@.push(post.players@.last())
        && post.players@.last().id@ == data.id@
        && post.players@.last().username@ == data.username@
        && post.players@.last().server_info.addr == addr
        && post.players@.last().health == 100
        && !bodies_of(pre.collider.bodies).contains(post.players@.last().body_handle)
        && bodies_of(post.collider.bodies)
            == bodies_of(pre.collider.bodies).insert(post.players@.last().body_handle)
        && !colliders_of(pre.collider.colliders).dom().contains(
            post.players@.last().collider_handle)
        && colliders_of(post.collider.colliders)
            == colliders_of(pre.collider.colliders).insert(
                post.players@.last().collider_handle,
                post.players@.last().body_handle)
    ))
}

/// What a Leave does: a no-op (no event, no mutation) when the address
/// is unknown; otherwise that one player is removed (by swapping in the
/// last entry), its handle pair is released from the engine, and one
/// `RemovedPlayer` event reports its id.
pub open spec fn leave_rel(
    pre: GameInfo,
    post: GameInfo,
    addr: NetAddress,
    r: Option<UpdateEvent>,
) -> bool {
    &&& post.bullets@ == pre.bullets@
    &&& (!has_player_for(pre.players@, addr) ==> r is None
        && post.players@ == pre.players@
        && post.collider == pre.collider)
    &&& (has_player_for(pre.players@, addr) ==> (
        (r matches Some(UpdateEvent::RemovedPlayer(rp))
            && rp.id@ == pre.players@[player_index_for(pre.players@, addr)].id@)
        && post.players@ == pre.players@
            .update(player_index_for(pre.players@, addr), pre.players@.last())
            .drop_last()
        && !has_player_for(post.players@, addr)
        && !bodies_of(post.collider.bodies).contains(
            pre.players@[player_index_for(pre.players@, addr)].body_handle)
        && !colliders_of(post.collider.colliders).dom().contains(
            pre.players@[player_index_for(pre.players@, addr)].collider_handle)
    ))
}

/// What a Move does: a no-op when the address is unknown; otherwise the
/// entity collections are untouched, no handle changes, and one
/// `ChangedPlayerPosition` event reports the mover's id with the
/// resolved position committed to the engine.
pub open spec fn move_rel(
    pre: GameInfo,
    post: GameInfo,
    addr: NetAddress,
    r: Option<UpdateEvent>,
) -> bool {
    &&& post.players@ == pre.players@
    &&& post.bullets@ == pre.bullets@
    &&& bodies_of(post.collider.bodies) == bodies_of(pre.collider.bodies)
    &&& colliders_of(post.collider.colliders) == colliders_of(pre.collider.colliders)
    &&& (!has_player_for(pre.players@, addr) ==> r is None && post.collider == pre.collider)
    &&& (has_player_for(pre.players@, addr) ==> (
        r matches Some(UpdateEvent::ChangedPlayerPosition(c))
            && c.id@ == pre.players@[player_index_for(pre.players@, addr)].id@
    ))
}

/// What a camera update does: never an event, never a change to the
/// entity collections or to any handle; only the player's facing inside
/// the engine moves.
pub open spec fn camera_rel(pre: GameInfo, post: GameInfo, r: Option<UpdateEvent>) -> bool {
    &&& r is None
    &&& post.players@ == pre.players@
    &&& post.bullets@ == pre.bullets@
    &&& bodies_of(post.collider.bodies) == bodies_of(pre.collider.bodies)
    &&& colliders_of(post.collider.colliders) == colliders_of(pre.collider.colliders)
}

/// What a Shoot does: a no-op when the address is unknown; otherwise
/// one new bullet, stored last, owned by the shooter's collider handle
/// (its permanent exclusion filter) under a fresh body handle, with one
/// `CreateBullet` event carrying its id. The one escape: a clash of the
/// randomly drawn bullet id against a live bullet drops the shot and
/// releases the briefly inserted body -- so with no live bullet the
/// event is owed unconditionally.
pub open spec fn shoot_rel(
    pre: GameInfo,
    post: GameInfo,
    addr: NetAddress,
    r: Option<UpdateEvent>,
) -> bool {
    &&& post.players@ == pre.players@
    &&& (!has_player_for(pre.players@, addr) ==> r is None
        && post.bullets@ == pre.bullets@
        && post.collider == pre.collider)
    &&& (has_player_for(pre.players@, addr) ==> (
        (
            (r matches Some(UpdateEvent::CreateBullet(cb))
                && post.bullets@.last().info().id == cb.id
                && post.bullets@.last().info().position.vector == cb.position)
            && post.bullets@ == pre.bullets@.push(post.bullets@.last())
            && post.bullets@.last().info().fired_by
                == pre.players@[player_index_for(pre.players@, addr)].collider_handle
            && !bodies_of(pre.collider.bodies).contains(post.bullets@.last().info().body_handle)
            && bodies_of(post.collider.bodies)
                == bodies_of(pre.collider.bodies).insert(post.bullets@.last().info().body_handle)
        ) || (
            r is None && post.bullets@ == pre.bullets@
            && pre.bullets@.len() > 0
            && bodies_of(post.collider.bodies) == bodies_of(pre.collider.bodies)
        )
    ))
}

impl Default for GameInfo {
    /// An empty world over a fresh adapter. Unlike a production world,
    /// no static geometry is loaded: callers that want level geometry
    /// build the adapter first and use `GameInfo::new`.
    fn default() -> (g: GameInfo)
        ensures
            g.wf(),
            g.players@ == Seq::<Player>::empty(),
            g.bullets@ == Seq::<Bullet>::empty(),
    {
        GameInfo::new(crate::collider::GameCollider::new())
    }
}

/// The player collection after one Join settles, as `join_rel` pins it
/// down: unchanged when the address is taken, extended by the newcomer
/// otherwise.
pub open spec fn join_players(players: Seq<Player>, p: Player) -> Seq<Player> {
    if has_player_for(players, p.server_info.addr) {
        players
    } else {
        players.push(p)
    }
}

/// The player collection after a whole batch of Joins, first to last.
pub open spec fn join_all(players: Seq<Player>, newcomers: Seq<Player>) -> Seq<Player>
    decreases newcomers.len(),
{
    if newcomers.len() == 0 {
        players
    } else {
        join_all(join_players(players, newcomers[0]), newcomers.drop_first())
    }
}

/// For any sequence of Joins with pairwise-distinct addresses none of
/// which is present yet, the player collection grows by exactly the
/// number of newcomers, every newcomer is admitted, and -- provided
/// each newcomer arrived with a fresh, unshared handle pair, as
/// `add_player` guarantees -- addresses and handle pairs stay unique.
pub proof fn lemma_distinct_joins(players: Seq<Player>, newcomers: Seq<Player>)
    requires
        distinct_addresses(players),
        distinct_player_handles(players),
        forall|i: int, j: int| 0 <= i < j < newcomers.len()
            ==> newcomers[i].server_info.addr != newcomers[j].server_info.addr,
        forall|i: int, j: int| 0 <= i < j < newcomers.len()
            ==> newcomers[i].body_handle != newcomers[j].body_handle
                && newcomers[i].collider_handle != newcomers[j].collider_handle,
        forall|i: int| 0 <= i < newcomers.len()
            ==> !has_player_for(players, (#[trigger] newcomers[i]).server_info.addr),
        forall|i: int, j: int| 0 <= i < players.len() && 0 <= j < newcomers.len()
            ==> players[i].body_handle != newcomers[j].body_handle
                && players[i].collider_handle != newcomers[j].collider_handle,
    ensures
        join_all(players, newcomers).len() == players.len() + newcomers.len(),
        join_all(players, newcomers) == players + newcomers,
        distinct_addresses(join_all(players, newcomers)),
        distinct_player_handles(join_all(players, newcomers)),
    decreases newcomers.len(),
{
    if newcomers.len() == 0 {
        assert(players + newcomers =~= players);
    } else {
        let first = newcomers[0];
        let rest = newcomers.drop_first();
        assert(!has_player_for(players, first.server_info.addr));
        let grown = players.push(first);
        assert(join_players(players, first) == grown);
        assert(distinct_addresses(grown)) by {
            assert forall|i: int, j: int| 0 <= i < j < grown.len()
                implies grown[i].server_info.addr != grown[j].server_info.addr by {
                if j == grown.len() - 1 {
                    if grown[i].server_info.addr == first.server_info.addr {
                        assert(has_player_for(players, first.server_info.addr));
                    }
                }
            }
        }
        assert(distinct_player_handles(grown)) by {
            assert forall|i: int, j: int| 0 <= i < j < grown.len()
                implies grown[i].body_handle != grown[j].body_handle
                    && grown[i].collider_handle != grown[j].collider_handle by {
                if j == grown.len() - 1 {
                    assert(grown[j] == newcomers[0]);
                }
            }
        }
        assert forall|i: int| 0 <= i < rest.len()
            implies !has_player_for(grown, (#[trigger] rest[i]).server_info.addr) by {
            assert(rest[i] == newcomers[i + 1]);
            if has_player_for(grown, rest[i].server_info.addr) {
                let w = player_index_for(grown, rest[i].server_info.addr);
                if w < players.len() {
                    assert(has_player_for(players, newcomers[i + 1].server_info.addr));
                } else {
                    assert(grown[w] == first);
                    assert(newcomers[0].server_info.addr != newcomers[i + 1].server_info.addr);
                }
            }
        }
        assert forall|i: int, j: int| 0 <= i < j < rest.len()
            implies rest[i].server_info.addr != rest[j].server_info.addr
                && rest[i].body_handle != rest[j].body_handle
                && rest[i].collider_handle != rest[j].collider_handle by {
            assert(rest[i] == newcomers[i + 1]);
            assert(rest[j] == newcomers[j + 1]);
        }
        assert forall|i: int, j: int| 0 <= i < grown.len() && 0 <= j < rest.len()
            implies grown[i].body_handle != rest[j].body_handle
                && grown[i].collider_handle != rest[j].collider_handle by {
            assert(rest[j] == newcomers[j + 1]);
            if i == grown.len() - 1 {
                assert(grown[i] == newcomers[0]);
            }
        }
        lemma_distinct_joins(grown, rest);
        assert(grown + rest =~= players + newcomers);
    }
}

/// With distinct addresses, an index whose player is keyed by `addr`
/// is the only one, and it is `player_index_for`.
proof fn lemma_unique_index(players: Seq<Player>, addr: NetAddress, i: int)
    requires
        distinct_addresses(players),
        0 <= i < players.len(),
        players[i].server_info.addr == addr,
    ensures
        player_index_for(players, addr) == i,
        forall|k: int| 0 <= k < players.len() && k != i
            ==> players[k].server_info.addr != addr,
{
    assert forall|k: int| 0 <= k < players.len() && k != i
        implies players[k].server_info.addr != addr by {
        if k < i {
            assert(players[k].server_info.addr != players[i].server_info.addr);
        }
    }
    let j = player_index_for(players, addr);
    assert(0 <= j < players.len() && players[j].server_info.addr == addr);
}

/// Inserting a fresh handle pair into the engine keeps every already
/// registered entity registered.
proof fn lemma_registration_after_insert(
    players: Seq<Player>,
    bullets: Seq<Bullet>,
    pre: GameCollider,
    post: GameCollider,
    bh: BodyHandle,
    ch: ColliderHandle,
)
    requires
        !bodies_of(pre.bodies).contains(bh),
        bodies_of(post.bodies) == bodies_of(pre.bodies).insert(bh),
        !colliders_of(pre.colliders).dom().contains(ch),
        colliders_of(post.colliders) == colliders_of(pre.colliders).insert(ch, bh),
        forall|i: int| 0 <= i < players.len()
            ==> player_registered(#[trigger] players[i], pre),
        forall|j: int| 0 <= j < bullets.len()
            ==> bullet_registered(#[trigger] bullets[j], pre),
    ensures
        forall|i: int| 0 <= i < players.len()
            ==> player_registered(#[trigger] players[i], post),
        forall|j: int| 0 <= j < bullets.len()
            ==> bullet_registered(#[trigger] bullets[j], post),
        forall|i: int| 0 <= i < players.len()
            ==> (#[trigger] players[i]).body_handle != bh && players[i].collider_handle != ch,
        forall|j: int| 0 <= j < bullets.len()
            ==> (#[trigger] bullets[j]).info().body_handle != bh
                && bullets[j].info().collider_handle != ch,
{
    assert forall|i: int| 0 <= i < players.len()
        implies player_registered(#[trigger] players[i], post)
            && players[i].body_handle != bh && players[i].collider_handle != ch by {
        assert(player_registered(players[i], pre));
    }
    assert forall|j: int| 0 <= j < bullets.len()
        implies bullet_registered(#[trigger] bullets[j], post)
            && bullets[j].info().body_handle != bh && bullets[j].info().collider_handle != ch by {
        assert(bullet_registered(bullets[j], pre));
    }
}

/// Removing one body (with its attached colliders) keeps every other
/// registered entity registered: its body handle differs, and its
/// collider is attached to its own body, not the removed one.
proof fn lemma_registration_after_remove(
    players: Seq<Player>,
    bullets: Seq<Bullet>,
    pre: GameCollider,
    post: GameCollider,
    removed: BodyHandle,
)
    requires
        bodies_of(post.bodies) == bodies_of(pre.bodies).remove(removed),
        forall|c: ColliderHandle|
            #[trigger] colliders_of(pre.colliders).dom().contains(c)
                && colliders_of(pre.colliders)[c] != removed
            ==> colliders_of(post.colliders).dom().contains(c)
                && colliders_of(post.colliders)[c] == colliders_of(pre.colliders)[c],
        forall|i: int| 0 <= i < players.len()
            ==> player_registered(#[trigger] players[i], pre),
        forall|j: int| 0 <= j < bullets.len()
            ==> bullet_registered(#[trigger] bullets[j], pre),
        forall|i: int| 0 <= i < players.len()
            ==> (#[trigger] players[i]).body_handle != removed,
        forall|j: int| 0 <= j < bullets.len()
            ==> (#[trigger] bullets[j]).info().body_handle != removed,
    ensures
        forall|i: int| 0 <= i < players.len()
            ==> player_registered(#[trigger] players[i], post),
        forall|j: int| 0 <= j < bullets.len()
            ==> bullet_registered(#[trigger] bullets[j], post),
{
    assert forall|i: int| 0 <= i < players.len()
        implies player_registered(#[trigger] players[i], post) by {
        assert(player_registered(players[i], pre));
        assert(colliders_of(pre.colliders)[players[i].collider_handle] != removed);
    }
    assert forall|j: int| 0 <= j < bullets.len()
        implies bullet_registered(#[trigger] bullets[j], post) by {
        assert(bullet_registered(bullets[j], pre));
        assert(colliders_of(pre.colliders)[bullets[j].info().collider_handle] != removed);
    }
}

} // verus!
