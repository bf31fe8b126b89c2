//! Movement & collision adapter: the seam between the verified world
//! state and the physics engine. Entity handles are mirrored as plain
//! `(index, generation)` pairs, and the adapter's contracts speak about
//! the engine's body and collider arenas only through the two named
//! contents functions [`bodies_of`] and [`colliders_of`].

use vstd::prelude::*;
use crate::rapier::{Vect, Quat};
use rapier3d::prelude::{
    RigidBodySet, ColliderSet, QueryPipeline, PhysicsPipeline, IntegrationParameters,
    IslandManager, BroadPhase, NarrowPhase, ImpulseJointSet, MultibodyJointSet, CCDSolver,
    RigidBodyBuilder, ColliderBuilder, QueryFilter, Collider,
};
use rapier3d::prelude::RigidBodyHandle as EngineBodyHandle;
use rapier3d::prelude::ColliderHandle as EngineColliderHandle;
use rapier3d::control::{CharacterLength, KinematicCharacterController};
use rapier3d::math::Real;

verus! {

/// Plain mirror of the engine's rigid-body handle (arena index and
/// generation). Never reused for a new body while the old one is alive.
#[derive(Clone, Copy, PartialEq, Eq, Structural, Debug)]
pub struct BodyHandle {
    pub index: u32,
    pub generation: u32,
}

/// Plain mirror of the engine's collider handle.
#[derive(Clone, Copy, PartialEq, Eq, Structural, Debug)]
pub struct ColliderHandle {
    pub index: u32,
    pub generation: u32,
}

/// The handles of the rigid bodies currently stored in the engine's
/// body arena.
pub uninterp spec fn bodies_of(bodies: RigidBodySet) -> Set<BodyHandle>;

/// The colliders currently stored in the engine's collider arena,
/// each mapped to the body it is attached to. Every collider this
/// adapter creates is attached to exactly one body.
pub uninterp spec fn colliders_of(colliders: ColliderSet) -> Map<ColliderHandle, BodyHandle>;

/// The outcome of resolving a desired displacement: the displacement
/// actually permitted after collision resolution, and every collider
/// contacted while resolving it.
pub struct CharacterMovement {
    pub translation: Vect,
    pub collisions: Vec<ColliderHandle>,
}

/// Wraps the physics engine: kinematic capsule entities, swept
/// displacement resolution with an exclusion filter, static triangle
/// meshes, and the per-tick simulation step.
pub struct GameCollider {
    pub bodies: RigidBodySet,
    pub colliders: ColliderSet,
    pub controller: KinematicCharacterController,
    pub query_pipeline: QueryPipeline,
    pub physics_pipeline: PhysicsPipeline,
    pub integration_parameters: IntegrationParameters,
    pub island_manager: IslandManager,
    pub broad_phase: BroadPhase,
    pub narrow_phase: NarrowPhase,
    pub impulse_joint_set: ImpulseJointSet,
    pub multibody_joint_set: MultibodyJointSet,
    pub ccd_solver: CCDSolver,
    pub gravity: Vect,
    pub character_shape: Collider,
}

/// Relies on `KinematicCharacterController::default`: the movement
/// policy of every kinematic entity -- slide on slopes below 30
/// degrees, refuse slopes above 60, keep a 1% contact skin.
#[verifier::external_body]
fn make_controller() -> KinematicCharacterController {
    let mut controller = KinematicCharacterController::default();
    controller.slide = true;
    controller.max_slope_climb_angle = (60 as Real).to_radians();
    controller.min_slope_slide_angle = (30 as Real).to_radians();
    controller.offset = CharacterLength::Relative((1 as Real) / (100 as Real));
    controller
}

impl GameCollider {
    /// Relies on the engine's empty-set constructors: both arenas start
    /// empty. The shared capsule shape of all kinematic entities is
    /// built once here.
    #[verifier::external_body]
    pub fn new() -> (r: GameCollider)
        ensures
            bodies_of(r.bodies) == Set::<BodyHandle>::empty(),
            colliders_of(r.colliders).dom() == Set::<ColliderHandle>::empty(),
    {
        GameCollider {
            bodies: RigidBodySet::new(), colliders: ColliderSet::new(),
            controller: make_controller(),
            query_pipeline: QueryPipeline::new(), physics_pipeline: PhysicsPipeline::new(),
            integration_parameters: IntegrationParameters::default(),
            island_manager: IslandManager::new(), broad_phase: BroadPhase::new(),
            narrow_phase: NarrowPhase::new(), impulse_joint_set: ImpulseJointSet::new(),
            multibody_joint_set: MultibodyJointSet::new(), ccd_solver: CCDSolver::new(),
            gravity: rapier3d::na::Vector3::zeros(),
            character_shape: ColliderBuilder::capsule_y((1 as Real) / (2 as Real), (1 as Real) / (5 as Real)).build(),
        }
    }

    /// Relies on `RigidBodySet::insert` and `ColliderSet::insert_with_parent`:
    /// inserts a capsule-shaped kinematic body at `spawn`. The arena returns
    /// a handle that is not currently in the set, and attaches the new
    /// collider to the new body.
    #[verifier::external_body]
    pub fn load_player(&mut self, spawn: &Vect) -> (r: (BodyHandle, ColliderHandle))
        ensures
            !bodies_of(old(self).bodies).contains(r.0),
            bodies_of(final(self).bodies) == bodies_of(old(self).bodies).insert(r.0),
            !colliders_of(old(self).colliders).dom().contains(r.1),
            colliders_of(final(self).colliders) == colliders_of(old(self).colliders).insert(r.1, r.0),
    {
        let rb = RigidBodyBuilder::kinematic_position_based().translation(*spawn).enabled(true).build();
        let bh = self.bodies.insert(rb);
        let co = ColliderBuilder::capsule_y((1 as Real) / (2 as Real), (1 as Real) / (5 as Real)).build();
        let ch = self.colliders.insert_with_parent(co, bh, &mut self.bodies);
        let (bi, bg) = bh.into_raw_parts();
        let (ci, cg) = ch.into_raw_parts();
        (BodyHandle { index: bi, generation: bg }, ColliderHandle { index: ci, generation: cg })
    }

    /// Relies on `RigidBodySet::remove` with attached-collider removal:
    /// the body leaves the arena together with every collider attached
    /// to it; nothing else is touched.
    #[verifier::external_body]
    pub fn unload_player(&mut self, body: BodyHandle)
        ensures
            bodies_of(final(self).bodies) == bodies_of(old(self).bodies).remove(body),
            forall|c: ColliderHandle|
                #[trigger] colliders_of(old(self).colliders).dom().contains(c)
                    && colliders_of(old(self).colliders)[c] != body
                ==> colliders_of(final(self).colliders).dom().contains(c)
                    && colliders_of(final(self).colliders)[c]
                        == colliders_of(old(self).colliders)[c],
            forall|c: ColliderHandle|
                #[trigger] colliders_of(final(self).colliders).dom().contains(c)
                ==> colliders_of(old(self).colliders).dom().contains(c)
                    && colliders_of(old(self).colliders)[c] != body
                    && colliders_of(final(self).colliders)[c]
                        == colliders_of(old(self).colliders)[c],
    {
        let handle = EngineBodyHandle::from_raw_parts(body.index, body.generation);
        self.bodies.remove(handle, &mut self.island_manager, &mut self.colliders,
            &mut self.impulse_joint_set, &mut self.multibody_joint_set, true);
    }

    /// Relies on `KinematicCharacterController::move_shape`, with a query
    /// filter that excludes the moving body itself and, if given, one
    /// extra collider: resolves the maximal displacement along `desired`
    /// and reports every contact registered during the resolution. The
    /// filter guarantees that no reported contact is the excluded collider
    /// or a collider attached to the moving body; every reported contact
    /// is a collider of the scene.
    #[verifier::external_body]
    pub fn calculate_movement(&mut self, body: BodyHandle, exclude: Option<ColliderHandle>, desired: &Vect)
        -> (r: CharacterMovement)
        requires
            bodies_of(old(self).bodies).contains(body),
        ensures
            bodies_of(final(self).bodies) == bodies_of(old(self).bodies),
            colliders_of(final(self).colliders) == colliders_of(old(self).colliders),
            forall|i: int| 0 <= i < r.collisions@.len() ==> Some(#[trigger] r.collisions@[i]) != exclude,
            forall|i: int| 0 <= i < r.collisions@.len() ==>
                colliders_of(final(self).colliders).dom().contains(#[trigger] r.collisions@[i])
                && colliders_of(final(self).colliders)[r.collisions@[i]] != body,
    {
        self.query_pipeline.update(&self.bodies, &self.colliders);
        let rb_handle = EngineBodyHandle::from_raw_parts(body.index, body.generation);
        let mut filter = QueryFilter::new().exclude_rigid_body(rb_handle);
        if let Some(e) = exclude {
            filter = filter.exclude_collider(EngineColliderHandle::from_raw_parts(e.index, e.generation));
        }
        let start = *self.bodies.get(rb_handle).expect("body handle did not resolve").position();
        let mut collisions: Vec<ColliderHandle> = Vec::new();
        let movement = self.controller.move_shape(self.integration_parameters.dt, &self.bodies,
            &self.colliders, &self.query_pipeline, self.character_shape.shape(), &start, *desired,
            filter, |c| collisions.push(raw_collider_handle(c.handle.into_raw_parts())));
        CharacterMovement { translation: movement.translation, collisions }
    }

    /// Relies on `RigidBody::set_next_kinematic_translation`: commits
    /// `current + delta` as the body's next position and returns that
    /// committed position.
    #[verifier::external_body]
    pub fn commit_translation(&mut self, body: BodyHandle, delta: &Vect) -> (r: Vect)
        requires
            bodies_of(old(self).bodies).contains(body),
        ensures
            bodies_of(final(self).bodies) == bodies_of(old(self).bodies),
            colliders_of(final(self).colliders) == colliders_of(old(self).colliders),
    {
        let handle = EngineBodyHandle::from_raw_parts(body.index, body.generation);
        let rb = self.bodies.get_mut(handle).expect("body handle did not resolve");
        let next = rb.translation() + delta;
        rb.set_next_kinematic_translation(next);
        rb.next_position().translation.vector
    }

    /// Relies on `RigidBody::translation`: the body's current position.
    #[verifier::external_body]
    pub fn body_position(&self, body: BodyHandle) -> (r: Vect)
        requires
            bodies_of(self.bodies).contains(body),
    {
        let handle = EngineBodyHandle::from_raw_parts(body.index, body.generation);
        *self.bodies.get(handle).expect("body handle did not resolve").translation()
    }

    /// Relies on `RigidBody::rotation`: the vector part of the body's
    /// orientation quaternion, read as its facing direction.
    #[verifier::external_body]
    pub fn body_direction(&self, body: BodyHandle) -> (r: Vect)
        requires
            bodies_of(self.bodies).contains(body),
    {
        let handle = EngineBodyHandle::from_raw_parts(body.index, body.generation);
        let rb = self.bodies.get(handle).expect("body handle did not resolve");
        rb.rotation().into_inner().coords.xyz()
    }

    /// Relies on `RigidBody::set_next_kinematic_rotation`: sets the
    /// body's next facing from the given quaternion (normalized by the
    /// engine).
    #[verifier::external_body]
    pub fn update_entity_rotation(&mut self, body: BodyHandle, rotation: &Quat)
        requires
            bodies_of(old(self).bodies).contains(body),
        ensures
            bodies_of(final(self).bodies) == bodies_of(old(self).bodies),
            colliders_of(final(self).colliders) == colliders_of(old(self).colliders),
    {
        let handle = EngineBodyHandle::from_raw_parts(body.index, body.generation);
        let rb = self.bodies.get_mut(handle).expect("body handle did not resolve");
        rb.set_next_kinematic_rotation(rapier3d::na::UnitQuaternion::from_quaternion(*rotation));
    }

    /// Relies on `RigidBodySet::insert` and `ColliderSet::insert_with_parent`:
    /// registers one immovable triangle-mesh body. The engine requires a
    /// non-empty index buffer whose entries address the vertex buffer.
    #[verifier::external_body]
    pub fn add_tri_mesh(&mut self, vertices: Vec<Vect>, indices: Vec<[u32; 3]>)
        requires
            indices@.len() > 0,
            forall|i: int, j: int| 0 <= i < indices@.len() && 0 <= j < 3 ==>
                (#[trigger] indices@[i]@[j]) < vertices@.len(),
        ensures
            exists|bh: BodyHandle, ch: ColliderHandle|
                !bodies_of(old(self).bodies).contains(bh)
                && bodies_of(final(self).bodies) == bodies_of(old(self).bodies).insert(bh)
                && !colliders_of(old(self).colliders).dom().contains(ch)
                && colliders_of(final(self).colliders) == colliders_of(old(self).colliders).insert(ch, bh),
    {
        let body_handle = self.bodies.insert(RigidBodyBuilder::fixed().build());
        let points: Vec<rapier3d::math::Point<Real>> =
            vertices.into_iter().map(rapier3d::math::Point::from).collect();
        self.colliders.insert_with_parent(ColliderBuilder::trimesh(points, indices).build(),
            body_handle, &mut self.bodies);
    }

    /// Relies on `PhysicsPipeline::step`: advances the engine's internal
    /// bookkeeping by one tick. No body or collider is added or removed.
    #[verifier::external_body]
    pub fn run_step(&mut self)
        ensures
            bodies_of(final(self).bodies) == bodies_of(old(self).bodies),
            colliders_of(final(self).colliders) == colliders_of(old(self).colliders),
    {
        self.physics_pipeline.step(&self.gravity, &self.integration_parameters,
            &mut self.island_manager, &mut self.broad_phase, &mut self.narrow_phase,
            &mut self.bodies, &mut self.colliders, &mut self.impulse_joint_set,
            &mut self.multibody_joint_set, &mut self.ccd_solver,
            Some(&mut self.query_pipeline), &(), &());
    }

    /// Relies on `RigidBodySet::contains`.
    #[verifier::external_body]
    pub fn has_body(&self, body: BodyHandle) -> (r: bool)
        ensures
            r == bodies_of(self.bodies).contains(body),
    {
        self.bodies.contains(EngineBodyHandle::from_raw_parts(body.index, body.generation))
    }
}

impl Default for GameCollider {
    /// An adapter with no bodies, no colliders and no geometry yet.
    fn default() -> (r: GameCollider)
        ensures
            bodies_of(r.bodies) == Set::<BodyHandle>::empty(),
            colliders_of(r.colliders).dom() == Set::<ColliderHandle>::empty(),
    {
        GameCollider::new()
    }
}

/// Builds the plain mirror of an engine collider handle from its raw
/// `(index, generation)` parts.
pub fn raw_collider_handle(raw: (u32, u32)) -> (h: ColliderHandle)
    ensures
        h.index == raw.0,
        h.generation == raw.1,
{
    ColliderHandle { index: raw.0, generation: raw.1 }
}

} // verus!
