//! Declarations of the physics-engine types that the movement adapter
//! stores and hands around. All of them are opaque to verification: the
//! contracts of the adapter speak about them only through the named
//! contents functions in `collider`.

use vstd::prelude::*;

verus! {

/// A world-space vector of the physics engine (three reals).
pub type Vect = rapier3d::math::Vector<rapier3d::math::Real>;

/// An orientation quaternion of the physics engine (four reals).
pub type Quat = rapier3d::na::Quaternion<rapier3d::math::Real>;

#[verifier::external_type_specification]
#[verifier::external_body]
#[verifier::reject_recursive_types(T)]
#[verifier::reject_recursive_types(R)]
#[verifier::reject_recursive_types(C)]
#[verifier::reject_recursive_types(S)]
pub struct ExMatrix<T, R, C, S>(rapier3d::na::Matrix<T, R, C, S>);

#[verifier::external_type_specification]
#[verifier::external_body]
pub struct ExConst<const R: usize>(rapier3d::na::Const<R>);

#[verifier::external_type_specification]
#[verifier::external_body]
#[verifier::reject_recursive_types(T)]
pub struct ExArrayStorage<T, const R: usize, const C: usize>(
    rapier3d::na::ArrayStorage<T, R, C>,
);

#[verifier::external_type_specification]
#[verifier::external_body]
#[verifier::reject_recursive_types(T)]
pub struct ExQuaternion<T>(rapier3d::na::Quaternion<T>);

#[verifier::external_type_specification]
#[verifier::external_body]
pub struct ExCollider(rapier3d::prelude::Collider);

#[verifier::external_type_specification]
#[verifier::external_body]
pub struct ExRigidBodySet(rapier3d::prelude::RigidBodySet);

#[verifier::external_type_specification]
#[verifier::external_body]
pub struct ExColliderSet(rapier3d::prelude::ColliderSet);

#[verifier::external_type_specification]
#[verifier::external_body]
pub struct ExKinematicCharacterController(rapier3d::control::KinematicCharacterController);

#[verifier::external_type_specification]
#[verifier::external_body]
pub struct ExQueryPipeline(rapier3d::prelude::QueryPipeline);

#[verifier::external_type_specification]
#[verifier::external_body]
pub struct ExPhysicsPipeline(rapier3d::prelude::PhysicsPipeline);

#[verifier::external_type_specification]
#[verifier::external_body]
pub struct ExIntegrationParameters(rapier3d::prelude::IntegrationParameters);

#[verifier::external_type_specification]
#[verifier::external_body]
pub struct ExIslandManager(rapier3d::prelude::IslandManager);

#[verifier::external_type_specification]
#[verifier::external_body]
pub struct ExBroadPhase(rapier3d::prelude::BroadPhase);

#[verifier::external_type_specification]
#[verifier::external_body]
pub struct ExNarrowPhase(rapier3d::prelude::NarrowPhase);

#[verifier::external_type_specification]
#[verifier::external_body]
pub struct ExImpulseJointSet(rapier3d::prelude::ImpulseJointSet);

#[verifier::external_type_specification]
#[verifier::external_body]
pub struct ExMultibodyJointSet(rapier3d::prelude::MultibodyJointSet);

#[verifier::external_type_specification]
#[verifier::external_body]
pub struct ExCCDSolver(rapier3d::prelude::CCDSolver);

} // verus!
