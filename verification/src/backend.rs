//! The boundary with the `rapier3d` engine.
//!
//! Everything the engine owns lives in one [`World`], whose parts are created
//! together and never leave it. What the engine's functions do to a world is
//! stated here and believed, not proved: each such statement follows the
//! engine's source and documentation, and the rest of the crate is verified
//! against these statements alone.

use vstd::prelude::*;
use crate::body::{BodyKind, BodyState, Pose, Shape, Velocity};
use crate::handle::Handle;
use crate::math::{positive, Quaternion, Vector};
use crate::registry::{Attachment, Registry};

verus! {

/// The engine's scalar: one lane of its SIMD number.
type Real = <rapier3d::math::SimdFloat as rapier3d::ncollide::simba::simd::SimdValue>::Element;

/// The number of steps a world can take: the engine stamps its bodies with a
/// 32-bit step count.
pub const STEP_LIMIT: u32 = 0xFFFF_FFFF;

/// The number of removals an arena can take: it counts its generations in
/// 64 bits.
pub const GENERATION_LIMIT: u64 = 0xFFFF_FFFF_FFFF_FFFF;

/// Pattern of one sixtieth: the simulated time, in seconds, that one step
/// covers under the engine's default integration parameters.
pub const STEP_LENGTH: u32 = 0x3C88_8889;

/// The engine's set of rigid bodies, carried as an opaque value.
#[verifier::external_type_specification]
#[verifier::external_body]
pub struct ExRigidBodySet(rapier3d::dynamics::RigidBodySet);

/// The engine's set of colliders, carried as an opaque value.
#[verifier::external_type_specification]
#[verifier::external_body]
pub struct ExColliderSet(rapier3d::geometry::ColliderSet);

/// The engine's set of joints, carried as an opaque value; this crate adds
/// no joint to it.
#[verifier::external_type_specification]
#[verifier::external_body]
pub struct ExJointSet(rapier3d::dynamics::JointSet);

/// A collider that has been built and not yet attached, carried as an
/// opaque value.
#[verifier::external_type_specification]
#[verifier::external_body]
pub struct ExCollider(rapier3d::geometry::Collider);

/// The engine's stepping pipeline, carried as an opaque value.
#[verifier::external_type_specification]
#[verifier::external_body]
pub struct ExPhysicsPipeline(rapier3d::pipeline::PhysicsPipeline);

/// The engine's integration parameters, carried as an opaque value.
#[verifier::external_type_specification]
#[verifier::external_body]
pub struct ExIntegrationParameters(rapier3d::dynamics::IntegrationParameters);

/// The engine's broad phase of collision detection, carried as an opaque
/// value.
#[verifier::external_type_specification]
#[verifier::external_body]
pub struct ExBroadPhase(rapier3d::geometry::BroadPhase);

/// The engine's narrow phase of collision detection, carried as an opaque
/// value.
#[verifier::external_type_specification]
#[verifier::external_body]
pub struct ExNarrowPhase(rapier3d::geometry::NarrowPhase);

/// The bodies that a body set holds, each under its handle, with its state.
pub uninterp spec fn body_set_contents(bodies: rapier3d::dynamics::RigidBodySet) -> Map<Handle, BodyState>;

/// The generation of a body set's arena: the generation that it stamps on
/// the next handle, which is the number of bodies it has removed.
pub uninterp spec fn body_set_generation(bodies: rapier3d::dynamics::RigidBodySet) -> nat;

/// The number of steps that a body set has been taken through.
pub uninterp spec fn body_set_steps(bodies: rapier3d::dynamics::RigidBodySet) -> nat;

/// The colliders that a collider set holds, each under its handle, with the
/// handle of the body it is attached to and its shape.
pub uninterp spec fn collider_set_contents(colliders: rapier3d::geometry::ColliderSet) -> Map<Handle, Attachment>;

/// The shape that a collider was built with.
pub uninterp spec fn collider_shape(collider: rapier3d::geometry::Collider) -> Shape;

/// The generation of a collider set's arena: the generation that it stamps
/// on the next handle, which is the number of colliders it has removed.
pub uninterp spec fn collider_set_generation(colliders: rapier3d::geometry::ColliderSet) -> nat;

/// `RigidBodySet::new`: the new set holds no body, is in generation zero and
/// has taken no step.
pub assume_specification[ rapier3d::dynamics::RigidBodySet::new ]() -> (bodies: rapier3d::dynamics::RigidBodySet)
    ensures
        body_set_contents(bodies) == Registry::empty().bodies,
        body_set_generation(bodies) == 0,
        body_set_steps(bodies) == 0;

/// `ColliderSet::new`: the new set holds no collider and is in generation
/// zero.
pub assume_specification[ rapier3d::geometry::ColliderSet::new ]() -> (colliders: rapier3d::geometry::ColliderSet)
    ensures
        collider_set_contents(colliders) == Registry::empty().colliders,
        collider_set_generation(colliders) == 0;

/// `JointSet::new`: nothing is claimed of the new set.
pub assume_specification[ rapier3d::dynamics::JointSet::new ]() -> (joints: rapier3d::dynamics::JointSet);

/// `PhysicsPipeline::new`: nothing is claimed of the new pipeline.
pub assume_specification[ rapier3d::pipeline::PhysicsPipeline::new ]() -> (pipeline: rapier3d::pipeline::PhysicsPipeline);

/// `BroadPhase::new`: nothing is claimed of the new broad phase.
pub assume_specification[ rapier3d::geometry::BroadPhase::new ]() -> (broad_phase: rapier3d::geometry::BroadPhase);

/// `NarrowPhase::new`: nothing is claimed of the new narrow phase.
pub assume_specification[ rapier3d::geometry::NarrowPhase::new ]() -> (narrow_phase: rapier3d::geometry::NarrowPhase);

/// `IntegrationParameters::default`: nothing is claimed of the parameters.
pub assume_specification[ <rapier3d::dynamics::IntegrationParameters as Default>::default ]() -> (parameters: rapier3d::dynamics::IntegrationParameters);

/// The engine's whole state: the two sets, and the machinery that steps
/// them. The parts belong together from `new` on; only the functions of this
/// file touch them.
pub struct World {
    pipeline: rapier3d::pipeline::PhysicsPipeline,
    parameters: rapier3d::dynamics::IntegrationParameters,
    broad_phase: rapier3d::geometry::BroadPhase,
    narrow_phase: rapier3d::geometry::NarrowPhase,
    bodies: rapier3d::dynamics::RigidBodySet,
    colliders: rapier3d::geometry::ColliderSet,
    joints: rapier3d::dynamics::JointSet,
}

impl View for World {
    type V = Registry;

    closed spec fn view(&self) -> Registry {
        Registry {
            bodies: body_set_contents(self.bodies),
            colliders: collider_set_contents(self.colliders),
            body_generation: body_set_generation(self.bodies),
            collider_generation: collider_set_generation(self.colliders),
            steps: body_set_steps(self.bodies),
        }
    }
}

impl World {
    /// An empty world with the engine's default integration parameters.
    pub(crate) fn new() -> (world: World)
        ensures
            world@ == Registry::empty(),
    {
        World {
            pipeline: rapier3d::pipeline::PhysicsPipeline::new(),
            parameters: rapier3d::dynamics::IntegrationParameters::default(),
            broad_phase: rapier3d::geometry::BroadPhase::new(),
            narrow_phase: rapier3d::geometry::NarrowPhase::new(),
            bodies: rapier3d::dynamics::RigidBodySet::new(),
            colliders: rapier3d::geometry::ColliderSet::new(),
            joints: rapier3d::dynamics::JointSet::new(),
        }
    }

    /// `RigidBodyBuilder::new`, `translation` and `build`, then
    /// `RigidBodySet::insert`. The builder starts from the identity pose and
    /// from rest and stores the three scalars as given; the set stores the
    /// body unchanged in a free slot of its arena, and the handle is that
    /// slot with the arena's current generation.
    #[verifier::external_body]
    pub(crate) fn insert_body(&mut self, kind: BodyKind, translation: Vector) -> (handle: Handle)
        requires
            translation.finite(),
        ensures
            !old(self)@.bodies.contains_key(handle),
            handle.generation == old(self)@.body_generation,
            final(self)@ == (Registry {
                bodies: old(self)@.bodies.insert(handle, BodyState::at_rest(kind, translation)),
                ..old(self)@
            }),
    {
        let status = match kind {
            BodyKind::Dynamic => rapier3d::dynamics::BodyStatus::Dynamic,
            BodyKind::Static => rapier3d::dynamics::BodyStatus::Static,
            BodyKind::Kinematic => rapier3d::dynamics::BodyStatus::Kinematic,
        };
        let (x, y, z) = (translation.x, translation.y, translation.z);
        let body = rapier3d::dynamics::RigidBodyBuilder::new(status)
            .translation(Real::from_bits(x), Real::from_bits(y), Real::from_bits(z))
            .build();
        let (index, generation) = self.bodies.insert(body).into_raw_parts();
        Handle { index, generation }
    }

    /// `RigidBodySet::get_mut`, then `RigidBody::set_linvel` and
    /// `RigidBody::set_angvel`, neither waking the body: both store the
    /// vector as given and change nothing else of the body.
    #[verifier::external_body]
    pub(crate) fn set_velocity(&mut self, handle: Handle, velocity: Velocity)
        requires
            old(self)@.bodies.contains_key(handle),
            velocity.linear.finite(),
            velocity.angular.finite(),
        ensures
            final(self)@ == (Registry {
                bodies: old(self)@.bodies.insert(
                    handle,
                    BodyState { velocity, ..old(self)@.bodies[handle] },
                ),
                ..old(self)@
            }),
    {
        let (run, spin) = (velocity.linear, velocity.angular);
        let run = rapier3d::math::Vector::new(Real::from_bits(run.x), Real::from_bits(run.y), Real::from_bits(run.z));
        let spin = rapier3d::math::Vector::new(Real::from_bits(spin.x), Real::from_bits(spin.y), Real::from_bits(spin.z));
        if let Some(body) = self.bodies.get_mut(rapier3d::data::arena::Index::from_raw_parts(handle.index, handle.generation)) {
            body.set_linvel(run, false);
            body.set_angvel(spin, false);
        }
    }

    /// `ColliderSet::insert`. The collider enters a free slot of the set's
    /// arena with `parent` as its body and with the shape it was built
    /// with, and the handle is that slot with the arena's current
    /// generation; the body gains mass from the collider and keeps its pose
    /// and its velocity. The engine panics where `parent` names no live
    /// body.
    #[verifier::external_body]
    pub(crate) fn insert_collider(&mut self, collider: rapier3d::geometry::Collider, parent: Handle) -> (handle: Handle)
        requires
            old(self)@.bodies.contains_key(parent),
        ensures
            !old(self)@.colliders.contains_key(handle),
            handle.generation == old(self)@.collider_generation,
            final(self)@ == (Registry {
                colliders: old(self)@.colliders.insert(
                    handle,
                    Attachment { parent, shape: collider_shape(collider) },
                ),
                ..old(self)@
            }),
    {
        let parent = rapier3d::data::arena::Index::from_raw_parts(parent.index, parent.generation);
        let (index, generation) = self.colliders.insert(collider, parent, &mut self.bodies).into_raw_parts();
        Handle { index, generation }
    }

    /// `RigidBodySet::get`, then `RigidBody::position`: the pose of a live
    /// body. The arena answers only where the slot is filled and its
    /// generation is the handle's; for any other handle it answers nothing,
    /// and it never panics.
    #[verifier::external_body]
    pub(crate) fn body_pose(&self, handle: Handle) -> (pose: Option<Pose>)
        ensures
            pose == (if self@.bodies.contains_key(handle) {
                Some(self@.bodies[handle].pose)
            } else {
                None
            }),
    {
        let body = self.bodies.get(rapier3d::data::arena::Index::from_raw_parts(handle.index, handle.generation))?;
        let (at, turn) = (body.position().translation, body.position().rotation);
        Some(Pose {
            translation: Vector { x: at.x.to_bits(), y: at.y.to_bits(), z: at.z.to_bits() },
            rotation: Quaternion { i: turn.i.to_bits(), j: turn.j.to_bits(), k: turn.k.to_bits(), w: turn.w.to_bits() },
        })
    }

    /// `RigidBodySet::get`, then the body's status, `RigidBody::linvel` and
    /// `RigidBody::angvel`: the kind and the velocity of a live body, and
    /// nothing for any other handle.
    #[verifier::external_body]
    pub(crate) fn body_motion(&self, handle: Handle) -> (motion: Option<(BodyKind, Velocity)>)
        ensures
            motion == (if self@.bodies.contains_key(handle) {
                Some((self@.bodies[handle].kind, self@.bodies[handle].velocity))
            } else {
                None
            }),
    {
        let body = self.bodies.get(rapier3d::data::arena::Index::from_raw_parts(handle.index, handle.generation))?;
        let kind = match body.body_status {
            rapier3d::dynamics::BodyStatus::Dynamic => BodyKind::Dynamic,
            rapier3d::dynamics::BodyStatus::Static => BodyKind::Static,
            rapier3d::dynamics::BodyStatus::Kinematic => BodyKind::Kinematic,
        };
        let (run, spin) = (body.linvel(), body.angvel());
        let linear = Vector { x: run.x.to_bits(), y: run.y.to_bits(), z: run.z.to_bits() };
        let angular = Vector { x: spin.x.to_bits(), y: spin.y.to_bits(), z: spin.z.to_bits() };
        Some((kind, Velocity { linear, angular }))
    }

    /// `ColliderSet::get`, then `Collider::parent`: the handle of the body
    /// that a live collider is attached to, and nothing for any other
    /// handle.
    #[verifier::external_body]
    pub(crate) fn collider_parent(&self, handle: Handle) -> (parent: Option<Handle>)
        ensures
            parent == (if self@.colliders.contains_key(handle) {
                Some(self@.colliders[handle].parent)
            } else {
                None
            }),
    {
        let collider = self.colliders.get(rapier3d::data::arena::Index::from_raw_parts(handle.index, handle.generation))?;
        let (index, generation) = collider.parent().into_raw_parts();
        Some(Handle { index, generation })
    }

    /// `RigidBodySet::remove`, which "removes a rigid-body, and all its
    /// attached colliders and joints, from these sets". It answers whether
    /// `handle` named a live body; where it named none, nothing changes.
    /// Each arena raises its generation by one for each thing it removes,
    /// hence the limits.
    #[verifier::external_body]
    pub(crate) fn remove_body(&mut self, handle: Handle) -> (removed: bool)
        requires
            old(self)@.bodies.contains_key(handle) ==> old(self)@.body_generation
                < GENERATION_LIMIT,
            old(self)@.bodies.contains_key(handle) ==> old(self)@.collider_generation + old(
                self,
            )@.attached(handle).len() <= GENERATION_LIMIT,
        ensures
            removed == old(self)@.bodies.contains_key(handle),
            final(self)@ == old(self)@.without_body(handle),
    {
        let handle = rapier3d::data::arena::Index::from_raw_parts(handle.index, handle.generation);
        self.bodies.remove(handle, &mut self.colliders, &mut self.joints).is_some()
    }

    /// `IntegrationParameters::dt`: the length of a step. A world keeps the
    /// parameters it was made with, and the engine's default is one divided
    /// by sixty in single precision.
    #[verifier::external_body]
    pub(crate) fn step_length(&self) -> (length: u32)
        ensures
            length == STEP_LENGTH,
    {
        self.parameters.dt().to_bits()
    }

    /// `PhysicsPipeline::step`, with no pair filter and no event handler. One
    /// step adds and removes nothing. It moves only bodies of its active
    /// sets, which hold dynamic and kinematic bodies: "a static body cannot
    /// move and is not affected by forces". It raises the body set's 32-bit
    /// step stamp by one, hence the limit. What it makes of the other
    /// bodies is the solver's affair and is not stated.
    ///
    /// The broad phase sorts the box of every collider into cells twenty
    /// units wide and asserts that each box lies within the bounds of its
    /// cells, which it computes in single precision. That holds where the
    /// boxes are finite and lie within sixty million units of the origin,
    /// where the bounds of a cell are exact. The limits on poses and shapes
    /// keep every box within eight million: a box reaches no farther than
    /// the position limit plus some hundred times the largest extent of its
    /// shape, however the body is turned within the rotation limit. The
    /// limit on velocities keeps every pose finite through the step.
    #[verifier::external_body]
    pub(crate) fn step(&mut self, gravity: Vector)
        requires
            old(self)@.steps < STEP_LIMIT,
            old(self)@.steppable(),
            gravity.finite(),
        ensures
            old(self)@.steps_to(final(self)@),
    {
        let (x, y, z) = (gravity.x, gravity.y, gravity.z);
        let gravity = rapier3d::math::Vector::new(Real::from_bits(x), Real::from_bits(y), Real::from_bits(z));
        self.pipeline.step(
            &gravity,
            &self.parameters,
            &mut self.broad_phase,
            &mut self.narrow_phase,
            &mut self.bodies,
            &mut self.colliders,
            &mut self.joints,
            None,
            None,
            &(),
        );
    }
}

/// `ColliderBuilder::ball` and `build`: a ball collider with the given
/// radius.
#[verifier::external_body]
pub(crate) fn ball_collider(radius: u32) -> (collider: rapier3d::geometry::Collider)
    requires
        positive(radius),
    ensures
        collider_shape(collider) == (Shape::Ball { radius }),
{
    rapier3d::geometry::ColliderBuilder::ball(Real::from_bits(radius)).build()
}

/// `ColliderBuilder::cuboid` and `build`: a box collider with the given
/// half-extents, which the engine asks to be positive.
#[verifier::external_body]
pub(crate) fn cuboid_collider(half_extents: Vector) -> (collider: rapier3d::geometry::Collider)
    requires
        half_extents.positive(),
    ensures
        collider_shape(collider) == (Shape::Cuboid { half_extents }),
{
    let (x, y, z) = (half_extents.x, half_extents.y, half_extents.z);
    rapier3d::geometry::ColliderBuilder::cuboid(Real::from_bits(x), Real::from_bits(y), Real::from_bits(z)).build()
}

/// `DMatrix::from_iterator`, then `ColliderBuilder::heightfield` and
/// `build`: a height-map collider of the samples and the scale given. The
/// matrix is filled column after column and panics unless it gets
/// `rows * cols` samples; the height map panics on fewer than two rows or
/// columns.
#[verifier::external_body]
pub(crate) fn heightfield_collider(rows: usize, cols: usize, heights: &Vec<u32>, scale: Vector) -> (collider: rapier3d::geometry::Collider)
    requires
        rows >= 2,
        cols >= 2,
        heights@.len() == rows * cols,
    ensures
        collider_shape(collider) == (Shape::Heightfield { rows, cols, heights: heights@, scale }),
{
    let samples = heights.iter().map(|bits| Real::from_bits(*bits));
    let heights = rapier3d::na::DMatrix::from_iterator(rows, cols, samples);
    let scale = rapier3d::math::Vector::new(Real::from_bits(scale.x), Real::from_bits(scale.y), Real::from_bits(scale.z));
    rapier3d::geometry::ColliderBuilder::heightfield(heights, scale).build()
}

} // verus!
