//! What a caller says of a body and its collider when it adds them, what
//! the registry reports of a body when it is looked up, and the bounds
//! within which the engine can step.
//!
//! The engine sorts collider boxes into a grid of cells twenty units wide,
//! in single precision. Its arithmetic on cell bounds is exact only near the
//! origin, and it walks every cell that a box touches. The limits below keep
//! every box within eight million units of the origin.

use vstd::prelude::*;
use crate::math::{is_positive, is_within, positive, within, Quaternion, Vector, ZERO};

verus! {

/// Pattern of two to the power of twenty: how far from the origin, along
/// each axis, a body may lie for the engine to step.
pub const POSITION_LIMIT: u32 = 0x4980_0000;

/// Pattern of two: how large a part of a body's rotation may be for the
/// engine to step. The parts of a unit quaternion are no larger than one.
pub const ROTATION_LIMIT: u32 = 0x4000_0000;

/// Pattern of two to the power of twenty: how fast, along or about each
/// axis, a body may move or turn for the engine to step.
pub const VELOCITY_LIMIT: u32 = 0x4980_0000;

/// Pattern of two hundred and fifty-six: how large a half-extent, a radius,
/// a height or a scale of a shape may be.
pub const EXTENT_LIMIT: u32 = 0x4380_0000;

/// How the simulation treats a body.
#[derive(Clone, Copy, Debug, PartialEq, Eq, Structural)]
pub enum BodyKind {
    /// Moved by gravity, contacts and every other force.
    Dynamic,
    /// Never moved by the simulation.
    Static,
    /// Moved only by its owner, never by a force.
    Kinematic,
}

/// Where a body is and how it is turned.
#[derive(Clone, Copy, Debug, PartialEq, Eq, Structural)]
pub struct Pose {
    pub translation: Vector,
    pub rotation: Quaternion,
}

impl Pose {
    /// The pose is one from which the engine can step: the translation is
    /// within the position limit and the rotation within the rotation
    /// limit.
    pub open spec fn in_range(self) -> bool {
        self.translation.within(POSITION_LIMIT) && self.rotation.within(ROTATION_LIMIT)
    }

    /// Tests whether the engine can step from the pose.
    pub fn is_in_range(&self) -> (result: bool)
        ensures
            result == self.in_range(),
    {
        self.translation.is_within(POSITION_LIMIT) && self.rotation.is_within(ROTATION_LIMIT)
    }
}

/// How fast a body moves and how fast it turns: its linear velocity, and its
/// angular velocity as an axis scaled by the rate of turn.
#[derive(Clone, Copy, Debug, PartialEq, Eq, Structural)]
pub struct Velocity {
    pub linear: Vector,
    pub angular: Vector,
}

impl Velocity {
    /// No movement and no turn.
    pub open spec fn spec_rest() -> Velocity {
        Velocity {
            linear: Vector { x: ZERO, y: ZERO, z: ZERO },
            angular: Vector { x: ZERO, y: ZERO, z: ZERO },
        }
    }

    /// No movement and no turn.
    #[verifier::when_used_as_spec(spec_rest)]
    pub fn rest() -> (velocity: Velocity)
        ensures
            velocity == Velocity::spec_rest(),
    {
        Velocity { linear: Vector::zero(), angular: Vector::zero() }
    }

    /// Both parts are within the velocity limit.
    pub open spec fn in_range(self) -> bool {
        self.linear.within(VELOCITY_LIMIT) && self.angular.within(VELOCITY_LIMIT)
    }

    /// Tests whether both parts are within the velocity limit.
    pub fn is_in_range(&self) -> (result: bool)
        ensures
            result == self.in_range(),
    {
        self.linear.is_within(VELOCITY_LIMIT) && self.angular.is_within(VELOCITY_LIMIT)
    }
}

/// The state of a body as a lookup reports it: its kind, its pose and its
/// velocity.
#[derive(Clone, Copy, Debug, PartialEq, Eq, Structural)]
pub struct BodyState {
    pub kind: BodyKind,
    pub pose: Pose,
    pub velocity: Velocity,
}

impl BodyState {
    /// The state of a body of kind `kind` that lies unrotated and at rest
    /// at `translation`.
    pub open spec fn at_rest(kind: BodyKind, translation: Vector) -> BodyState {
        BodyState {
            kind,
            pose: Pose { translation, rotation: Quaternion::spec_identity() },
            velocity: Velocity::spec_rest(),
        }
    }

    /// The engine can step a body in this state: its pose and its velocity
    /// are in range.
    pub open spec fn steppable(self) -> bool {
        self.pose.in_range() && self.velocity.in_range()
    }

    /// Tests whether the engine can step a body in this state.
    pub fn is_steppable(&self) -> (result: bool)
        ensures
            result == self.steppable(),
    {
        self.pose.is_in_range() && self.velocity.is_in_range()
    }
}

/// A body to be added: its kind, where it starts and how fast it moves and
/// turns at the start. It starts unrotated.
#[derive(Clone, Copy, Debug, PartialEq, Eq, Structural)]
pub struct BodySpec {
    pub kind: BodyKind,
    pub translation: Vector,
    pub velocity: Velocity,
}

impl BodySpec {
    /// The starting translation is within the position limit, the starting
    /// velocity is within the velocity limit, and a static body starts at
    /// rest.
    pub open spec fn valid(self) -> bool {
        &&& self.translation.within(POSITION_LIMIT)
        &&& self.velocity.in_range()
        &&& self.kind == BodyKind::Static ==> self.velocity == Velocity::spec_rest()
    }

    /// The state in which the body enters the registry.
    pub open spec fn initial_state(self) -> BodyState {
        BodyState {
            kind: self.kind,
            pose: Pose { translation: self.translation, rotation: Quaternion::spec_identity() },
            velocity: self.velocity,
        }
    }

    /// A body of kind `kind` that starts at rest at `translation`.
    pub fn new(kind: BodyKind, translation: Vector) -> (spec: BodySpec)
        ensures
            spec == (BodySpec { kind, translation, velocity: Velocity::spec_rest() }),
    {
        BodySpec { kind, translation, velocity: Velocity::rest() }
    }

    /// A dynamic body that starts at rest at `translation`.
    pub fn dynamic(translation: Vector) -> (spec: BodySpec)
        ensures
            spec == (BodySpec {
                kind: BodyKind::Dynamic,
                translation,
                velocity: Velocity::spec_rest(),
            }),
    {
        BodySpec { kind: BodyKind::Dynamic, translation, velocity: Velocity::rest() }
    }

    /// A dynamic body that starts at `translation` with velocity
    /// `velocity`.
    pub fn moving(translation: Vector, velocity: Velocity) -> (spec: BodySpec)
        ensures
            spec == (BodySpec { kind: BodyKind::Dynamic, translation, velocity }),
    {
        BodySpec { kind: BodyKind::Dynamic, translation, velocity }
    }

    /// A static body at `translation`.
    pub fn fixed(translation: Vector) -> (spec: BodySpec)
        ensures
            spec == (BodySpec {
                kind: BodyKind::Static,
                translation,
                velocity: Velocity::spec_rest(),
            }),
    {
        BodySpec { kind: BodyKind::Static, translation, velocity: Velocity::rest() }
    }

    /// Tests whether the body is valid.
    pub fn is_valid(&self) -> (result: bool)
        ensures
            result == self.valid(),
    {
        let at_rest = self.velocity.linear.x == ZERO && self.velocity.linear.y == ZERO
            && self.velocity.linear.z == ZERO && self.velocity.angular.x == ZERO
            && self.velocity.angular.y == ZERO && self.velocity.angular.z == ZERO;
        let is_static = match self.kind {
            BodyKind::Static => true,
            _ => false,
        };
        self.translation.is_within(POSITION_LIMIT) && self.velocity.is_in_range() && (!is_static
            || at_rest)
    }
}

/// No scalar of `heights` is farther from zero than `limit`.
pub open spec fn all_within(heights: Seq<u32>, limit: u32) -> bool {
    forall|i: int| 0 <= i < heights.len() ==> within(#[trigger] heights[i], limit)
}

/// The shape of a collider as the registry records it.
pub enum Shape {
    /// A ball centred on the body, given by its radius.
    Ball { radius: u32 },
    /// A box centred on the body, given by its half-extents.
    Cuboid { half_extents: Vector },
    /// A height map over the body's x-z plane with `rows * cols` samples,
    /// column after column, stretched by `scale` along each axis.
    Heightfield { rows: usize, cols: usize, heights: Seq<u32>, scale: Vector },
}

impl Shape {
    /// The shape is one the engine can build and step: a ball has a radius
    /// greater than zero and within the extent limit; a box has
    /// half-extents greater than zero and within the extent limit; a height
    /// map has at least two rows and two columns, one sample within the
    /// extent limit for each point of its grid, and a scale greater than
    /// zero and within the extent limit.
    pub open spec fn valid(self) -> bool {
        match self {
            Shape::Ball { radius } => positive(radius) && within(radius, EXTENT_LIMIT),
            Shape::Cuboid { half_extents } => half_extents.positive() && half_extents.within(
                EXTENT_LIMIT,
            ),
            Shape::Heightfield { rows, cols, heights, scale } => {
                &&& rows >= 2
                &&& cols >= 2
                &&& heights.len() == rows * cols
                &&& all_within(heights, EXTENT_LIMIT)
                &&& scale.positive()
                &&& scale.within(EXTENT_LIMIT)
            },
        }
    }
}

/// The shape of a collider to be attached to a body.
#[derive(Debug, PartialEq, Eq)]
pub enum ColliderSpec {
    /// A ball centred on the body, given by its radius.
    Ball { radius: u32 },
    /// A box centred on the body, given by its half-extents.
    Cuboid { half_extents: Vector },
    /// A height map over the body's x-z plane. `heights` holds `rows * cols`
    /// samples, column after column; `scale` stretches the map along each
    /// axis.
    Heightfield { rows: usize, cols: usize, heights: Vec<u32>, scale: Vector },
}

impl View for ColliderSpec {
    type V = Shape;

    open spec fn view(&self) -> Shape {
        match *self {
            ColliderSpec::Ball { radius } => Shape::Ball { radius },
            ColliderSpec::Cuboid { half_extents } => Shape::Cuboid { half_extents },
            ColliderSpec::Heightfield { rows, cols, heights, scale } => Shape::Heightfield {
                rows,
                cols,
                heights: heights@,
                scale,
            },
        }
    }
}

impl Clone for ColliderSpec {
    fn clone(&self) -> (copy: ColliderSpec)
        ensures
            copy@ == self@,
    {
        match self {
            ColliderSpec::Ball { radius } => ColliderSpec::Ball { radius: *radius },
            ColliderSpec::Cuboid { half_extents } => ColliderSpec::Cuboid {
                half_extents: *half_extents,
            },
            ColliderSpec::Heightfield { rows, cols, heights, scale } => ColliderSpec::Heightfield {
                rows: *rows,
                cols: *cols,
                heights: heights.clone(),
                scale: *scale,
            },
        }
    }
}

impl ColliderSpec {
    /// The shape is one the engine can build and step.
    pub open spec fn valid(self) -> bool {
        self@.valid()
    }

    /// Tests whether the shape is valid.
    pub fn is_valid(&self) -> (result: bool)
        ensures
            result == self.valid(),
    {
        match self {
            ColliderSpec::Ball { radius } => is_positive(*radius) && is_within(
                *radius,
                EXTENT_LIMIT,
            ),
            ColliderSpec::Cuboid { half_extents } => half_extents.is_positive()
                && half_extents.is_within(EXTENT_LIMIT),
            ColliderSpec::Heightfield { rows, cols, heights, scale } => {
                if *rows < 2 || *cols < 2 || !scale.is_positive() || !scale.is_within(
                    EXTENT_LIMIT,
                ) {
                    return false;
                }
                let samples: usize = heights.len();
                match rows.checked_mul(*cols) {
                    None => false,
                    Some(cells) => cells == samples && all_are_within(heights, EXTENT_LIMIT),
                }
            },
        }
    }
}

/// Tests whether no scalar of `heights` is farther from zero than `limit`.
pub fn all_are_within(heights: &Vec<u32>, limit: u32) -> (result: bool)
    ensures
        result == all_within(heights@, limit),
{
    let mut i: usize = 0;
    while i < heights.len()
        invariant
            i <= heights.len(),
            forall|j: int| 0 <= j < i ==> within(#[trigger] heights@[j], limit),
        decreases heights.len() - i,
    {
        if !is_within(heights[i], limit) {
            return false;
        }
        i = i + 1;
    }
    true
}

} // verus!
