//! The demonstration scene: a cube that falls onto flat ground.

use vstd::prelude::*;
use crate::body::{BodyKind, BodySpec, ColliderSpec, Shape, Velocity};
use crate::engine::Engine;
use crate::handle::Model;
use crate::math::{Vector, HALF, ONE, ZERO};

verus! {

/// The handles of the two bodies of the scene.
#[derive(Clone, Copy, Debug, PartialEq, Eq, Structural)]
pub struct Scene {
    pub cube: Model,
    pub ground: Model,
}

/// The cube: a dynamic body that starts one unit above the origin.
pub open spec fn spec_cube_body() -> BodySpec {
    BodySpec {
        kind: BodyKind::Dynamic,
        translation: Vector { x: ZERO, y: ONE, z: ZERO },
        velocity: Velocity::spec_rest(),
    }
}

/// The ground: a static body at the origin.
pub open spec fn spec_ground_body() -> BodySpec {
    BodySpec {
        kind: BodyKind::Static,
        translation: Vector { x: ZERO, y: ZERO, z: ZERO },
        velocity: Velocity::spec_rest(),
    }
}

/// The cube's body.
#[verifier::when_used_as_spec(spec_cube_body)]
pub fn cube_body() -> (body: BodySpec)
    ensures
        body == spec_cube_body(),
        body.valid(),
{
    BodySpec::dynamic(Vector::new(ZERO, ONE, ZERO))
}

/// The cube's shape: a box with half-extents of one unit.
pub open spec fn cube_shape() -> Shape {
    Shape::Cuboid { half_extents: Vector { x: ONE, y: ONE, z: ONE } }
}

/// The ground's shape: a flat height map of two rows and two columns, half
/// a unit wide and deep.
pub open spec fn ground_shape() -> Shape {
    Shape::Heightfield {
        rows: 2,
        cols: 2,
        heights: seq![ZERO, ZERO, ZERO, ZERO],
        scale: Vector { x: HALF, y: ONE, z: HALF },
    }
}

/// The cube's collider: a box with half-extents of one unit.
pub fn cube_collider() -> (collider: ColliderSpec)
    ensures
        collider@ == cube_shape(),
        collider.valid(),
{
    ColliderSpec::Cuboid { half_extents: Vector::new(ONE, ONE, ONE) }
}

/// The ground's body.
#[verifier::when_used_as_spec(spec_ground_body)]
pub fn ground_body() -> (body: BodySpec)
    ensures
        body == spec_ground_body(),
        body.valid(),
{
    BodySpec::fixed(Vector::zero())
}

/// The ground's collider: a flat height map of two rows and two columns,
/// half a unit wide and deep.
pub fn ground_collider() -> (collider: ColliderSpec)
    ensures
        collider@ == ground_shape(),
        collider.valid(),
{
    let mut heights: Vec<u32> = Vec::new();
    heights.push(ZERO);
    heights.push(ZERO);
    heights.push(ZERO);
    heights.push(ZERO);
    assert(heights@ =~= seq![ZERO, ZERO, ZERO, ZERO]);
    ColliderSpec::Heightfield { rows: 2, cols: 2, heights, scale: Vector::new(HALF, ONE, HALF) }
}

/// Adds the cube and then the ground to the registry and returns their
/// handles.
pub fn initialize(engine: &mut Engine) -> (scene: Scene)
    requires
        old(engine).wf(),
    ensures
        final(engine).wf(),
        old(engine)@.admits(scene.cube),
        old(engine)@.with_model(scene.cube, cube_body().initial_state(), cube_shape()).admits(
            scene.ground,
        ),
        final(engine)@ == old(engine)@.with_model(
            scene.cube,
            cube_body().initial_state(),
            cube_shape(),
        ).with_model(scene.ground, ground_body().initial_state(), ground_shape()),
        final(engine).models() == old(engine).models().push(scene.cube).push(scene.ground),
        old(engine)@.steppable() ==> final(engine)@.steppable(),
{
    let cube = engine.add(cube_body(), cube_collider());
    let ground = engine.add(ground_body(), ground_collider());
    Scene { cube, ground }
}

} // verus!
