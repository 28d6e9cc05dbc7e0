//! The frame bridge: once per frame it advances the simulation by one step
//! and copies where each simulated body now is into the presentation
//! transform of the entity that stands for it.

use vstd::prelude::*;
use crate::backend::STEP_LIMIT;
use crate::engine::Engine;
use crate::handle::Model;
use crate::math::{Quaternion, Vector, ONE, ZERO};
use crate::registry::Registry;

verus! {

/// Where the presentation layer draws an entity.
#[derive(Clone, Copy, Debug, PartialEq, Eq, Structural)]
pub struct Transform {
    pub translation: Vector,
    pub rotation: Quaternion,
    pub scale: Vector,
}

impl Transform {
    /// No translation, no rotation, scale one.
    pub fn identity() -> (transform: Transform)
        ensures
            transform == (Transform {
                translation: Vector { x: ZERO, y: ZERO, z: ZERO },
                rotation: Quaternion::spec_identity(),
                scale: Vector { x: ONE, y: ONE, z: ONE },
            }),
    {
        Transform {
            translation: Vector { x: ZERO, y: ZERO, z: ZERO },
            rotation: Quaternion::identity(),
            scale: Vector { x: ONE, y: ONE, z: ONE },
        }
    }
}

/// A presentation entity linked to a simulated body.
#[derive(Clone, Copy, Debug, PartialEq, Eq, Structural)]
pub struct Entity {
    pub model: Model,
    pub transform: Transform,
}

/// The entity as the bridge leaves it: where its body handle resolves, the
/// transform takes the body's translation and keeps its rotation and scale;
/// where the handle is stale, the entity is as it was.
pub open spec fn synced(registry: Registry, entity: Entity) -> Entity {
    match registry.lookup(entity.model.body_handle) {
        Some(state) => Entity {
            model: entity.model,
            transform: Transform { translation: state.pose.translation, ..entity.transform },
        },
        None => entity,
    }
}

/// Copies the translation of the entity's body into the entity's transform.
/// An entity whose body is gone is left untouched.
pub fn sync(engine: &Engine, entity: &mut Entity)
    ensures
        *final(entity) == synced(engine@, *old(entity)),
{
    match engine.lookup(entity.model.body_handle) {
        Some(state) => {
            entity.transform.translation = state.pose.translation;
        },
        None => {},
    }
}

/// One frame: exactly one step of the simulation, then every entity synced
/// with the registry as the step left it.
pub fn tick(engine: &mut Engine, entities: &mut Vec<Entity>)
    requires
        old(engine).wf(),
        old(engine)@.steps < STEP_LIMIT,
        old(engine)@.steppable(),
    ensures
        final(engine).wf(),
        old(engine)@.steps_to(final(engine)@),
        final(engine).models() == old(engine).models(),
        final(entities)@.len() == old(entities)@.len(),
        forall|i: int|
            0 <= i < old(entities)@.len() ==> #[trigger] final(entities)@[i] == synced(
                final(engine)@,
                old(entities)@[i],
            ),
{
    engine.tick();
    let count: usize = entities.len();
    let mut i: usize = 0;
    while i < count
        invariant
            i <= count,
            count == entities@.len(),
            entities@.len() == old(entities)@.len(),
            forall|j: int| 0 <= j < i ==> #[trigger] entities@[j] == synced(engine@, old(entities)@[j]),
            forall|j: int| i <= j < count ==> #[trigger] entities@[j] == old(entities)@[j],
        decreases count - i,
    {
        let mut entity = entities[i];
        sync(engine, &mut entity);
        entities.set(i, entity);
        i = i + 1;
    }
}

/// One frame where the engine can step, and nothing where it cannot: says
/// whether the frame was run. It is run unless the engine has taken every
/// step it can count or a body has left the bounds within which the engine
/// can step.
pub fn try_tick(engine: &mut Engine, entities: &mut Vec<Entity>) -> (stepped: bool)
    requires
        old(engine).wf(),
    ensures
        final(engine).wf(),
        stepped == (old(engine)@.steps < STEP_LIMIT && old(engine)@.steppable()),
        stepped ==> old(engine)@.steps_to(final(engine)@),
        stepped ==> forall|i: int|
            0 <= i < old(entities)@.len() ==> #[trigger] final(entities)@[i] == synced(
                final(engine)@,
                old(entities)@[i],
            ),
        !stepped ==> final(engine)@ == old(engine)@,
        !stepped ==> final(entities)@ == old(entities)@,
        final(entities)@.len() == old(entities)@.len(),
        final(engine).models() == old(engine).models(),
{
    if engine.steps() < STEP_LIMIT && engine.is_steppable() {
        tick(engine, entities);
        true
    } else {
        false
    }
}

} // verus!
