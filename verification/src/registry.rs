//! The registry as a mathematical value: which handles are live, what they
//! resolve to, which generation the next handle will carry, and how many
//! steps were taken. Every contract of the crate is stated over this model.

use vstd::prelude::*;
use crate::body::{BodyKind, BodySpec, BodyState, Shape, Velocity};
use crate::handle::{Handle, Model};

verus! {

/// What the registry records of a collider: the body it is attached to and
/// its shape.
pub struct Attachment {
    pub parent: Handle,
    pub shape: Shape,
}

/// The content of a registry.
#[verifier::ext_equal]
pub struct Registry {
    /// The live bodies, each under its handle.
    pub bodies: Map<Handle, BodyState>,
    /// The live colliders, each under its handle.
    pub colliders: Map<Handle, Attachment>,
    /// The generation that the next body handle will carry: the number of
    /// bodies removed so far.
    pub body_generation: nat,
    /// The generation that the next collider handle will carry: the number
    /// of colliders removed so far.
    pub collider_generation: nat,
    /// The number of steps taken.
    pub steps: nat,
}

impl Registry {
    /// The registry before anything was added to it.
    pub open spec fn empty() -> Registry {
        Registry {
            bodies: Map::empty(),
            colliders: Map::empty(),
            body_generation: 0,
            collider_generation: 0,
            steps: 0,
        }
    }

    /// What a body handle resolves to: the body's state, or nothing where
    /// the handle is stale or unknown.
    pub open spec fn lookup(self, handle: Handle) -> Option<BodyState> {
        if self.bodies.contains_key(handle) {
            Some(self.bodies[handle])
        } else {
            None
        }
    }

    /// What a collider handle resolves to: the handle of the collider's
    /// body, or nothing where the handle is stale or unknown.
    pub open spec fn parent_of(self, collider: Handle) -> Option<Handle> {
        if self.colliders.contains_key(collider) {
            Some(self.colliders[collider].parent)
        } else {
            None
        }
    }

    /// The shape of the collider that a handle names, or nothing where the
    /// handle is stale or unknown.
    pub open spec fn shape_of(self, collider: Handle) -> Option<Shape> {
        if self.colliders.contains_key(collider) {
            Some(self.colliders[collider].shape)
        } else {
            None
        }
    }

    /// The handles of the live colliders attached to `body`.
    pub open spec fn attached(self, body: Handle) -> Set<Handle> {
        Set::new(
            |collider: Handle|
                self.colliders.contains_key(collider) && self.colliders[collider].parent == body,
        )
    }

    /// Both handles of `model` are live, and its collider is attached to its
    /// body.
    pub open spec fn holds(self, model: Model) -> bool {
        &&& self.bodies.contains_key(model.body_handle)
        &&& self.colliders.contains_key(model.collider_handle)
        &&& self.colliders[model.collider_handle].parent == model.body_handle
    }

    /// `models` lists what the registry holds: every model of the list is
    /// held, every live body is that of one model of the list, and no body
    /// is listed twice.
    pub open spec fn lists(self, models: Seq<Model>) -> bool {
        &&& forall|i: int| 0 <= i < models.len() ==> self.holds(#[trigger] models[i])
        &&& forall|body: Handle| #[trigger]
            self.bodies.contains_key(body) ==> exists|i: int|
                0 <= i < models.len() && (#[trigger] models[i]).body_handle == body
        &&& forall|i: int, j: int|
            0 <= i < j < models.len() ==> (#[trigger] models[i]).body_handle != (
            #[trigger] models[j]).body_handle
    }

    /// The body handle is spent: it names no live body, and its generation
    /// has passed.
    pub open spec fn spent_body(self, handle: Handle) -> bool {
        !self.bodies.contains_key(handle) && handle.generation < self.body_generation
    }

    /// The collider handle is spent: it names no live collider, and its
    /// generation has passed.
    pub open spec fn spent_collider(self, handle: Handle) -> bool {
        !self.colliders.contains_key(handle) && handle.generation < self.collider_generation
    }

    /// The handles of `model` are ones that the registry can hand out next:
    /// they name nothing live and carry the current generations.
    pub open spec fn admits(self, model: Model) -> bool {
        &&& !self.bodies.contains_key(model.body_handle)
        &&& !self.colliders.contains_key(model.collider_handle)
        &&& model.body_handle.generation == self.body_generation
        &&& model.collider_handle.generation == self.collider_generation
    }

    /// Bodies and colliders come in pairs, and no live handle is ahead of
    /// its generation: every collider is attached to a live body, every
    /// body has a collider, no two colliders share a body, no live handle
    /// carries a generation that is yet to come, and as many colliders were
    /// removed as bodies. Every collider has a valid shape, and every
    /// static body is at rest.
    pub open spec fn consistent(self) -> bool {
        &&& forall|collider: Handle| #[trigger]
            self.colliders.contains_key(collider) ==> self.bodies.contains_key(
                self.colliders[collider].parent,
            )
        &&& forall|body: Handle| #[trigger]
            self.bodies.contains_key(body) ==> exists|collider: Handle|
                self.attached(body).contains(collider)
        &&& forall|first: Handle, second: Handle|
            #![trigger self.colliders.contains_key(first), self.colliders.contains_key(second)]
            self.colliders.contains_key(first) && self.colliders.contains_key(second)
                && self.colliders[first].parent == self.colliders[second].parent ==> first
                == second
        &&& forall|body: Handle| #[trigger]
            self.bodies.contains_key(body) ==> body.generation <= self.body_generation
        &&& forall|collider: Handle| #[trigger]
            self.colliders.contains_key(collider) ==> collider.generation
                <= self.collider_generation
        &&& self.collider_generation == self.body_generation
        &&& self.shapes_valid()
        &&& forall|body: Handle| #[trigger]
            self.bodies.contains_key(body) && self.bodies[body].kind == BodyKind::Static
                ==> self.bodies[body].velocity == Velocity::spec_rest()
    }

    /// Every live collider has a valid shape.
    pub open spec fn shapes_valid(self) -> bool {
        forall|collider: Handle| #[trigger]
            self.colliders.contains_key(collider) ==> self.colliders[collider].shape.valid()
    }

    /// The engine can step: every live body is in a state from which it can
    /// be stepped, and every live collider has a valid shape.
    pub open spec fn steppable(self) -> bool {
        &&& forall|body: Handle| #[trigger]
            self.bodies.contains_key(body) ==> self.bodies[body].steppable()
        &&& self.shapes_valid()
    }

    /// The registry with one more body in state `state` and one more
    /// collider of shape `shape` attached to it, under the handles of
    /// `model`.
    pub open spec fn with_model(self, model: Model, state: BodyState, shape: Shape) -> Registry {
        Registry {
            bodies: self.bodies.insert(model.body_handle, state),
            colliders: self.colliders.insert(
                model.collider_handle,
                Attachment { parent: model.body_handle, shape },
            ),
            ..self
        }
    }

    /// The registry after `handle` was asked to be removed: unchanged where
    /// it names no live body; else without that body and without the
    /// colliders attached to it, and one generation on for each thing
    /// removed.
    pub open spec fn without_body(self, handle: Handle) -> Registry {
        if self.bodies.contains_key(handle) {
            Registry {
                bodies: self.bodies.remove(handle),
                colliders: self.colliders.remove_keys(self.attached(handle)),
                body_generation: self.body_generation + 1,
                collider_generation: self.collider_generation + self.attached(handle).len(),
                steps: self.steps,
            }
        } else {
            self
        }
    }

    /// `after` is what one step may make of this registry: one more step
    /// taken; the same handles live, under the same generations; the same
    /// colliders of the same shapes on the same bodies; every body of the
    /// kind it was; every static body in the state it was in.
    pub open spec fn steps_to(self, after: Registry) -> bool {
        &&& after.steps == self.steps + 1
        &&& after.colliders == self.colliders
        &&& after.body_generation == self.body_generation
        &&& after.collider_generation == self.collider_generation
        &&& after.bodies.dom() == self.bodies.dom()
        &&& forall|handle: Handle| #[trigger]
            self.bodies.contains_key(handle) ==> {
                &&& after.bodies[handle].kind == self.bodies[handle].kind
                &&& self.bodies[handle].kind == BodyKind::Static ==> after.bodies[handle]
                    == self.bodies[handle]
            }
    }
}

/// One operation on a registry.
pub enum Change {
    /// The body that `body` describes and a collider of shape `shape` enter
    /// under the handles of `model`.
    Add { model: Model, body: BodySpec, shape: Shape },
    /// The simulation advances by one step.
    Step,
    /// The body named by `handle` is asked to be removed.
    Remove { handle: Handle },
}

impl Registry {
    /// `after` is what `change` may make of this registry.
    pub open spec fn changes_to(self, change: Change, after: Registry) -> bool {
        match change {
            Change::Add { model, body, shape } => {
                &&& self.admits(model)
                &&& body.valid()
                &&& shape.valid()
                &&& after == self.with_model(model, body.initial_state(), shape)
            },
            Change::Step => self.steps_to(after),
            Change::Remove { handle } => after == self.without_body(handle),
        }
    }
}

/// A place in `models` at which the model of the body `handle` stands.
pub open spec fn place_of(models: Seq<Model>, handle: Handle) -> int {
    choose|i: int| 0 <= i < models.len() && (#[trigger] models[i]).body_handle == handle
}

/// The list `models` without the model of the body `handle`, where it holds
/// one.
pub open spec fn unlisted(models: Seq<Model>, handle: Handle) -> Seq<Model> {
    if exists|i: int| 0 <= i < models.len() && (#[trigger] models[i]).body_handle == handle {
        models.remove(place_of(models, handle))
    } else {
        models
    }
}

/// The list of what a registry holds after `change`, where `models` was the
/// list before it.
pub open spec fn listed_after(models: Seq<Model>, change: Change) -> Seq<Model> {
    match change {
        Change::Add { model, body, shape } => models.push(model),
        Change::Step => models,
        Change::Remove { handle } => unlisted(models, handle),
    }
}

/// `states` is a course that a registry can take: each state but the first
/// is what the change of the same place makes of the state before it.
pub open spec fn history(states: Seq<Registry>, changes: Seq<Change>) -> bool {
    &&& states.len() == changes.len() + 1
    &&& forall|i: int|
        0 <= i < changes.len() ==> (#[trigger] states[i]).changes_to(changes[i], states[i + 1])
}

/// The number of steps among the first `count` changes.
pub open spec fn steps_among(changes: Seq<Change>, count: int) -> nat
    decreases count,
{
    if count <= 0 {
        0
    } else {
        steps_among(changes, count - 1) + if changes[count - 1] is Step {
            1nat
        } else {
            0nat
        }
    }
}

} // verus!
