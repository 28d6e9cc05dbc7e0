//! The simulation registry: it owns every body and collider, hands out
//! handles to them, resolves handles, removes bodies and advances the
//! simulation by one fixed step at a time.

use vstd::prelude::*;
use crate::backend::{
    ball_collider,
    cuboid_collider,
    heightfield_collider,
    World,
    GENERATION_LIMIT,
    STEP_LENGTH,
    STEP_LIMIT,
};
use crate::body::{BodySpec, BodyState, ColliderSpec};
use crate::handle::{Handle, Model};
use crate::laws::{
    law_change_keeps_consistency,
    law_change_keeps_list,
    law_one_collider_per_body,
};
use crate::math::{Vector, ZERO};
use crate::registry::{place_of, unlisted, Change, Registry};

verus! {

/// Pattern of -9.81, the pull along the y axis in metres per second squared.
pub const STANDARD_GRAVITY: u32 = 0xC11C_F5C3;

/// The gravity under which every engine steps: standard gravity, downwards.
pub open spec fn standard_gravity() -> Vector {
    Vector { x: ZERO, y: STANDARD_GRAVITY, z: ZERO }
}

/// The registry and the engine behind it.
pub struct Engine {
    world: World,
    gravity: Vector,
    steps: u32,
    removals: u64,
    live: Vec<Model>,
}

impl View for Engine {
    type V = Registry;

    closed spec fn view(&self) -> Registry {
        self.world@
    }
}

impl Engine {
    /// The engine is in a state that its own operations can have produced.
    pub closed spec fn wf(&self) -> bool {
        &&& self.world@.consistent()
        &&& self.world@.lists(self.live@)
        &&& self.world@.steps == self.steps
        &&& self.world@.body_generation == self.removals
        &&& self.gravity == standard_gravity()
    }

    /// The models that the registry holds, oldest first.
    pub closed spec fn models(&self) -> Seq<Model> {
        self.live@
    }

    /// A well-formed engine holds a consistent registry that is within the
    /// limits of what an engine can count, and lists what it holds.
    pub proof fn lemma_wf(&self)
        requires
            self.wf(),
        ensures
            self@.consistent(),
            self@.lists(self.models()),
            self@.steps <= STEP_LIMIT,
            self@.body_generation <= GENERATION_LIMIT,
    {
    }

    /// An empty registry under standard gravity.
    pub fn new() -> (engine: Engine)
        ensures
            engine.wf(),
            engine@ == Registry::empty(),
            engine.models() == Seq::<Model>::empty(),
    {
        Engine {
            world: World::new(),
            gravity: Vector { x: ZERO, y: STANDARD_GRAVITY, z: ZERO },
            steps: 0,
            removals: 0,
            live: Vec::new(),
        }
    }

    /// Adds a body and a collider of the given shape attached to it, and
    /// returns the handles of both. The handles name nothing that is live
    /// and carry the current generations; the body enters in the state that
    /// `body` describes; nothing else changes.
    pub fn add(&mut self, body: BodySpec, collider: ColliderSpec) -> (model: Model)
        requires
            old(self).wf(),
            body.valid(),
            collider.valid(),
        ensures
            final(self).wf(),
            old(self)@.admits(model),
            final(self)@ == old(self)@.with_model(model, body.initial_state(), collider@),
            final(self).models() == old(self).models().push(model),
    {
        let ghost shape = collider@;
        let body_handle = self.world.insert_body(body.kind, body.translation);
        self.world.set_velocity(body_handle, body.velocity);
        let built = match collider {
            ColliderSpec::Ball { radius } => ball_collider(radius),
            ColliderSpec::Cuboid { half_extents } => cuboid_collider(half_extents),
            ColliderSpec::Heightfield { rows, cols, heights, scale } => heightfield_collider(
                rows,
                cols,
                &heights,
                scale,
            ),
        };
        let collider_handle = self.world.insert_collider(built, body_handle);
        let model = Model { body_handle, collider_handle };
        self.live.push(model);
        proof {
            let change = Change::Add { model, body, shape };
            assert(self@.bodies =~= old(self)@.bodies.insert(body_handle, body.initial_state()));
            assert(self@ =~= old(self)@.with_model(model, body.initial_state(), shape));
            law_change_keeps_consistency(old(self)@, change, self@);
            law_change_keeps_list(old(self)@, change, self@, old(self).live@);
        }
        model
    }

    /// The state of the body that `handle` names, or nothing where the
    /// handle is stale or unknown.
    pub fn lookup(&self, handle: Handle) -> (state: Option<BodyState>)
        ensures
            state == self@.lookup(handle),
    {
        match (self.world.body_pose(handle), self.world.body_motion(handle)) {
            (Some(pose), Some((kind, velocity))) => Some(BodyState { kind, pose, velocity }),
            _ => None,
        }
    }

    /// The handle of the body that the collider named by `handle` is
    /// attached to, or nothing where the handle is stale or unknown.
    pub fn collider_parent(&self, handle: Handle) -> (parent: Option<Handle>)
        ensures
            parent == self@.parent_of(handle),
    {
        self.world.collider_parent(handle)
    }

    /// Removes the body that `handle` names together with the collider
    /// attached to it, and says whether there was such a body. A stale or
    /// unknown handle changes nothing. Removing a body takes the registry
    /// one generation on, and an engine has `GENERATION_LIMIT` of them.
    pub fn remove(&mut self, handle: Handle) -> (removed: bool)
        requires
            old(self).wf(),
            old(self)@.bodies.contains_key(handle) ==> old(self)@.body_generation
                < GENERATION_LIMIT,
        ensures
            final(self).wf(),
            removed == old(self)@.bodies.contains_key(handle),
            final(self)@ == old(self)@.without_body(handle),
            removed ==> final(self)@.body_generation == old(self)@.body_generation + 1,
            removed ==> final(self)@.collider_generation == old(self)@.collider_generation + 1,
            final(self).models() == unlisted(old(self).models(), handle),
            removed ==> final(self).models().len() == old(self).models().len() - 1,
            !removed ==> final(self).models() == old(self).models(),
    {
        proof {
            if self@.bodies.contains_key(handle) {
                law_one_collider_per_body(self@, handle);
            }
        }
        let removed = self.world.remove_body(handle);
        if removed {
            self.removals = self.removals + 1;
        }
        let mut place: usize = 0;
        while place < self.live.len() && self.live[place].body_handle != handle
            invariant
                place <= self.live@.len(),
                forall|j: int| 0 <= j < place ==> (#[trigger] self.live@[j]).body_handle != handle,
            decreases self.live@.len() - place,
        {
            place = place + 1;
        }
        proof {
            let change = Change::Remove { handle };
            law_change_keeps_consistency(old(self)@, change, self@);
            law_change_keeps_list(old(self)@, change, self@, old(self).live@);
        }
        if place < self.live.len() {
            assert(place_of(self.live@, handle) == place);
            self.live.remove(place);
        }
        removed
    }

    /// Tests whether the engine can step: whether every live body is in a
    /// state from which it can be stepped.
    pub fn is_steppable(&self) -> (result: bool)
        requires
            self.wf(),
        ensures
            result == self@.steppable(),
    {
        let mut i: usize = 0;
        while i < self.live.len()
            invariant
                self.wf(),
                i <= self.live@.len(),
                forall|j: int|
                    0 <= j < i ==> self@.bodies[(#[trigger] self.live@[j]).body_handle].steppable(),
            decreases self.live@.len() - i,
        {
            match self.lookup(self.live[i].body_handle) {
                Some(state) => {
                    if !state.is_steppable() {
                        return false;
                    }
                },
                None => {},
            }
            i = i + 1;
        }
        true
    }

    /// Advances the simulation by one fixed step. Nothing is added or
    /// removed and no static body moves; where the other bodies go is the
    /// solver's work and no part of this contract. An engine can take
    /// `STEP_LIMIT` steps, and can step only while every body is within the
    /// bounds that `is_steppable` tests.
    pub fn tick(&mut self)
        requires
            old(self).wf(),
            old(self)@.steps < STEP_LIMIT,
            old(self)@.steppable(),
        ensures
            final(self).wf(),
            old(self)@.steps_to(final(self)@),
            final(self).models() == old(self).models(),
    {
        self.world.step(self.gravity);
        self.steps = self.steps + 1;
        proof {
            law_change_keeps_consistency(old(self)@, Change::Step, self@);
            law_change_keeps_list(old(self)@, Change::Step, self@, old(self).live@);
        }
    }

    /// Advances the simulation by one fixed step where the engine can step,
    /// and says whether it did. Where it cannot, because it has taken every
    /// step it can count or because a body has left the bounds, nothing
    /// changes.
    pub fn try_tick(&mut self) -> (stepped: bool)
        requires
            old(self).wf(),
        ensures
            final(self).wf(),
            stepped == (old(self)@.steps < STEP_LIMIT && old(self)@.steppable()),
            stepped ==> old(self)@.steps_to(final(self)@),
            !stepped ==> final(self)@ == old(self)@,
            final(self).models() == old(self).models(),
    {
        if self.steps < STEP_LIMIT && self.is_steppable() {
            self.tick();
            true
        } else {
            false
        }
    }

    /// The number of steps taken so far.
    pub fn steps(&self) -> (steps: u32)
        requires
            self.wf(),
        ensures
            steps == self@.steps,
    {
        self.steps
    }

    /// The number of bodies removed so far, which is the generation that
    /// the next handles will carry.
    pub fn removals(&self) -> (removals: u64)
        requires
            self.wf(),
        ensures
            removals == self@.body_generation,
    {
        self.removals
    }

    /// The number of bodies that the registry holds.
    pub fn len(&self) -> (count: usize)
        ensures
            count == self.models().len(),
    {
        self.live.len()
    }

    /// The model at place `index` of the list of what the registry holds,
    /// or nothing where the list is shorter.
    pub fn model(&self, index: usize) -> (model: Option<Model>)
        ensures
            model == (if index < self.models().len() {
                Some(self.models()[index as int])
            } else {
                None
            }),
    {
        if index < self.live.len() {
            Some(self.live[index])
        } else {
            None
        }
    }

    /// The simulated time that one step covers, in seconds: the same for
    /// every step of every engine.
    pub fn step_length(&self) -> (length: u32)
        ensures
            length == STEP_LENGTH,
    {
        self.world.step_length()
    }

    /// The gravity under which the engine steps.
    pub fn gravity(&self) -> (gravity: Vector)
        requires
            self.wf(),
        ensures
            gravity == standard_gravity(),
    {
        self.gravity
    }
}

} // verus!
