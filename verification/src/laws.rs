//! What holds of every registry, whatever is added to it, removed from it
//! and however often it is stepped.

use vstd::prelude::*;
use crate::body::{BodyKind, BodySpec, BodyState, Shape, Velocity};
use crate::bridge::{synced, Entity};
use crate::handle::{Handle, Model};
use crate::registry::{history, listed_after, steps_among, Change, Registry};

verus! {

/// Right after a body was added, its handle resolves to the state it was
/// added with, its collider's handle resolves to the body and to the shape
/// it was added with, and every other handle resolves to what it resolved
/// to before.
pub proof fn law_added_is_found(before: Registry, model: Model, state: BodyState, shape: Shape)
    ensures
        before.with_model(model, state, shape).lookup(model.body_handle) == Some(state),
        before.with_model(model, state, shape).parent_of(model.collider_handle) == Some(
            model.body_handle,
        ),
        before.with_model(model, state, shape).shape_of(model.collider_handle) == Some(shape),
        before.with_model(model, state, shape).holds(model),
        forall|other: Handle|
            other != model.body_handle ==> #[trigger] before.with_model(
                model,
                state,
                shape,
            ).lookup(other) == before.lookup(other),
        forall|other: Handle|
            other != model.collider_handle ==> {
                &&& #[trigger] before.with_model(model, state, shape).parent_of(other)
                    == before.parent_of(other)
                &&& before.with_model(model, state, shape).shape_of(other) == before.shape_of(
                    other,
                )
            },
{
}

/// The handles that a registry hands out were never in use: they differ
/// from every live handle and from every spent one.
pub proof fn law_added_is_new(before: Registry, model: Model, handle: Handle)
    requires
        before.admits(model),
    ensures
        before.lookup(handle) is Some || before.spent_body(handle) ==> handle
            != model.body_handle,
        before.parent_of(handle) is Some || before.spent_collider(handle) ==> handle
            != model.collider_handle,
{
}

/// In a consistent registry exactly one collider is attached to each live
/// body, so that removing a body takes both generations one on.
pub proof fn law_one_collider_per_body(registry: Registry, body: Handle)
    requires
        registry.consistent(),
        registry.bodies.contains_key(body),
    ensures
        registry.attached(body).len() == 1,
        registry.without_body(body).body_generation == registry.body_generation + 1,
        registry.without_body(body).collider_generation == registry.collider_generation + 1,
{
    let collider = choose|collider: Handle| registry.attached(body).contains(collider);
    assert(registry.attached(body) =~= set![collider]);
}

/// After a body was removed, its handle resolves to nothing, and so does
/// the handle of the collider that was attached to it; both handles are
/// spent.
pub proof fn law_removed_is_absent(before: Registry, handle: Handle, collider: Handle)
    requires
        before.consistent(),
        before.parent_of(collider) == Some(handle),
    ensures
        before.without_body(handle).lookup(handle) is None,
        before.without_body(handle).parent_of(collider) is None,
        before.without_body(handle).spent_body(handle),
        before.without_body(handle).spent_collider(collider),
{
    law_one_collider_per_body(before, handle);
}

/// Asking to remove a body leaves every other body as it was, and every
/// collider that was not attached to the body.
pub proof fn law_removal_spares_the_rest(before: Registry, handle: Handle, other: Handle)
    ensures
        before.without_body(handle).lookup(handle) is None,
        other != handle ==> before.without_body(handle).lookup(other) == before.lookup(other),
        before.parent_of(other) != Some(handle) ==> before.without_body(handle).parent_of(other)
            == before.parent_of(other),
{
}

/// A stale or unknown handle removes nothing.
pub proof fn law_stale_removal_changes_nothing(before: Registry, handle: Handle)
    requires
        before.lookup(handle) is None,
    ensures
        before.without_body(handle) == before,
{
}

/// Where every collider that was attached to a body before is attached to
/// it still, and every body that is new has a collider, every live body has
/// one.
proof fn lemma_colliders_stay_attached(before: Registry, after: Registry)
    requires
        before.consistent(),
        forall|body: Handle| #[trigger]
            after.bodies.contains_key(body) && !before.bodies.contains_key(body) ==> exists|
                collider: Handle,
            | after.attached(body).contains(collider),
        forall|body: Handle, collider: Handle|
            after.bodies.contains_key(body) && #[trigger] before.attached(body).contains(
                collider,
            ) ==> after.attached(body).contains(collider),
    ensures
        forall|body: Handle| #[trigger]
            after.bodies.contains_key(body) ==> exists|collider: Handle|
                after.attached(body).contains(collider),
{
    assert forall|body: Handle| #[trigger] after.bodies.contains_key(body) implies exists|
        collider: Handle,
    | after.attached(body).contains(collider) by {
        if before.bodies.contains_key(body) {
            let collider = choose|collider: Handle| before.attached(body).contains(collider);
            assert(after.attached(body).contains(collider));
        }
    }
}

/// Every change keeps a consistent registry consistent.
pub proof fn law_change_keeps_consistency(before: Registry, change: Change, after: Registry)
    requires
        before.consistent(),
        before.changes_to(change, after),
    ensures
        after.consistent(),
{
    match change {
        Change::Add { model, body, shape } => {
            assert(after.attached(model.body_handle).contains(model.collider_handle));
            lemma_colliders_stay_attached(before, after);
        },
        Change::Step => {
            lemma_colliders_stay_attached(before, after);
        },
        Change::Remove { handle } => {
            if before.bodies.contains_key(handle) {
                law_one_collider_per_body(before, handle);
                lemma_colliders_stay_attached(before, after);
            }
        },
    }
}

/// Every change keeps the list of what the registry holds: an addition
/// appends its model, a removal takes out the model of the body removed,
/// and a step leaves the list as it is.
pub proof fn law_change_keeps_list(
    before: Registry,
    change: Change,
    after: Registry,
    models: Seq<Model>,
)
    requires
        before.consistent(),
        before.lists(models),
        before.changes_to(change, after),
    ensures
        after.lists(listed_after(models, change)),
{
    let listed = listed_after(models, change);
    match change {
        Change::Add { model, body, shape } => {
            assert forall|other: Handle| #[trigger]
                after.bodies.contains_key(other) implies exists|i: int|
                0 <= i < listed.len() && (#[trigger] listed[i]).body_handle == other by {
                if other == model.body_handle {
                    assert(listed[models.len() as int].body_handle == other);
                } else {
                    let i = choose|i: int|
                        0 <= i < models.len() && (#[trigger] models[i]).body_handle == other;
                    assert(listed[i].body_handle == other);
                }
            }
            assert forall|i: int| 0 <= i < listed.len() implies after.holds(
                #[trigger] listed[i],
            ) by {
                if i < models.len() {
                    assert(before.holds(models[i]));
                }
            }
            assert forall|i: int, j: int| 0 <= i < j < listed.len() implies (
            #[trigger] listed[i]).body_handle != (#[trigger] listed[j]).body_handle by {
                assert(before.holds(models[i]));
            }
        },
        Change::Step => {
            assert forall|i: int| 0 <= i < listed.len() implies after.holds(
                #[trigger] listed[i],
            ) by {
                assert(before.holds(models[i]));
            }
        },
        Change::Remove { handle } => {
            if before.bodies.contains_key(handle) {
                let place = choose|i: int|
                    0 <= i < models.len() && (#[trigger] models[i]).body_handle == handle;
                assert(listed == models.remove(place));
                assert forall|i: int| 0 <= i < listed.len() implies after.holds(
                    #[trigger] listed[i],
                ) by {
                    let from = if i < place { i } else { i + 1 };
                    assert(listed[i] == models[from]);
                    assert(before.holds(models[from]));
                    assert(models[from].body_handle != models[place].body_handle);
                }
                assert forall|other: Handle| #[trigger]
                    after.bodies.contains_key(other) implies exists|i: int|
                    0 <= i < listed.len() && (#[trigger] listed[i]).body_handle == other by {
                    let from = choose|i: int|
                        0 <= i < models.len() && (#[trigger] models[i]).body_handle == other;
                    let to = if from < place { from } else { from - 1 };
                    assert(listed[to] == models[from]);
                }
                assert forall|i: int, j: int| 0 <= i < j < listed.len() implies (
                #[trigger] listed[i]).body_handle != (#[trigger] listed[j]).body_handle by {
                    let from_i = if i < place { i } else { i + 1 };
                    let from_j = if j < place { j } else { j + 1 };
                    assert(listed[i] == models[from_i]);
                    assert(listed[j] == models[from_j]);
                }
            } else {
                assert forall|i: int| 0 <= i < models.len() implies (
                #[trigger] models[i]).body_handle != handle by {
                    assert(before.holds(models[i]));
                }
            }
        },
    }
}

/// No change brings a spent handle back: no generation is ever lowered, and
/// a handle enters only under the current one.
pub proof fn law_change_keeps_spent(
    before: Registry,
    change: Change,
    after: Registry,
    handle: Handle,
)
    requires
        before.changes_to(change, after),
    ensures
        before.body_generation <= after.body_generation,
        before.collider_generation <= after.collider_generation,
        before.spent_body(handle) ==> after.spent_body(handle),
        before.spent_collider(handle) ==> after.spent_collider(handle),
{
}

/// Along a history that starts consistent, every state is consistent.
pub proof fn law_history_is_consistent(states: Seq<Registry>, changes: Seq<Change>, at: int)
    requires
        history(states, changes),
        states[0].consistent(),
        0 <= at < states.len(),
    ensures
        states[at].consistent(),
    decreases at,
{
    if at > 0 {
        law_history_is_consistent(states, changes, at - 1);
        law_change_keeps_consistency(states[at - 1], changes[at - 1], states[at]);
    }
}

/// A body handle that is spent resolves to nothing from then on, whatever
/// is added, removed or stepped afterwards.
pub proof fn law_spent_body_stays_absent(
    states: Seq<Registry>,
    changes: Seq<Change>,
    handle: Handle,
    at: int,
)
    requires
        history(states, changes),
        states[0].spent_body(handle),
        0 <= at < states.len(),
    ensures
        states[at].spent_body(handle),
        states[at].lookup(handle) is None,
    decreases at,
{
    if at > 0 {
        law_spent_body_stays_absent(states, changes, handle, at - 1);
        law_change_keeps_spent(states[at - 1], changes[at - 1], states[at], handle);
    }
}

/// A collider handle that is spent resolves to nothing from then on.
pub proof fn law_spent_collider_stays_absent(
    states: Seq<Registry>,
    changes: Seq<Change>,
    handle: Handle,
    at: int,
)
    requires
        history(states, changes),
        states[0].spent_collider(handle),
        0 <= at < states.len(),
    ensures
        states[at].spent_collider(handle),
        states[at].parent_of(handle) is None,
    decreases at,
{
    if at > 0 {
        law_spent_collider_stays_absent(states, changes, handle, at - 1);
        law_change_keeps_spent(states[at - 1], changes[at - 1], states[at], handle);
    }
}

/// Along a history the step count rises by exactly the number of steps
/// taken: no step counts twice, none is skipped, and nothing but a step
/// counts.
pub proof fn law_steps_are_counted(states: Seq<Registry>, changes: Seq<Change>, at: int)
    requires
        history(states, changes),
        0 <= at < states.len(),
    ensures
        states[at].steps == states[0].steps + steps_among(changes, at),
    decreases at,
{
    if at > 0 {
        law_steps_are_counted(states, changes, at - 1);
    }
}

/// In a history of steps alone, the step count after `at` steps is the
/// count at the start plus `at`.
pub proof fn law_each_step_counts_once(states: Seq<Registry>, changes: Seq<Change>, at: int)
    requires
        history(states, changes),
        forall|i: int| 0 <= i < changes.len() ==> #[trigger] changes[i] is Step,
        0 <= at < states.len(),
    ensures
        steps_among(changes, at) == at,
        states[at].steps == states[0].steps + at,
    decreases at,
{
    if at > 0 {
        law_each_step_counts_once(states, changes, at - 1);
    }
}

/// A static body stays in the state it is in for as long as it is not
/// removed, however many steps are taken and whatever else is added or
/// removed.
pub proof fn law_static_body_stays(
    states: Seq<Registry>,
    changes: Seq<Change>,
    handle: Handle,
    at: int,
)
    requires
        history(states, changes),
        states[0].bodies.contains_key(handle),
        states[0].bodies[handle].kind == BodyKind::Static,
        forall|i: int|
            0 <= i < changes.len() ==> #[trigger] changes[i] != (Change::Remove { handle }),
        0 <= at < states.len(),
    ensures
        states[at].lookup(handle) == states[0].lookup(handle),
        states[0].consistent() ==> states[at].bodies[handle].velocity == Velocity::spec_rest(),
    decreases at,
{
    if at > 0 {
        law_static_body_stays(states, changes, handle, at - 1);
    }
}

/// A model that the registry holds is held for as long as its body is not
/// removed: both its handles stay live and its collider stays attached to
/// its body.
pub proof fn law_model_stays_held(
    states: Seq<Registry>,
    changes: Seq<Change>,
    model: Model,
    at: int,
)
    requires
        history(states, changes),
        states[0].holds(model),
        forall|i: int|
            0 <= i < changes.len() ==> #[trigger] changes[i] != (Change::Remove {
                handle: model.body_handle,
            }),
        0 <= at < states.len(),
    ensures
        states[at].holds(model),
    decreases at,
{
    if at > 0 {
        law_model_stays_held(states, changes, model, at - 1);
    }
}

/// The bridge changes nothing of an entity but the translation of its
/// transform, which becomes that of the entity's body; of an entity whose
/// body handle resolves to nothing it changes nothing at all; and syncing
/// twice is syncing once.
pub proof fn law_sync_touches_translation_only(registry: Registry, entity: Entity)
    ensures
        synced(registry, entity).model == entity.model,
        synced(registry, entity).transform.rotation == entity.transform.rotation,
        synced(registry, entity).transform.scale == entity.transform.scale,
        registry.lookup(entity.model.body_handle) matches Some(state) ==> synced(
            registry,
            entity,
        ).transform.translation == state.pose.translation,
        registry.lookup(entity.model.body_handle) is None ==> synced(registry, entity) == entity,
        synced(registry, synced(registry, entity)) == synced(registry, entity),
{
}

/// Once the body of an entity is removed, no frame changes the entity
/// again, whatever is added, removed or stepped afterwards.
pub proof fn law_removed_entity_is_left_alone(
    states: Seq<Registry>,
    changes: Seq<Change>,
    entity: Entity,
    at: int,
)
    requires
        history(states, changes),
        states[0].spent_body(entity.model.body_handle),
        0 <= at < states.len(),
    ensures
        synced(states[at], entity) == entity,
{
    law_spent_body_stays_absent(states, changes, entity.model.body_handle, at);
}

} // verus!
