use physics_bridge::backend::{GENERATION_LIMIT, STEP_LENGTH, STEP_LIMIT};
use physics_bridge::body::{BodyKind, BodySpec, ColliderSpec, Velocity};
use physics_bridge::engine::{Engine, STANDARD_GRAVITY};
use physics_bridge::handle::Handle;
use physics_bridge::math::{Quaternion, Vector};

fn bits(value: f32) -> u32 {
    value.to_bits()
}

fn vector(x: f32, y: f32, z: f32) -> Vector {
    Vector::new(bits(x), bits(y), bits(z))
}

fn cube(half: f32) -> ColliderSpec {
    ColliderSpec::Cuboid { half_extents: vector(half, half, half) }
}

fn flat_ground(width: f32) -> ColliderSpec {
    ColliderSpec::Heightfield {
        rows: 2,
        cols: 2,
        heights: vec![bits(0.0); 4],
        scale: vector(width, 1.0, width),
    }
}

fn height(engine: &Engine, handle: Handle) -> f32 {
    f32::from_bits(engine.lookup(handle).expect("a live body").pose.translation.y)
}

#[test]
fn new_engine_is_empty_under_standard_gravity() {
    let engine = Engine::new();
    assert_eq!(engine.steps(), 0);
    assert_eq!(engine.removals(), 0);
    assert_eq!(engine.gravity(), Vector::new(0, STANDARD_GRAVITY, 0));
    assert_eq!(f32::from_bits(engine.gravity().y), -9.81);
    assert_eq!(engine.lookup(Handle::new(0, 0)), None);
    assert_eq!(engine.collider_parent(Handle::new(0, 0)), None);
}

#[test]
fn lookup_after_add_returns_the_initial_pose() {
    let mut engine = Engine::new();
    let body = BodySpec::dynamic(vector(0.25, 1.0, -3.5));
    assert!(body.is_valid());
    let model = engine.add(body, cube(1.0));
    let state = engine.lookup(model.body_handle).expect("the body was just added");
    assert_eq!(state.kind, BodyKind::Dynamic);
    assert_eq!(state.pose.translation, vector(0.25, 1.0, -3.5));
    assert_eq!(state.pose.rotation, Quaternion::identity());
    assert_eq!(state.velocity.linear, Vector::zero());
    assert_eq!(state.velocity.angular, Vector::zero());
    assert_eq!(engine.collider_parent(model.collider_handle), Some(model.body_handle));
}

#[test]
fn each_kind_of_body_is_reported_as_added() {
    let mut engine = Engine::new();
    let fixed = engine.add(BodySpec::fixed(vector(1.0, 0.0, 0.0)), cube(0.5));
    let moved = engine.add(BodySpec::new(BodyKind::Kinematic, vector(5.0, 0.0, 0.0)), cube(0.5));
    let free = engine.add(BodySpec::dynamic(vector(9.0, 0.0, 0.0)), cube(0.5));
    assert_eq!(engine.lookup(fixed.body_handle).unwrap().kind, BodyKind::Static);
    assert_eq!(engine.lookup(moved.body_handle).unwrap().kind, BodyKind::Kinematic);
    assert_eq!(engine.lookup(free.body_handle).unwrap().kind, BodyKind::Dynamic);
    assert_eq!(engine.lookup(moved.body_handle).unwrap().pose.translation, vector(5.0, 0.0, 0.0));
}

#[test]
fn added_models_get_distinct_handles() {
    let mut engine = Engine::new();
    let first = engine.add(BodySpec::dynamic(vector(0.0, 1.0, 0.0)), cube(0.5));
    let second = engine.add(BodySpec::dynamic(vector(4.0, 1.0, 0.0)), cube(0.5));
    assert_ne!(first.body_handle, second.body_handle);
    assert_ne!(first.collider_handle, second.collider_handle);
    assert_eq!(engine.lookup(first.body_handle).unwrap().pose.translation, vector(0.0, 1.0, 0.0));
    assert_eq!(engine.lookup(second.body_handle).unwrap().pose.translation, vector(4.0, 1.0, 0.0));
    assert_eq!(engine.collider_parent(first.collider_handle), Some(first.body_handle));
    assert_eq!(engine.collider_parent(second.collider_handle), Some(second.body_handle));
}

#[test]
fn a_height_map_of_any_valid_size_is_accepted() {
    let mut engine = Engine::new();
    let ground = ColliderSpec::Heightfield {
        rows: 3,
        cols: 2,
        heights: vec![bits(0.0), bits(0.5), bits(1.0), bits(0.0), bits(0.5), bits(1.0)],
        scale: vector(4.0, 1.0, 4.0),
    };
    assert!(ground.is_valid());
    let model = engine.add(BodySpec::fixed(vector(0.0, 0.0, 0.0)), ground);
    assert_eq!(engine.lookup(model.body_handle).unwrap().kind, BodyKind::Static);
    assert_eq!(engine.collider_parent(model.collider_handle), Some(model.body_handle));
}

#[test]
fn remove_makes_body_and_collider_absent() {
    let mut engine = Engine::new();
    let kept = engine.add(BodySpec::dynamic(vector(3.0, 1.0, 0.0)), cube(0.5));
    let model = engine.add(BodySpec::dynamic(vector(0.0, 1.0, 0.0)), cube(0.5));
    assert!(engine.remove(model.body_handle));
    assert_eq!(engine.lookup(model.body_handle), None);
    assert_eq!(engine.collider_parent(model.collider_handle), None);
    assert_eq!(engine.lookup(kept.body_handle).unwrap().pose.translation, vector(3.0, 1.0, 0.0));
    assert_eq!(engine.collider_parent(kept.collider_handle), Some(kept.body_handle));
}

#[test]
fn removing_a_stale_or_unknown_handle_changes_nothing() {
    let mut engine = Engine::new();
    let model = engine.add(BodySpec::dynamic(vector(0.0, 1.0, 0.0)), cube(0.5));
    assert!(!engine.remove(Handle::new(17, 0)));
    assert!(!engine.remove(Handle::new(model.body_handle.index, model.body_handle.generation + 1)));
    assert!(engine.lookup(model.body_handle).is_some());
    assert!(engine.remove(model.body_handle));
    assert!(!engine.remove(model.body_handle));
    assert_eq!(engine.lookup(model.body_handle), None);
}

#[test]
fn handles_carry_the_generation_in_which_they_were_handed_out() {
    let mut engine = Engine::new();
    let first = engine.add(BodySpec::dynamic(vector(0.0, 1.0, 0.0)), cube(0.5));
    let second = engine.add(BodySpec::dynamic(vector(3.0, 1.0, 0.0)), cube(0.5));
    assert_eq!(first.body_handle.generation, 0);
    assert_eq!(first.collider_handle.generation, 0);
    assert_eq!(second.body_handle.generation, 0);
    assert_eq!(second.collider_handle.generation, 0);
    assert!(engine.removals() < GENERATION_LIMIT);
    assert!(engine.remove(first.body_handle));
    assert_eq!(engine.removals(), 1);
    let third = engine.add(BodySpec::dynamic(vector(6.0, 1.0, 0.0)), cube(0.5));
    assert_eq!(third.body_handle.generation, 1);
    assert_eq!(third.collider_handle.generation, 1);
    assert!(!engine.remove(first.body_handle));
    assert_eq!(engine.removals(), 1);
    assert!(engine.remove(second.body_handle));
    assert!(engine.remove(third.body_handle));
    assert_eq!(engine.removals(), 3);
    let fourth = engine.add(BodySpec::dynamic(vector(9.0, 1.0, 0.0)), cube(0.5));
    assert_eq!(fourth.body_handle.generation, 3);
    assert_eq!(fourth.collider_handle.generation, 3);
    assert_eq!(GENERATION_LIMIT, u64::MAX);
}

#[test]
fn a_spent_handle_is_never_handed_out_again() {
    let mut engine = Engine::new();
    let first = engine.add(BodySpec::dynamic(vector(0.0, 1.0, 0.0)), cube(0.5));
    assert!(engine.remove(first.body_handle));
    let second = engine.add(BodySpec::fixed(vector(7.0, 0.0, 0.0)), cube(0.5));
    assert_eq!(second.body_handle.index, first.body_handle.index);
    assert_ne!(second.body_handle, first.body_handle);
    assert_ne!(second.collider_handle, first.collider_handle);
    assert_eq!(engine.lookup(first.body_handle), None);
    assert_eq!(engine.collider_parent(first.collider_handle), None);
    assert_eq!(engine.lookup(second.body_handle).unwrap().pose.translation, vector(7.0, 0.0, 0.0));
    for _ in 0..10 {
        assert!(engine.steps() < STEP_LIMIT);
        engine.tick();
    }
    assert_eq!(engine.lookup(first.body_handle), None);
    assert_eq!(engine.collider_parent(first.collider_handle), None);
}

#[test]
fn every_step_covers_a_sixtieth_of_a_second() {
    let mut engine = Engine::new();
    assert_eq!(engine.step_length(), STEP_LENGTH);
    assert_eq!(f32::from_bits(engine.step_length()), 1.0 / 60.0);
    engine.add(BodySpec::dynamic(vector(0.0, 1.0, 0.0)), cube(0.5));
    engine.tick();
    assert_eq!(f32::from_bits(engine.step_length()), 1.0 / 60.0);
    assert_eq!(STEP_LIMIT, u32::MAX);
}

#[test]
fn removing_a_body_between_steps_leaves_the_rest_simulated() {
    let mut engine = Engine::new();
    let ground = engine.add(BodySpec::fixed(vector(0.0, 0.0, 0.0)), flat_ground(20.0));
    let lower = engine.add(BodySpec::dynamic(vector(0.0, 0.5, 0.0)), cube(0.5));
    let upper = engine.add(BodySpec::dynamic(vector(0.0, 1.5, 0.0)), cube(0.5));
    for _ in 0..120 {
        engine.tick();
    }
    assert!(height(&engine, upper.body_handle) > 1.4);
    assert!(engine.remove(lower.body_handle));
    assert_eq!(engine.lookup(lower.body_handle), None);
    assert_eq!(engine.collider_parent(lower.collider_handle), None);
    for _ in 0..240 {
        engine.tick();
    }
    let rest = height(&engine, upper.body_handle);
    assert!((rest - 0.5).abs() < 0.05, "the upper cube rests at {}", rest);
    assert!(engine.remove(ground.body_handle));
    for _ in 0..60 {
        engine.tick();
    }
    assert!(height(&engine, upper.body_handle) < 0.0);
    let late = engine.add(BodySpec::dynamic(vector(0.0, 3.0, 0.0)), cube(0.5));
    assert_eq!(late.body_handle.generation, 2);
    engine.tick();
    assert!(height(&engine, late.body_handle) < 3.0);
    assert_eq!(engine.steps(), 421);
    assert_eq!(engine.removals(), 2);
}

#[test]
fn a_body_starts_with_the_velocity_it_was_given() {
    let mut engine = Engine::new();
    let push = Velocity { linear: vector(1.5, 0.0, -2.0), angular: vector(0.0, 0.25, 0.0) };
    let body = BodySpec::moving(vector(0.0, 5.0, 0.0), push);
    assert!(body.is_valid());
    let model = engine.add(body, cube(0.5));
    let state = engine.lookup(model.body_handle).unwrap();
    assert_eq!(state.velocity, push);
    assert_eq!(state.pose.translation, vector(0.0, 5.0, 0.0));
    assert_eq!(state.pose.rotation, Quaternion::identity());
    assert_eq!(state.kind, BodyKind::Dynamic);
    engine.tick();
    let state = engine.lookup(model.body_handle).unwrap();
    assert!(f32::from_bits(state.pose.translation.x) > 0.0);
    assert!(f32::from_bits(state.pose.translation.z) < 0.0);
    assert_eq!(f32::from_bits(state.velocity.linear.x), 1.5);
}

#[test]
fn a_ball_dropped_on_the_ground_comes_to_rest_on_it() {
    let mut engine = Engine::new();
    engine.add(BodySpec::fixed(vector(0.0, 0.0, 0.0)), flat_ground(20.0));
    let shape = ColliderSpec::Ball { radius: bits(0.5) };
    assert!(shape.is_valid());
    let ball = engine.add(BodySpec::dynamic(vector(0.0, 2.0, 0.0)), shape);
    assert_eq!(engine.collider_parent(ball.collider_handle), Some(ball.body_handle));
    for _ in 0..300 {
        assert!(engine.try_tick());
    }
    let rest = height(&engine, ball.body_handle);
    assert!((rest - 0.5).abs() < 0.05, "the ball rests at {}", rest);
}

#[test]
fn balls_rest_on_boxes_and_on_balls() {
    let mut engine = Engine::new();
    engine.add(BodySpec::fixed(vector(0.0, 0.0, 0.0)), cube(1.0));
    let on_box = engine.add(
        BodySpec::dynamic(vector(0.0, 2.0, 0.0)),
        ColliderSpec::Ball { radius: bits(0.5) },
    );
    engine.add(BodySpec::fixed(vector(10.0, 0.0, 0.0)), ColliderSpec::Ball { radius: bits(1.0) });
    let on_ball = engine.add(
        BodySpec::dynamic(vector(10.0, 2.0, 0.0)),
        ColliderSpec::Ball { radius: bits(0.5) },
    );
    for _ in 0..200 {
        assert!(engine.try_tick());
    }
    let rest = height(&engine, on_box.body_handle);
    assert!((rest - 1.5).abs() < 0.05, "the ball rests on the box at {}", rest);
    let rest = height(&engine, on_ball.body_handle);
    assert!((rest - 1.5).abs() < 0.05, "the ball rests on the ball at {}", rest);
}

#[test]
fn the_engine_steps_at_the_edge_of_its_bounds() {
    let mut engine = Engine::new();
    let far = 1048576.0;
    let ground = BodySpec::fixed(vector(far, far, -far));
    let big = ColliderSpec::Cuboid { half_extents: vector(64.0, 64.0, 64.0) };
    assert!(ground.is_valid() && big.is_valid());
    let fixed = engine.add(ground, big);
    let pushed = BodySpec::moving(
        vector(far - 100.0, far, -far),
        Velocity { linear: vector(-1048576.0, 0.0, 0.0), angular: vector(0.0, 3.0, 0.0) },
    );
    assert!(pushed.is_valid());
    let moving = engine.add(pushed, ColliderSpec::Ball { radius: bits(64.0) });
    let before = engine.lookup(fixed.body_handle);
    let mut taken = 0;
    while taken < 30 && engine.try_tick() {
        taken += 1;
        assert_eq!(engine.lookup(fixed.body_handle), before);
    }
    assert!(taken > 0);
    assert_eq!(engine.steps(), taken);
    assert!(engine.lookup(moving.body_handle).is_some());
    let falling = engine.add(BodySpec::dynamic(vector(-far, -far, far)), cube(0.5));
    while taken < 200 && engine.try_tick() {
        taken += 1;
    }
    assert!(!engine.is_steppable());
    assert!(engine.lookup(falling.body_handle).is_some());
    assert_eq!(engine.lookup(fixed.body_handle), before);
}

#[test]
fn the_registry_lists_what_it_holds() {
    let mut engine = Engine::new();
    assert_eq!(engine.len(), 0);
    assert_eq!(engine.model(0), None);
    let first = engine.add(BodySpec::dynamic(vector(0.0, 1.0, 0.0)), cube(0.5));
    let second = engine.add(BodySpec::fixed(vector(3.0, 1.0, 0.0)), cube(0.5));
    let third = engine.add(BodySpec::dynamic(vector(6.0, 1.0, 0.0)), cube(0.5));
    assert_eq!(engine.len(), 3);
    assert_eq!(engine.model(0), Some(first));
    assert_eq!(engine.model(1), Some(second));
    assert_eq!(engine.model(2), Some(third));
    assert_eq!(engine.model(3), None);
    engine.tick();
    assert_eq!(engine.len(), 3);
    assert!(engine.remove(second.body_handle));
    assert_eq!(engine.len(), 2);
    assert_eq!(engine.model(0), Some(first));
    assert_eq!(engine.model(1), Some(third));
    assert_eq!(engine.model(2), None);
    assert!(!engine.remove(second.body_handle));
    assert_eq!(engine.len(), 2);
    for place in 0..engine.len() {
        let model = engine.model(place).unwrap();
        assert!(engine.lookup(model.body_handle).is_some());
        assert_eq!(engine.collider_parent(model.collider_handle), Some(model.body_handle));
    }
    assert!(engine.remove(first.body_handle));
    assert!(engine.remove(third.body_handle));
    assert_eq!(engine.len(), 0);
}

#[test]
fn an_engine_steps_only_while_every_body_is_within_bounds() {
    let mut engine = Engine::new();
    assert!(engine.is_steppable());
    let near = engine.add(BodySpec::fixed(vector(0.0, 0.0, 0.0)), cube(0.5));
    let edge = BodySpec::dynamic(vector(0.0, -1048576.0, 0.0));
    assert!(edge.is_valid());
    let falling = engine.add(edge, cube(0.5));
    assert!(engine.is_steppable());
    let mut taken = 0;
    while engine.try_tick() {
        taken += 1;
        assert!(taken < 200, "the body never left the bounds");
    }
    assert!(taken > 0);
    assert_eq!(engine.steps(), taken);
    assert!(height(&engine, falling.body_handle) < -1048576.0);
    assert!(!engine.is_steppable());
    let before = engine.lookup(falling.body_handle);
    assert!(!engine.try_tick());
    assert!(!engine.try_tick());
    assert_eq!(engine.steps(), taken);
    assert_eq!(engine.lookup(falling.body_handle), before);
    assert!(engine.remove(falling.body_handle));
    assert!(engine.is_steppable());
    assert!(engine.try_tick());
    assert_eq!(engine.steps(), taken + 1);
    assert!(engine.lookup(near.body_handle).is_some());
}

#[test]
fn a_body_far_from_the_origin_is_not_valid() {
    assert!(!BodySpec::dynamic(vector(0.0, 1.0e11, 0.0)).is_valid());
    assert!(!BodySpec::fixed(vector(1.0e11, 0.0, 0.0)).is_valid());
    assert!(!ColliderSpec::Cuboid { half_extents: vector(f32::MAX, f32::MAX, f32::MAX) }.is_valid());
    assert!(BodySpec::dynamic(vector(0.0, 1.0e6, 0.0)).is_valid());
}

#[test]
fn each_tick_counts_as_one_step() {
    let mut engine = Engine::new();
    engine.add(BodySpec::dynamic(vector(0.0, 1.0, 0.0)), cube(0.5));
    for taken in 0..25u32 {
        assert_eq!(engine.steps(), taken);
        engine.tick();
    }
    assert_eq!(engine.steps(), 25);
}

#[test]
fn adding_and_removing_take_no_step() {
    let mut engine = Engine::new();
    let model = engine.add(BodySpec::dynamic(vector(0.0, 1.0, 0.0)), cube(0.5));
    engine.tick();
    engine.add(BodySpec::fixed(vector(0.0, 0.0, 0.0)), flat_ground(20.0));
    assert!(engine.remove(model.body_handle));
    assert_eq!(engine.steps(), 1);
}

#[test]
fn a_step_moves_a_dynamic_body_under_gravity() {
    let mut engine = Engine::new();
    let model = engine.add(BodySpec::dynamic(vector(0.0, 10.0, 0.0)), cube(0.5));
    engine.tick();
    let after_one = height(&engine, model.body_handle);
    engine.tick();
    let after_two = height(&engine, model.body_handle);
    assert!(after_one < 10.0);
    assert!(after_two < after_one);
    let state = engine.lookup(model.body_handle).unwrap();
    assert_eq!(state.kind, BodyKind::Dynamic);
    assert_eq!(f32::from_bits(state.pose.translation.x), 0.0);
    assert_eq!(f32::from_bits(state.pose.translation.z), 0.0);
    let fall = f32::from_bits(state.velocity.linear.y);
    assert!((fall - 2.0 * -9.81 / 60.0).abs() < 1.0e-4, "the body falls at {}", fall);
    assert_eq!(f32::from_bits(state.velocity.linear.x), 0.0);
    assert_eq!(state.velocity.angular, Vector::zero());
}

#[test]
fn a_static_body_is_unmoved_by_any_number_of_steps() {
    let mut engine = Engine::new();
    let ground = engine.add(BodySpec::fixed(vector(0.5, -2.0, 1.5)), flat_ground(20.0));
    let pillar = engine.add(BodySpec::fixed(vector(3.0, 4.0, 0.0)), cube(0.5));
    let falling = engine.add(BodySpec::dynamic(vector(0.0, 2.0, 0.0)), cube(0.5));
    let ground_before = engine.lookup(ground.body_handle).unwrap();
    let pillar_before = engine.lookup(pillar.body_handle).unwrap();
    for _ in 0..200 {
        engine.tick();
        assert_eq!(engine.lookup(ground.body_handle), Some(ground_before));
        assert_eq!(engine.lookup(pillar.body_handle), Some(pillar_before));
    }
    assert!(height(&engine, falling.body_handle) < 2.0);
}

#[test]
fn a_cube_dropped_on_the_ground_comes_to_rest() {
    let mut engine = Engine::new();
    let ground = engine.add(BodySpec::fixed(vector(0.0, 0.0, 0.0)), flat_ground(20.0));
    let cube = engine.add(BodySpec::dynamic(vector(0.0, 2.0, 0.0)), cube(0.5));
    let mut lowest = 2.0f32;
    for _ in 0..300 {
        engine.tick();
        let now = height(&engine, cube.body_handle);
        assert!(now >= 0.0, "the cube fell through the ground: {}", now);
        lowest = lowest.min(now);
    }
    let rest = height(&engine, cube.body_handle);
    assert!((rest - 0.5).abs() < 0.05, "the cube rests at {}", rest);
    assert!(lowest > 0.4);
    for _ in 0..60 {
        engine.tick();
        let now = height(&engine, cube.body_handle);
        assert!((now - rest).abs() < 0.001, "the cube still moves: {} then {}", rest, now);
    }
    let speed = f32::from_bits(engine.lookup(cube.body_handle).unwrap().velocity.linear.y);
    assert!(speed.abs() < 0.01, "the cube still moves at {}", speed);
    assert_eq!(height(&engine, ground.body_handle), 0.0);
    assert_eq!(engine.lookup(ground.body_handle).unwrap().velocity.linear, Vector::zero());
    assert_eq!(engine.steps(), 360);
}
