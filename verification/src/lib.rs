//! A handle-indexed registry of simulated rigid bodies and the per-frame
//! bridge that copies simulated poses into presentation transforms.
//!
//! The simulation itself is the work of the `rapier3d` engine. This crate
//! owns the engine's state, hands out generation-checked handles to what it
//! holds, advances the simulation one fixed step at a time and states, as
//! verified contracts, what each of these operations does to the registry.
//!
//! - [`math`], [`handle`] and [`body`] hold the plain values that callers
//!   exchange with the registry.
//! - [`registry`] is the mathematical model that every contract speaks of.
//! - [`backend`] is the boundary with the engine: the only statements that
//!   are believed rather than proved.
//! - [`engine`] is the registry itself, and [`bridge`] the frame bridge.
//! - [`scene`] sets up the demonstration scene.
//! - [`laws`] proves what holds of every registry over any course of
//!   additions, removals and steps.

pub mod backend;
pub mod body;
pub mod bridge;
pub mod engine;
pub mod handle;
pub mod laws;
pub mod math;
pub mod registry;
pub mod scene;

pub use crate::engine::Engine;
pub use crate::handle::{Handle, Model};
