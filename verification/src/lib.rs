//! Entity-component-system scheduler core: a type-keyed service registry,
//! invocation-scoped service accessors, per-system persistent context, an
//! adapter that turns plain functions into uniformly dispatchable systems,
//! and a run-level dispatcher.
//!
//! Around the core stand the services a scheduled application shares,
//! modelled at their interface boundary: the renderer's cycle and resource
//! bookkeeping, reload tracking for assets with a staged GPU counterpart,
//! binding resolution and pipeline state, and the voxel depth pass data.
//! Submitting the staged state to an actual GPU backend is left to the
//! surrounding application.

use vstd::prelude::*;

pub mod assets;
pub mod bindings;
pub mod ecs;
pub mod pipelines;
pub mod reloadable;
pub mod renderer;
pub mod schedule;
pub mod services;
pub mod voxel;
