//! Declarative glue between a reactive UI component tree and a foreign
//! 3D-globe rendering engine.
//!
//! The engine owns every viewer, entity, data source and camera; this crate
//! owns the decisions around them: which foreign calls a component issues on
//! each reactive tick, how typed inputs are translated into the engine's
//! plain key/value option objects, and how handles to engine-owned values are
//! stored in thread-affinity guarded slots so that they are only ever touched
//! on the executor thread that created them. The host shell performs the
//! foreign calls that these decisions demand and feeds the results back.

pub mod bag;
pub mod camera;
pub mod container;
pub mod context;
pub mod data_source;
pub mod entity;
pub mod globals;
pub mod graphics;
pub mod handle;
pub mod materials;
pub mod selection;
pub mod slot;
pub mod tileset;
