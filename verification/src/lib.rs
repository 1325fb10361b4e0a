//! The orchestration core of a GPU particle sandbox.
//!
//! The sandbox simulates a grid of particles with a compute shader and draws
//! one cube per particle into a multisampled target. This crate decides what
//! happens on the device and proves that the decisions hang together; it
//! never touches the device itself. Resources are planned as descriptions,
//! passes are recorded as lists of commands, and whoever owns the device
//! creates the former and replays the latter.
//!
//! - [`layout`]: the data layouts shared with the shaders.
//! - [`device`]: the record of planned buffers and bind groups.
//! - [`pipeline`]: pipeline descriptions and the registry that keeps them.
//! - [`pass`]: recorded compute and render passes.
//! - [`mesh`]: a vertex and index buffer pair and its draws.
//! - [`simulation`]: the dispatch grid and the per-frame compute stage.
//! - [`surface`]: the surface configuration and its multisampled target.
//! - [`frame`]: events, failures and the steps of a frame.
//! - [`app`]: the orchestrator that ties all of it together.
//! - [`input`]: keyboard axes.
//! - [`texture`]: texture descriptions and image decoding.

pub mod app;
pub mod device;
pub mod frame;
pub mod input;
pub mod layout;
pub mod mesh;
pub mod pass;
pub mod pipeline;
pub mod simulation;
pub mod surface;
pub mod texture;
