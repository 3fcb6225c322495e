//! Core of a head-mounted-display visual simulation: a pipeline of render
//! nodes negotiates GPU slot bindings, remaps gaze coordinates across
//! resolution changes, and carries per-frame stereo and visualization
//! parameters. GPU resource allocation, draw submission and the vendor HMD
//! integration live outside this crate; the pipeline here produces plain
//! draw commands and typed results that a device layer executes.

pub mod display;
pub mod gaze;
pub mod node;
pub mod pipeline;
pub mod slots;
pub mod value_map;
pub mod varjo;
pub mod vis_param;
