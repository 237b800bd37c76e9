//! A procedural sky rendered into a cubemap by a compute pass.
//!
//! The crate holds the frame logic of the sky pipeline as verified functions
//! over plain values: the settings and the active model, their once-per-frame
//! copy into the render side, the per-model-type metadata registry and its
//! cache, the lifecycle of the cubemap image and its view, and the graph node
//! that waits for the compute pipeline and then records the dispatch.
//!
//! The pipeline renders in one pass. A precompute stage, in which one model
//! writes tables that another model reads, is not part of this crate.

pub mod laws;
pub mod layout;
pub mod model;
pub mod pipeline;
pub mod render_resource;
pub mod settings;
pub mod skybox;
pub mod system_param;
