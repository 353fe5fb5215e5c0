//! Orchestration of drawables: binding-slot assignment from declared resource
//! references, the replace-on-success pipeline slot of each drawable, the fixed
//! order of per-draw commands, and the decisions of the presentation backends.

pub mod binding;
pub mod pipeline;
pub mod settings;
pub mod backend;
pub mod readback;
