//! Turns application source, or an already built WebAssembly component, into
//! one composed component: the decisions of the build pipeline, verified.

pub mod compose;
pub mod graph;
pub mod ident;
pub mod job;
pub mod language;
pub mod paths;
pub mod pipeline;
pub mod tasks;
