//! Result items for a launcher, their JSON rendering, and the decisions of a
//! small on-disk cache for generated artifacts.
pub mod json;
pub mod item;
pub mod workflow;
pub mod cache;
pub mod laws;
