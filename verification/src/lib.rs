//! Projection of a columnar file's footer metadata into a stable tagged-value
//! tree.
//!
//! The crate turns the typed metadata that the `parquet2` parser produces —
//! schema tree, row groups, column chunks — into plain value types of its own,
//! and renders those as a generic tagged-value tree whose shape is fixed by
//! the rendering functions' contracts.

pub mod bridge;
pub mod render;
pub mod trusted;
pub mod value;
