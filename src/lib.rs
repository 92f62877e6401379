//! Closures that can cross a foreign-function boundary.
//!
//! Two parts: a transformer that reads foreign declarations, finds closure call sites by
//! their names, and adds to each the adapter operations that wrap a Rust closure for it;
//! and the adapter protocol itself on the Rust side, with its checks.
pub mod decl;
pub mod names;
pub mod synth;
pub mod walk;
pub mod render;
pub mod adapter;
pub mod laws;

pub use adapter::{Closure, ClosureMarkerTrait, CallKind, LayoutMismatch, check_rebind, argument_usable};
pub use decl::{Node, ForeignItem, ClosureDefinition};
pub use synth::Runtime;
pub use walk::enhance_tree;
pub use render::render;
