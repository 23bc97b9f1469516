//! Stable view identities for a retained-mode UI tree.
//!
//! The crate assigns process-unique identifiers to tree nodes, tracks each
//! identifier's full ancestry path (root first, the node itself last), and
//! offers a decoupled mailbox through which a node requests mutations of
//! itself or of global UI state without touching the tree during traversal.
//!
//! All identity state lives in a [`context::ViewContext`] owned by one
//! logical execution context (typically the UI main loop) and threaded
//! explicitly through every call.

pub mod context;
pub mod id;
pub mod update;
