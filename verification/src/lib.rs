//! Ghost-branch workflow engine for a kanban-style project manager.
//!
//! Each unit of work gets a disposable version-control branch (a "ghost"
//! branch) in which changes are made, inspected, and either merged back
//! into the trunk branch or discarded. The naming policy, the branch
//! filtering, and the merge decisions are verified; the repository
//! itself is reached through a small set of trusted wrappers around git2.

pub mod engine;
pub mod errors;
mod gitio;
pub mod naming;
pub mod records;
