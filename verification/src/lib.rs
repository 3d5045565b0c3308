//! Decision logic for hibernating and rehydrating inactive software projects:
//! which ecosystems a project uses, what may be deleted, what is recorded in a
//! snapshot, and which commands may run to bring a project back.
//!
//! - `ecosystem`: analysis of a project directory from the names of its entries.
//! - `scanner`: which directories are projects, and which of them are stale.
//! - `hibernate`: the plan and snapshot of a hibernation.
//! - `hibernation`: the decisions of hibernating one project, step by step.
//! - `rehydrate`: the whitelist that rebuilds install commands from a snapshot.
//! - `awake`: the decisions of rehydrating a project, step by step.
//! - `bulk`: the decisions of hibernating every stale project at once.
//! - `prompt`: answers typed at the interactive prompts.
//! - `text`: string helpers.

pub mod text;
pub mod ecosystem;
pub mod scanner;
pub mod prompt;
pub mod hibernate;
pub mod rehydrate;
pub mod awake;
pub mod hibernation;
pub mod bulk;
