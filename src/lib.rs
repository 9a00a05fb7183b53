//! Coordination of bulk save-game backup and restoration runs: the guard
//! against overlapping operations, the per-screen result logs, the editable
//! list of search roots and the orchestrator that ties them together.

pub mod guard;
pub mod log;
pub mod orchestrator;
pub mod roots;
pub mod style;
