//! A worktree manager's core: selectable list models, the two-step creation
//! flow, and the guarded deletion protocol, as a state machine whose outside
//! work (repository access, file removal) is carried out by the caller.
pub mod cursor;
pub mod input;
pub mod error;
pub mod app;
pub mod dispatch;
pub mod lemmas;
