//! Resolves a repository reference to a directory of a workspace that is laid out
//! as `root/host/owner/repository/branch`, and says step by step what has to be
//! done so that the directory is there: a clone, or a worktree for a branch.
//!
//! The library decides and never acts. It reads references (`reference`), looks
//! things up in a walk of the workspace (`index`, `resolver`), builds the git
//! commands and reads what git printed (`git`), and leads a session from answer
//! to action (`session`, `materialize`). What holds of all this is proved in
//! `laws`.

pub mod git;
pub mod index;
pub mod laws;
pub mod materialize;
pub mod reference;
pub mod resolver;
pub mod session;
pub mod text;
