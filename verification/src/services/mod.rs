//! The commands for git and tmux, what their output says, and what the transcripts say.

pub mod command;
pub mod dependency;
pub mod filter;
pub mod git;
pub mod logs;
pub mod records;
pub mod tmux;
pub mod transcript;
pub mod workspace;
