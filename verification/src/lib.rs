//! The task lifecycle engine of `wt`: task definitions with their dependencies, the
//! runtime state recorded for each task, the transitions that tie a task's status to its
//! worktree, branch and tmux window, and what a transcript says of an agent's session.
//!
//! The library reads and writes no file and runs no program. It lays out what is to be
//! done as commands and steps, and takes what was found as plain values.

pub mod commands;
pub mod constants;
pub mod display;
pub mod error;
pub mod graph;
pub mod models;
pub mod services;
pub mod text;
pub mod tui;
