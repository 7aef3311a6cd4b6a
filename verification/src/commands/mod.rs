//! What each command of `wt` decides, plans, records and says.

pub mod archive;
pub mod cleanup;
pub mod create;
pub mod done;
pub mod init;
pub mod inspect;
pub mod list;
pub mod new;
pub mod next;
pub mod plan;
pub mod pretty;
pub mod report;
pub mod reset;
pub mod review;
pub mod start;
pub mod status;
pub mod tree;
pub mod validate;
