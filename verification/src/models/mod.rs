//! Tasks, their runtime states, the configuration, and the files that hold them.

pub mod checks;
pub mod config;
pub mod document;
pub mod json;
pub mod markdown;
pub mod name_map;
pub mod status;
pub mod store;
pub mod task;
pub mod yaml;

pub use config::WtConfig;
pub use markdown::{TaskInput, format_task_markdown};
pub use name_map::NameMap;
pub use status::{StatusStore, TaskState};
pub use store::TaskStore;
pub use task::{Instance, Task, TaskFrontmatter, TaskStatus};
