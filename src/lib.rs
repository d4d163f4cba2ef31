//! A project-management store: projects, tasks, users and task-to-user
//! assignments, with one shared identifier counter and the integrity checks
//! that guard the assignment relation.

pub mod error;
pub mod ids;
pub mod laws;
pub mod record;
pub mod store;

pub use error::{Error, ErrorKind};
pub use ids::IdGenerator;
pub use record::{Project, Task, TaskAssignment, TaskStatus, User};
pub use store::ProjectManager;
