//! The schema migration engine: the persisted record, the table of steps,
//! the plan drawn from both, and the manager that carries a plan out one
//! request at a time.

pub mod laws;
pub mod manager;
pub mod record;
pub mod steps;
pub mod world;

pub use manager::{Manager, Phase, Reply, Request, Run, Stage};
pub use record::{Migration, MigrationData};
pub use steps::{Action, Entry, Step, Table, Task};
