//! Decision core of a trash service: three request handlers (trash one path,
//! trash many paths, list the trash) written as pure steps.
//!
//! No function here touches the filesystem. A handler is told what its caller
//! observed (which paths exist, what the platform's trash facility answered)
//! and says what to do next or what text to reply with.

pub mod message;
pub mod partition;
pub mod request;
pub mod server;
pub mod step;
pub mod text;

pub use request::{TrashFileParams, TrashFilesParams};
pub use server::TrashServer;
pub use step::{BatchPlan, BatchStep, FileStep, ListStep};
