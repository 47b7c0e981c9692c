//! Supervision of a local node daemon: a bounded log, the process slot with
//! its running flag, and the decisions of a resumable binary update.
pub mod log_store;
pub mod model;
pub mod supervisor;
pub mod text;
pub mod update;

pub use model::{GitHubAsset, GitHubRelease, NodeConfig};
