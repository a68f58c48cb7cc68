//! Mapping of service build contexts to local source directories.
//!
//! A service's build context is either a remote Git repository URL or a
//! directory fragment. This crate derives, from either form, the local
//! directory under the project root where the service's source is expected
//! to live: Git-sourced services are checked out under `src`, directory
//! contexts are interpreted relative to `pods`.

pub mod context;
pub mod mapper;
pub mod name;
pub mod path;
pub mod service;

pub use context::BuildContext;
pub use context::Error;
pub use mapper::git_to_local;
pub use path::LocalPath;
pub use service::Build;
pub use service::Service;
pub use service::ServiceExt;
