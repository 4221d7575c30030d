//! Naming, repository resolution and install/uninstall/list decisions for
//! extension binaries of a command runner.
pub mod error;
pub mod fs_model;
pub mod location;
pub mod manager;
pub mod naming;
pub mod repository;
pub mod session;

pub use error::ExtensionError;
pub use location::{Action, Base, Location};
pub use manager::Extension;
pub use naming::{prepend_just_prefix, JUST_PREFIX};
pub use repository::{get_repository_name, is_github_url, repository_name_from_parts, UrlParts};
