//! Reconstructs the `PATH` that the Windows registry defines for the
//! current user and the machine, and the small pieces of platform data
//! handling that this needs.

pub mod text;
pub mod registry;
pub mod path;
pub mod windows;
pub mod csidl;

pub use csidl::CSIDL;
pub use path::{compose, join_path, read_path_best_effort, read_path_from_registry, split_path};
pub use registry::{Error, RootKey, Value, ValueType};
