//! Editing of package dependency declarations in TOML documents.
//!
//! Each namespace owns a `dependencies` table whose entries are either a bare
//! version string or an inline table of attributes. The editor reads, sets and
//! removes attributes and packages while leaving the rest of the document as
//! it was written.
pub mod model;
pub mod tree;
pub mod editor;
pub mod access;

pub use model::{EditError, Node};
pub use editor::{
    get_attribute, list_packages, remove_attribute, remove_package, set_attribute, Manifest,
    Namespace,
};
pub use editor::parse_error_message;
pub use model::{ItemKind, ValueKind};
