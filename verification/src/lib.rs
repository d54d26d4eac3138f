//! Verified installer for shim executables: infers an executable name from a
//! module specifier, reconstructs a deterministic argument vector from a flag
//! set, renders platform-specific launcher scripts, and manages the install /
//! uninstall lifecycle over a modelled file store.

pub mod errors;
pub mod flags;
pub mod fsys;
pub mod install;
pub mod escape;
pub mod name;
pub mod urlwrap;
pub mod paths;
pub mod render;
pub mod shim;
pub mod strutil;

pub use paths::get_hidden_file_with_ext;
pub use name::{infer_name_from_url, specifier_needs_redirect, validate_name};
pub use install::{create_install_shim, uninstall, is_in_path};
pub use shim::{resolve_shim_data, get_installer_root, resolve_url_or_path};
pub use render::generate_executable_file;
