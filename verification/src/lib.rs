//! Build-time package metadata for Cargo build scripts.
//!
//! A build script hands this library what it read from its environment (the
//! target triple, the clock, the package manifest, the license file, the file
//! at the destination) and gets back what to print and whether to write. The
//! compiled crate then reads the bindings back: through [`CargoPkgInfo`],
//! where a missing field reads as a fallback text, or through
//! [`cargo_pkg_info::CargoPkgInfo`], where it is not present.
//!
//! Every function here is pure: reading and writing stay with the caller.

pub mod bindings;
pub mod build_output;
pub mod cargo_pkg_info;
pub mod decimal;
pub mod env_var;
pub mod injector;
pub mod manifest;
pub mod outside;
pub mod pkg_info;
pub mod template;
pub mod text;

pub use build_output::set_cargo_env_var;
pub use build_output::set_multi_line_cargo_env_var;
pub use build_output::BuildOutput;
pub use env_var::is_valid_env_var_name;
pub use env_var::BindingError;
pub use env_var::EnvBinding;
pub use injector::inject_build_metadata;
pub use injector::BuildFacts;
pub use injector::WriteDecision;
pub use manifest::get_cargo_field;
pub use manifest::get_license_file_path;
pub use pkg_info::CargoPkgInfo;
pub use text::escape_newlines;
pub use text::unescape_newlines;
