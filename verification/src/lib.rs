//! Resolution of a validator client's runtime configuration.
//!
//! Built-in defaults, a network-specific directory layout and user-supplied
//! overrides are merged into one validated, immutable [`config::Config`]
//! value.  Resolution is pure: directory creation and file reads are left to
//! the caller, which receives the resolved paths.

pub mod address;
pub mod config;
pub mod external;
pub mod graffiti;
pub mod ip;
pub mod laws;
pub mod numeric;
pub mod strutil;
