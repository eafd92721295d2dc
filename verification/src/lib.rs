//! Backend logic for a small desktop application with four commands:
//! a greeting echo, a status fetch from a local HTTP endpoint, and
//! read/write access to one configuration file under the user's home
//! directory. The string-building and path-resolution logic lives here,
//! fully verified; the surrounding I/O (network, filesystem, host
//! runtime) stays with the binary.

pub mod config;
pub mod greeting;
pub mod status;
