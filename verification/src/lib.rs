//! Keeps the README of each package of a workspace in step with the
//! documentation comments of the package's entry file.
//!
//! The library decides; it never touches the disk. A caller hands it
//! what it found (which files exist, what the README holds, what the
//! renderer produced) and carries out the action that comes back.

pub mod bytes;
pub mod digest;
pub mod error;
pub mod links;
pub mod paths;
pub mod resolve;
pub mod sync;
