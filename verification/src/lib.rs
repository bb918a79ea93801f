//! Resolution of named, versioned packages to local directories.
//!
//! The crate models the acquisition layer of a package-consuming tool:
//! mirror configuration, cache-directory resolution, version discovery,
//! and the policy that sequences existence checks, downloads and
//! archive unpacking.  All decision logic is verified; the surrounding
//! I/O (directory probing, HTTP transfer, tar extraction) is performed
//! by the embedding application, which drives the state machine in
//! [`prepare`].

pub mod text;
pub mod version;
pub mod pkg;
pub mod mirror;
pub mod resolve;
pub mod prepare;
pub mod laws;
