//! Rewrites the launcher manifests of a mod-loader installer so that a derived
//! distribution can ship its own loader, mapping pipeline and libraries.
//!
//! The crate holds the decisions and leaves the files and the network to the
//! program that drives it:
//!
//! - [`coordinate`] reads Maven-style coordinates and derives the paths of
//!   their artifacts;
//! - [`library`] reads the loader's metadata and picks the libraries that the
//!   distribution adds;
//! - [`resolver`] hashes and counts an artifact while it streams in and makes
//!   the record of it;
//! - [`version_json`], [`install_profile`] and [`jvm_args`] patch the three
//!   files of an installer;
//! - [`json`] and [`text`] hold the documents and strings that the others
//!   work on, and [`error`] the ways in which a run can fail.
//!
//! Every function states what it returns over the characters, bytes and JSON
//! values that its arguments hold, and is proved to return just that.

pub mod coordinate;
pub mod error;
pub mod install_profile;
pub mod json;
pub mod jvm_args;
pub mod library;
pub mod resolver;
pub mod text;
pub mod version_json;
