//! Typed filesystem objects (files and directories) with create, exists,
//! delete, move and copy operations and one error taxonomy, and a store of
//! environment variables.
//!
//! The filesystem operations decide; the caller performs. Each takes what a
//! probe of the object's path found and answers with a plan of primitive
//! requests, which the caller carries out on the real filesystem. The laws in
//! [`laws`] state what those plans do on a model of the filesystem.
pub mod environment;
pub mod fs;
pub mod laws;
pub mod model;
pub mod plan;
pub mod tree;
