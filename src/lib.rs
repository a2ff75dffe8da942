//! Builds the platform-dependency manifest of a plugin library: the matrix of
//! supported platform, architecture and build-mode combinations, the artifact
//! path of each, the icon table of the library's classes and the dependency
//! table, gathered into one manifest value ready for a document encoder.
pub mod args;
pub mod features;
pub mod gdext;
pub mod text;
