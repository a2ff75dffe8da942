//! The platforms, architectures and build modes a library is built for, and the
//! names each one takes in toolchain triples and in the host's target keys.
pub mod arch;
pub mod mode;
pub mod sys;
pub mod target;
