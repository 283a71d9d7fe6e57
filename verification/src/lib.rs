//! Static verification of sandboxed x86-64 code compiled from WebAssembly.
//!
//! The crate lifts decoded machine instructions into a small intermediate
//! representation, runs lattice-valued dataflow analyses over it, and checks
//! the fixpoints against the sandboxing contract: stack accesses stay within
//! the probed region, heap accesses stay within linear memory, and indirect
//! jumps go through bounded jump tables only.

pub mod ir;
pub mod lattices;
pub mod analyses;
pub mod checkers;
pub mod loaders;
