//! What the loaders of compiled modules decide without reading a file.

pub mod wasmtime;
