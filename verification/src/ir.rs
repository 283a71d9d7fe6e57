//! The intermediate representation and the lifter that produces it.

pub mod instr;
pub mod types;
pub mod utils;
pub mod x64;
