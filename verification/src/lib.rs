//! A virtual machine for a two-dimensional, stack-based language on a toroidal
//! playfield of 80 by 25 cells, with named labels as jump targets.

pub mod address;
pub mod chance;
pub mod engine;
pub mod grid;
pub mod laws;
pub mod loader;
pub mod machine;
pub mod number;
pub mod symbols;
pub mod vm;

pub use address::{Addr, Delta};
pub use chance::{DirectionSource, Entropy, Script};
pub use engine::Action;
pub use grid::Grid;
pub use machine::Fault;
pub use symbols::SymbolTable;
pub use vm::VM;
