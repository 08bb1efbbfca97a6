//! CASM, the assembly of the Cairo machine: operands, hints and instructions,
//! and their text.

pub mod builder;
pub mod hints;
pub mod instructions;
pub mod operand;
