//! Sierra, the intermediate representation that is lowered to CASM: its
//! identifiers, the parts of a program, the registry of its declarations, and
//! the state of its variables.

pub mod edit_state;
pub mod ids;
pub mod program;
pub mod registry;
