//! The gas analysis: cost expressions over the gas variables of a program,
//! maps from cost tokens to them, the costs of libfuncs as such maps, the
//! equations of the two passes of the analysis, and the check of their
//! solutions.

pub mod core_libfunc_cost_expr;
pub mod cost_expr;
pub mod generate_equations;
pub mod solution;
