//! Tool-augmented agent orchestration: a registry of callable tools, argument
//! validation and dispatch, the turn loop as a state machine, and the planning
//! half of a small arithmetic expression evaluator.
pub mod text;
pub mod expression;
pub mod tool;
pub mod registry;
pub mod session;
pub mod laws;
