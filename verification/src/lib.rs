//! Core of an actor-hosted interpreter for EVM-style bytecode: static
//! jump-destination analysis that enforces control-flow integrity, and the
//! error / abort model that every actor invocation funnels failures through.

pub mod actor_error;
pub mod bytecode;
pub mod exit_code;
