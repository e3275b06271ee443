//! Run queue of the cooperative scheduler and the stacks its threads use.
pub mod scheduler;
pub mod stack;
