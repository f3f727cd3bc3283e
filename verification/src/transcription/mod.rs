pub mod accumulator;
pub mod queue;
pub mod sequence;
pub mod types;
pub mod worker;
