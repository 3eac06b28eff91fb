//! A concurrent task runner's engine: the task model, the life of each unit
//! of work, the batch that supervises one unit per task under a shared
//! cancellation signal, and the decision of what a start-up runs.
pub mod outcome;
pub mod task;
pub mod unit;
pub mod batch;
pub mod runner;
pub mod laws;
