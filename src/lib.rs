//! Admission control for a bounded pool of workers.
//!
//! A [`pool::WorkerPool`] counts how many tasks hold a slot out of a fixed
//! capacity. Callers ask whether a slot is free, take one before dispatching a
//! task and give it back when the task ends. The drain decision tells a waiting
//! caller whether every slot has been given back.
pub mod model;
pub mod pool;
