//! Measurement plugins for a benchmarking harness: allocator-event counts,
//! hardware performance counters, and the schedule that runs one set of
//! benchmark targets once per available measurement.

pub mod measure;
pub mod value;
pub mod alloc_measure;
pub mod perf;
pub mod harness;
