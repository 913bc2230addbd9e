//! A verified engine for sampling hardware performance counters: the
//! descriptor record that mirrors the kernel's counter-configuration
//! ABI, the handles and leader-coupled groups that own the kernel's
//! counter resources, the decoding of atomic group reads into named
//! counts, a rolling window over the sampled snapshots, and the pixel
//! arithmetic that turns a window of snapshots into a miss-rate plot.
//!
//! The operating-system calls themselves (opening a counter, control
//! requests, reads, closes) happen outside this crate: the functions
//! here build each request, decide what follows from each raw result,
//! and prove those decisions correct.

pub mod event_set;
pub mod flags;
pub mod perf_events;
pub mod plot;
pub mod sliding_window;
pub mod two_dim_array;
pub mod x_events;
