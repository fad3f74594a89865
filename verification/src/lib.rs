//! Bookkeeping for repeated runs of benchmark executables.
//!
//! For each benchmark a header is kept in a catalog, and a history of its
//! runs: for every run the measurements that the executable reported, a
//! comment, and the hash of the sources that were measured. This library holds
//! the rules on those records:
//!
//! - [`types`]: the records and their mathematical views;
//! - [`catalog`]: registering benchmarks and looking them up;
//! - [`history`]: taking a stored history in, adding a run, removing runs;
//! - [`resolver`]: reading a run identifier, `*` or an index, against a history;
//! - [`comparison`]: pairing the measurements of two runs;
//! - [`timing`]: ordering two measured times;
//! - [`config`]: where the records are kept;
//! - [`cli`]: which arguments a command on runs needs;
//! - [`decimal`] and [`text`]: reading indices and comparing texts.
//!
//! Nothing here reads or writes a file, asks the user, or runs a program: the
//! caller does, and hands over what it found. No function here ends the
//! process; what went wrong comes back as a [`types::BenchError`].
//!
//! A measured time is kept as the bit pattern of an IEEE 754 double, as
//! `f64::to_bits` gives it. The library orders two times and hands them on;
//! it leaves the arithmetic on them to the caller.

pub mod catalog;
pub mod cli;
pub mod comparison;
pub mod config;
pub mod decimal;
pub mod history;
pub mod resolver;
pub mod text;
pub mod timing;
pub mod types;
