//! A bounded-concurrency TCP port scanner library.
//!
//! The library holds the scanner's logic: parsing and expanding a textual
//! port range, the counting limiter that bounds how many probes are in
//! flight at once, the dispatcher bookkeeping that tracks every scan task
//! from creation to completion, and the classification and reporting of
//! per-port probe outcomes. The network I/O itself (connecting, reading a
//! banner) is left to the caller, which feeds the raw outcomes back in.

pub mod limiter;
pub mod range;
pub mod report;
pub mod scan;
