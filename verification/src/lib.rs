//! Core of a bulk credential-validation scanner.
//!
//! The library holds the verified logic of the scanner: parsing credential
//! lists into a working set, selecting the transport mode for a run, the
//! per-target worker state machine, and the shared tally of successes.
//! Network connections, authentication handshakes and file output are left
//! to the surrounding binary, which feeds this library plain values.

pub mod creds;
mod rng;
pub mod transport;
pub mod scan;
pub mod tally;
pub mod worker;
