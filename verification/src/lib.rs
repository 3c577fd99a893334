/// Character-level text helpers: white space, trimming, substrings, numbers.
pub mod text;

/// The drill file and the rules it must meet.
pub mod config;

/// Command results and the verdict of each kind of recovery check.
pub mod checks;

/// The drill as a state machine, from confirmation to cleanup.
pub mod drill;

/// What an attestation records, and its ids, fingerprint and timestamps.
pub mod attestation;

/// The drill file of the bundled demo.
pub mod demo;
