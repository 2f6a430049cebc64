//! A coverage-map decorator that fingerprints the map around each execution
//! and flags runs whose instrumentation recorded nothing.

pub mod settings;
pub mod fingerprint;
pub mod report;
pub mod coverage_map;
pub mod count_class;
pub mod maphash;
