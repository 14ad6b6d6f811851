//! Display records for the macOS monitor adapter.
//!
//! The platform layer queries the operating system for connected displays
//! and hands the raw answers (identifiers, bounds, names, flags) to this
//! crate as plain values. Everything that can be decided from those values
//! alone lives here, with a contract: populating the monitor record,
//! resolving a monitor's human-readable name, building the screen-name
//! lookup table, selecting a display from a point query's answer, keeping
//! the monitors that could be constructed, and repacking a captured
//! frame's pixel bytes.

pub mod error;
pub mod monitor;
pub mod name;
pub mod pixels;
pub mod select;
