//! Client logic for a solar-inverter gateway that is exported as metrics:
//! the session token cache, the two-step authentication exchange, the
//! classification of device responses, the selection of readings, and the
//! metric store that every scrape writes into.
//!
//! Readings travel as the IEEE-754 bit patterns of the device's numbers
//! (`f64::to_bits`), so that the library deals in integers only.

pub mod error;
pub mod http;
pub mod client;
pub mod token;
pub mod readings;
pub mod metrics;
