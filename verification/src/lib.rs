//! A periodic CO2-monitoring notifier, as a verified library.
//!
//! The library holds the decision-making core of the monitor: resolving and
//! validating configuration, interpreting the sensor platform's response,
//! extracting the first matching measurement field, deciding whether the
//! reading exceeds the configured threshold, and building the exact request
//! bodies for the two outbound calls. The surrounding process (file reading,
//! HTTP) stays outside and hands the library plain values.

pub mod config;
pub mod document;
pub mod escape;
pub mod fetch;
pub mod jsonval;
pub mod measurement;
pub mod notify;
pub mod pipeline;
pub mod ppm;
pub mod text;
pub mod yamlval;
