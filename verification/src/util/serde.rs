//! The values behind the optional date-time fields of the JSON bodies.

pub mod iso8601;
pub mod opt_iso8601;
pub mod opt_timestamp;
