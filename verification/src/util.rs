//! Helpers shared by the routes.

pub mod serde;
