//! Service configuration.

pub mod database;
pub mod env;
