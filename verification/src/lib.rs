//! A URL shortener's core: configuration, short-url entities, slug
//! generation and the decisions behind each HTTP route, with contracts
//! proved by Verus.

pub mod config;
pub mod datetime;
pub mod util;
pub mod entity;
pub mod router;
