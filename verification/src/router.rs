//! The routes of the service: slug generation and the decisions behind
//! each short-url handler.

pub mod short_url_service;
pub mod slug;
