//! Polls a monitoring service for the live status of its monitors and keeps
//! the exported gauge series in step with what the service reports.

pub mod api_communication;
pub mod args;
pub mod decode;
pub mod json;
pub mod laws;
pub mod metrics;
pub mod parsing;
pub mod series;
pub mod site24x7_types;
pub mod text;
pub mod web_service;
pub mod zoho_types;
