//! View models for the rendered pages and fragments.
//!
//! Rendering to markup is the embedding application's concern; these types
//! carry exactly the values a rendering needs — the CSRF token to embed in
//! forms, the field values, and the per-field validation errors.

pub mod authentication;
pub mod dashboard;
pub mod dashboard_template;
pub mod message;
pub mod message_template;
pub mod messages;
pub mod toast;
