//! Domain records and their field validation rules.

pub mod message;
pub mod user;
