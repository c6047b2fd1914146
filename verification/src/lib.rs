//! A small message board core: the live-update notification subsystem
//! (an in-memory broadcast bus with bounded per-subscriber queues) composed
//! with the security gating pipeline (session authentication and CSRF token
//! issuance/verification) that every mutating request passes through before
//! it may publish an event.

pub mod bus;
pub mod coordinator;
pub mod gate;
pub mod models;
pub mod session;
pub mod stream;
pub mod templates;
pub mod wire;
