//! The plain dashboard page's view model.

use vstd::prelude::*;

use crate::models::message::MessageModel;

verus! {

/// The message list the dashboard renders.
#[derive(Debug)]
pub struct DashboardTemplate {
    pub messages: Vec<MessageModel>,
}

} // verus!
