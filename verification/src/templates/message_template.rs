//! The single-message page's view model.

use vstd::prelude::*;

use crate::models::message::MessageModel;

verus! {

/// One message, ready to render.
#[derive(Debug)]
pub struct MessageTemplate {
    pub message: MessageModel,
}

} // verus!
