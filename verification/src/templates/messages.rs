//! The message list fragment's view model.

use vstd::prelude::*;

use crate::models::message::MessageModel;

verus! {

/// The message list with the token its forms embed.
#[derive(Debug)]
pub struct MessagesTemplate {
    pub token: String,
    pub messages: Vec<MessageModel>,
}

} // verus!
