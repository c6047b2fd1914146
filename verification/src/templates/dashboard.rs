//! The dashboard page's view model: who is signed in, and the empty message
//! form to compose with.

use vstd::prelude::*;

use crate::templates::message::{MessageFormContentTemplate, MessageFormTitleTemplate};

verus! {

/// The dashboard for a signed-in user.
#[derive(Debug)]
pub struct DashboardTemplate {
    pub token: String,
    pub location: &'static str,
    pub name: Option<String>,
    pub message_form_title: MessageFormTitleTemplate,
    pub message_form_content: MessageFormContentTemplate,
}

impl DashboardTemplate {
    /// The dashboard greeting `name`, with an empty compose form.
    pub fn new(token: String, name: String) -> (t: Self)
        ensures
            t.token == token,
            t.location@ == "Dashboard"@,
            t.name == Some(name),
            t.message_form_title.token == token,
            t.message_form_title.id == 0,
            t.message_form_title.value@ == Seq::<char>::empty(),
            t.message_form_title.error is None,
            t.message_form_content.token == token,
            t.message_form_content.id == 0,
            t.message_form_content.value@ == Seq::<char>::empty(),
            t.message_form_content.error is None,
    {
        Self {
            token: token.clone(),
            location: "Dashboard",
            name: Some(name),
            message_form_title: MessageFormTitleTemplate::new(token.clone(), 0, String::new()),
            message_form_content: MessageFormContentTemplate::new(token, 0, String::new()),
        }
    }
}

} // verus!
