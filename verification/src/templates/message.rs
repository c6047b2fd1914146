//! The message fragments' view models: the show page, the list, the event
//! fragment pushed over the stream, and the two form fields with their
//! validation errors.

use vstd::prelude::*;

use crate::models::message::MessageModel;

verus! {

/// The title form field of one message.
#[derive(Debug)]
pub struct MessageFormTitleTemplate {
    pub token: String,
    pub id: i32,
    pub value: String,
    pub error: Option<&'static str>,
}

impl MessageFormTitleTemplate {
    /// A field with no error yet.
    pub fn new(token: String, id: i32, value: String) -> (t: Self)
        ensures
            t.token == token,
            t.id == id,
            t.value == value,
            t.error is None,
    {
        Self { token, id, value, error: None }
    }

    /// The same field carrying a validation outcome.
    pub fn validate(self, error: Option<&'static str>) -> (t: Self)
        ensures
            t.token == self.token,
            t.id == self.id,
            t.value == self.value,
            t.error == error,
    {
        Self { error, ..self }
    }
}

/// The content form field of one message.
#[derive(Debug)]
pub struct MessageFormContentTemplate {
    pub token: String,
    pub id: i32,
    pub value: String,
    pub error: Option<&'static str>,
}

impl MessageFormContentTemplate {
    /// A field with no error yet.
    pub fn new(token: String, id: i32, value: String) -> (t: Self)
        ensures
            t.token == token,
            t.id == id,
            t.value == value,
            t.error is None,
    {
        Self { token, id, value, error: None }
    }

    /// The same field carrying a validation outcome.
    pub fn validate(self, error: Option<&'static str>) -> (t: Self)
        ensures
            t.token == self.token,
            t.id == self.id,
            t.value == self.value,
            t.error == error,
    {
        Self { error, ..self }
    }
}

/// The show page of one message: its two form fields, editable in place.
#[derive(Debug)]
pub struct MessageShowTemplate {
    pub token: String,
    pub id: i32,
    pub form_title: MessageFormTitleTemplate,
    pub form_content: MessageFormContentTemplate,
}

impl MessageShowTemplate {
    /// The show page for one message's current fields, with no errors.
    pub fn new(token: String, id: i32, title: String, content: String) -> (t: Self)
        ensures
            t.token == token,
            t.id == id,
            t.form_title.token == token,
            t.form_title.id == id,
            t.form_title.value == title,
            t.form_title.error is None,
            t.form_content.token == token,
            t.form_content.id == id,
            t.form_content.value == content,
            t.form_content.error is None,
    {
        Self {
            token: token.clone(),
            id,
            form_title: MessageFormTitleTemplate::new(token.clone(), id, title),
            form_content: MessageFormContentTemplate::new(token, id, content),
        }
    }
}

/// The message list with the token its forms embed.
#[derive(Debug)]
pub struct MessageIndexTemplate {
    pub token: String,
    pub messages: Vec<MessageModel>,
}

impl MessageIndexTemplate {
    /// The list page over the given messages.
    pub fn new(token: String, messages: Vec<MessageModel>) -> (t: Self)
        ensures
            t.token == token,
            t.messages == messages,
    {
        Self { token, messages }
    }
}

/// The fragment pushed to a stream subscriber for one changed message.
#[derive(Debug)]
pub struct MessageEventTemplate {
    pub token: String,
    pub message: MessageModel,
}

impl MessageEventTemplate {
    /// The event fragment for one message snapshot.
    pub fn new(token: String, message: MessageModel) -> (t: Self)
        ensures
            t.token == token,
            t.message == message,
    {
        Self { token, message }
    }
}

} // verus!
