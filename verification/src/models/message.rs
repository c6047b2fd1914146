//! The message record and its field validation.
//!
//! A message has a title and a content field, both non-empty and bounded in
//! length. Validation never touches the store or the bus: it is a pure
//! function from the field values to an optional per-field error message.

use vstd::prelude::*;

verus! {

/// One short message: the resource this board creates, edits and deletes.
#[derive(Clone, Debug)]
pub struct MessageModel {
    pub id: Option<i32>,
    pub title: String,
    pub content: String,
}

/// Per-field validation errors, `None` for a field that passed.
#[derive(Clone, Debug)]
pub struct MessageModelError {
    pub title: Option<&'static str>,
    pub content: Option<&'static str>,
}

/// The longest title accepted, in characters.
pub const TITLE_MAX: usize = 100;

/// The longest content accepted, in characters.
pub const CONTENT_MAX: usize = 100;

/// What `validate_title` reports for a given title.
pub open spec fn spec_validate_title(title: Seq<char>) -> Option<Seq<char>> {
    if title.len() == 0 {
        Some("Title must be at least 1 character long."@)
    } else if title.len() > TITLE_MAX {
        Some("Title must not be more than 100 characters long."@)
    } else {
        None
    }
}

/// What `validate_content` reports for a given content.
pub open spec fn spec_validate_content(content: Seq<char>) -> Option<Seq<char>> {
    if content.len() == 0 {
        Some("Content must be at least 1 character long."@)
    } else if content.len() > CONTENT_MAX {
        Some("Content must not be more than 1000 characters long."@)
    } else {
        None
    }
}

impl MessageModel {
    /// A title is rejected exactly when it is empty or longer than
    /// `TITLE_MAX` characters.
    pub fn validate_title(title: &str) -> (r: Option<&'static str>)
        ensures
            r.deep_view() == spec_validate_title(title@),
    {
        if title.unicode_len() == 0 {
            Some("Title must be at least 1 character long.")
        } else if title.unicode_len() > TITLE_MAX {
            Some("Title must not be more than 100 characters long.")
        } else {
            None
        }
    }

    /// A content is rejected exactly when it is empty or longer than
    /// `CONTENT_MAX` characters.
    pub fn validate_content(content: &str) -> (r: Option<&'static str>)
        ensures
            r.deep_view() == spec_validate_content(content@),
    {
        if content.unicode_len() == 0 {
            Some("Content must be at least 1 character long.")
        } else if content.unicode_len() > CONTENT_MAX {
            Some("Content must not be more than 1000 characters long.")
        } else {
            None
        }
    }

    /// A message is rejected exactly when one of its fields is; the error
    /// then carries each failing field's message and `None` for the other.
    pub fn validate(message: &Self) -> (r: Option<MessageModelError>)
        ensures
            match r {
                Some(e) => {
                    &&& (spec_validate_title(message.title@) is Some
                        || spec_validate_content(message.content@) is Some)
                    &&& e.title.deep_view() == spec_validate_title(message.title@)
                    &&& e.content.deep_view() == spec_validate_content(message.content@)
                },
                None => {
                    &&& spec_validate_title(message.title@) is None
                    &&& spec_validate_content(message.content@) is None
                },
            },
    {
        let title = Self::validate_title(message.title.as_str());
        let content = Self::validate_content(message.content.as_str());
        if title.is_some() || content.is_some() {
            Some(MessageModelError { title, content })
        } else {
            None
        }
    }
}

} // verus!
