//! The user record and its field validation.
//!
//! Checking whether a name is already taken needs the external credential
//! store; the lookup's answer is therefore an argument here (`Some(true)` for
//! a taken name, `Some(false)` for a free one, `None` when the store could
//! not answer), and the format checks run before it is consulted.

use vstd::prelude::*;

verus! {

/// One account: a name and a password (hashed before it reaches the store).
#[derive(Clone, Debug)]
pub struct UserModel {
    pub name: String,
    pub password: String,
}

/// Per-field validation errors, `None` for a field that passed.
#[derive(Clone, Debug)]
pub struct UserModelError {
    pub name: Option<&'static str>,
    pub password: Option<&'static str>,
}

/// The longest name accepted, in characters.
pub const NAME_MAX: usize = 100;

/// The shortest password accepted, in characters.
pub const PASSWORD_MIN: usize = 8;

/// What `validate_name` reports for a given name and lookup answer.
pub open spec fn spec_validate_name(name: Seq<char>, lookup: Option<bool>) -> Option<Seq<char>> {
    if name.len() == 0 {
        Some("Name must be at least 1 character long."@)
    } else if name.len() > NAME_MAX {
        Some("Name must not be more than 50 characters long."@)
    } else {
        match lookup {
            Some(true) => Some("Name already taken."@),
            Some(false) => None,
            None => Some("Internal server error."@),
        }
    }
}

/// What `validate_password` reports for a given password.
pub open spec fn spec_validate_password(password: Seq<char>) -> Option<Seq<char>> {
    if password.len() < PASSWORD_MIN {
        Some("Password must be at least 8 characters long."@)
    } else {
        None
    }
}

impl UserModel {
    /// A name is rejected exactly when it is empty, longer than `NAME_MAX`
    /// characters, already taken, or when the store could not be asked.
    pub fn validate_name(name: &str, lookup: Option<bool>) -> (r: Option<&'static str>)
        ensures
            r.deep_view() == spec_validate_name(name@, lookup),
    {
        if name.unicode_len() == 0 {
            return Some("Name must be at least 1 character long.");
        }
        if name.unicode_len() > NAME_MAX {
            return Some("Name must not be more than 50 characters long.");
        }
        match lookup {
            Some(true) => Some("Name already taken."),
            Some(false) => None,
            None => Some("Internal server error."),
        }
    }

    /// A password is rejected exactly when it is shorter than `PASSWORD_MIN`
    /// characters.
    pub fn validate_password(password: &str) -> (r: Option<&'static str>)
        ensures
            r.deep_view() == spec_validate_password(password@),
    {
        if password.unicode_len() < PASSWORD_MIN {
            Some("Password must be at least 8 characters long.")
        } else {
            None
        }
    }

    /// A user is rejected exactly when one of its fields is; the error then
    /// carries each failing field's message and `None` for the other.
    pub fn validate(user: &Self, lookup: Option<bool>) -> (r: Option<UserModelError>)
        ensures
            match r {
                Some(e) => {
                    &&& (spec_validate_name(user.name@, lookup) is Some
                        || spec_validate_password(user.password@) is Some)
                    &&& e.name.deep_view() == spec_validate_name(user.name@, lookup)
                    &&& e.password.deep_view() == spec_validate_password(user.password@)
                },
                None => {
                    &&& spec_validate_name(user.name@, lookup) is None
                    &&& spec_validate_password(user.password@) is None
                },
            },
    {
        let name = Self::validate_name(user.name.as_str(), lookup);
        let password = Self::validate_password(user.password.as_str());
        if name.is_some() || password.is_some() {
            Some(UserModelError { name, password })
        } else {
            None
        }
    }
}

} // verus!
