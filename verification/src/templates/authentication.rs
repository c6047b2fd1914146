//! The authentication page's view models: the login and registration forms
//! and their two fields, each carrying its value and validation error.

use vstd::prelude::*;

verus! {

/// The name form field.
#[derive(Debug)]
pub struct AuthenticationFormNameTemplate {
    pub token: String,
    pub validation: bool,
    pub value: String,
    pub error: Option<&'static str>,
}

impl AuthenticationFormNameTemplate {
    /// An empty field; `validation` says whether the form checks it live.
    pub fn new(token: String, validation: bool) -> (t: Self)
        ensures
            t.token == token,
            t.validation == validation,
            t.value@ == Seq::<char>::empty(),
            t.error is None,
    {
        Self { token, validation, value: String::new(), error: None }
    }

    /// The same field carrying an entered value and a validation outcome.
    pub fn validate(self, value: String, error: Option<&'static str>) -> (t: Self)
        ensures
            t.token == self.token,
            t.validation == self.validation,
            t.value == value,
            t.error == error,
    {
        Self { value, error, ..self }
    }
}

/// The password form field.
#[derive(Debug)]
pub struct AuthenticationFormPasswordTemplate {
    pub token: String,
    pub validation: bool,
    pub value: String,
    pub error: Option<&'static str>,
}

impl AuthenticationFormPasswordTemplate {
    /// An empty field; `validation` says whether the form checks it live.
    pub fn new(token: String, validation: bool) -> (t: Self)
        ensures
            t.token == token,
            t.validation == validation,
            t.value@ == Seq::<char>::empty(),
            t.error is None,
    {
        Self { token, validation, value: String::new(), error: None }
    }

    /// The same field carrying an entered value and a validation outcome.
    pub fn validate(self, value: String, error: Option<&'static str>) -> (t: Self)
        ensures
            t.token == self.token,
            t.validation == self.validation,
            t.value == value,
            t.error == error,
    {
        Self { value, error, ..self }
    }
}

/// The login form: both fields, and whether the last attempt failed.
#[derive(Debug)]
pub struct AuthenticationLoginFormTemplate {
    pub token: String,
    pub form_name: AuthenticationFormNameTemplate,
    pub form_password: AuthenticationFormPasswordTemplate,
    pub error: bool,
}

impl AuthenticationLoginFormTemplate {
    /// A fresh login form; its fields do not validate live.
    pub fn new(token: String, error: bool) -> (t: Self)
        ensures
            t.token == token,
            t.error == error,
            t.form_name.token == token,
            !t.form_name.validation,
            t.form_name.value@ == Seq::<char>::empty(),
            t.form_name.error is None,
            t.form_password.token == token,
            !t.form_password.validation,
            t.form_password.value@ == Seq::<char>::empty(),
            t.form_password.error is None,
    {
        Self {
            token: token.clone(),
            form_name: AuthenticationFormNameTemplate::new(token.clone(), false),
            form_password: AuthenticationFormPasswordTemplate::new(token, false),
            error,
        }
    }

    /// The same form with one validation outcome shown on both fields.
    pub fn validate(self, error: Option<&'static str>) -> (t: Self)
        ensures
            t.token == self.token,
            t.error == self.error,
            t.form_name.token == self.form_name.token,
            t.form_name.value@ == Seq::<char>::empty(),
            t.form_name.error == error,
            t.form_password.token == self.form_password.token,
            t.form_password.value@ == Seq::<char>::empty(),
            t.form_password.error == error,
    {
        let form_name = self.form_name.validate(String::new(), error);
        let form_password = self.form_password.validate(String::new(), error);
        Self { form_name, form_password, ..self }
    }
}

/// The registration form: both fields, validating live.
#[derive(Debug)]
pub struct AuthenticationRegisterFormTemplate {
    pub token: String,
    pub form_name: AuthenticationFormNameTemplate,
    pub form_password: AuthenticationFormPasswordTemplate,
}

impl AuthenticationRegisterFormTemplate {
    /// A fresh registration form; its fields validate live.
    pub fn new(token: String) -> (t: Self)
        ensures
            t.token == token,
            t.form_name.token == token,
            t.form_name.validation,
            t.form_name.value@ == Seq::<char>::empty(),
            t.form_name.error is None,
            t.form_password.token == token,
            t.form_password.validation,
            t.form_password.value@ == Seq::<char>::empty(),
            t.form_password.error is None,
    {
        Self {
            token: token.clone(),
            form_name: AuthenticationFormNameTemplate::new(token.clone(), true),
            form_password: AuthenticationFormPasswordTemplate::new(token, true),
        }
    }
}

/// The authentication page: the login and registration forms side by side.
#[derive(Debug)]
pub struct AuthenticationTemplate {
    pub token: String,
    pub location: &'static str,
    pub name: Option<String>,
    pub login_form: AuthenticationLoginFormTemplate,
    pub register_form: AuthenticationRegisterFormTemplate,
}

impl AuthenticationTemplate {
    /// The page for a visitor who is not signed in.
    pub fn new(token: String) -> (t: Self)
        ensures
            t.token == token,
            t.location@ == "Authentication"@,
            t.name is None,
            t.login_form.token == token,
            !t.login_form.error,
            t.register_form.token == token,
    {
        Self {
            token: token.clone(),
            location: "Authentication",
            name: None,
            login_form: AuthenticationLoginFormTemplate::new(token.clone(), false),
            register_form: AuthenticationRegisterFormTemplate::new(token),
        }
    }
}

} // verus!
