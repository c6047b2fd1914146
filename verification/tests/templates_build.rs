//! The view models: constructors set exactly the advertised fields.

use liveboard::models::message::MessageModel;
use liveboard::templates::authentication::{
    AuthenticationFormNameTemplate, AuthenticationFormPasswordTemplate,
    AuthenticationLoginFormTemplate, AuthenticationRegisterFormTemplate, AuthenticationTemplate,
};
use liveboard::templates::dashboard::DashboardTemplate;
use liveboard::templates::message::{
    MessageEventTemplate, MessageFormContentTemplate, MessageFormTitleTemplate,
    MessageIndexTemplate, MessageShowTemplate,
};
use liveboard::templates::toast::ToastTemplate;

#[test]
fn a_toast_carries_its_line() {
    let toast = ToastTemplate::new("Message #7 sent.".to_string());
    assert_eq!(toast.message, "Message #7 sent.");
}

#[test]
fn the_show_page_spreads_its_fields_into_both_forms() {
    let t = MessageShowTemplate::new(
        "7.9".to_string(),
        3,
        "hello".to_string(),
        "world".to_string(),
    );
    assert_eq!(t.token, "7.9");
    assert_eq!(t.id, 3);
    assert_eq!(t.form_title.value, "hello");
    assert_eq!(t.form_title.id, 3);
    assert!(t.form_title.error.is_none());
    assert_eq!(t.form_content.value, "world");
    assert!(t.form_content.error.is_none());
}

#[test]
fn message_form_fields_take_a_validation_outcome() {
    let field = MessageFormTitleTemplate::new("t".to_string(), 1, "x".to_string());
    let field = field.validate(Some("Title must be at least 1 character long."));
    assert_eq!(field.value, "x");
    assert_eq!(field.error, Some("Title must be at least 1 character long."));
    let field = MessageFormContentTemplate::new("t".to_string(), 1, "y".to_string());
    let field = field.validate(None);
    assert!(field.error.is_none());
}

#[test]
fn the_index_and_event_fragments_carry_their_messages() {
    let m = MessageModel {
        id: Some(1),
        title: "hello".to_string(),
        content: "world".to_string(),
    };
    let index = MessageIndexTemplate::new("t".to_string(), vec![m]);
    assert_eq!(index.messages.len(), 1);
    assert_eq!(index.messages[0].title, "hello");
    let m = MessageModel {
        id: Some(2),
        title: "a".to_string(),
        content: "b".to_string(),
    };
    let event = MessageEventTemplate::new("t".to_string(), m);
    assert_eq!(event.message.content, "b");
}

#[test]
fn the_authentication_page_builds_both_forms() {
    let page = AuthenticationTemplate::new("tok".to_string());
    assert_eq!(page.location, "Authentication");
    assert!(page.name.is_none());
    assert!(!page.login_form.error);
    assert!(!page.login_form.form_name.validation);
    assert!(page.register_form.form_name.validation);
    assert_eq!(page.register_form.token, "tok");
}

#[test]
fn the_login_form_shows_one_error_on_both_fields() {
    let form = AuthenticationLoginFormTemplate::new("tok".to_string(), true);
    assert!(form.error);
    let form = form.validate(Some("Unauthorized."));
    assert_eq!(form.form_name.error, Some("Unauthorized."));
    assert_eq!(form.form_password.error, Some("Unauthorized."));
    assert_eq!(form.form_name.value, "");
}

#[test]
fn the_auth_fields_keep_their_entered_values() {
    let field = AuthenticationFormNameTemplate::new("tok".to_string(), true);
    let field = field.validate("alice".to_string(), Some("Name already taken."));
    assert_eq!(field.value, "alice");
    assert_eq!(field.error, Some("Name already taken."));
    let field = AuthenticationFormPasswordTemplate::new("tok".to_string(), false);
    let field = field.validate("pw".to_string(), None);
    assert_eq!(field.value, "pw");
    assert!(field.error.is_none());
    let form = AuthenticationRegisterFormTemplate::new("tok".to_string());
    assert!(form.form_password.validation);
}

#[test]
fn the_dashboard_greets_the_signed_in_user() {
    let d = DashboardTemplate::new("tok".to_string(), "alice".to_string());
    assert_eq!(d.location, "Dashboard");
    assert_eq!(d.name.as_deref(), Some("alice"));
    assert_eq!(d.message_form_title.id, 0);
    assert_eq!(d.message_form_title.value, "");
    assert_eq!(d.message_form_content.value, "");
}
