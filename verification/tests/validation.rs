//! Field validation: exact messages and the length boundaries.

use liveboard::models::message::MessageModel;
use liveboard::models::user::UserModel;

#[test]
fn titles_must_be_non_empty_and_bounded() {
    assert_eq!(
        MessageModel::validate_title(""),
        Some("Title must be at least 1 character long.")
    );
    assert_eq!(MessageModel::validate_title("a"), None);
    assert_eq!(MessageModel::validate_title(&"x".repeat(100)), None);
    assert_eq!(
        MessageModel::validate_title(&"x".repeat(101)),
        Some("Title must not be more than 100 characters long.")
    );
}

#[test]
fn contents_must_be_non_empty_and_bounded() {
    assert_eq!(
        MessageModel::validate_content(""),
        Some("Content must be at least 1 character long.")
    );
    assert_eq!(MessageModel::validate_content("b"), None);
    assert_eq!(MessageModel::validate_content(&"y".repeat(100)), None);
    assert_eq!(
        MessageModel::validate_content(&"y".repeat(101)),
        Some("Content must not be more than 1000 characters long.")
    );
}

#[test]
fn a_message_is_valid_exactly_when_both_fields_are() {
    let ok = MessageModel {
        id: None,
        title: "hello".to_string(),
        content: "world".to_string(),
    };
    assert!(MessageModel::validate(&ok).is_none());
    let broken = MessageModel {
        id: None,
        title: "".to_string(),
        content: "".to_string(),
    };
    let e = MessageModel::validate(&broken).expect("both fields fail");
    assert_eq!(e.title, Some("Title must be at least 1 character long."));
    assert_eq!(e.content, Some("Content must be at least 1 character long."));
    let half = MessageModel {
        id: None,
        title: "hello".to_string(),
        content: "".to_string(),
    };
    let e = MessageModel::validate(&half).expect("one field fails");
    assert_eq!(e.title, None);
    assert_eq!(e.content, Some("Content must be at least 1 character long."));
}

#[test]
fn passwords_must_be_at_least_eight_characters() {
    assert_eq!(
        UserModel::validate_password("1234567"),
        Some("Password must be at least 8 characters long.")
    );
    assert_eq!(UserModel::validate_password("12345678"), None);
}

#[test]
fn names_are_checked_for_format_before_the_lookup() {
    assert_eq!(
        UserModel::validate_name("", Some(false)),
        Some("Name must be at least 1 character long.")
    );
    assert_eq!(
        UserModel::validate_name(&"n".repeat(101), Some(false)),
        Some("Name must not be more than 50 characters long.")
    );
    assert_eq!(UserModel::validate_name("alice", Some(false)), None);
    assert_eq!(
        UserModel::validate_name("alice", Some(true)),
        Some("Name already taken.")
    );
    assert_eq!(
        UserModel::validate_name("alice", None),
        Some("Internal server error.")
    );
    // A malformed name never consults the lookup's answer.
    assert_eq!(
        UserModel::validate_name("", None),
        Some("Name must be at least 1 character long.")
    );
}

#[test]
fn a_user_is_valid_exactly_when_both_fields_are() {
    let user = UserModel {
        name: "alice".to_string(),
        password: "longenough".to_string(),
    };
    assert!(UserModel::validate(&user, Some(false)).is_none());
    let e = UserModel::validate(&user, Some(true)).expect("a taken name fails");
    assert_eq!(e.name, Some("Name already taken."));
    assert_eq!(e.password, None);
    let weak = UserModel {
        name: "alice".to_string(),
        password: "short".to_string(),
    };
    let e = UserModel::validate(&weak, Some(false)).expect("a weak password fails");
    assert_eq!(e.name, None);
    assert_eq!(e.password, Some("Password must be at least 8 characters long."));
}
