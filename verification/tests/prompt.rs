use greeter::login_manager::LoginResult;
use greeter::prompt::{
    delivery, other_entry_id, outcome_message, user_entry, Credentials, Delivery, Entry, Model,
    Msg, Selection, UserRecord, SETTLE_MILLIS,
};

fn record(user_name: Option<&str>, real_name: Option<&str>) -> UserRecord {
    UserRecord {
        user_name: user_name.map(|text| text.to_string()),
        real_name: real_name.map(|text| text.to_string()),
    }
}

fn entry(id: &str, display: &str) -> Entry {
    Entry { id: id.to_string(), display: display.to_string() }
}

fn filled(selected: &str, username: &str, password: &str) -> Model {
    let mut model = Model::new(None);
    assert_eq!(model.update(Msg::OnSelectionChanged(Selection::Row(selected.to_string()))), None);
    assert_eq!(model.update(Msg::OnUsernameChange(username.to_string())), None);
    assert_eq!(model.update(Msg::OnPasswordChange(password.to_string())), None);
    model
}

#[test]
fn new_form_is_empty() {
    let model = Model::new(None);
    assert_eq!(model.username, "");
    assert_eq!(model.password, "");
    assert_eq!(model.selected_user, "");
    assert_eq!(model.info_msg, "");
    assert!(!model.is_submitting);
    assert!(!model.other_login);
    assert!(model.cached_users.is_empty());
}

#[test]
fn new_form_keeps_the_listing() {
    let listing = vec![record(Some("alice"), Some("Alice A."))];
    let model = Model::new(Some(listing.clone()));
    assert_eq!(model.cached_users, listing);
}

#[test]
fn account_list_of_a_failed_listing_offers_only_other() {
    assert_eq!(Model::new(None).user_entries(), vec![entry("*other", "Other...")]);
    assert_eq!(Model::new(Some(vec![])).user_entries(), vec![entry("*other", "Other...")]);
    assert_eq!(other_entry_id(), "*other");
}

#[test]
fn account_list_shows_real_names_and_skips_incomplete_records() {
    let model = Model::new(Some(vec![
        record(Some("alice"), Some("Alice A.")),
        record(None, Some("Nobody")),
        record(Some("bob"), Some("")),
        record(Some("carol"), None),
        record(Some("dave"), Some("Dave D.")),
    ]));
    assert_eq!(
        model.user_entries(),
        vec![
            entry("alice", "Alice A."),
            entry("bob", "bob"),
            entry("dave", "Dave D."),
            entry("*other", "Other..."),
        ]
    );
}

#[test]
fn user_entry_of_one_record() {
    assert_eq!(user_entry(&record(Some("alice"), Some("Alice"))), Some(entry("alice", "Alice")));
    assert_eq!(user_entry(&record(Some("alice"), Some(""))), Some(entry("alice", "alice")));
    assert_eq!(user_entry(&record(Some("alice"), None)), None);
    assert_eq!(user_entry(&record(None, Some("Alice"))), None);
    assert_eq!(user_entry(&record(None, None)), None);
}

#[test]
fn field_changes_are_taken_over() {
    let mut model = Model::new(None);
    assert_eq!(model.update(Msg::OnUsernameChange("al".to_string())), None);
    assert_eq!(model.update(Msg::OnPasswordChange("pw".to_string())), None);
    assert_eq!(model.username, "al");
    assert_eq!(model.password, "pw");
    assert_eq!(model.info_msg, "");
}

#[test]
fn submit_with_selected_account_starts_an_attempt() {
    let mut model = filled("alice", "ignored", "secret");
    model.info_msg = "old message".to_string();
    let attempt = model.update(Msg::OnSubmit);
    assert_eq!(
        attempt,
        Some(Credentials { username: "alice".to_string(), password: "secret".to_string() })
    );
    assert!(model.is_submitting);
    assert_eq!(model.info_msg, "");
    assert_eq!(model.password, "secret");
}

#[test]
fn submit_with_other_account_uses_the_typed_name() {
    let mut model = filled("*other", "mallory", "secret");
    assert!(model.other_login);
    assert_eq!(model.login_name(), "mallory");
    assert_eq!(
        model.update(Msg::OnSubmit),
        Some(Credentials { username: "mallory".to_string(), password: "secret".to_string() })
    );
}

#[test]
fn submit_without_typed_name_asks_for_it() {
    let mut model = filled("*other", "", "secret");
    assert_eq!(model.update(Msg::OnSubmit), None);
    assert_eq!(model.info_msg, "Enter your username");
    assert!(!model.is_submitting);
    let mut model = filled("*other", "", "");
    assert_eq!(model.update(Msg::OnSubmit), None);
    assert_eq!(model.info_msg, "Enter your username");
}

#[test]
fn submit_without_password_asks_for_it() {
    let mut model = filled("alice", "", "");
    assert_eq!(model.update(Msg::OnSubmit), None);
    assert_eq!(model.info_msg, "Enter your password");
    assert!(!model.is_submitting);
    let mut model = filled("*other", "mallory", "");
    assert_eq!(model.update(Msg::OnSubmit), None);
    assert_eq!(model.info_msg, "Enter your password");
}

#[test]
fn submit_and_cancel_are_ignored_while_submitting() {
    let mut model = filled("alice", "", "secret");
    assert!(model.update(Msg::OnSubmit).is_some());
    let during = model.clone();
    assert_eq!(model.update(Msg::OnSubmit), None);
    assert_eq!(model, during);
    assert_eq!(model.update(Msg::OnCancel), None);
    assert_eq!(model, during);
}

#[test]
fn cancel_wipes_what_was_typed() {
    let mut model = filled("alice", "al", "secret");
    model.info_msg = "Login failed".to_string();
    assert_eq!(model.update(Msg::OnCancel), None);
    assert_eq!(model.username, "");
    assert_eq!(model.password, "");
    assert_eq!(model.info_msg, "");
    assert_eq!(model.selected_user, "alice");
}

#[test]
fn outcome_ends_the_attempt_and_shows_its_message() {
    let mut model = filled("alice", "", "secret");
    assert!(model.update(Msg::OnSubmit).is_some());
    assert_eq!(model.update(Msg::OnLoginFail("Login failed".to_string())), None);
    assert!(!model.is_submitting);
    assert_eq!(model.info_msg, "Login failed");
    assert!(model.update(Msg::OnSubmit).is_some());
    assert_eq!(model.update(Msg::OnLoginSuccess("2authmsg1: x , Info".to_string())), None);
    assert!(!model.is_submitting);
    assert_eq!(model.info_msg, "2authmsg1: x , Info");
}

#[test]
fn selection_wipes_fields_and_sets_the_account() {
    let mut model = filled("*other", "mallory", "secret");
    model.info_msg = "Enter your password".to_string();
    assert_eq!(model.update(Msg::OnSelectionChanged(Selection::Row("alice".to_string()))), None);
    assert_eq!(model.selected_user, "alice");
    assert!(!model.other_login);
    assert_eq!(model.username, "");
    assert_eq!(model.password, "");
    assert_eq!(model.info_msg, "");
    assert_eq!(model.login_name(), "alice");
}

#[test]
fn empty_selection_clears_the_account_only() {
    let mut model = filled("*other", "mallory", "secret");
    assert_eq!(model.update(Msg::OnSelectionChanged(Selection::Nothing)), None);
    assert_eq!(model.selected_user, "");
    assert!(model.other_login);
    assert_eq!(model.username, "");
    assert_eq!(model.password, "");
}

#[test]
fn unreadable_selection_keeps_the_account() {
    let mut model = filled("alice", "x", "secret");
    assert_eq!(model.update(Msg::OnSelectionChanged(Selection::Unreadable)), None);
    assert_eq!(model.selected_user, "alice");
    assert!(!model.other_login);
    assert_eq!(model.username, "");
    assert_eq!(model.password, "");
}

#[test]
fn clear_fields_keeps_selection_and_flags() {
    let mut model = filled("*other", "mallory", "secret");
    model.info_msg = "note".to_string();
    model.clear_fields();
    assert_eq!(model.username, "");
    assert_eq!(model.password, "");
    assert_eq!(model.info_msg, "");
    assert_eq!(model.selected_user, "*other");
    assert!(model.other_login);
}

#[test]
fn outcome_message_maps_both_outcomes() {
    assert_eq!(
        outcome_message(LoginResult::Succuessful("hello".to_string())),
        Msg::OnLoginSuccess("hello".to_string())
    );
    assert_eq!(
        outcome_message(LoginResult::Failure("Login failed".to_string())),
        Msg::OnLoginFail("Login failed".to_string())
    );
}

#[test]
fn delivery_waits_one_second() {
    assert_eq!(SETTLE_MILLIS, 1000);
    assert_eq!(
        delivery(LoginResult::Failure("Login failed".to_string())),
        Delivery { delay_millis: 1000, message: Msg::OnLoginFail("Login failed".to_string()) }
    );
}
