use uuid::Uuid;
use zero2prod::routes::admin::dashboard::{admin_dashboard, DashboardAction};
use zero2prod::routes::admin::newsletters::publish_newsletter_form;
use zero2prod::routes::admin::password::change_password_form;
use zero2prod::routes::{error_chain_fmt, frame_lines};

#[test]
fn error_chain_lists_every_cause() {
    let causes = vec!["query failed".to_string(), "connection reset".to_string()];
    assert_eq!(
        error_chain_fmt("could not store", &causes),
        "could not store\n\nCaused by:\n\tquery failed\nCaused by:\n\tconnection reset\n"
    );
    assert_eq!(error_chain_fmt("alone", &vec![]), "alone\n\n");
}

#[test]
fn password_form_wraps_each_message() {
    let form = change_password_form(&vec!["You entered two different new passwords".to_string(), "x".to_string()]);
    assert_eq!(
        form.error_message,
        "<p><i>You entered two different new passwords</i></p>\n<p><i>x</i></p>\n"
    );
    assert_eq!(change_password_form(&vec![]).error_message, "");
}

#[test]
fn newsletter_form_lists_messages_and_has_a_fresh_key() {
    let form = publish_newsletter_form(&vec![
        "The newsletter issue has been accepted, emails will go out shortly!".to_string(),
    ]);
    assert_eq!(
        form.error_message,
        "The newsletter issue has been accepted, emails will go out shortly!\n"
    );
    let key = &form.idempotency_key;
    assert_eq!(key.len(), 36);
    let parsed = Uuid::parse_str(key).unwrap();
    assert_eq!(parsed.get_version_num(), 4);
    assert_eq!(&parsed.hyphenated().to_string(), key);
    let other = publish_newsletter_form(&vec![]);
    assert_eq!(other.error_message, "");
    assert_ne!(other.idempotency_key, form.idempotency_key);
}

#[test]
fn framing_a_concatenation_frames_each_part() {
    let a = vec!["a".to_string(), "b".to_string()];
    let b = vec!["c".to_string()];
    let mut ab = a.clone();
    ab.extend(b.clone());
    assert_eq!(
        frame_lines(&ab, "[", "]\n"),
        format!("{}{}", frame_lines(&a, "[", "]\n"), frame_lines(&b, "[", "]\n"))
    );
}

#[test]
fn user_must_be_logged_in_to_access_the_admin_dashboard() {
    match admin_dashboard(None) {
        DashboardAction::RedirectTo { location } => assert_eq!(location, "/login"),
        other => panic!("unexpected {:?}", other),
    }
    let id = Uuid::from_u128(7);
    match admin_dashboard(Some(id)) {
        DashboardAction::FetchUsername { user_id } => assert_eq!(user_id, id),
        other => panic!("unexpected {:?}", other),
    }
}
