use newsletter::authentication::{change_password as hash_password, StoredCredentials};
use newsletter::http::{Flash, Level};
use newsletter::routes::admin::dashboard::{
    admin_dashboard, AdminDashboardError, DashboardAction, DashboardEvent, DashboardPage,
    DashboardState,
};
use newsletter::routes::admin::logout::{admin_logout, LogoutReply};
use newsletter::routes::admin::newsletters::{
    publish_newsletter_form, publish_newsletter_with_flash,
    publish_newsletter_with_idempotent_handling, NewsletterFormData, PublishAction,
    PublishAnswer, PublishEvent, PublishState,
};
use newsletter::routes::admin::password::{
    change_password, change_password_form, change_password_with_flash, ChangePasswordError,
    ChangePasswordFormData, PasswordAction, PasswordEvent, PasswordReply, PasswordState,
};
use newsletter::authentication::validate_credentials;
use newsletter::authentication::Credentials;

fn stored(password: &str) -> StoredCredentials {
    hash_password(42, password).unwrap()
}

fn password_form(current: &str, new: &str, check: &str) -> ChangePasswordFormData {
    ChangePasswordFormData {
        current_password: current.to_string(),
        new_password: new.to_string(),
        new_password_check: check.to_string(),
    }
}

fn finished(action: PasswordAction) -> Result<(), ChangePasswordError> {
    match action {
        PasswordAction::Finish(result) => result,
        _ => panic!("unexpected action"),
    }
}

#[test]
fn must_be_logged_in_to_access_the_admin_dashboard() {
    let (state, action) = admin_dashboard(DashboardState::Received, DashboardEvent::Session(Ok(None)));
    assert!(matches!(state, DashboardState::Finished));
    match action {
        DashboardAction::Finish(Ok(DashboardPage::Redirect(response))) => {
            assert_eq!(response.status, 303);
            assert_eq!(response.location().unwrap(), b"/login".to_vec());
        }
        _ => panic!("unexpected action"),
    }
}

#[test]
fn dashboard_greets_the_user_by_name() {
    let (state, action) =
        admin_dashboard(DashboardState::Received, DashboardEvent::Session(Ok(Some(42))));
    assert!(matches!(action, DashboardAction::FindUsername { user_id: 42 }));
    let (_, action) = admin_dashboard(state, DashboardEvent::Username(" admin ".to_string()));
    match action {
        DashboardAction::Finish(Ok(DashboardPage::Dashboard(name))) => {
            assert_eq!(name.as_str(), "admin")
        }
        _ => panic!("unexpected action"),
    }
}

#[test]
fn dashboard_fails_on_a_stored_name_that_is_no_name_and_on_storage_failure() {
    let (state, _) =
        admin_dashboard(DashboardState::Received, DashboardEvent::Session(Ok(Some(42))));
    let (_, action) = admin_dashboard(state, DashboardEvent::Username("<admin>".to_string()));
    match action {
        DashboardAction::Finish(Err(AdminDashboardError::UnexpectedError(cause))) => {
            assert_eq!(cause, "<admin> is not a valid subscriber name.")
        }
        _ => panic!("unexpected action"),
    }
    let (state, _) =
        admin_dashboard(DashboardState::Received, DashboardEvent::Session(Ok(Some(42))));
    let (_, action) = admin_dashboard(state, DashboardEvent::Failed);
    let error = match action {
        DashboardAction::Finish(Err(error)) => error,
        _ => panic!("unexpected action"),
    };
    assert_eq!(error.to_string(), "Something went wrong");
    let response = error.into_response();
    assert_eq!(response.status_code, 500);
    assert_eq!(response.message, "Something went wrong with admin dashboard");
    let (_, action) = admin_dashboard(
        DashboardState::Received,
        DashboardEvent::Session(Err("session store is down".to_string())),
    );
    assert!(matches!(action, DashboardAction::Finish(Err(_))));
}

#[test]
fn logout_clears_session_state() {
    match admin_logout(Ok(Some(42))) {
        LogoutReply::Logout(flash, response) => {
            assert_eq!(flash.level, Level::Success);
            assert_eq!(flash.message, "You have successfully logged out");
            assert_eq!(response.location().unwrap(), b"/login".to_vec());
        }
        _ => panic!("unexpected reply"),
    }
    match admin_logout(Ok(None)) {
        LogoutReply::Redirect(response) => {
            assert_eq!(response.location().unwrap(), b"/login".to_vec())
        }
        _ => panic!("unexpected reply"),
    }
    match admin_logout(Err("session store is down".to_string())) {
        LogoutReply::Failed(response) => {
            assert_eq!(response.status_code, 500);
            assert_eq!(response.message, "Something went wrong with logout");
        }
        _ => panic!("unexpected reply"),
    }
}

#[test]
fn new_password_fields_must_match() {
    let (state, action) = change_password(
        PasswordState::Received,
        PasswordEvent::Form {
            user_id: 42,
            form: password_form("old", "new one", "another one"),
        },
    );
    assert!(matches!(state, PasswordState::Finished));
    let result = finished(action);
    assert!(matches!(
        result,
        Err(ChangePasswordError::DifferentNewPasswords)
    ));
    match change_password_with_flash(result) {
        PasswordReply::Redirect(flash, response) => {
            assert_eq!(flash.level, Level::Error);
            assert_eq!(flash.message, "You entered two different new passwords");
            assert_eq!(response.location().unwrap(), b"/admin/password".to_vec());
        }
        _ => panic!("unexpected reply"),
    }
    assert_eq!(
        ChangePasswordError::DifferentNewPasswords
            .into_response()
            .status_code,
        422
    );
}

#[test]
fn current_password_must_be_valid() {
    let (state, action) = change_password(
        PasswordState::Received,
        PasswordEvent::Form {
            user_id: 42,
            form: password_form("wrong", "new one", "new one"),
        },
    );
    assert!(matches!(action, PasswordAction::FindUsername { user_id: 42 }));
    let (state, action) = change_password(state, PasswordEvent::Username("admin".to_string()));
    match action {
        PasswordAction::FindCredentials { username } => assert_eq!(username, "admin"),
        _ => panic!("unexpected action"),
    }
    let (_, action) = change_password(state, PasswordEvent::Stored(Ok(Some(stored("old")))));
    let result = finished(action);
    assert!(matches!(result, Err(ChangePasswordError::IncorrectPassword)));
    match change_password_with_flash(result) {
        PasswordReply::Redirect(flash, _) => {
            assert_eq!(flash.message, "The current password is incorrect")
        }
        _ => panic!("unexpected reply"),
    }
    let response = ChangePasswordError::IncorrectPassword.into_response();
    assert_eq!(response.status_code, 401);
    assert_eq!(response.message, "Authentication error");
}

#[test]
fn changing_password_stores_a_hash_of_the_new_password() {
    let (state, _) = change_password(
        PasswordState::Received,
        PasswordEvent::Form {
            user_id: 42,
            form: password_form("old", "new one", "new one"),
        },
    );
    let (state, _) = change_password(state, PasswordEvent::Username("admin".to_string()));
    let (state, action) = change_password(state, PasswordEvent::Stored(Ok(Some(stored("old")))));
    let update = match action {
        PasswordAction::UpdatePassword(update) => update,
        _ => panic!("unexpected action"),
    };
    assert_eq!(update.user_id, 42);
    let check = validate_credentials(
        Credentials {
            username: "admin".to_string(),
            password: "new one".to_string(),
        },
        Ok(Some(update)),
    );
    assert_eq!(check.unwrap(), 42);
    let (_, action) = change_password(state, PasswordEvent::Done);
    let result = finished(action);
    assert!(result.is_ok());
    match change_password_with_flash(result) {
        PasswordReply::Redirect(flash, response) => {
            assert_eq!(flash.level, Level::Success);
            assert_eq!(flash.message, "Your password has been changed");
            assert_eq!(response.location().unwrap(), b"/admin/password".to_vec());
        }
        _ => panic!("unexpected reply"),
    }
}

#[test]
fn changing_password_fails_with_500_where_storage_fails() {
    let (state, _) = change_password(
        PasswordState::Received,
        PasswordEvent::Form {
            user_id: 42,
            form: password_form("old", "new one", "new one"),
        },
    );
    let (_, action) = change_password(state, PasswordEvent::Failed);
    let result = finished(action);
    match &result {
        Err(ChangePasswordError::UnexpectedError(cause)) => {
            assert_eq!(cause, "Failed to perform a query to retrieve a username")
        }
        _ => panic!("unexpected result"),
    }
    match change_password_with_flash(result) {
        PasswordReply::Failed(response) => {
            assert_eq!(response.status_code, 500);
            assert_eq!(response.message, "Something went wrong");
        }
        _ => panic!("unexpected reply"),
    }
}

#[test]
fn change_password_form_shows_the_message_of_the_last_request() {
    let flashes = vec![Flash::error("The current password is incorrect")];
    let page = change_password_form(&flashes);
    assert_eq!(page.template, "admin/change_password.html");
    assert_eq!(
        page.context,
        vec![(
            "error_msg".to_string(),
            "The current password is incorrect".to_string()
        )]
    );
}

#[test]
fn publish_form_carries_a_fresh_key() {
    let a = publish_newsletter_form(&Vec::new());
    let b = publish_newsletter_form(&Vec::new());
    assert_eq!(a.template, "admin/newsletter.html");
    assert_eq!(a.context.len(), 1);
    assert_eq!(a.context[0].0, "idempotency_key");
    assert_eq!(a.context[0].1.len(), 36);
    // a version 4 identifier in hyphenated form
    assert_eq!(a.context[0].1.as_bytes()[14], b'4');
    assert_eq!(a.context[0].1.as_bytes()[8], b'-');
    assert_ne!(a.context[0].1, b.context[0].1);
}

fn issue_form(key: &str) -> NewsletterFormData {
    NewsletterFormData {
        title: "T".to_string(),
        html_content: "<p>x</p>".to_string(),
        text_content: "x".to_string(),
        idempotency_key: key.to_string(),
    }
}

#[test]
fn publish_fails_with_500_and_keeps_no_answer_where_storage_fails() {
    let (state, action) = publish_newsletter_with_idempotent_handling(
        PublishState::Received,
        PublishEvent::Request {
            user_id: Some(7),
            form: issue_form("K1"),
        },
    );
    match action {
        PublishAction::Reserve {
            user_id,
            idempotency_key,
        } => {
            assert_eq!(user_id, 7);
            assert_eq!(idempotency_key, "K1");
        }
        _ => panic!("unexpected action"),
    }
    let (state, action) =
        publish_newsletter_with_idempotent_handling(state, PublishEvent::Reserved(1));
    assert!(matches!(action, PublishAction::InsertIssue(_)));
    let (state, action) = publish_newsletter_with_idempotent_handling(state, PublishEvent::Failed);
    assert!(matches!(state, PublishState::Finished));
    let result = match action {
        PublishAction::Finish(result) => result,
        _ => panic!("unexpected action"),
    };
    let error = result.unwrap_err();
    assert_eq!(
        error.to_string(),
        "Something went wrong: Failed to store newsletter issue details"
    );
    match publish_newsletter_with_flash(Err(error)) {
        PublishAnswer::Failed(response) => {
            assert_eq!(response.status_code, 500);
            assert_eq!(response.message, "Something went wrong");
        }
        _ => panic!("unexpected answer"),
    }
}

#[test]
fn publish_names_the_step_at_which_storage_failed() {
    let start = || {
        publish_newsletter_with_idempotent_handling(
            PublishState::Received,
            PublishEvent::Request {
                user_id: Some(7),
                form: issue_form("K1"),
            },
        )
        .0
    };
    let cause = |action: PublishAction| match action {
        PublishAction::Finish(Err(error)) => error.0,
        _ => panic!("unexpected action"),
    };
    let (_, action) = publish_newsletter_with_idempotent_handling(start(), PublishEvent::Failed);
    assert_eq!(cause(action), "Failed to reserve the idempotency key");

    let (state, _) = publish_newsletter_with_idempotent_handling(start(), PublishEvent::Reserved(1));
    let (state, action) = publish_newsletter_with_idempotent_handling(state, PublishEvent::Done);
    match action {
        PublishAction::Enqueue { status, .. } => assert_eq!(status, "confirmed"),
        _ => panic!("unexpected action"),
    }
    let (_, action) = publish_newsletter_with_idempotent_handling(state, PublishEvent::Failed);
    assert_eq!(cause(action), "Failed to enqueue delivery tasks");

    let (state, _) = publish_newsletter_with_idempotent_handling(start(), PublishEvent::Reserved(1));
    let (state, _) = publish_newsletter_with_idempotent_handling(state, PublishEvent::Done);
    let (state, action) = publish_newsletter_with_idempotent_handling(state, PublishEvent::Done);
    match action {
        PublishAction::SaveResponse(record) => {
            assert_eq!(record.user_id, 7);
            assert_eq!(record.idempotency_key, "K1");
            assert_eq!(record.response_status_code, Some(303));
            let headers = record.response_headers.unwrap();
            assert_eq!(headers.len(), 1);
            assert_eq!(headers[0].name, "location");
            assert_eq!(headers[0].value, b"/admin/newsletters".to_vec());
            assert_eq!(record.response_body, Some(Vec::new()));
        }
        _ => panic!("unexpected action"),
    }
    let (_, action) = publish_newsletter_with_idempotent_handling(state, PublishEvent::Failed);
    assert_eq!(cause(action), "Failed to save the response");

    let (state, action) =
        publish_newsletter_with_idempotent_handling(start(), PublishEvent::Reserved(0));
    assert!(matches!(action, PublishAction::FetchSaved { .. }));
    let (_, action) = publish_newsletter_with_idempotent_handling(state, PublishEvent::Saved(None));
    assert_eq!(cause(action), "Cannot find expected saved response");
}
