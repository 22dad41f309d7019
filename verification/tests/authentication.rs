use newsletter::authentication::basic::BasicAuthError;
use newsletter::authentication::credentials::fallback_password_hash;
use newsletter::authentication::{
    add_basic_auth_header, change_password, reject_anonymous_users, retrieve_basic_auth,
    validate_credentials, AuthError, AuthorizationHeader, Credentials, StoredCredentials, UserId,
};
use newsletter::http::HeaderPair;
use newsletter::routes::login::{
    login, login_form, login_with_flash, LoginAction, LoginError, LoginEvent, LoginFormData,
    LoginPage, LoginState,
};

fn header(value: &str) -> AuthorizationHeader {
    AuthorizationHeader::Value(value.to_string())
}

fn credentials(password: &str) -> Credentials {
    Credentials {
        username: "admin".to_string(),
        password: password.to_string(),
    }
}

fn stored(password: &str) -> StoredCredentials {
    change_password(42, password).unwrap()
}

#[test]
fn basic_auth_reads_user_name_and_password() {
    // "admin:everythinghastostartsomewhere"
    let c = retrieve_basic_auth(header("Basic YWRtaW46ZXZlcnl0aGluZ2hhc3Rvc3RhcnRzb21ld2hlcmU="))
        .ok()
        .unwrap();
    assert_eq!(c.username, "admin");
    assert_eq!(c.password, "everythinghastostartsomewhere");
}

#[test]
fn basic_auth_splits_at_the_first_colon() {
    // "user:pa:ss"
    let c = retrieve_basic_auth(header("Basic dXNlcjpwYTpzcw==")).ok().unwrap();
    assert_eq!(c.username, "user");
    assert_eq!(c.password, "pa:ss");
    // "user:"
    let c = retrieve_basic_auth(header("Basic dXNlcjo=")).ok().unwrap();
    assert_eq!(c.username, "user");
    assert_eq!(c.password, "");
    // ":secret"
    let c = retrieve_basic_auth(header("Basic OnNlY3JldA==")).ok().unwrap();
    assert_eq!(c.username, "");
    assert_eq!(c.password, "secret");
}

#[test]
fn requests_missing_authorization_are_rejected() {
    assert_eq!(
        retrieve_basic_auth(AuthorizationHeader::Missing).err().unwrap(),
        BasicAuthError::MissingHeader
    );
    assert_eq!(
        BasicAuthError::MissingHeader.to_string(),
        "The 'Authorization' header was missing"
    );
}

#[test]
fn basic_auth_tells_apart_what_is_wrong_with_a_header() {
    assert_eq!(
        retrieve_basic_auth(AuthorizationHeader::NotText).err().unwrap(),
        BasicAuthError::HeaderNotText
    );
    assert_eq!(
        retrieve_basic_auth(header("Bearer abc")).err().unwrap(),
        BasicAuthError::NotBasic
    );
    assert_eq!(
        retrieve_basic_auth(header("Basic")).err().unwrap(),
        BasicAuthError::NotBasic
    );
    assert_eq!(
        retrieve_basic_auth(header("basic dXNlcjo=")).err().unwrap(),
        BasicAuthError::NotBasic
    );
    assert_eq!(
        retrieve_basic_auth(header("Basic ***")).err().unwrap(),
        BasicAuthError::NotBase64
    );
    // the bytes ff fe
    assert_eq!(
        retrieve_basic_auth(header("Basic //4=")).err().unwrap(),
        BasicAuthError::NotUtf8
    );
    // "user"
    assert_eq!(
        retrieve_basic_auth(header("Basic dXNlcg==")).err().unwrap(),
        BasicAuthError::MissingPassword
    );
    assert_eq!(
        BasicAuthError::MissingPassword.to_string(),
        "A password must be provided in 'Basic' auth."
    );
    assert_eq!(
        BasicAuthError::NotBasic.to_string(),
        "The authorization scheme was not 'Basic'"
    );
    assert_eq!(
        BasicAuthError::NotBase64.to_string(),
        "Failed to decode base64 'Basic' credentials"
    );
    assert_eq!(
        BasicAuthError::NotUtf8.to_string(),
        "The decoded credential string is not valid UTF-8"
    );
    assert_eq!(
        BasicAuthError::HeaderNotText.to_string(),
        "The 'Authorization' header was not a valid UTF-8 string"
    );
}

#[test]
fn basic_auth_reads_a_password_that_is_not_ascii() {
    // "ü:ß"
    let c = retrieve_basic_auth(header("Basic w7w6w58=")).ok().unwrap();
    assert_eq!(c.username, "ü");
    assert_eq!(c.password, "ß");
}

#[test]
fn basic_auth_header_replaces_what_stood_under_its_name() {
    let mut headers = vec![
        HeaderPair {
            name: "content-type".to_string(),
            value: b"text/plain".to_vec(),
        },
        HeaderPair {
            name: "www-authenticate".to_string(),
            value: b"Digest".to_vec(),
        },
    ];
    add_basic_auth_header(&mut headers);
    assert_eq!(headers.len(), 2);
    assert_eq!(headers[0].name, "content-type");
    assert_eq!(headers[1].name, "www-authenticate");
    assert_eq!(headers[1].value, b"Basic realm=\"publish\"".to_vec());
}

#[test]
fn the_right_password_gives_the_user() {
    let result = validate_credentials(credentials("s3cret"), Ok(Some(stored("s3cret"))));
    assert_eq!(result.unwrap(), 42);
}

#[test]
fn invalid_password_is_rejected() {
    let result = validate_credentials(credentials("wrong"), Ok(Some(stored("s3cret"))));
    match result {
        Err(AuthError::InvalidCredentials(reason)) => assert_eq!(reason, "Invalid password"),
        _ => panic!("unexpected result"),
    }
}

#[test]
fn non_existing_user_is_rejected() {
    let result = validate_credentials(credentials("s3cret"), Ok(None));
    let error = result.unwrap_err();
    assert!(matches!(error, AuthError::InvalidCredentials(_)));
    assert_eq!(error.to_string(), "Invalid credentials");
}

#[test]
fn a_stored_text_that_is_no_hash_is_an_unexpected_error() {
    let broken = StoredCredentials {
        user_id: 42,
        password_hash: "not a hash".to_string(),
    };
    match validate_credentials(credentials("s3cret"), Ok(Some(broken))) {
        Err(AuthError::UnexpectedError(reason)) => {
            assert_eq!(reason, "Failed to parse hash in PHC string format")
        }
        _ => panic!("unexpected result"),
    }
}

#[test]
fn a_failed_lookup_is_an_unexpected_error() {
    let result = validate_credentials(credentials("s3cret"), Err("no connection".to_string()));
    let error = result.unwrap_err();
    assert!(matches!(error, AuthError::UnexpectedError(_)));
    assert_eq!(error.to_string(), "no connection");
}

#[test]
fn the_fallback_hash_is_a_hash() {
    // malformed would be an unexpected error; this is a mismatch
    let fallback = StoredCredentials {
        user_id: 1,
        password_hash: fallback_password_hash().to_string(),
    };
    assert!(matches!(
        validate_credentials(credentials("s3cret"), Ok(Some(fallback))),
        Err(AuthError::InvalidCredentials(_))
    ));
}

#[test]
fn changing_password_works() {
    let first = change_password(42, "old password").unwrap();
    let second = change_password(42, "new password").unwrap();
    assert_eq!(second.user_id, 42);
    assert!(second.password_hash.starts_with("$argon2id$v=19$m=15000,t=2,p=1$"));
    assert_ne!(first.password_hash, second.password_hash);
    assert_eq!(
        validate_credentials(credentials("new password"), Ok(Some(second))).unwrap(),
        42
    );
    assert!(validate_credentials(credentials("new password"), Ok(Some(first))).is_err());
}

#[test]
fn a_password_is_hashed_under_a_fresh_salt_each_time() {
    let a = change_password(1, "same").unwrap();
    let b = change_password(1, "same").unwrap();
    assert_ne!(a.password_hash, b.password_hash);
}

#[test]
fn anonymous_users_are_sent_to_login() {
    assert_eq!(reject_anonymous_users(Some(9)).unwrap(), UserId(9));
    let response = reject_anonymous_users(None).unwrap_err();
    assert_eq!(response.status, 303);
    assert_eq!(response.location().unwrap(), b"/login".to_vec());
    assert!(response.body.is_empty());
}

fn login_form_data(password: &str) -> LoginFormData {
    LoginFormData {
        username: "admin".to_string(),
        password: password.to_string(),
    }
}

#[test]
fn redirect_to_admin_dashboard_after_login_success() {
    let (state, action) = login(LoginState::Received, LoginEvent::Form(login_form_data("s3cret")));
    match action {
        LoginAction::FindCredentials { username } => assert_eq!(username, "admin"),
        _ => panic!("unexpected action"),
    }
    let (state, action) = login(state, LoginEvent::Stored(Ok(Some(stored("s3cret")))));
    assert!(matches!(action, LoginAction::InsertUserId { user_id: 42 }));
    let (state, action) = login(state, LoginEvent::Done);
    assert!(matches!(state, LoginState::Finished));
    let result = match action {
        LoginAction::Finish(result) => result,
        _ => panic!("unexpected action"),
    };
    assert!(result.is_ok());
    let (flash, response) = login_with_flash(result);
    assert!(flash.is_none());
    assert_eq!(response.status, 303);
    assert_eq!(response.location().unwrap(), b"/admin/dashboard".to_vec());
}

#[test]
fn an_error_flash_message_is_set_on_failure() {
    let (state, _) = login(LoginState::Received, LoginEvent::Form(login_form_data("wrong")));
    let (_, action) = login(state, LoginEvent::Stored(Ok(Some(stored("s3cret")))));
    let result = match action {
        LoginAction::Finish(result) => result,
        _ => panic!("unexpected action"),
    };
    assert!(matches!(result, Err(LoginError::AuthError(_))));
    let (flash, response) = login_with_flash(result);
    assert_eq!(flash.unwrap().message, "Authentication failed");
    assert_eq!(response.status, 303);
    assert_eq!(response.location().unwrap(), b"/login".to_vec());
}

#[test]
fn login_reports_an_unexpected_error_where_storage_or_the_session_fails() {
    let (state, _) = login(LoginState::Received, LoginEvent::Form(login_form_data("s3cret")));
    let (_, action) = login(state, LoginEvent::Stored(Err("no connection".to_string())));
    match action {
        LoginAction::Finish(Err(LoginError::UnexpectedError(cause))) => {
            assert_eq!(cause, "no connection")
        }
        _ => panic!("unexpected action"),
    }
    let (state, _) = login(LoginState::Received, LoginEvent::Form(login_form_data("s3cret")));
    let (state, _) = login(state, LoginEvent::Stored(Ok(Some(stored("s3cret")))));
    let (_, action) = login(state, LoginEvent::Failed);
    let result = match action {
        LoginAction::Finish(result) => result,
        _ => panic!("unexpected action"),
    };
    assert_eq!(result.unwrap_err().to_string(), "Something went wrong");
}

#[test]
fn login_form_sends_a_logged_in_user_to_the_dashboard() {
    match login_form(Some(1), None, None) {
        LoginPage::Redirect(response) => {
            assert_eq!(response.location().unwrap(), b"/admin/dashboard".to_vec())
        }
        _ => panic!("unexpected page"),
    }
    match login_form(None, None, Some("Authentication failed".to_string())) {
        LoginPage::Form {
            success_msg,
            error_msg,
        } => {
            assert_eq!(success_msg, None);
            assert_eq!(error_msg.unwrap(), "Authentication failed");
        }
        _ => panic!("unexpected page"),
    }
}
