use newsletter::authentication::{change_password, AuthorizationHeader, StoredCredentials};
use newsletter::domain::{Email, Url};
use newsletter::email_client::{EmailClient, ProviderReply};
use newsletter::routes::newsletters::{
    get_confirmed_subscribers, publish_newsletter, ApiPublishAction, ApiPublishEvent,
    ApiPublishState, BodyData, Content, PublishError,
};

fn client() -> EmailClient {
    EmailClient::new(
        Url::parse("https://api.postmarkapp.com").unwrap(),
        Email::parse("newsletter@example.com").unwrap(),
        "secret-token".to_string(),
        10_000,
    )
}

fn body() -> BodyData {
    BodyData {
        title: "Newsletter title".to_string(),
        content: Content {
            html: "<p>Newsletter body as HTML</p>".to_string(),
            text: "Newsletter body as plain text".to_string(),
        },
    }
}

fn stored(password: &str) -> StoredCredentials {
    change_password(42, password).unwrap()
}

/// "admin:s3cret"
fn authorization() -> AuthorizationHeader {
    AuthorizationHeader::Value("Basic YWRtaW46czNjcmV0".to_string())
}

fn authenticated() -> ApiPublishState {
    let client = client();
    let (state, action) = publish_newsletter(
        ApiPublishState::Received,
        ApiPublishEvent::Request {
            authorization: authorization(),
            body: body(),
        },
        &client,
    );
    match action {
        ApiPublishAction::FindCredentials { username } => assert_eq!(username, "admin"),
        _ => panic!("unexpected action"),
    }
    let (state, action) = publish_newsletter(
        state,
        ApiPublishEvent::Stored(Ok(Some(stored("s3cret")))),
        &client,
    );
    match action {
        ApiPublishAction::FindConfirmed { status } => assert_eq!(status, "confirmed"),
        _ => panic!("unexpected action"),
    }
    state
}

fn recipient(action: ApiPublishAction) -> String {
    match action {
        ApiPublishAction::Send(mail) => {
            assert_eq!(mail.body.subject, "Newsletter title");
            assert_eq!(mail.body.html_body, "<p>Newsletter body as HTML</p>");
            assert_eq!(mail.body.text_body, "Newsletter body as plain text");
            assert_eq!(mail.url.as_str(), "https://api.postmarkapp.com/email");
            mail.body.to
        }
        _ => panic!("unexpected action"),
    }
}

#[test]
fn api_newsletters_are_delivered_to_confirmed_subscribers_in_order() {
    let client = client();
    let emails = vec![
        "ann@example.com".to_string(),
        "not-an-email".to_string(),
        "bob@example.com".to_string(),
        "".to_string(),
    ];
    let (state, action) =
        publish_newsletter(authenticated(), ApiPublishEvent::Subscribers(emails), &client);
    assert_eq!(recipient(action), "ann@example.com");
    let (state, action) = publish_newsletter(
        state,
        ApiPublishEvent::Reply(ProviderReply::Status(200)),
        &client,
    );
    assert_eq!(recipient(action), "bob@example.com");
    let (state, action) = publish_newsletter(
        state,
        ApiPublishEvent::Reply(ProviderReply::Status(200)),
        &client,
    );
    assert!(matches!(state, ApiPublishState::Finished));
    assert!(matches!(action, ApiPublishAction::Finish(Ok(()))));
}

#[test]
fn api_newsletters_are_not_delivered_where_nobody_is_confirmed() {
    let client = client();
    let (_, action) = publish_newsletter(
        authenticated(),
        ApiPublishEvent::Subscribers(Vec::new()),
        &client,
    );
    assert!(matches!(action, ApiPublishAction::Finish(Ok(()))));
    let (_, action) = publish_newsletter(
        authenticated(),
        ApiPublishEvent::Subscribers(vec!["not-an-email".to_string()]),
        &client,
    );
    assert!(matches!(action, ApiPublishAction::Finish(Ok(()))));
}

#[test]
fn api_publish_stops_at_the_first_email_that_is_refused() {
    let client = client();
    let emails = vec!["ann@example.com".to_string(), "bob@example.com".to_string()];
    let (state, _) =
        publish_newsletter(authenticated(), ApiPublishEvent::Subscribers(emails), &client);
    let (state, action) = publish_newsletter(
        state,
        ApiPublishEvent::Reply(ProviderReply::Status(500)),
        &client,
    );
    assert!(matches!(state, ApiPublishState::Finished));
    match action {
        ApiPublishAction::Finish(Err(error)) => {
            assert_eq!(
                error.to_string(),
                "Failed to send newsletter issue to ann@example.com"
            );
            let (response, headers) = error.into_response();
            assert_eq!(response.status_code, 500);
            assert_eq!(
                response.message,
                "Something went wrong with publishing newsletter"
            );
            assert!(headers.is_empty());
        }
        _ => panic!("unexpected action"),
    }
}

#[test]
fn api_requests_without_valid_credentials_are_asked_for_them() {
    let client = client();
    let refused = |action: ApiPublishAction| match action {
        ApiPublishAction::Finish(Err(error)) => {
            assert!(matches!(error, PublishError::AuthenticationError(_)));
            assert_eq!(error.to_string(), "Authentication failed");
            let (response, headers) = error.into_response();
            assert_eq!(response.status_code, 401);
            assert_eq!(response.message, "Authentication failed");
            assert_eq!(headers.len(), 1);
            assert_eq!(headers[0].name, "www-authenticate");
            assert_eq!(headers[0].value, b"Basic realm=\"publish\"".to_vec());
        }
        _ => panic!("unexpected action"),
    };
    let (_, action) = publish_newsletter(
        ApiPublishState::Received,
        ApiPublishEvent::Request {
            authorization: AuthorizationHeader::Missing,
            body: body(),
        },
        &client,
    );
    refused(action);
    let (state, _) = publish_newsletter(
        ApiPublishState::Received,
        ApiPublishEvent::Request {
            authorization: authorization(),
            body: body(),
        },
        &client,
    );
    let (_, action) = publish_newsletter(state, ApiPublishEvent::Stored(Ok(None)), &client);
    refused(action);
    let (state, _) = publish_newsletter(
        ApiPublishState::Received,
        ApiPublishEvent::Request {
            authorization: authorization(),
            body: body(),
        },
        &client,
    );
    let (_, action) = publish_newsletter(
        state,
        ApiPublishEvent::Stored(Ok(Some(stored("another")))),
        &client,
    );
    refused(action);
}

#[test]
fn api_publish_names_the_step_at_which_storage_failed() {
    let client = client();
    let (_, action) = publish_newsletter(authenticated(), ApiPublishEvent::Failed, &client);
    match action {
        ApiPublishAction::Finish(Err(PublishError::UnexpectedError(cause))) => assert_eq!(
            cause,
            "Failed to get confirmed subscribers from the database"
        ),
        _ => panic!("unexpected action"),
    }
}

#[test]
fn stored_addresses_are_read_one_by_one() {
    let rows = vec![
        "ann@example.com".to_string(),
        "not-an-email".to_string(),
        "bob@example.com".to_string(),
    ];
    let read = get_confirmed_subscribers(&rows);
    assert_eq!(read.len(), 3);
    assert_eq!(read[0].as_ref().unwrap().email.as_str(), "ann@example.com");
    assert_eq!(
        read[1].as_ref().unwrap_err().as_str(),
        "not-an-email is not a valid subscriber email."
    );
    assert_eq!(read[2].as_ref().unwrap().email.as_str(), "bob@example.com");
}
