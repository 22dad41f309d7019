use newsletter::configuration::{
    get_environment,
    ApplicationSettings, DatabaseSettings, EmailClientSettings, Environment, SslMode,
};
use newsletter::domain::{Email, Name, Url};
use newsletter::email_client::{
    delivery_result, token_header, EmailClient, EmailClientError, ProviderReply, SendEmailError,
};
use newsletter::http::{status_is_valid, Flash, HeaderPair, Level, Response};
use newsletter::idempotency::persistence::{processing_response, PersistenceError};
use newsletter::idempotency::{
    get_saved_response, save_response, try_processing, IdempotencyKey, IdempotencyRecord,
    NextAction,
};
use newsletter::routes::email::{fake_email, EmailRequest};
use newsletter::routes::handler_response::HandlerResponse;
use newsletter::routes::health_check::health_check;
use newsletter::routes::index::index;
use newsletter::template::{
    admin_change_password_html, admin_dashboard_html, admin_newsletter_html,
    confirmation_email_html, index_html, login_html,
};
use newsletter::text::{chars_of, join_text, same_text, trim_bounds};
use newsletter::utils::{
    e500, get_success_and_error_flash_message, report_exit, Exit, Severity,
};

fn pair(name: &str, value: &str) -> (String, String) {
    (name.to_string(), value.to_string())
}

#[test]
fn index_template_works() {
    let id = 0x0123_4567_89ab_cdef_0123_4567_89ab_cdefu128;
    let page = index_html(Some(id), None, Some("something".into()));
    assert_eq!(page.template, "index.html");
    assert_eq!(
        page.context,
        vec![
            pair("user_id", "01234567-89ab-cdef-0123-456789abcdef"),
            pair("error_msg", "something")
        ]
    );
}

#[test]
fn confirmation_email_template_works() {
    let name = Name::parse("Mamamia").unwrap();
    let link = Url::parse("https://hecomundo-bleach.com").unwrap();
    let page = confirmation_email_html(&name, &link);
    assert_eq!(page.template, "confirmation_email.html");
    assert_eq!(
        page.context,
        vec![
            pair("name", "Mamamia"),
            pair("confirmation_link", "https://hecomundo-bleach.com/")
        ]
    );
}

#[test]
fn login_template_works() {
    let page = login_html(None, Some("something".into()));
    assert_eq!(page.template, "login.html");
    assert_eq!(page.context, vec![pair("error_msg", "something")]);
}

#[test]
fn admin_dashboard_template_works() {
    let name = Name::parse("Capoo").unwrap();
    let page = admin_dashboard_html(&name);
    assert_eq!(page.template, "admin/dashboard.html");
    assert_eq!(page.context, vec![pair("username", "Capoo")]);
}

#[test]
fn admin_change_password_template_works() {
    let page = admin_change_password_html(Some("good".into()), Some("something".into()));
    assert_eq!(page.template, "admin/change_password.html");
    // the message of success takes precedence
    assert_eq!(page.context, vec![pair("success_msg", "good")]);
}

#[test]
fn admin_newsletter_template_works() {
    let page = admin_newsletter_html(Some("yeah".into()), None, "some-key".to_string());
    assert_eq!(page.template, "admin/newsletter.html");
    assert_eq!(
        page.context,
        vec![pair("idempotency_key", "some-key"), pair("success_msg", "yeah")]
    );
}

#[test]
fn a_page_without_messages_has_no_message_entry() {
    assert!(login_html(None, None).context.is_empty());
    assert!(index_html(None, None, None).context.is_empty());
}

#[test]
fn the_first_message_of_each_level_is_found() {
    let flashes = vec![
        Flash::error("first error"),
        Flash::success("first success"),
        Flash::error("second error"),
        Flash::success("second success"),
    ];
    let (success, error) = get_success_and_error_flash_message(&flashes);
    assert_eq!(success.unwrap(), "first success");
    assert_eq!(error.unwrap(), "first error");
    let (success, error) = get_success_and_error_flash_message(&vec![Flash::error("only")]);
    assert_eq!(success, None);
    assert_eq!(error.unwrap(), "only");
    assert_eq!(get_success_and_error_flash_message(&Vec::new()), (None, None));
}

#[test]
fn index_shows_the_user_and_the_message_of_success_first() {
    let flashes = vec![Flash::error("bad"), Flash::success("good")];
    let page = index(&flashes, Ok(Some(1)));
    assert_eq!(
        page.context,
        vec![
            pair("user_id", "00000000-0000-0000-0000-000000000001"),
            pair("success_msg", "good")
        ]
    );
    let page = index(&flashes, Err("session store is down".to_string()));
    assert_eq!(page.context, vec![pair("success_msg", "good")]);
    let page = index(&Vec::new(), Ok(None));
    assert!(page.context.is_empty());
}

#[test]
fn health_check_works() {
    assert_eq!(health_check(), 200);
}

#[test]
fn handler_responses_carry_status_and_message() {
    let ok = HandlerResponse::ok();
    assert_eq!((ok.status_code, ok.message.as_str()), (200, "OK"));
    let error = HandlerResponse::server_error();
    assert_eq!(
        (error.status_code, error.message.as_str()),
        (500, "Something wrong with our server")
    );
    let parse = HandlerResponse::parse_error("bad input");
    assert_eq!((parse.status_code, parse.message.as_str()), (422, "bad input"));
    let auth = HandlerResponse::authorization_error("who are you");
    assert_eq!((auth.status_code, auth.message.as_str()), (401, "who are you"));
}

#[test]
fn internal_server_error_hides_the_cause_from_the_client() {
    let error = e500("the disk is full");
    assert_eq!(error.0, "the disk is full");
    assert_eq!(error.to_string(), "Something went wrong: the disk is full");
    let response = error.into_response();
    assert_eq!(response.status_code, 500);
    assert_eq!(response.message, "Something went wrong");
}

#[test]
fn the_end_of_a_part_is_reported() {
    let line = report_exit("API", Exit::Completed);
    assert_eq!(line.severity, Severity::Info);
    assert_eq!(line.message, "API has exited");
    assert_eq!(line.error, None);
    let line = report_exit("Background worker", Exit::Failed("boom".to_string()));
    assert_eq!(line.severity, Severity::Error);
    assert_eq!(line.message, "Background worker failed");
    assert_eq!(line.error.unwrap(), "boom");
    let line = report_exit("API", Exit::Aborted("cancelled".to_string()));
    assert_eq!(line.severity, Severity::Error);
    assert_eq!(line.message, "API' task failed to complete");
    assert_eq!(line.error.unwrap(), "cancelled");
}

#[test]
fn a_redirect_is_303_with_a_location_and_no_body() {
    let response = Response::redirect("/admin/newsletters");
    assert_eq!(response.status, 303);
    assert_eq!(response.headers.len(), 1);
    assert_eq!(response.headers[0].name, "location");
    assert_eq!(response.headers[0].value, b"/admin/newsletters".to_vec());
    assert!(response.body.is_empty());
    assert_eq!(response.location().unwrap(), b"/admin/newsletters".to_vec());
    let copy = response.clone();
    assert_eq!(copy.status, 303);
    assert_eq!(copy.headers[0].value, response.headers[0].value);
    let plain = Response {
        status: 200,
        headers: Vec::new(),
        body: b"OK".to_vec(),
    };
    assert_eq!(plain.location(), None);
}

#[test]
fn status_codes_run_from_100_to_999() {
    assert!(!status_is_valid(99));
    assert!(status_is_valid(100));
    assert!(status_is_valid(999));
    assert!(!status_is_valid(1000));
}

#[test]
fn send_email_fires_request_to_base_url() {
    let client = EmailClient::new(
        Url::parse("http://127.0.0.1:4000").unwrap(),
        Email::parse("sender@example.com").unwrap(),
        "my-token".to_string(),
        200,
    );
    let recipient = Email::parse("recipient@example.com").unwrap();
    let mail = client
        .send_email(&recipient, "Subject", "<p>html</p>", "text")
        .unwrap();
    assert_eq!(mail.url.as_str(), "http://127.0.0.1:4000/email");
    assert_eq!(token_header(), "X-Postmark-Server-Token");
    assert_eq!(mail.authorization_token, "my-token");
    assert_eq!(mail.timeout_ms, 200);
    assert_eq!(
        mail.body.fields(),
        vec![
            pair("From", "sender@example.com"),
            pair("To", "recipient@example.com"),
            pair("Subject", "Subject"),
            pair("HtmlBody", "<p>html</p>"),
            pair("TextBody", "text"),
        ]
    );
}

#[test]
fn send_email_succeeds_if_server_returns_200() {
    assert!(delivery_result(ProviderReply::Status(200)).is_ok());
    assert!(delivery_result(ProviderReply::Status(299)).is_ok());
}

#[test]
fn send_email_fails_if_the_server_returns_500() {
    assert!(matches!(
        delivery_result(ProviderReply::Status(500)),
        Err(SendEmailError::Status(500))
    ));
    assert!(matches!(
        delivery_result(ProviderReply::Status(404)),
        Err(SendEmailError::Status(404))
    ));
    assert!(matches!(
        delivery_result(ProviderReply::Status(301)),
        Err(SendEmailError::Status(301))
    ));
    assert!(matches!(
        delivery_result(ProviderReply::Status(199)),
        Err(SendEmailError::Status(199))
    ));
    assert!(matches!(
        delivery_result(ProviderReply::Status(300)),
        Err(SendEmailError::Status(300))
    ));
}

#[test]
fn send_email_times_out_if_server_takes_too_long() {
    assert!(matches!(
        delivery_result(ProviderReply::NoReply),
        Err(SendEmailError::NoReply)
    ));
}

#[test]
fn send_email_fails_where_the_provider_url_takes_no_path() {
    let client = EmailClient::new(
        Url::parse("mailto:provider@example.com").unwrap(),
        Email::parse("sender@example.com").unwrap(),
        "my-token".to_string(),
        200,
    );
    let recipient = Email::parse("recipient@example.com").unwrap();
    assert!(matches!(
        client.send_email(&recipient, "Subject", "<p>html</p>", "text"),
        Err(SendEmailError::Endpoint(_))
    ));
}

fn email_settings(base_url: &str, sender: &str) -> EmailClientSettings {
    EmailClientSettings {
        base_url: base_url.to_string(),
        sender_email: sender.to_string(),
        authorization_token: "my-token".to_string(),
        timeout_ms: 10_000,
    }
}

#[test]
fn an_email_client_is_made_from_its_settings() {
    let settings = email_settings("https://api.postmarkapp.com", "sender@example.com");
    assert_eq!(settings.timeout(), 10_000);
    assert_eq!(settings.sender().unwrap().as_str(), "sender@example.com");
    assert_eq!(settings.url().unwrap().as_str(), "https://api.postmarkapp.com/");
    let client = EmailClient::try_from(settings).unwrap();
    let recipient = Email::parse("recipient@example.com").unwrap();
    let mail = client.send_email(&recipient, "S", "h", "t").unwrap();
    assert_eq!(mail.url.as_str(), "https://api.postmarkapp.com/email");
    assert_eq!(mail.body.from, "sender@example.com");
    assert_eq!(mail.timeout_ms, 10_000);

    assert!(matches!(
        EmailClient::try_from(email_settings("https://api.postmarkapp.com", "nobody")),
        Err(EmailClientError::ParseEmail(_))
    ));
    assert!(matches!(
        EmailClient::try_from(email_settings("not a url", "sender@example.com")),
        Err(EmailClientError::ParseUrl(_))
    ));
    assert!(matches!(
        EmailClient::try_from(email_settings("not a url", "nobody")),
        Err(EmailClientError::ParseEmail(_))
    ));
}

#[test]
fn settings_give_the_base_url_and_the_ssl_mode() {
    let application = ApplicationSettings {
        host: "127.0.0.1".to_string(),
        port: 8000,
        base_url: "http://127.0.0.1:8000".to_string(),
    };
    assert_eq!(application.base_url().unwrap().as_str(), "http://127.0.0.1:8000/");
    let mut database = DatabaseSettings {
        username: "postgres".to_string(),
        host: "localhost".to_string(),
        port: 5432,
        database_name: "newsletter".to_string(),
        require_ssl: false,
    };
    assert_eq!(database.ssl_mode(), SslMode::Prefer);
    database.require_ssl = true;
    assert_eq!(database.ssl_mode(), SslMode::Require);
}

#[test]
fn the_environment_is_local_or_production() {
    assert_eq!(Environment::Local.as_str(), "local");
    assert_eq!(Environment::Production.to_string(), "production");
    assert_eq!(
        Environment::try_from("local".to_string()).unwrap(),
        Environment::Local
    );
    assert_eq!(
        Environment::try_from("PRODUCTION".to_string()).unwrap(),
        Environment::Production
    );
    assert_eq!(
        Environment::try_from("Staging".to_string()).unwrap_err(),
        "staging is not a supported environment, use either `local` or `production`"
    );
    assert_eq!(get_environment(None), Some(Environment::Local));
    assert_eq!(
        get_environment(Some("production".to_string())),
        Some(Environment::Production)
    );
    assert_eq!(get_environment(Some("moon".to_string())), None);
}

#[test]
fn an_idempotency_key_has_one_to_fifty_characters() {
    assert_eq!(
        IdempotencyKey::try_from("".to_string()).unwrap_err(),
        "The idempotency key cannot be empty"
    );
    assert_eq!(
        IdempotencyKey::try_from("k".repeat(51)).unwrap_err(),
        "The idempotency key must be at most 50 characters long"
    );
    assert!(IdempotencyKey::try_from("k".repeat(50)).is_ok());
    // characters, not bytes
    assert!(IdempotencyKey::try_from("ё".repeat(50)).is_ok());
    assert!(IdempotencyKey::try_from("ё".repeat(51)).is_err());
    let key = IdempotencyKey::try_from("K1".to_string()).unwrap();
    assert_eq!(key.as_str(), "K1");
    assert_eq!(key.clone().as_str(), "K1");
}

fn response() -> Response {
    Response {
        status: 303,
        headers: vec![
            HeaderPair {
                name: "location".to_string(),
                value: b"/admin/newsletters".to_vec(),
            },
            HeaderPair {
                name: "x-raw".to_string(),
                value: vec![0xff, 0x00, 0x7f],
            },
        ],
        body: b"body \xf0 bytes".to_vec(),
    }
}

#[test]
fn a_saved_response_is_read_back_byte_for_byte() {
    let record = save_response(7, "K1", &response()).unwrap();
    assert_eq!(record.user_id, 7);
    assert_eq!(record.idempotency_key, "K1");
    assert_eq!(record.response_status_code, Some(303));
    let read = get_saved_response(Some(record)).unwrap().unwrap();
    assert_eq!(read.status, 303);
    assert_eq!(read.headers.len(), 2);
    assert_eq!(read.headers[0].name, "location");
    assert_eq!(read.headers[0].value, b"/admin/newsletters".to_vec());
    assert_eq!(read.headers[1].name, "x-raw");
    assert_eq!(read.headers[1].value, vec![0xff, 0x00, 0x7f]);
    assert_eq!(read.body, b"body \xf0 bytes".to_vec());
}

#[test]
fn a_response_without_a_status_code_is_not_saved() {
    let mut broken = response();
    broken.status = 42;
    assert_eq!(
        save_response(7, "K1", &broken).unwrap_err(),
        PersistenceError::InvalidStatusCode
    );
    broken.status = 1000;
    assert!(save_response(7, "K1", &broken).is_err());
}

fn record(
    status: Option<i16>,
    headers: Option<Vec<HeaderPair>>,
    body: Option<Vec<u8>>,
) -> IdempotencyRecord {
    IdempotencyRecord {
        user_id: 7,
        idempotency_key: "K1".to_string(),
        response_status_code: status,
        response_headers: headers,
        response_body: body,
    }
}

#[test]
fn a_reserved_key_without_an_answer_gives_the_processing_response() {
    let read = get_saved_response(Some(record(None, None, None)))
        .unwrap()
        .unwrap();
    assert_eq!(read.status, 409);
    assert!(read.headers.is_empty());
    assert_eq!(
        read.body,
        b"A request with this idempotency key is being processed".to_vec()
    );
    let again = processing_response();
    assert_eq!(again.status, read.status);
    assert_eq!(again.body, read.body);
}

#[test]
fn what_is_stored_and_is_no_answer_is_an_error() {
    assert!(get_saved_response(None).unwrap().is_none());
    assert_eq!(
        get_saved_response(Some(record(Some(-1), Some(Vec::new()), Some(Vec::new())))).unwrap_err(),
        PersistenceError::InvalidStatusCode
    );
    assert_eq!(
        get_saved_response(Some(record(Some(99), Some(Vec::new()), Some(Vec::new())))).unwrap_err(),
        PersistenceError::InvalidStatusCode
    );
    assert_eq!(
        get_saved_response(Some(record(Some(1000), Some(Vec::new()), Some(Vec::new()))))
            .unwrap_err(),
        PersistenceError::InvalidStatusCode
    );
    assert_eq!(
        get_saved_response(Some(record(Some(200), None, Some(Vec::new())))).unwrap_err(),
        PersistenceError::TornResponse
    );
    assert_eq!(
        get_saved_response(Some(record(None, None, Some(Vec::new())))).unwrap_err(),
        PersistenceError::TornResponse
    );
    assert_eq!(
        PersistenceError::TornResponse.to_string(),
        "The saved response is incomplete"
    );
    assert_eq!(
        PersistenceError::InvalidStatusCode.to_string(),
        "The saved status code is invalid"
    );
}

#[test]
fn a_request_starts_where_it_inserted_a_row_and_replays_where_it_did_not() {
    assert!(matches!(
        try_processing(1, None).unwrap(),
        NextAction::StartProcessing
    ));
    let saved = save_response(7, "K1", &response()).unwrap();
    match try_processing(0, Some(saved)).unwrap() {
        NextAction::ReturnSavedResponse(read) => assert_eq!(read.status, 303),
        _ => panic!("unexpected action"),
    }
    assert_eq!(
        try_processing(0, None).unwrap_err(),
        PersistenceError::MissingResponse
    );
    assert_eq!(
        PersistenceError::MissingResponse.to_string(),
        "Cannot find expected saved response"
    );
    match try_processing(0, Some(record(None, None, None))).unwrap() {
        NextAction::ReturnSavedResponse(read) => assert_eq!(read.status, 409),
        _ => panic!("unexpected action"),
    }
}

#[test]
fn a_fake_email_is_kept_under_the_time_and_the_recipient() {
    let request = EmailRequest {
        from: "sender@example.com".to_string(),
        to: "recipient@example.com".to_string(),
        subject: "Subject".to_string(),
        html_body: "<p>html</p>".to_string(),
        text_body: "text".to_string(),
    };
    let file = fake_email(&request, 1_700_000_000_123);
    assert_eq!(file.directory, ".fake_emails");
    assert_eq!(file.file_name, "1700000000123__recipient@example.com.json");
    assert_eq!(
        file.fields,
        vec![
            pair("From", "sender@example.com"),
            pair("To", "recipient@example.com"),
            pair("Subject", "Subject"),
            pair("HtmlBody", "<p>html</p>"),
            pair("TextBody", "text"),
        ]
    );
}

#[test]
fn text_helpers_work_on_characters() {
    assert_eq!(chars_of("añ✓"), vec!['a', 'ñ', '✓']);
    assert!(same_text("ё", "ё"));
    assert!(!same_text("a", "ab"));
    assert!(!same_text("ab", "ac"));
    assert_eq!(join_text("a", "b"), "ab");
    assert_eq!(trim_bounds(&chars_of(" \t a b \u{a0}\n")), (3, 6));
    assert_eq!(trim_bounds(&chars_of("ab")), (0, 2));
    let (a, b) = trim_bounds(&chars_of(" \u{2003} "));
    assert_eq!(a, b);
    let (a, b) = trim_bounds(&chars_of(""));
    assert_eq!((a, b), (0, 0));
}

#[test]
fn flashes_carry_their_level() {
    assert_eq!(Flash::success("fine").level, Level::Success);
    assert_eq!(Flash::error("bad").level, Level::Error);
    assert_eq!(Flash::error("bad").message, "bad");
}
