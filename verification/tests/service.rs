use newsletter::database::{DeliveryTask, IssueRecord, SubscriberRecord, TokenRecord};
use newsletter::domain::{Email, Url};
use newsletter::email_client::{EmailClient, ProviderReply};
use newsletter::http::Level;
use newsletter::issue_delivery_worker::{ExecutionOutcome, FailurePolicy, Skipped, WorkerError};
use newsletter::routes::admin::newsletters::NewsletterFormData;
use newsletter::routes::subscriptions::{subscribe_with_flash, SubscribeError, SubscribeFormData};
use newsletter::routes::subscriptions_confirm::{ConfirmSubscriptionError, Parameters};
use newsletter::service::Service;
use newsletter::store::Store;

const ACCEPTED: ProviderReply = ProviderReply::Status(200);

fn client() -> EmailClient {
    let sender = Email::parse("newsletter@example.com").unwrap();
    let provider = Url::parse("http://provider.example.com").unwrap();
    EmailClient::new(provider, sender, "secret-token".to_string(), 200)
}

fn base_url() -> Url {
    Url::parse("http://127.0.0.1:8000").unwrap()
}

fn service_with(policy: FailurePolicy) -> Service {
    Service::new(base_url(), client(), policy)
}

fn service_on(store: Store) -> Service {
    Service::with_store(store, base_url(), client(), FailurePolicy::Drop)
        .expect("the store is not sound")
}

fn service() -> Service {
    service_with(FailurePolicy::Drop)
}

fn form(name: &str, email: &str) -> SubscribeFormData {
    SubscribeFormData {
        name: name.to_string(),
        email: email.to_string(),
    }
}

fn issue_form(key: &str) -> NewsletterFormData {
    NewsletterFormData {
        title: "T".to_string(),
        html_content: "<p>x</p>".to_string(),
        text_content: "x".to_string(),
        idempotency_key: key.to_string(),
    }
}

/// The token in the confirmation link of a text body.
fn token_in(text_body: &str) -> String {
    let marker = "/subscribe/confirm?subscription_token=";
    let start = text_body.find(marker).expect("no confirmation link") + marker.len();
    text_body[start..]
        .chars()
        .take_while(|c| c.is_ascii_alphanumeric())
        .collect()
}

fn location(response: &newsletter::http::Response) -> String {
    String::from_utf8(response.location().expect("no location")).unwrap()
}

fn confirmed_subscriber(service: &mut Service, name: &str, email: &str) {
    service.subscribe(form(name, email), ACCEPTED).unwrap();
    let token = token_in(&service.outbox().last().unwrap().text_body);
    service
        .confirm(Parameters {
            subscription_token: token,
        })
        .unwrap();
}

#[test]
fn subscribe_persists_the_new_subscriber_and_sends_a_confirmation_link() {
    let mut service = service();
    let result = service.subscribe(form("Bob Banjo", "bob_banjo@gmail.com"), ACCEPTED);
    assert!(result.is_ok());

    let (flash, response) = subscribe_with_flash(result);
    assert_eq!(response.status, 303);
    assert_eq!(location(&response), "/");
    assert_eq!(flash.level, Level::Success);
    assert_eq!(flash.message, "Thanks for subscribing!");

    assert_eq!(service.store().subscriptions.len(), 1);
    let row = &service.store().subscriptions[0];
    assert_eq!(row.name, "Bob Banjo");
    assert_eq!(row.email, "bob_banjo@gmail.com");
    assert_eq!(row.status, "pending_confirmation");

    assert_eq!(service.outbox().len(), 1);
    let mail = &service.outbox()[0];
    assert_eq!(mail.to, "bob_banjo@gmail.com");
    assert_eq!(mail.subject, "Welcome!");
    let token = token_in(&mail.text_body);
    assert_eq!(token.len(), 25);
    assert_eq!(
        mail.text_body,
        format!(
            "Welcome to our newsletter!\nVisit http://127.0.0.1:8000/subscribe/confirm?subscription_token={} to confirm your subscription.",
            token
        )
    );
}

#[test]
fn successful_subscribe_leaves_one_pending_row_and_one_token_row() {
    let mut service = service();
    service
        .subscribe(form("Ann", "ann@example.com"), ACCEPTED)
        .unwrap();
    service
        .subscribe(form("Bob Banjo", "bob_banjo@gmail.com"), ACCEPTED)
        .unwrap();
    let rows: Vec<_> = service
        .store()
        .subscriptions
        .iter()
        .filter(|r| r.email == "bob_banjo@gmail.com")
        .collect();
    assert_eq!(rows.len(), 1);
    assert_eq!(rows[0].status, "pending_confirmation");
    let tokens: Vec<_> = service
        .store()
        .subscription_tokens
        .iter()
        .filter(|t| t.subscriber_id == rows[0].id)
        .collect();
    assert_eq!(tokens.len(), 1);
    assert_eq!(
        tokens[0].subscription_token,
        token_in(&service.outbox()[1].text_body)
    );
}

#[test]
fn subscribe_sends_two_identical_confirmation_emails_if_called_twice() {
    let mut service = service();
    service
        .subscribe(form("Bob Banjo", "bob_banjo@gmail.com"), ACCEPTED)
        .unwrap();
    service
        .subscribe(form("Robert", "bob_banjo@gmail.com"), ACCEPTED)
        .unwrap();
    assert_eq!(service.outbox().len(), 2);
    assert_eq!(service.outbox()[0].to, service.outbox()[1].to);
    assert_eq!(service.outbox()[0].text_body, service.outbox()[1].text_body);
    // the stored name stands, and nothing was added
    assert_eq!(service.store().subscriptions.len(), 1);
    assert_eq!(service.store().subscriptions[0].name, "Bob Banjo");
    assert_eq!(service.store().subscription_tokens.len(), 1);
}

#[test]
fn subscribe_returns_error_if_subscription_already_confirmed() {
    let mut service = service();
    confirmed_subscriber(&mut service, "Bob Banjo", "bob_banjo@gmail.com");
    let sent = service.outbox().len();
    let result = service.subscribe(form("Bob Banjo", "bob_banjo@gmail.com"), ACCEPTED);
    assert!(matches!(result, Err(SubscribeError::AlreadyConfirmed)));
    assert_eq!(service.outbox().len(), sent);
    assert_eq!(service.store().subscriptions.len(), 1);
    let error = result.unwrap_err();
    assert_eq!(error.to_string(), "subscription already confirmed");
    let response = error.into_response();
    assert_eq!(response.status_code, 409);
    assert_eq!(response.message, "Subscription already confirmed");
}

#[test]
fn subscribe_with_an_empty_name_changes_nothing_and_flashes_invalid_form_data() {
    let mut service = service();
    let result = service.subscribe(form("", "bob_banjo@gmail.com"), ACCEPTED);
    assert!(matches!(
        result,
        Err(SubscribeError::FormValidationError(_))
    ));
    assert!(service.store().subscriptions.is_empty());
    assert!(service.store().subscription_tokens.is_empty());
    assert!(service.outbox().is_empty());
    let (flash, response) = subscribe_with_flash(result);
    assert_eq!(response.status, 303);
    assert_eq!(location(&response), "/");
    assert_eq!(flash.level, Level::Error);
    assert_eq!(flash.message, "Invalid form data");
}

#[test]
fn subscribe_returns_error_when_fields_are_present_but_invalid() {
    let cases = [
        ("", "ursula_le_guin@gmail.com"),
        ("Ursula", ""),
        ("Ursula", "definitely-not-an-email"),
        ("Urs/ula", "ursula_le_guin@gmail.com"),
    ];
    for (name, email) in cases {
        let mut service = service();
        let result = service.subscribe(form(name, email), ACCEPTED);
        let error = result.unwrap_err();
        assert!(matches!(error, SubscribeError::FormValidationError(_)));
        assert_eq!(error.into_response().status_code, 422);
        assert!(service.store().subscriptions.is_empty());
        assert!(service.outbox().is_empty());
    }
}

#[test]
fn subscribe_keeps_the_subscriber_when_the_provider_refuses_the_email() {
    let mut service = service();
    let result = service.subscribe(
        form("Bob Banjo", "bob_banjo@gmail.com"),
        ProviderReply::Status(500),
    );
    match &result {
        Err(SubscribeError::UnexpectedError(message)) => {
            assert_eq!(message, "Failed to send a new confirmation email")
        }
        _ => panic!("unexpected result"),
    }
    assert_eq!(result.unwrap_err().into_response().status_code, 500);
    // the email was handed over once, and the row stays
    assert_eq!(service.outbox().len(), 1);
    assert_eq!(service.store().subscriptions.len(), 1);
    // a later submission sends the same link again
    service
        .subscribe(form("Bob Banjo", "bob_banjo@gmail.com"), ACCEPTED)
        .unwrap();
    assert_eq!(service.outbox()[0].text_body, service.outbox()[1].text_body);
}

#[test]
fn subscribe_fails_when_no_reply_comes_from_the_provider() {
    let mut service = service();
    let result = service.subscribe(form("Bob", "bob@example.com"), ProviderReply::NoReply);
    assert!(matches!(result, Err(SubscribeError::UnexpectedError(_))));
}

#[test]
fn clicking_on_confirmation_link_confirms_a_subscriber() {
    let mut service = service();
    service
        .subscribe(form("Bob Banjo", "bob_banjo@gmail.com"), ACCEPTED)
        .unwrap();
    let token = token_in(&service.outbox()[0].text_body);
    let result = service.confirm(Parameters {
        subscription_token: token.clone(),
    });
    assert!(result.is_ok());
    assert_eq!(service.store().subscriptions[0].status, "confirmed");
    assert_eq!(service.store().subscriptions[0].name, "Bob Banjo");
    assert_eq!(service.store().subscriptions[0].email, "bob_banjo@gmail.com");
    // the token is kept
    assert_eq!(service.store().subscription_tokens.len(), 1);
    assert_eq!(service.store().subscription_tokens[0].subscription_token, token);
}

#[test]
fn confirm_returns_error_if_subscription_already_confirmed() {
    let mut service = service();
    service
        .subscribe(form("Bob Banjo", "bob_banjo@gmail.com"), ACCEPTED)
        .unwrap();
    let token = token_in(&service.outbox()[0].text_body);
    service
        .confirm(Parameters {
            subscription_token: token.clone(),
        })
        .unwrap();
    let second = service.confirm(Parameters {
        subscription_token: token,
    });
    assert!(matches!(
        second,
        Err(ConfirmSubscriptionError::AlreadyConfirmed)
    ));
    let response = second.unwrap_err().into_response();
    assert_eq!(response.status_code, 409);
    assert_eq!(response.message, "Subscription already confirmed");
    assert_eq!(service.store().subscriptions[0].status, "confirmed");
}

#[test]
fn unknown_token_and_malformed_token_are_rejected_with_different_errors() {
    let mut service = service();
    service
        .subscribe(form("Bob Banjo", "bob_banjo@gmail.com"), ACCEPTED)
        .unwrap();

    let unknown = service
        .confirm(Parameters {
            subscription_token: "vC8nGu4tq3DwcXu5rhLXa0Y7S".to_string(),
        })
        .unwrap_err();
    assert!(matches!(unknown, ConfirmSubscriptionError::TokenNotFound));
    assert_eq!(unknown.to_string(), "Token not found");
    assert_eq!(unknown.into_response().status_code, 401);

    let truncated = service
        .confirm(Parameters {
            subscription_token: "vC8nGu4tq3DwcXu5rhLXa0Y7".to_string(),
        })
        .unwrap_err();
    assert!(matches!(
        truncated,
        ConfirmSubscriptionError::TokenValidationError(_)
    ));
    assert_eq!(truncated.to_string(), "invalid token length");
    assert_eq!(truncated.into_response().status_code, 401);

    let not_alphanumeric = service
        .confirm(Parameters {
            subscription_token: "vC8nGu4tq3DwcXu5rhLXa0Y7!".to_string(),
        })
        .unwrap_err();
    assert_eq!(not_alphanumeric.to_string(), "token not alphanumeric");
    assert_eq!(not_alphanumeric.into_response().status_code, 401);

    assert_eq!(service.store().subscriptions[0].status, "pending_confirmation");
}

#[test]
fn newsletters_are_delivered_to_confirmed_subscribers() {
    let mut service = service();
    confirmed_subscriber(&mut service, "Bob Banjo", "bob_banjo@gmail.com");
    let sent = service.outbox().len();

    let reply = service.publish(Some(7), issue_form("K1")).unwrap();
    assert_eq!(reply.response.status, 303);
    assert_eq!(location(&reply.response), "/admin/newsletters");
    let flash = reply.flash.unwrap();
    assert_eq!(flash.level, Level::Success);
    assert_eq!(flash.message, "Newsletter successfully published");
    assert_eq!(service.store().newsletter_issues.len(), 1);
    assert_eq!(service.store().newsletter_issues[0].title, "T");
    assert_eq!(service.store().newsletter_issues[0].text_content, "x");
    assert_eq!(service.store().newsletter_issues[0].html_content, "<p>x</p>");
    assert_eq!(service.store().issue_delivery_queue.len(), 1);
    // publishing itself sends nothing
    assert_eq!(service.outbox().len(), sent);

    let passes = service.run_worker_until_stopped(ACCEPTED);
    assert_eq!(passes, 1);
    assert_eq!(service.outbox().len(), sent + 1);
    let mail = service.outbox().last().unwrap();
    assert_eq!(mail.to, "bob_banjo@gmail.com");
    assert_eq!(mail.subject, "T");
    assert_eq!(mail.text_body, "x");
    assert!(service.store().issue_delivery_queue.is_empty());
}

#[test]
fn newsletters_are_not_delivered_to_unconfirmed_subscribers() {
    let mut service = service();
    service
        .subscribe(form("Bob Banjo", "bob_banjo@gmail.com"), ACCEPTED)
        .unwrap();
    let sent = service.outbox().len();
    service.publish(Some(7), issue_form("K1")).unwrap();
    assert_eq!(service.store().newsletter_issues.len(), 1);
    assert!(service.store().issue_delivery_queue.is_empty());
    assert_eq!(service.run_worker_until_stopped(ACCEPTED), 0);
    assert_eq!(service.outbox().len(), sent);
}

#[test]
fn newsletter_creation_is_idempotent() {
    let mut service = service();
    confirmed_subscriber(&mut service, "Bob Banjo", "bob_banjo@gmail.com");
    let first = service.publish(Some(7), issue_form("K1")).unwrap();
    let second = service.publish(Some(7), issue_form("K1")).unwrap();
    assert_eq!(first.response.status, second.response.status);
    assert_eq!(location(&first.response), location(&second.response));
    assert_eq!(first.response.body, second.response.body);
    assert_eq!(first.response.headers.len(), second.response.headers.len());
    assert_eq!(
        first.response.headers[0].name,
        second.response.headers[0].name
    );
    assert_eq!(
        first.response.headers[0].value,
        second.response.headers[0].value
    );
    assert_eq!(service.store().newsletter_issues.len(), 1);
    assert_eq!(service.store().issue_delivery_queue.len(), 1);
    assert_eq!(service.store().idempotency.len(), 1);
    assert_eq!(service.store().idempotency[0].response_status_code, Some(303));

    let sent = service.outbox().len();
    service.run_worker_until_stopped(ACCEPTED);
    assert_eq!(service.outbox().len(), sent + 1);
}

#[test]
fn two_submissions_under_one_key_get_the_same_answer_and_one_delivery() {
    let mut service = service();
    confirmed_subscriber(&mut service, "Bob Banjo", "bob_banjo@gmail.com");
    let sent = service.outbox().len();
    let mut other = issue_form("K1");
    other.title = "Another title".to_string();
    let first = service.publish(Some(7), issue_form("K1")).unwrap();
    let second = service.publish(Some(7), other).unwrap();
    assert_eq!(first.response.status, second.response.status);
    assert_eq!(first.response.body, second.response.body);
    service.run_worker_until_stopped(ACCEPTED);
    assert_eq!(service.outbox().len(), sent + 1);
    assert_eq!(service.outbox().last().unwrap().subject, "T");
}

#[test]
fn idempotency_keys_are_scoped_by_user() {
    let mut service = service();
    confirmed_subscriber(&mut service, "Bob Banjo", "bob_banjo@gmail.com");
    service.publish(Some(7), issue_form("K1")).unwrap();
    service.publish(Some(8), issue_form("K1")).unwrap();
    assert_eq!(service.store().newsletter_issues.len(), 2);
    assert_eq!(service.store().issue_delivery_queue.len(), 2);
    assert_eq!(service.store().idempotency.len(), 2);
}

#[test]
fn publishing_queues_one_task_for_each_confirmed_subscriber() {
    let mut service = service();
    confirmed_subscriber(&mut service, "Ann", "ann@example.com");
    service
        .subscribe(form("Pending", "pending@example.com"), ACCEPTED)
        .unwrap();
    confirmed_subscriber(&mut service, "Bob", "bob@example.com");
    confirmed_subscriber(&mut service, "Cid", "cid@example.com");
    service.publish(Some(7), issue_form("K1")).unwrap();
    let queued: Vec<&str> = service
        .store()
        .issue_delivery_queue
        .iter()
        .map(|t| t.subscriber_email.as_str())
        .collect();
    assert_eq!(
        queued,
        vec!["ann@example.com", "bob@example.com", "cid@example.com"]
    );
    let issue = service.store().newsletter_issues[0].newsletter_issue_id;
    assert!(service
        .store()
        .issue_delivery_queue
        .iter()
        .all(|t| t.newsletter_issue_id == issue));
}

#[test]
fn unauthorized_requests_are_redirected_to_login() {
    let mut service = service();
    confirmed_subscriber(&mut service, "Bob Banjo", "bob_banjo@gmail.com");
    let reply = service.publish(None, issue_form("K1")).unwrap();
    assert_eq!(reply.response.status, 303);
    assert_eq!(location(&reply.response), "/login");
    assert!(reply.flash.is_none());
    assert!(service.store().newsletter_issues.is_empty());
    assert!(service.store().issue_delivery_queue.is_empty());
    assert!(service.store().idempotency.is_empty());
}

#[test]
fn publish_with_a_malformed_key_flashes_an_error_and_writes_nothing() {
    for key in ["".to_string(), "k".repeat(51)] {
        let mut service = service();
        confirmed_subscriber(&mut service, "Bob Banjo", "bob_banjo@gmail.com");
        let reply = service.publish(Some(7), issue_form(&key)).unwrap();
        assert_eq!(reply.response.status, 303);
        assert_eq!(location(&reply.response), "/admin/newsletters");
        let flash = reply.flash.unwrap();
        assert_eq!(flash.level, Level::Error);
        assert!(flash.message.starts_with("Something went wrong: The idempotency key"));
        assert!(service.store().newsletter_issues.is_empty());
        assert!(service.store().issue_delivery_queue.is_empty());
        assert!(service.store().idempotency.is_empty());
    }
    let mut service = service();
    assert!(service
        .publish(Some(7), issue_form(&"k".repeat(50)))
        .unwrap()
        .flash
        .map(|f| f.level == Level::Success)
        .unwrap());
}

#[test]
fn worker_empties_a_queue_of_m_tasks_with_m_calls_to_the_provider() {
    let mut service = service();
    for i in 0..5 {
        confirmed_subscriber(&mut service, "Reader", &format!("reader{}@example.com", i));
    }
    service.publish(Some(7), issue_form("K1")).unwrap();
    service.publish(Some(7), issue_form("K2")).unwrap();
    assert_eq!(service.store().issue_delivery_queue.len(), 10);
    let sent = service.outbox().len();
    let passes = service.run_worker_until_stopped(ACCEPTED);
    assert_eq!(passes, 10);
    assert!(service.store().issue_delivery_queue.is_empty());
    assert_eq!(service.outbox().len(), sent + 10);
    // a further pass finds the queue empty
    let completed = service.deliver(ACCEPTED).unwrap();
    assert_eq!(completed.outcome, ExecutionOutcome::EmptyQueue);
    assert!(completed.skipped.is_none());
}

#[test]
fn worker_drops_a_task_with_an_invalid_email_without_calling_the_provider() {
    let mut store = Store::new();
    store.newsletter_issues.push(IssueRecord {
        newsletter_issue_id: 1,
        title: "T".to_string(),
        text_content: "x".to_string(),
        html_content: "<p>x</p>".to_string(),
    });
    store.issue_delivery_queue.push(DeliveryTask {
        newsletter_issue_id: 1,
        subscriber_email: "not-an-email".to_string(),
    });
    let mut service = service_on(store);
    let completed = service.deliver(ACCEPTED).unwrap();
    assert_eq!(completed.outcome, ExecutionOutcome::TaskCompleted);
    assert!(matches!(completed.skipped, Some(Skipped::InvalidEmail)));
    assert!(service.store().issue_delivery_queue.is_empty());
    assert!(service.outbox().is_empty());
}

#[test]
fn worker_counts_only_the_deliverable_tasks() {
    let mut service = service();
    confirmed_subscriber(&mut service, "Ann", "ann@example.com");
    service.publish(Some(7), issue_form("K1")).unwrap();
    let mut store = service.into_store();
    let issue = store.newsletter_issues[0].newsletter_issue_id;
    store.issue_delivery_queue.push(DeliveryTask {
        newsletter_issue_id: issue,
        subscriber_email: "not-an-email".to_string(),
    });
    let mut service = service_on(store);
    assert_eq!(service.run_worker_until_stopped(ACCEPTED), 2);
    assert!(service.store().issue_delivery_queue.is_empty());
    assert_eq!(service.outbox().len(), 1);
    assert_eq!(service.outbox()[0].to, "ann@example.com");
}

#[test]
fn a_service_starts_only_on_a_sound_store() {
    let row = |id: u128, name: &str, email: &str, status: &str| SubscriberRecord {
        id,
        name: name.to_string(),
        email: email.to_string(),
        status: status.to_string(),
    };
    let token = |id: u128, text: &str| TokenRecord {
        subscription_token: text.to_string(),
        subscriber_id: id,
    };
    let sound = || {
        let mut store = Store::new();
        store
            .subscriptions
            .push(row(1, "Ann", "ann@example.com", "confirmed"));
        store
            .subscriptions
            .push(row(2, "Bob", "bob@example.com", "pending_confirmation"));
        store
            .subscription_tokens
            .push(token(1, "aaaaaaaaaaaaaaaaaaaaaaaaa"));
        store
            .subscription_tokens
            .push(token(2, "bbbbbbbbbbbbbbbbbbbbbbbbb"));
        store
    };
    assert!(sound().is_sound());
    let broken: Vec<fn(&mut Store)> = vec![
        |s| s.subscriptions[1].id = 1,
        |s| s.subscriptions[1].email = "ann@example.com".to_string(),
        |s| s.subscriptions[0].name = " Ann".to_string(),
        |s| s.subscriptions[0].name = "An(n".to_string(),
        |s| s.subscriptions[0].email = "ann".to_string(),
        |s| s.subscriptions[0].status = "Confirmed".to_string(),
        |s| {
            s.subscription_tokens.pop();
        },
        |s| s.subscription_tokens[1].subscription_token = "aaaaaaaaaaaaaaaaaaaaaaaaa".to_string(),
        |s| s.subscription_tokens[1].subscription_token = "short".to_string(),
        |s| s.subscription_tokens[1].subscriber_id = 1,
        |s| s.subscription_tokens.push(TokenRecord {
            subscription_token: "ccccccccccccccccccccccccc".to_string(),
            subscriber_id: 3,
        }),
        |s| s.issue_delivery_queue.push(DeliveryTask {
            newsletter_issue_id: 9,
            subscriber_email: "ann@example.com".to_string(),
        }),
    ];
    for breakage in broken {
        let mut store = sound();
        breakage(&mut store);
        assert!(!store.is_sound());
        assert!(Service::with_store(store, base_url(), client(), FailurePolicy::Drop).is_err());
    }
    let mut service = service_on(sound());
    // the confirmed subscriber gets the issue, the pending one does not
    service.publish(Some(7), issue_form("K1")).unwrap();
    assert_eq!(service.run_worker_until_stopped(ACCEPTED), 1);
    assert_eq!(service.outbox()[0].to, "ann@example.com");
}

#[test]
fn worker_drops_a_task_that_the_provider_refuses_by_default() {
    let mut service = service();
    confirmed_subscriber(&mut service, "Ann", "ann@example.com");
    service.publish(Some(7), issue_form("K1")).unwrap();
    let sent = service.outbox().len();
    let completed = service.deliver(ProviderReply::Status(500)).unwrap();
    assert_eq!(completed.outcome, ExecutionOutcome::TaskCompleted);
    assert!(matches!(completed.skipped, Some(Skipped::NotDelivered(_))));
    assert!(service.store().issue_delivery_queue.is_empty());
    assert_eq!(service.outbox().len(), sent + 1);
}

#[test]
fn worker_keeps_a_task_that_the_provider_refuses_when_told_to_retry() {
    let mut service = service_with(FailurePolicy::Retry);
    confirmed_subscriber(&mut service, "Ann", "ann@example.com");
    service.publish(Some(7), issue_form("K1")).unwrap();
    let sent = service.outbox().len();
    let result = service.deliver(ProviderReply::NoReply);
    assert!(matches!(result, Err(WorkerError::NotDelivered(_))));
    assert_eq!(service.store().issue_delivery_queue.len(), 1);
    assert_eq!(service.outbox().len(), sent + 1);
    // the loop stops at the failure, and a later run delivers
    assert_eq!(service.run_worker_until_stopped(ProviderReply::Status(503)), 0);
    assert_eq!(service.store().issue_delivery_queue.len(), 1);
    assert_eq!(service.run_worker_until_stopped(ACCEPTED), 1);
    assert!(service.store().issue_delivery_queue.is_empty());
}

#[test]
fn worker_gives_up_where_the_provider_url_has_no_path_to_post_to() {
    let sender = Email::parse("newsletter@example.com").unwrap();
    let provider = Url::parse("mailto:provider@example.com").unwrap();
    let client = EmailClient::new(provider, sender, "secret-token".to_string(), 200);
    let mut service = Service::new(base_url(), client, FailurePolicy::Drop);
    confirmed_subscriber(&mut service, "Ann", "ann@example.com");
    service.publish(Some(7), issue_form("K1")).unwrap();
    let sent = service.outbox().len();
    let completed = service.deliver(ACCEPTED).unwrap();
    assert!(matches!(completed.skipped, Some(Skipped::NotDelivered(_))));
    assert_eq!(service.outbox().len(), sent);
    assert!(service.store().issue_delivery_queue.is_empty());
}

#[test]
fn subscribe_fails_where_the_base_url_gives_no_link() {
    let no_base = Url::parse("mailto:someone@example.com").unwrap();
    let mut service = Service::new(no_base, client(), FailurePolicy::Drop);
    let result = service.subscribe(form("Bob", "bob@example.com"), ACCEPTED);
    assert!(matches!(result, Err(SubscribeError::UnexpectedError(_))));
    assert!(service.outbox().is_empty());
    // the subscriber was committed before the email
    assert_eq!(service.store().subscriptions.len(), 1);
}
