use newsletter::domain::name::MAX_LENGTH;
use newsletter::domain::{
    Email, Name, ParseSubscriptionTokenError, SubscriberEmail, SubscriptionStatus,
    SubscriptionToken, Url,
};

#[test]
fn email_empty_email_is_rejected() {
    let email = "";
    assert!(Email::parse(email).is_err());
}

#[test]
fn email_email_missing_at_symbol_is_rejected() {
    let email = "mydomain.com";
    assert!(Email::parse(email).is_err());
}

#[test]
fn email_email_missing_subject_is_rejected() {
    let email = "@domain.com";
    assert!(Email::parse(email).is_err());
}

#[test]
fn valid_email_is_parsed_and_kept_as_it_is() {
    let email = Email::parse("bob_banjo@gmail.com").unwrap();
    assert_eq!(email.as_str(), "bob_banjo@gmail.com");
    assert_eq!(email.to_string(), "bob_banjo@gmail.com");
}

#[test]
fn whitespace_only_email_is_rejected() {
    assert!(Email::parse(" ").is_err());
    assert!(Email::parse("\t\n").is_err());
}

#[test]
fn rejected_email_is_named_in_the_message() {
    let error = Email::parse("mydomain.com").unwrap_err();
    assert_eq!(error.as_str(), "mydomain.com is not a valid subscriber email.");
    assert_eq!(error.to_string(), "mydomain.com is not a valid subscriber email.");
}

#[test]
fn grapheme_max_length_long_name_is_valid() {
    let name = "ё".repeat(MAX_LENGTH);
    assert!(Name::parse(&name).is_ok())
}

#[test]
fn name_longer_than_grapheme_max_length_is_rejected() {
    let name = "a".repeat(MAX_LENGTH + 1);
    assert!(Name::parse(&name).is_err())
}

#[test]
fn whitespace_only_name_is_rejected() {
    let name = " ";
    assert!(Name::parse(name).is_err())
}

#[test]
fn empty_string_is_rejected() {
    let name = "";
    assert!(Name::parse(name).is_err());
}

#[test]
fn name_containing_invalid_characters_is_rejected() {
    for name in &['/', '(', ')', '"', '<', '>', '\\', '{', '}'] {
        let name = name.to_string();
        assert!(Name::parse(&name).is_err());
    }
}

#[test]
fn valid_name_is_parsed_successfully() {
    let name = "Le Pomodoro Primo Passo";
    assert!(Name::parse(name).is_ok())
}

#[test]
fn name_is_trimmed() {
    let name = Name::parse("  Bob Banjo \n").unwrap();
    assert_eq!(name.as_str(), "Bob Banjo");
}

#[test]
fn name_of_combining_characters_counts_grapheme_clusters() {
    // 256 clusters of two characters each
    let name = "a\u{30a}".repeat(MAX_LENGTH);
    assert!(Name::parse(&name).is_ok());
    let name = "a\u{30a}".repeat(MAX_LENGTH + 1);
    assert!(Name::parse(&name).is_err());
}

#[test]
fn name_with_a_forbidden_character_inside_is_rejected() {
    let error = Name::parse("Bob <b>Banjo").unwrap_err();
    assert_eq!(error.as_str(), "Bob <b>Banjo is not a valid subscriber name.");
}

#[test]
fn subscriber_email_empty_email_is_rejected() {
    let email = "".to_string();
    assert!(SubscriberEmail::parse(email).is_err());
}

#[test]
fn subscriber_email_email_missing_at_symbol_is_rejected() {
    let email = "mydomain.com".to_string();
    assert!(SubscriberEmail::parse(email).is_err());
}

#[test]
fn subscriber_email_email_missing_subject_is_rejected() {
    let email = "@domain.com".to_string();
    assert!(SubscriberEmail::parse(email).is_err());
}

#[test]
fn subscriber_email_is_parsed_and_kept_as_it_is() {
    let email = SubscriberEmail::parse("ursula_le_guin@gmail.com".to_string()).unwrap();
    assert_eq!(email.as_str(), "ursula_le_guin@gmail.com");
    assert_eq!(
        SubscriberEmail::parse("ursula".to_string()).err(),
        Some("ursula is not a valid subscriber email.".to_string())
    );
}

#[test]
fn subscription_token_that_is_not_alphanumeric_is_rejected() {
    assert!(SubscriptionToken::parse("this=-not!@$alphanumeric").is_err());
}

#[test]
fn subscription_token_that_is_invalid_length_is_rejected() {
    assert!(SubscriptionToken::parse("short").is_err());
    assert!(SubscriptionToken::parse("thisiswaytooooolooooooooooooooooooong11111").is_err());
}

#[test]
fn valid_subscription_token_is_parsed_successfully() {
    assert!(SubscriptionToken::parse("vC8nGu4tq3DwcXu5rhLXa0Y7S").is_ok());
}

#[test]
fn subscription_token_errors_tell_length_from_characters() {
    assert_eq!(
        SubscriptionToken::parse("short").err(),
        Some(ParseSubscriptionTokenError::InvalidLength)
    );
    assert_eq!(
        SubscriptionToken::parse("vC8nGu4tq3DwcXu5rhLXa0Y7").err(),
        Some(ParseSubscriptionTokenError::InvalidLength)
    );
    // 25 characters, one of them no letter and no digit
    assert_eq!(
        SubscriptionToken::parse("vC8nGu4tq3DwcXu5rhLXa0Y7-").err(),
        Some(ParseSubscriptionTokenError::NotAlphanumeric)
    );
    // the characters are looked at before the length
    assert_eq!(
        SubscriptionToken::parse("sh-rt").err(),
        Some(ParseSubscriptionTokenError::NotAlphanumeric)
    );
    assert_eq!(
        ParseSubscriptionTokenError::InvalidLength.to_string(),
        "invalid token length"
    );
    assert_eq!(
        ParseSubscriptionTokenError::NotAlphanumeric.to_string(),
        "token not alphanumeric"
    );
}

#[test]
fn generated_token_has_25_ascii_letters_and_digits_and_parses() {
    for _ in 0..50 {
        let token = SubscriptionToken::generate();
        assert_eq!(token.as_str().chars().count(), 25);
        assert!(token.as_str().chars().all(|c| c.is_ascii_alphanumeric()));
        let parsed = SubscriptionToken::parse(token.as_str()).unwrap();
        assert_eq!(parsed.as_str(), token.as_str());
    }
}

#[test]
fn generated_tokens_differ() {
    let a = SubscriptionToken::generate();
    let b = SubscriptionToken::generate();
    assert_ne!(a.as_str(), b.as_str());
}

#[test]
fn subscription_status_is_stored_as_snake_case_text() {
    assert_eq!(
        SubscriptionStatus::PendingConfirmation.to_string(),
        "pending_confirmation"
    );
    assert_eq!(SubscriptionStatus::Confirmed.to_string(), "confirmed");
    assert_eq!(SubscriptionStatus::Confirmed.as_str(), "confirmed");
}

#[test]
fn subscription_status_is_read_back_whatever_the_case() {
    assert_eq!(
        SubscriptionStatus::try_from("pending_confirmation".to_string()).unwrap(),
        SubscriptionStatus::PendingConfirmation
    );
    assert_eq!(
        SubscriptionStatus::try_from("Confirmed".to_string()).unwrap(),
        SubscriptionStatus::Confirmed
    );
    assert_eq!(
        SubscriptionStatus::try_from("CONFIRMED".to_string()).unwrap(),
        SubscriptionStatus::Confirmed
    );
    let error = SubscriptionStatus::try_from("Unknown".to_string()).unwrap_err();
    assert_eq!(error.as_str(), "unknown is not a valid subscription status");
}

#[test]
fn invalid_url_is_rejected() {
    assert!(Url::parse("this-is-not-a-url").is_err())
}

#[test]
fn valid_url_is_parsed_successfully() {
    assert!(Url::parse("https://some-url.com/hello").is_ok())
}

#[test]
fn url_returns_proper_host_str() {
    let url = Url::parse("http://my-domain.com/do-something").expect("Failed to parse url.");
    assert_eq!(url.host_str().unwrap(), "my-domain.com");
}

#[test]
fn url_returns_proper_path() {
    let url = Url::parse("http://my-domain.com/do-something").expect("Failed to parse url.");
    assert_eq!(url.path(), "/do-something");
}

#[test]
fn url_returns_proper_query_params() {
    let url = Url::parse("http://some-url.co.jp/anime_character?name=sasuke&is_cool=true")
        .expect("Failed to parse url.");
    assert_eq!(
        url.query_params(),
        vec![
            ("name".into(), "sasuke".into()),
            ("is_cool".into(), "true".into())
        ]
    );
}

#[test]
fn url_is_kept_in_the_form_that_the_parser_gives_it() {
    let url = Url::parse("HTTP://My-Domain.com").unwrap();
    assert_eq!(url.as_str(), "http://my-domain.com/");
    assert_eq!(url.to_string(), "http://my-domain.com/");
}

#[test]
fn url_join_and_set_query_build_a_link() {
    let base = Url::parse("http://127.0.0.1:8000").unwrap();
    let mut link = base.join("subscribe/confirm").unwrap();
    assert_eq!(link.as_str(), "http://127.0.0.1:8000/subscribe/confirm");
    link.set_query(Some("subscription_token=abc"));
    assert_eq!(
        link.as_str(),
        "http://127.0.0.1:8000/subscribe/confirm?subscription_token=abc"
    );
    link.set_query(None);
    assert_eq!(link.as_str(), "http://127.0.0.1:8000/subscribe/confirm");
}

#[test]
fn url_without_a_base_cannot_be_joined() {
    let base = Url::parse("mailto:someone@example.com").unwrap();
    assert!(base.join("email").is_err());
    assert_eq!(base.host_str(), None);
}

#[test]
fn url_parse_error_carries_the_message_of_the_parser() {
    let error = Url::parse("this-is-not-a-url").unwrap_err();
    assert_eq!(error.as_str(), "relative URL without a base");
}
