//! The rows of the tables that the service keeps, as plain values.

use vstd::prelude::*;

verus! {

/// A row of `subscriptions`, as it is stored: the status is text.
#[derive(Debug)]
pub struct SubscriberRecord {
    pub id: u128,
    pub name: String,
    pub email: String,
    pub status: String,
}

/// A `SubscriberRecord` as mathematics.
pub struct SubscriberRow {
    pub id: u128,
    pub name: Seq<char>,
    pub email: Seq<char>,
    pub status: Seq<char>,
}

impl View for SubscriberRecord {
    type V = SubscriberRow;

    open spec fn view(&self) -> SubscriberRow {
        SubscriberRow { id: self.id, name: self.name@, email: self.email@, status: self.status@ }
    }
}

impl Clone for SubscriberRecord {
    fn clone(&self) -> (r: Self)
        ensures
            r@ == self@,
    {
        SubscriberRecord {
            id: self.id,
            name: self.name.clone(),
            email: self.email.clone(),
            status: self.status.clone(),
        }
    }
}

/// A row of `subscription_tokens`.
#[derive(Debug)]
pub struct TokenRecord {
    pub subscription_token: String,
    pub subscriber_id: u128,
}

/// A `TokenRecord` as mathematics.
pub struct TokenRow {
    pub subscription_token: Seq<char>,
    pub subscriber_id: u128,
}

impl View for TokenRecord {
    type V = TokenRow;

    open spec fn view(&self) -> TokenRow {
        TokenRow {
            subscription_token: self.subscription_token@,
            subscriber_id: self.subscriber_id,
        }
    }
}

impl Clone for TokenRecord {
    fn clone(&self) -> (r: Self)
        ensures
            r@ == self@,
    {
        TokenRecord {
            subscription_token: self.subscription_token.clone(),
            subscriber_id: self.subscriber_id,
        }
    }
}

/// A row of `newsletter_issues`. An issue never changes once it is stored.
#[derive(Debug)]
pub struct IssueRecord {
    pub newsletter_issue_id: u128,
    pub title: String,
    pub text_content: String,
    pub html_content: String,
}

/// An `IssueRecord` as mathematics.
pub struct IssueRow {
    pub newsletter_issue_id: u128,
    pub title: Seq<char>,
    pub text_content: Seq<char>,
    pub html_content: Seq<char>,
}

impl View for IssueRecord {
    type V = IssueRow;

    open spec fn view(&self) -> IssueRow {
        IssueRow {
            newsletter_issue_id: self.newsletter_issue_id,
            title: self.title@,
            text_content: self.text_content@,
            html_content: self.html_content@,
        }
    }
}

impl Clone for IssueRecord {
    fn clone(&self) -> (r: Self)
        ensures
            r@ == self@,
    {
        IssueRecord {
            newsletter_issue_id: self.newsletter_issue_id,
            title: self.title.clone(),
            text_content: self.text_content.clone(),
            html_content: self.html_content.clone(),
        }
    }
}

/// A row of `issue_delivery_queue`: one issue still to be sent to one
/// address.
#[derive(Debug)]
pub struct DeliveryTask {
    pub newsletter_issue_id: u128,
    pub subscriber_email: String,
}

/// A `DeliveryTask` as mathematics.
pub struct DeliveryRow {
    pub newsletter_issue_id: u128,
    pub subscriber_email: Seq<char>,
}

impl View for DeliveryTask {
    type V = DeliveryRow;

    open spec fn view(&self) -> DeliveryRow {
        DeliveryRow {
            newsletter_issue_id: self.newsletter_issue_id,
            subscriber_email: self.subscriber_email@,
        }
    }
}

impl Clone for DeliveryTask {
    fn clone(&self) -> (r: Self)
        ensures
            r@ == self@,
    {
        DeliveryTask {
            newsletter_issue_id: self.newsletter_issue_id,
            subscriber_email: self.subscriber_email.clone(),
        }
    }
}

} // verus!
