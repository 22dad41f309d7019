//! Publishing an issue: the form, and the steps from a submitted form to the
//! queue of deliveries, made safe to repeat by the idempotency key.

use crate::authentication::{reject_anonymous_users, UserId};
use crate::database::{IssueRecord, IssueRow};
use crate::domain::subscription::status_text;
use crate::domain::SubscriptionStatus;
use crate::http::{redirect_view, Flash, FlashView, Level, Response, ResponseView};
use crate::idempotency::key::{key_error, key_is_valid};
use crate::idempotency::persistence::{
    columns_of_response, opt_row, saved_response, IdempotencyRow, PersistenceError,
};
use crate::idempotency::{
    save_response, try_processing, IdempotencyKey, IdempotencyRecord, NextAction,
};
use crate::routes::handler_response::HandlerResponse;
use crate::store::rows;
use crate::template::{admin_newsletter_html, format_uuid, message_entry, uuid_text, Page};
use crate::utils::{
    e500, get_success_and_error_flash_message, message_of_level, InternalServerError,
};
use uuid::Uuid;
use vstd::prelude::*;

verus! {

/// The form with which an editor publishes an issue.
#[derive(Debug)]
pub struct NewsletterFormData {
    pub title: String,
    pub html_content: String,
    pub text_content: String,
    pub idempotency_key: String,
}

/// An issue on its way into the store: who publishes it, under which key,
/// and what it says.
#[derive(Debug)]
pub struct Publication {
    pub user_id: UserId,
    pub idempotency_key: IdempotencyKey,
    pub title: String,
    pub text_content: String,
    pub html_content: String,
}

/// A `Publication` as mathematics.
pub struct PublicationView {
    pub user_id: u128,
    pub idempotency_key: Seq<char>,
    pub title: Seq<char>,
    pub text_content: Seq<char>,
    pub html_content: Seq<char>,
}

impl View for Publication {
    type V = PublicationView;

    open spec fn view(&self) -> PublicationView {
        PublicationView {
            user_id: self.user_id.0,
            idempotency_key: self.idempotency_key@,
            title: self.title@,
            text_content: self.text_content@,
            html_content: self.html_content@,
        }
    }
}

/// The answer to a request to publish: the response, and the message for the
/// next page where there is one.
#[derive(Debug)]
pub struct PublishReply {
    pub response: Response,
    pub flash: Option<Flash>,
}

/// A `PublishReply` as mathematics.
pub struct PublishReplyView {
    pub response: ResponseView,
    pub flash: Option<FlashView>,
}

impl View for PublishReply {
    type V = PublishReplyView;

    open spec fn view(&self) -> PublishReplyView {
        PublishReplyView {
            response: self.response@,
            flash: match self.flash {
                Some(flash) => Some(flash@),
                None => None,
            },
        }
    }
}

/// The answer to a request without a logged-in user: to `/login`, no
/// message.
pub open spec fn login_reply() -> PublishReplyView {
    PublishReplyView { response: redirect_view("/login"@), flash: None }
}

/// The answer to a request whose key is refused: back to the form, with the
/// reason as a message of failure.
pub open spec fn malformed_reply(key: Seq<char>) -> PublishReplyView {
    PublishReplyView {
        response: redirect_view("/admin/newsletters"@),
        flash: Some(
            FlashView { level: Level::Error, message: "Something went wrong: "@ + key_error(key) },
        ),
    }
}

/// The answer that gives `response` with the message of success: for the
/// request that published, and for every repetition of it.
pub open spec fn published_reply(response: ResponseView) -> PublishReplyView {
    PublishReplyView {
        response,
        flash: Some(
            FlashView { level: Level::Success, message: "Newsletter successfully published"@ },
        ),
    }
}

/// The response that the first request under a key gives, and that is kept
/// under the key: back to the form.
pub open spec fn publish_response() -> ResponseView {
    redirect_view("/admin/newsletters"@)
}

/// `uuid::Uuid::new_v4`: a fresh random identifier, as a number.
/// Trusted: nothing is claimed of the number.
#[verifier::external_body]
pub(crate) fn new_issue_id() -> (id: u128)
{
    Uuid::new_v4().as_u128()
}

/// Where the handling of one request to publish stands.
#[derive(Debug)]
pub enum PublishState {
    /// Nothing has happened yet.
    Received,
    /// A transaction is open and the key is being reserved in it.
    Reserving(Publication),
    /// The key was taken; the row under it is being fetched.
    Looking(Publication),
    /// The issue is being inserted under the given identifier.
    InsertingIssue(Publication, u128),
    /// One delivery task for each confirmed subscriber is being inserted.
    Enqueueing(Publication),
    /// The response is being saved under the key and the transaction
    /// committed.
    Saving(Response),
    /// The request has been answered.
    Finished,
}

/// What the outside reports back after an action.
#[derive(Debug)]
pub enum PublishEvent {
    /// The form arrived, from the user that the session names, if any.
    Request { user_id: Option<u128>, form: NewsletterFormData },
    /// The insert that reserves the key inserted this many rows.
    Reserved(u64),
    /// The row under the key, where there is one.
    Saved(Option<IdempotencyRecord>),
    /// The action succeeded, and has nothing to report.
    Done,
    /// The action failed.
    Failed,
}

/// What the outside is asked to do next.
#[derive(Debug)]
pub enum PublishAction {
    /// Open a transaction and insert a row for this user and key with no
    /// answer, doing nothing where such a row exists.
    Reserve { user_id: u128, idempotency_key: String },
    /// Outside the transaction, fetch the row of this user and key.
    FetchSaved { user_id: u128, idempotency_key: String },
    /// In the transaction, insert this issue.
    InsertIssue(IssueRecord),
    /// In the transaction, insert into the queue one task of this issue for
    /// each subscriber whose stored status is `status`.
    Enqueue { newsletter_issue_id: u128, status: String },
    /// In the transaction, write the answer of this row into the row of the
    /// same user and key; then commit.
    SaveResponse(IdempotencyRecord),
    /// Answer the request; what is still open is rolled back.
    Finish(Result<PublishReply, InternalServerError>),
}

/// The step ended the request with an internal error of this cause.
pub open spec fn publish_failed(post: PublishState, action: PublishAction, cause: Seq<char>) -> bool {
    &&& post is Finished
    &&& action matches PublishAction::Finish(Err(e))
    &&& e.0@ == cause
}

/// The step ended the request with this reply.
pub open spec fn publish_replied(
    post: PublishState,
    action: PublishAction,
    reply: PublishReplyView,
) -> bool {
    &&& post is Finished
    &&& action matches PublishAction::Finish(Ok(r))
    &&& r@ == reply
}

/// The message of a `PersistenceError`.
pub open spec fn persistence_message(e: PersistenceError) -> Seq<char> {
    match e {
        PersistenceError::InvalidStatusCode => "The saved status code is invalid"@,
        PersistenceError::TornResponse => "The saved response is incomplete"@,
        PersistenceError::MissingResponse => "Cannot find expected saved response"@,
    }
}

/// What one step of publishing does: from the state `pre` and the event
/// `event` to the state `post` and the action `action`.
pub open spec fn publish_step_spec(
    pre: PublishState,
    event: PublishEvent,
    post: PublishState,
    action: PublishAction,
) -> bool {
    match pre {
        PublishState::Received => match event {
            PublishEvent::Request { user_id: None, form } => publish_replied(
                post,
                action,
                login_reply(),
            ),
            PublishEvent::Request { user_id: Some(id), form } => if key_is_valid(
                form.idempotency_key@,
            ) {
                &&& post matches PublishState::Reserving(p)
                &&& p@ == (PublicationView {
                    user_id: id,
                    idempotency_key: form.idempotency_key@,
                    title: form.title@,
                    text_content: form.text_content@,
                    html_content: form.html_content@,
                })
                &&& action matches PublishAction::Reserve { user_id, idempotency_key }
                &&& user_id == id
                &&& idempotency_key@ == form.idempotency_key@
            } else {
                publish_replied(post, action, malformed_reply(form.idempotency_key@))
            },
            _ => publish_failed(post, action, "Unexpected event"@),
        },
        PublishState::Reserving(p) => match event {
            PublishEvent::Reserved(rows) => if rows > 0 {
                &&& post matches PublishState::InsertingIssue(p2, id)
                &&& p2@ == p@
                &&& action matches PublishAction::InsertIssue(issue)
                &&& issue@ == (IssueRow {
                    newsletter_issue_id: id,
                    title: p.title@,
                    text_content: p.text_content@,
                    html_content: p.html_content@,
                })
            } else {
                &&& post matches PublishState::Looking(p2)
                &&& p2@ == p@
                &&& action matches PublishAction::FetchSaved { user_id, idempotency_key }
                &&& user_id == p.user_id.0
                &&& idempotency_key@ == p.idempotency_key@
            },
            _ => publish_failed(post, action, "Failed to reserve the idempotency key"@),
        },
        PublishState::Looking(p) => match event {
            PublishEvent::Saved(record) => match saved_response(opt_row(record)) {
                Ok(Some(response)) => publish_replied(post, action, published_reply(response)),
                Ok(None) => publish_failed(
                    post,
                    action,
                    persistence_message(PersistenceError::MissingResponse),
                ),
                Err(e) => publish_failed(post, action, persistence_message(e)),
            },
            _ => publish_failed(post, action, "Failed to fetch the saved response"@),
        },
        PublishState::InsertingIssue(p, id) => match event {
            PublishEvent::Done => {
                &&& post matches PublishState::Enqueueing(p2)
                &&& p2@ == p@
                &&& action matches PublishAction::Enqueue { newsletter_issue_id, status }
                &&& newsletter_issue_id == id
                &&& status@ == status_text(SubscriptionStatus::Confirmed)
            },
            _ => publish_failed(post, action, "Failed to store newsletter issue details"@),
        },
        PublishState::Enqueueing(p) => match event {
            PublishEvent::Done => {
                &&& post matches PublishState::Saving(response)
                &&& response@ == publish_response()
                &&& action matches PublishAction::SaveResponse(record)
                &&& record@ == (IdempotencyRow {
                    user_id: p.user_id.0,
                    idempotency_key: p.idempotency_key@,
                    response: Some(columns_of_response(publish_response())),
                    torn: false,
                })
            },
            _ => publish_failed(post, action, "Failed to enqueue delivery tasks"@),
        },
        PublishState::Saving(response) => match event {
            PublishEvent::Done => publish_replied(post, action, published_reply(response@)),
            _ => publish_failed(post, action, "Failed to save the response"@),
        },
        PublishState::Finished => publish_failed(post, action, "Unexpected event"@),
    }
}

/// Ends the request with an internal error of the given cause.
fn fail(cause: &str) -> (r: (PublishState, PublishAction))
    ensures
        publish_failed(r.0, r.1, cause@),
{
    (PublishState::Finished, PublishAction::Finish(Err(e500(cause))))
}

/// Ends the request with `response` and the message of success.
fn reply_published(response: Response) -> (r: (PublishState, PublishAction))
    ensures
        publish_replied(r.0, r.1, published_reply(response@)),
{
    let flash = Flash::success("Newsletter successfully published");
    (
        PublishState::Finished,
        PublishAction::Finish(Ok(PublishReply { response, flash: Some(flash) })),
    )
}

/// One step of publishing an issue. The caller starts in `Received` with the
/// event `Request`, does what each action asks, reports its outcome as the
/// next event, and stops at `Finish`.
///
/// A request without a user is sent to `/login`; one with a refused key is
/// sent back to the form with a message. Otherwise the key is reserved in a
/// new transaction. Where it was free, the issue is inserted under a fresh
/// identifier, one delivery task is queued for each confirmed subscriber, the
/// response is saved under the key, and all of it is committed together.
/// Where the key was taken, the answer kept under it is given, and nothing is
/// written. Any failure of the outside ends the request with an internal
/// error, and nothing is committed: no answer is kept for a request that
/// failed.
pub fn publish_newsletter_with_idempotent_handling(state: PublishState, event: PublishEvent) -> (r:
    (PublishState, PublishAction))
    ensures
        publish_step_spec(state, event, r.0, r.1),
{
    match state {
        PublishState::Received => match event {
            PublishEvent::Request { user_id, form } => {
                let user_id = match reject_anonymous_users(user_id) {
                    Ok(user_id) => user_id,
                    Err(response) => {
                        return (
                            PublishState::Finished,
                            PublishAction::Finish(Ok(PublishReply { response, flash: None })),
                        );
                    },
                };
                match IdempotencyKey::try_from(form.idempotency_key) {
                    Err(reason) => {
                        let message = e500(reason.as_str()).to_string();
                        let flash = Flash::error(message.as_str());
                        (
                            PublishState::Finished,
                            PublishAction::Finish(
                                Ok(
                                    PublishReply {
                                        response: Response::redirect("/admin/newsletters"),
                                        flash: Some(flash),
                                    },
                                ),
                            ),
                        )
                    },
                    Ok(idempotency_key) => {
                        let key = idempotency_key.as_str().to_owned();
                        let publication = Publication {
                            user_id,
                            idempotency_key,
                            title: form.title,
                            text_content: form.text_content,
                            html_content: form.html_content,
                        };
                        (
                            PublishState::Reserving(publication),
                            PublishAction::Reserve { user_id: user_id.0, idempotency_key: key },
                        )
                    },
                }
            },
            _ => fail("Unexpected event"),
        },
        PublishState::Reserving(publication) => match event {
            PublishEvent::Reserved(rows) => match try_processing(rows, None) {
                Ok(NextAction::StartProcessing) => publish_newsletter(publication),
                _ => {
                    let idempotency_key = publication.idempotency_key.as_str().to_owned();
                    let user_id = publication.user_id.0;
                    (
                        PublishState::Looking(publication),
                        PublishAction::FetchSaved { user_id, idempotency_key },
                    )
                },
            },
            _ => fail("Failed to reserve the idempotency key"),
        },
        PublishState::Looking(_) => match event {
            PublishEvent::Saved(record) => match try_processing(0, record) {
                Ok(NextAction::ReturnSavedResponse(saved)) => reply_published(saved),
                Ok(NextAction::StartProcessing) => fail("Unexpected event"),
                Err(e) => {
                    let cause = e.to_string();
                    fail(cause.as_str())
                },
            },
            _ => fail("Failed to fetch the saved response"),
        },
        PublishState::InsertingIssue(publication, id) => match event {
            PublishEvent::Done => (
                PublishState::Enqueueing(publication),
                PublishAction::Enqueue {
                    newsletter_issue_id: id,
                    status: SubscriptionStatus::Confirmed.to_string(),
                },
            ),
            _ => fail("Failed to store newsletter issue details"),
        },
        PublishState::Enqueueing(publication) => match event {
            PublishEvent::Done => {
                let response = Response::redirect("/admin/newsletters");
                match save_response(
                    publication.user_id.0,
                    publication.idempotency_key.as_str(),
                    &response,
                ) {
                    Ok(record) => (
                        PublishState::Saving(response),
                        PublishAction::SaveResponse(record),
                    ),
                    Err(_) => fail("Failed to save the response"),
                }
            },
            _ => fail("Failed to enqueue delivery tasks"),
        },
        PublishState::Saving(response) => match event {
            PublishEvent::Done => reply_published(response),
            _ => fail("Failed to save the response"),
        },
        PublishState::Finished => fail("Unexpected event"),
    }
}

/// Starts the work of publishing: the issue, under a fresh identifier, to be
/// inserted.
fn publish_newsletter(publication: Publication) -> (r: (PublishState, PublishAction))
    ensures
        r.0 matches PublishState::InsertingIssue(p, id) && p@ == publication@ && (
        r.1 matches PublishAction::InsertIssue(issue) && issue@ == (IssueRow {
            newsletter_issue_id: id,
            title: publication.title@,
            text_content: publication.text_content@,
            html_content: publication.html_content@,
        })),
{
    let id = new_issue_id();
    let issue = IssueRecord {
        newsletter_issue_id: id,
        title: publication.title.clone(),
        text_content: publication.text_content.clone(),
        html_content: publication.html_content.clone(),
    };
    (PublishState::InsertingIssue(publication, id), PublishAction::InsertIssue(issue))
}

/// What is sent back for a request to publish.
#[derive(Debug)]
pub enum PublishAnswer {
    /// The reply of the request.
    Reply(PublishReply),
    /// 500: the request failed on our side.
    Failed(HandlerResponse),
}

/// What is sent back for a request to publish that ended with `result`: its
/// reply, or 500 with "Something went wrong" where it failed.
pub fn publish_newsletter_with_flash(result: Result<PublishReply, InternalServerError>) -> (r:
    PublishAnswer)
    ensures
        match result {
            Ok(reply) => r == PublishAnswer::Reply(reply),
            Err(_) => r matches PublishAnswer::Failed(response) && response.status_code
                == crate::http::INTERNAL_SERVER_ERROR && response.message@
                == "Something went wrong"@,
        },
{
    match result {
        Ok(reply) => PublishAnswer::Reply(reply),
        Err(e) => PublishAnswer::Failed(e.into_response()),
    }
}

/// The form for publishing an issue, with the messages that the last request
/// left, under a fresh random key.
pub fn publish_newsletter_form(flashes: &Vec<Flash>) -> (r: Page)
    ensures
        r@.template == "admin/newsletter.html"@,
        exists|id: u128|
            r@.context == seq![("idempotency_key"@, #[trigger] uuid_text(id))] + message_entry(
                message_of_level(rows(flashes@), Level::Success),
                message_of_level(rows(flashes@), Level::Error),
            ),
{
    let (success_msg, error_msg) = get_success_and_error_flash_message(flashes);
    let id = new_issue_id();
    let r = admin_newsletter_html(success_msg, error_msg, format_uuid(id));
    assert(r@.context == seq![("idempotency_key"@, uuid_text(id))] + message_entry(
        message_of_level(rows(flashes@), Level::Success),
        message_of_level(rows(flashes@), Level::Error),
    ));
    r
}

/// The issue, its tasks and the kept answer are written in one transaction,
/// in this order, and the transaction is committed only together with the
/// answer: the answer is saved after the tasks were queued, the tasks after
/// the issue was inserted, the issue after the key was reserved; and the
/// request succeeds only after the commit, or as a repetition that writes
/// nothing.
pub proof fn law_publication_is_committed_with_its_answer(
    pre: PublishState,
    event: PublishEvent,
    post: PublishState,
    action: PublishAction,
)
    requires
        publish_step_spec(pre, event, post, action),
    ensures
        action is InsertIssue ==> pre is Reserving && (event matches PublishEvent::Reserved(rows)
            && rows > 0),
        action is Enqueue ==> pre is InsertingIssue && event is Done,
        action is SaveResponse ==> pre is Enqueueing && event is Done,
        action matches PublishAction::Finish(Ok(reply)) && reply@.flash matches Some(flash)
            && flash.level == Level::Success ==> (pre is Saving && event is Done) || (pre
            is Looking && event is Saved),
{
}

/// A request that finds its key taken and reads the row that another request
/// saved under it answers exactly as that request did: same status, same
/// headers, same body, same message. This holds whenever the row is read,
/// and so for any two requests under one key that the store puts in order:
/// the store lets only one of them reserve the key, and shows the other the
/// row of the first once the first has committed.
pub proof fn law_repetition_answers_as_the_first_request(
    first: Publication,
    first_saving: PublishState,
    saved: PublishAction,
    first_finished: PublishState,
    first_answer: PublishAction,
    second: Publication,
    found: IdempotencyRecord,
    second_finished: PublishState,
    second_answer: PublishAction,
)
    requires
        publish_step_spec(
            PublishState::Enqueueing(first),
            PublishEvent::Done,
            first_saving,
            saved,
        ),
        publish_step_spec(first_saving, PublishEvent::Done, first_finished, first_answer),
        saved matches PublishAction::SaveResponse(record) && record@ == found@,
        publish_step_spec(
            PublishState::Looking(second),
            PublishEvent::Saved(Some(found)),
            second_finished,
            second_answer,
        ),
    ensures
        first_answer matches PublishAction::Finish(Ok(a)) && (
        second_answer matches PublishAction::Finish(Ok(b)) && b@ == a@),
{
    crate::idempotency::persistence::law_saved_answer_is_read_back(
        first.user_id.0,
        first.idempotency_key@,
        publish_response(),
    );
}

/// The most steps that a request in the state `state` still takes.
pub open spec fn publish_steps_left(state: PublishState) -> nat {
    match state {
        PublishState::Received => 6,
        PublishState::Reserving(_) => 5,
        PublishState::Looking(_) => 1,
        PublishState::InsertingIssue(_, _) => 4,
        PublishState::Enqueueing(_) => 3,
        PublishState::Saving(_) => 1,
        PublishState::Finished => 0,
    }
}

/// Every request is answered: each step either ends the request or leaves
/// fewer steps to take, whatever the outside reports. A request takes at
/// most six steps.
pub proof fn law_publish_ends(
    pre: PublishState,
    event: PublishEvent,
    post: PublishState,
    action: PublishAction,
)
    requires
        publish_step_spec(pre, event, post, action),
    ensures
        action is Finish <==> post is Finished,
        !(action is Finish) ==> publish_steps_left(post) < publish_steps_left(pre),
{
}

} // verus!
