//! The requests that the service answers: what each one decides, step by
//! step, between one piece of outside work and the next.

pub mod admin;
pub mod email;
pub mod handler_response;
pub mod health_check;
pub mod index;
pub mod login;
pub mod newsletters;
pub mod subscriptions;
pub mod subscriptions_confirm;

pub use admin::dashboard::{admin_dashboard, AdminDashboardError};
pub use admin::logout::admin_logout;
pub use admin::newsletters::{
    publish_newsletter_form, publish_newsletter_with_flash,
    publish_newsletter_with_idempotent_handling, NewsletterFormData, PublishReply,
};
pub use admin::password::{
    change_password, change_password_form, change_password_with_flash, ChangePasswordError,
    ChangePasswordFormData,
};
pub use email::{fake_email, EmailRequest};
pub use handler_response::HandlerResponse;
pub use health_check::health_check;
pub use index::index;
pub use login::{login, login_form, login_with_flash, LoginError, LoginFormData};
pub use newsletters::{publish_newsletter, BodyData, Content, PublishError};
pub use subscriptions::{
    subscribe, subscribe_with_flash, FormDataError, SubscribeError, SubscribeFormData,
};
pub use subscriptions_confirm::{confirm, ConfirmSubscriptionError, Parameters};
