//! Newsletter subscriptions: validated subscriber values, the confirmation
//! workflow's decisions, credential checks and newsletter dispatch.
pub mod authentication;
pub mod configuration;
pub mod email_client;
pub mod new_subscriber;
pub mod newsletters;
pub mod password;
pub mod subscriber_email;
pub mod subscriber_name;
pub mod subscriber_token;
pub mod subscriptions;
pub mod subscriptions_confirm;
pub mod text;

pub use authentication::{
    basic_authentication, parse_basic_credentials, validate_credentials, verify_password_hash, AuthError,
    BasicAuthError, Credentials,
};
pub use configuration::{DatabaseSettings, Settings};
pub use new_subscriber::{NewSubscriber, SubscribeFormData};
pub use newsletters::{BodyData, ConfirmedSubscriber, PublishAction, StoredSubscription};
pub use password::{check_new_password, ChangePasswordError};
pub use subscriber_email::SubscriberEmail;
pub use subscriber_name::SubscriberName;
pub use subscriber_token::SubscriberToken;
pub use subscriptions::{SubscribeError, SubscribeStep, SubscriptionStatus};
pub use subscriptions_confirm::{ConfirmError, Parameters};
