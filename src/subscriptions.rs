//! Subscribing: the error taxonomy, the stored status of a subscription, the
//! order of the steps that record a new subscriber, and the confirmation email.
use vstd::prelude::*;

verus! {

/// Why a subscription request failed.
pub enum SubscribeError {
    /// The name or email was malformed; the text says which.
    ValidationError(String),
    /// A step outside the caller's control failed; the text says which.
    UnexpectedError(String),
}

impl SubscribeError {
    /// The HTTP status the failure is answered with.
    pub fn status_code(&self) -> (r: u16)
        ensures
            self is ValidationError ==> r == 400,
            self is UnexpectedError ==> r == 500,
    {
        match self {
            SubscribeError::ValidationError(_) => 400,
            SubscribeError::UnexpectedError(_) => 500,
        }
    }

    /// The failure's text.
    pub fn message(&self) -> (r: &str)
        ensures
            self matches SubscribeError::ValidationError(m) ==> r@ == m@,
            self matches SubscribeError::UnexpectedError(m) ==> r@ == m@,
    {
        match self {
            SubscribeError::ValidationError(m) => m.as_str(),
            SubscribeError::UnexpectedError(m) => m.as_str(),
        }
    }
}

impl From<String> for SubscribeError {
    fn from(e: String) -> (r: SubscribeError) {
        SubscribeError::ValidationError(e)
    }
}

impl vstd::std_specs::convert::FromSpecImpl<String> for SubscribeError {
    open spec fn obeys_from_spec() -> bool {
        true
    }

    open spec fn from_spec(e: String) -> SubscribeError {
        SubscribeError::ValidationError(e)
    }
}

/// The lifecycle state of a stored subscription.
#[derive(Debug, Clone, Copy, PartialEq, Eq, Structural)]
pub enum SubscriptionStatus {
    PendingConfirmation,
    Confirmed,
}

/// How each status is written in the store.
pub open spec fn status_text(s: SubscriptionStatus) -> Seq<char> {
    match s {
        SubscriptionStatus::PendingConfirmation => "pending_confirmation"@,
        SubscriptionStatus::Confirmed => "confirmed"@,
    }
}

impl SubscriptionStatus {
    /// The status as written in the store.
    pub fn as_str(&self) -> (r: &'static str)
        ensures
            r@ == status_text(*self),
    {
        match self {
            SubscriptionStatus::PendingConfirmation => "pending_confirmation",
            SubscriptionStatus::Confirmed => "confirmed",
        }
    }
}

/// The steps that record a new subscriber, each of which can fail.
#[derive(Debug, Clone, Copy, PartialEq, Eq, Structural)]
pub enum SubscribeStep {
    AcquireConnection,
    InsertSubscriber,
    StoreToken,
    Commit,
    SendConfirmation,
}

/// What a failure at each step is reported as.
pub open spec fn step_failure(s: SubscribeStep) -> Seq<char> {
    match s {
        SubscribeStep::AcquireConnection => "Failed to acquire a connection from the pool."@,
        SubscribeStep::InsertSubscriber => "Failed to insert new subscriber in the database."@,
        SubscribeStep::StoreToken => "Failed to store the confirmation token for a new subscriber."@,
        SubscribeStep::Commit => "Failed to commit SQL transaction to store a new subscriber."@,
        SubscribeStep::SendConfirmation => "Failed to send a confirmation email."@,
    }
}

impl SubscribeStep {
    /// The error a failure at this step ends the request with.
    pub fn failure(&self) -> (r: SubscribeError)
        ensures
            r matches SubscribeError::UnexpectedError(m) && m@ == step_failure(*self),
    {
        let m = match self {
            SubscribeStep::AcquireConnection => "Failed to acquire a connection from the pool.",
            SubscribeStep::InsertSubscriber => "Failed to insert new subscriber in the database.",
            SubscribeStep::StoreToken => "Failed to store the confirmation token for a new subscriber.",
            SubscribeStep::Commit => "Failed to commit SQL transaction to store a new subscriber.",
            SubscribeStep::SendConfirmation => "Failed to send a confirmation email.",
        };
        SubscribeError::UnexpectedError(String::from_str(m))
    }
}

/// The path and query, before the token, of a confirmation link.
pub open spec fn confirm_path() -> Seq<char> {
    "/subscriptions/confirm?subscription_token="@
}

/// The link that confirms the subscription holding `token`.
pub open spec fn confirmation_link_text(base_url: Seq<char>, token: Seq<char>) -> Seq<char> {
    base_url + confirm_path() + token
}

/// The HTML body of the confirmation email for `link`.
pub open spec fn confirmation_html(link: Seq<char>) -> Seq<char> {
    "Welcome to our newsletter!<br/>Click <a href=\""@ + link + "\">here</a> to confirm your subscription."@
}

/// The plain-text body of the confirmation email for `link`.
pub open spec fn confirmation_text(link: Seq<char>) -> Seq<char> {
    "Welcome to our newsletter!\nVisit "@ + link + " to confirm your subscription."@
}

/// The link that confirms the subscription holding `token`.
pub fn confirmation_link(base_url: &str, token: &str) -> (r: String)
    ensures
        r@ == confirmation_link_text(base_url@, token@),
{
    let mut link = String::from_str(base_url);
    link.append("/subscriptions/confirm?subscription_token=");
    link.append(token);
    link
}

/// The email that asks a new subscriber to confirm.
pub struct ConfirmationEmail {
    pub subject: String,
    pub html_body: String,
    pub plain_body: String,
}

/// The confirmation email for the subscription holding `token`: subject
/// `Welcome`, and both bodies carrying the confirmation link.
pub fn confirmation_email(base_url: &str, token: &str) -> (r: ConfirmationEmail)
    ensures
        r.subject@ == "Welcome"@,
        r.html_body@ == confirmation_html(confirmation_link_text(base_url@, token@)),
        r.plain_body@ == confirmation_text(confirmation_link_text(base_url@, token@)),
{
    let link = confirmation_link(base_url, token);
    let mut html_body = String::from_str("Welcome to our newsletter!<br/>Click <a href=\"");
    html_body.append(link.as_str());
    html_body.append("\">here</a> to confirm your subscription.");
    let mut plain_body = String::from_str("Welcome to our newsletter!\nVisit ");
    plain_body.append(link.as_str());
    plain_body.append(" to confirm your subscription.");
    ConfirmationEmail { subject: String::from_str("Welcome"), html_body, plain_body }
}

} // verus!
