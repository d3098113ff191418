//! Confirming a subscription with the token from its confirmation link.
use crate::subscriber_token::{token_error, valid_token, SubscriberToken, TOKEN_LEN};
use crate::subscriptions::{confirm_path, confirmation_link_text};
use crate::text::trimmed;
use vstd::prelude::*;

verus! {

/// Why a confirmation failed.
pub enum ConfirmError {
    /// The token is malformed.
    ValidationError(String),
    /// The token is well formed but was never issued.
    TokenDoesntExist(String),
    /// A step outside the caller's control failed.
    UnexpectedError(String),
}

impl ConfirmError {
    /// The HTTP status the failure is answered with.
    pub fn status_code(&self) -> (r: u16)
        ensures
            self is ValidationError ==> r == 400,
            self is TokenDoesntExist ==> r == 401,
            self is UnexpectedError ==> r == 500,
    {
        match self {
            ConfirmError::ValidationError(_) => 400,
            ConfirmError::TokenDoesntExist(_) => 401,
            ConfirmError::UnexpectedError(_) => 500,
        }
    }
}

impl From<String> for ConfirmError {
    fn from(e: String) -> (r: ConfirmError) {
        ConfirmError::ValidationError(e)
    }
}

impl vstd::std_specs::convert::FromSpecImpl<String> for ConfirmError {
    open spec fn obeys_from_spec() -> bool {
        true
    }

    open spec fn from_spec(e: String) -> ConfirmError {
        ConfirmError::ValidationError(e)
    }
}

/// The query of a confirmation link.
pub struct Parameters {
    pub subscription_token: String,
}

impl SubscriberToken {
    /// The token carried by a confirmation link's query.
    pub fn try_from_parameters(value: Parameters) -> (r: Result<SubscriberToken, String>)
        ensures
            r is Ok <==> valid_token(trimmed(value.subscription_token@)),
            r matches Ok(t) ==> t@ == trimmed(value.subscription_token@),
            r matches Err(e) ==> e@ == token_error(trimmed(value.subscription_token@)),
    {
        SubscriberToken::parse(value.subscription_token)
    }
}

impl TryFrom<Parameters> for SubscriberToken {
    type Error = String;

    fn try_from(value: Parameters) -> Result<SubscriberToken, String> {
        SubscriberToken::try_from_parameters(value)
    }
}

/// The contract lives on the inherent constructor; the trait promises nothing more.
impl vstd::std_specs::convert::TryFromSpecImpl<Parameters> for SubscriberToken {
    open spec fn obeys_try_from_spec() -> bool {
        false
    }

    open spec fn try_from_spec(v: Parameters) -> Result<SubscriberToken, String> {
        arbitrary()
    }
}

/// Reads a confirmation query: a malformed token is a `ValidationError`.
pub fn parse_confirmation(parameters: Parameters) -> (r: Result<SubscriberToken, ConfirmError>)
    ensures
        r is Ok <==> valid_token(trimmed(parameters.subscription_token@)),
        r matches Ok(t) ==> t@ == trimmed(parameters.subscription_token@),
        r matches Err(e) ==> (e matches ConfirmError::ValidationError(m) && m@ == token_error(
            trimmed(parameters.subscription_token@),
        )),
{
    match SubscriberToken::try_from_parameters(parameters) {
        Ok(t) => Ok(t),
        Err(e) => Err(ConfirmError::ValidationError(e)),
    }
}

/// The text of the error for a token that was never issued.
pub open spec fn unknown_token_message() -> Seq<char> {
    "Subscriber token doesn't exist"@
}

/// The subscriber that the token lookup found; a token that no subscriber
/// holds is a `TokenDoesntExist` failure.
pub fn subscriber_for_token<T>(lookup: Option<T>) -> (r: Result<T, ConfirmError>)
    ensures
        lookup matches Some(id) ==> r == Ok::<T, ConfirmError>(id),
        lookup is None ==> (r matches Err(ConfirmError::TokenDoesntExist(m)) && m@
            == unknown_token_message()),
{
    match lookup {
        Some(id) => Ok(id),
        None => Err(ConfirmError::TokenDoesntExist(String::from_str("Subscriber token doesn't exist"))),
    }
}

/// The steps of a confirmation after the token was read.
#[derive(Debug, Clone, Copy, PartialEq, Eq, Structural)]
pub enum ConfirmStep {
    FetchSubscriber,
    UpdateStatus,
}

/// What a failure at each step is reported as.
pub open spec fn confirm_step_failure(s: ConfirmStep) -> Seq<char> {
    match s {
        ConfirmStep::FetchSubscriber => "Failed to fetch subscriber from token."@,
        ConfirmStep::UpdateStatus => "Failed to update subscriber status."@,
    }
}

impl ConfirmStep {
    /// The error a failure at this step ends the request with.
    pub fn failure(&self) -> (r: ConfirmError)
        ensures
            r matches ConfirmError::UnexpectedError(m) && m@ == confirm_step_failure(*self),
    {
        match self {
            ConfirmStep::FetchSubscriber => ConfirmError::UnexpectedError(
                String::from_str("Failed to fetch subscriber from token."),
            ),
            ConfirmStep::UpdateStatus => ConfirmError::UnexpectedError(
                String::from_str("Failed to update subscriber status."),
            ),
        }
    }
}

/// The token in a confirmation link is accepted when the link is followed:
/// for a token as `generate` makes them, the query value after
/// `subscription_token=` is the token itself, which reads back unchanged.
pub proof fn lemma_confirmation_link_carries_token(base_url: Seq<char>, token: Seq<char>)
    requires
        valid_token(token),
        trimmed(token) == token,
    ensures
        confirmation_link_text(base_url, token).subrange(
            (base_url.len() + confirm_path().len()) as int,
            confirmation_link_text(base_url, token).len() as int,
        ) == token,
        valid_token(trimmed(token)),
        trimmed(token).len() == TOKEN_LEN,
{
    let link = confirmation_link_text(base_url, token);
    assert(link.subrange((base_url.len() + confirm_path().len()) as int, link.len() as int) =~= token);
}

} // verus!
