//! What the email API is sent: the endpoint, the authorization header and the
//! fields of the request body.
use crate::subscriber_email::SubscriberEmail;
use vstd::prelude::*;

verus! {

/// The endpoint that sends an email, under the API's base URL.
pub open spec fn email_endpoint_text(base_url: Seq<char>) -> Seq<char> {
    base_url + "/v1/email"@
}

/// The URL a send is posted to.
pub fn email_endpoint(base_url: &str) -> (r: String)
    ensures
        r@ == email_endpoint_text(base_url@),
{
    let mut url = String::from_str(base_url);
    url.append("/v1/email");
    url
}

/// The `Authorization` header value for an API token.
pub fn bearer_authorization(token: &str) -> (r: String)
    ensures
        r@ == "Bearer "@ + token@,
{
    let mut v = String::from_str("Bearer ");
    v.append(token);
    v
}

/// The body of a send request: one sender, the recipients, the subject and
/// both renderings of the content.
pub struct SendEmailRequest {
    pub from: String,
    pub to: Vec<String>,
    pub subject: String,
    pub html: String,
    pub text: String,
}

/// The request that sends one email from `sender` to `recipient`.
pub fn send_email_request(
    sender: &SubscriberEmail,
    recipient: &SubscriberEmail,
    subject: &str,
    html_content: &str,
    text_content: &str,
) -> (r: SendEmailRequest)
    ensures
        r.from@ == sender@,
        r.to@.len() == 1,
        r.to@[0]@ == recipient@,
        r.subject@ == subject@,
        r.html@ == html_content@,
        r.text@ == text_content@,
{
    let mut to: Vec<String> = Vec::new();
    to.push(String::from_str(recipient.as_str()));
    SendEmailRequest {
        from: String::from_str(sender.as_str()),
        to,
        subject: String::from_str(subject),
        html: String::from_str(html_content),
        text: String::from_str(text_content),
    }
}

} // verus!
