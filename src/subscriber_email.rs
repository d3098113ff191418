//! A subscriber's email address.
use validator::ValidateEmail;
use vstd::prelude::*;

verus! {

/// Whether `validator`'s email check accepts `s`.
pub uninterp spec fn email_syntax_ok(s: Seq<char>) -> bool;

/// Relies on `validator::ValidateEmail::validate_email` on a string: the
/// answer depends on the text alone.
#[verifier::external_body]
pub(crate) fn validate_email(s: &str) -> (r: bool)
    ensures
        r == email_syntax_ok(s@),
{
    s.validate_email()
}

/// The message of a rejected address.
pub open spec fn email_error(s: Seq<char>) -> Seq<char> {
    s + " is not a valid subscriber email."@
}

/// A syntactically valid email address.
#[derive(Debug)]
pub struct SubscriberEmail(String);

impl SubscriberEmail {
    /// Every address passed the email validator.
    #[verifier::type_invariant]
    spec fn well_formed(&self) -> bool {
        email_syntax_ok(self.0@)
    }
}

impl View for SubscriberEmail {
    type V = Seq<char>;

    closed spec fn view(&self) -> Seq<char> {
        self.0@
    }
}

impl SubscriberEmail {
    /// Accepts `s` unchanged when the email validator does.
    pub fn parse(s: String) -> (r: Result<SubscriberEmail, String>)
        ensures
            r is Ok <==> email_syntax_ok(s@),
            r matches Ok(e) ==> e@ == s@,
            r matches Err(e) ==> e@ == email_error(s@),
    {
        if validate_email(s.as_str()) {
            Ok(SubscriberEmail(s))
        } else {
            let mut msg = s;
            msg.append(" is not a valid subscriber email.");
            Err(msg)
        }
    }

    /// The address's characters.
    pub fn as_str(&self) -> (r: &str)
        ensures
            r@ == self@,
            email_syntax_ok(self@),
    {
        proof {
            use_type_invariant(self);
        }
        self.0.as_str()
    }
}

impl AsRef<str> for SubscriberEmail {
    fn as_ref(&self) -> &str {
        self.0.as_str()
    }
}

} // verus!
