//! A subscription request, raw and validated.
use crate::subscriber_email::{email_error, email_syntax_ok, SubscriberEmail};
use crate::subscriber_name::{name_error, valid_name, SubscriberName};
use vstd::prelude::*;

verus! {

/// The subscription form as submitted: untrusted text.
pub struct SubscribeFormData {
    pub email: String,
    pub name: String,
}

/// A subscriber whose name and email have both been validated.
#[derive(Debug)]
pub struct NewSubscriber {
    pub email: SubscriberEmail,
    pub name: SubscriberName,
}

impl NewSubscriber {
    /// Validates the name, then the email; the first failure is reported.
    pub fn try_from_form(value: SubscribeFormData) -> (r: Result<NewSubscriber, String>)
        ensures
            r is Ok <==> valid_name(value.name@) && email_syntax_ok(value.email@),
            r matches Ok(s) ==> s.name@ == value.name@ && s.email@ == value.email@,
            r matches Err(e) ==> e@ == if !valid_name(value.name@) {
                name_error(value.name@)
            } else {
                email_error(value.email@)
            },
    {
        let name = SubscriberName::parse(value.name)?;
        let email = SubscriberEmail::parse(value.email)?;
        Ok(NewSubscriber { email, name })
    }
}

impl TryFrom<SubscribeFormData> for NewSubscriber {
    type Error = String;

    fn try_from(value: SubscribeFormData) -> Result<NewSubscriber, String> {
        NewSubscriber::try_from_form(value)
    }
}

/// The contract lives on the inherent constructor; the trait promises nothing more.
impl vstd::std_specs::convert::TryFromSpecImpl<SubscribeFormData> for NewSubscriber {
    open spec fn obeys_try_from_spec() -> bool {
        false
    }

    open spec fn try_from_spec(v: SubscribeFormData) -> Result<NewSubscriber, String> {
        arbitrary()
    }
}

} // verus!
