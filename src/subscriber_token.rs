//! The confirmation token mailed to a new subscriber.
use crate::text::{
    alphanumeric, ascii_alnum, blank, is_alphanumeric, is_whitespace, lemma_blank_trims_to_empty,
    lemma_trimmed_unchanged, string_from_chars, trim, trimmed, whitespace,
};
use rand::Rng;
use vstd::prelude::*;

verus! {

/// The number of characters in a token.
pub const TOKEN_LEN: usize = 25;

/// A well-formed token: exactly 25 alphanumeric characters.
pub open spec fn valid_token(t: Seq<char>) -> bool {
    t.len() == TOKEN_LEN && forall|i: int| 0 <= i < t.len() ==> alphanumeric(#[trigger] t[i])
}

/// The message of a rejected token.
pub open spec fn token_error(t: Seq<char>) -> Seq<char> {
    t + " is not a valid subscriber token"@
}

/// `r` is what `parse` gives for the text `s`.
pub open spec fn token_parse_result(r: Result<SubscriberToken, String>, s: Seq<char>) -> bool {
    &&& (r is Ok <==> valid_token(trimmed(s)))
    &&& (r matches Ok(t) ==> t@ == trimmed(s))
    &&& (r matches Err(e) ==> e@ == token_error(trimmed(s)))
}

/// A token that `generate` returned parses back to the same 25 characters.
pub proof fn lemma_generated_token_parses(generated: SubscriberToken, r: Result<SubscriberToken, String>)
    requires
        generated@.len() == TOKEN_LEN,
        valid_token(generated@),
        trimmed(generated@) == generated@,
        token_parse_result(r, generated@),
    ensures
        r matches Ok(t) && t@ == generated@,
{
}

/// `parse` rejects text whose trimmed form is not 25 characters long, holds a
/// character that is not alphanumeric, or is empty or whitespace only.
pub proof fn lemma_malformed_tokens_rejected(s: Seq<char>)
    requires
        trimmed(s).len() != TOKEN_LEN
            || (exists|i: int| 0 <= i < trimmed(s).len() && !alphanumeric(#[trigger] trimmed(s)[i]))
            || blank(s),
    ensures
        !valid_token(trimmed(s)),
{
    if blank(s) {
        lemma_blank_trims_to_empty(s);
    }
}

#[verifier::external_type_specification]
#[verifier::external_body]
pub struct ExThreadRng(rand::rngs::ThreadRng);

/// Relies on `rand::rng`: a handle on the thread-local, OS-seeded generator.
#[verifier::external_body]
fn thread_rng() -> rand::rngs::ThreadRng {
    rand::rng()
}

/// Relies on `Rng::sample` with `rand::distr::Alphanumeric`: one ASCII letter
/// or digit, drawn uniformly.
#[verifier::external_body]
fn sample_alphanumeric(rng: &mut rand::rngs::ThreadRng) -> (c: char)
    ensures
        ascii_alnum(c),
{
    char::from(rng.sample(rand::distr::Alphanumeric))
}

/// A subscription token: 25 alphanumeric characters.
#[derive(Debug)]
pub struct SubscriberToken(String);

impl SubscriberToken {
    /// Every token is 25 alphanumeric characters.
    #[verifier::type_invariant]
    spec fn well_formed(&self) -> bool {
        valid_token(self.0@)
    }
}

impl View for SubscriberToken {
    type V = Seq<char>;

    closed spec fn view(&self) -> Seq<char> {
        self.0@
    }
}

impl SubscriberToken {
    /// A fresh token of 25 random ASCII letters and digits.
    pub fn generate() -> (t: SubscriberToken)
        ensures
            t@.len() == TOKEN_LEN,
            forall|i: int| 0 <= i < t@.len() ==> ascii_alnum(#[trigger] t@[i]),
            valid_token(t@),
            trimmed(t@) == t@,
    {
        let mut rng = thread_rng();
        let mut chars: Vec<char> = Vec::new();
        let mut i: usize = 0;
        while i < TOKEN_LEN
            invariant
                i <= TOKEN_LEN,
                chars@.len() == i,
                forall|j: int| 0 <= j < i ==> ascii_alnum(#[trigger] chars@[j]),
            decreases TOKEN_LEN - i,
        {
            let c = sample_alphanumeric(&mut rng);
            chars.push(c);
            i = i + 1;
        }
        SubscriberToken::from_draws(&chars)
    }

    /// The token made of exactly the drawn characters, in order.
    pub fn from_draws(chars: &Vec<char>) -> (t: SubscriberToken)
        requires
            chars@.len() == TOKEN_LEN,
            forall|i: int| 0 <= i < chars@.len() ==> ascii_alnum(#[trigger] chars@[i]),
        ensures
            t@ == chars@,
            valid_token(t@),
            trimmed(t@) == t@,
    {
        let mut i: usize = 0;
        while i < chars.len()
            invariant
                i <= chars@.len(),
                forall|j: int| 0 <= j < chars@.len() ==> ascii_alnum(#[trigger] chars@[j]),
                forall|j: int| 0 <= j < i ==> alphanumeric(#[trigger] chars@[j]),
                forall|j: int| 0 <= j < i ==> !whitespace(#[trigger] chars@[j]),
            decreases chars@.len() - i,
        {
            // Classifying each character brings its Unicode properties into
            // the proof that the token parses back.
            let alnum = is_alphanumeric(chars[i]);
            let space = is_whitespace(chars[i]);
            assert(alnum && !space);
            i = i + 1;
        }
        let t = SubscriberToken(string_from_chars(chars));
        proof {
            lemma_trimmed_unchanged(t@);
        }
        t
    }

    /// Trims surrounding whitespace, then accepts the rest when it is exactly
    /// 25 alphanumeric characters.
    pub fn parse(s: String) -> (r: Result<SubscriberToken, String>)
        ensures
            r is Ok <==> valid_token(trimmed(s@)),
            r matches Ok(t) ==> t@ == trimmed(s@),
            r matches Err(e) ==> e@ == token_error(trimmed(s@)),
            token_parse_result(r, s@),
    {
        let input = trim(s.as_str());
        let n = input.unicode_len();
        let mut all_alphanumeric = true;
        let mut i: usize = 0;
        while i < n
            invariant
                n == input@.len(),
                i <= n,
                all_alphanumeric <==> forall|j: int| 0 <= j < i ==> alphanumeric(#[trigger] input@[j]),
            decreases n - i,
        {
            let ok = is_alphanumeric(input.get_char(i));
            all_alphanumeric = all_alphanumeric && ok;
            i = i + 1;
        }
        if n != TOKEN_LEN || !all_alphanumeric {
            let mut msg = String::from_str(input);
            msg.append(" is not a valid subscriber token");
            Err(msg)
        } else {
            Ok(SubscriberToken(String::from_str(input)))
        }
    }

    /// The token's characters.
    pub fn as_str(&self) -> (r: &str)
        ensures
            r@ == self@,
            valid_token(self@),
    {
        proof {
            use_type_invariant(self);
        }
        self.0.as_str()
    }
}

impl AsRef<str> for SubscriberToken {
    fn as_ref(&self) -> &str {
        self.0.as_str()
    }
}

} // verus!
