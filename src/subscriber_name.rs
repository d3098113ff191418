//! A subscriber's display name.
use crate::text::{blank, is_whitespace, whitespace};
use unicode_segmentation::UnicodeSegmentation;
use vstd::prelude::*;

verus! {

/// The largest number of grapheme clusters a name may hold.
pub const MAX_NAME_GRAPHEMES: usize = 256;

/// The number of extended grapheme clusters in `s`.
pub uninterp spec fn grapheme_count(s: Seq<char>) -> nat;

/// Relies on `UnicodeSegmentation::graphemes(true)` counted: the extended
/// grapheme clusters of the text; an empty text has none and a non-empty one
/// at least one.
#[verifier::external_body]
pub(crate) fn count_graphemes(s: &str) -> (n: usize)
    ensures
        n == grapheme_count(s@),
        n == 0 <==> s@.len() == 0,
{
    s.graphemes(true).count()
}

/// The characters a name may not hold.
pub open spec fn forbidden(c: char) -> bool {
    c == '/' || c == '(' || c == ')' || c == '"' || c == '<' || c == '>' || c == '\\' || c == '{'
        || c == '}'
}

/// True when some character of `s` is forbidden.
pub open spec fn has_forbidden(s: Seq<char>) -> bool {
    exists|i: int| 0 <= i < s.len() && forbidden(#[trigger] s[i])
}

/// An acceptable name: not blank, at most 256 grapheme clusters, no forbidden
/// character.
pub open spec fn valid_name(s: Seq<char>) -> bool {
    !blank(s) && grapheme_count(s) <= MAX_NAME_GRAPHEMES && !has_forbidden(s)
}

/// The message of a rejected name.
pub open spec fn name_error(s: Seq<char>) -> Seq<char> {
    s + " is not a valid subscriber name."@
}

fn is_forbidden(c: char) -> (r: bool)
    ensures
        r == forbidden(c),
{
    c == '/' || c == '(' || c == ')' || c == '"' || c == '<' || c == '>' || c == '\\' || c == '{'
        || c == '}'
}

/// A validated subscriber name, kept as given (no trimming).
#[derive(Debug)]
pub struct SubscriberName(String);

impl SubscriberName {
    /// Every name passed the checks of `parse`.
    #[verifier::type_invariant]
    spec fn well_formed(&self) -> bool {
        valid_name(self.0@)
    }
}

impl View for SubscriberName {
    type V = Seq<char>;

    closed spec fn view(&self) -> Seq<char> {
        self.0@
    }
}

impl SubscriberName {
    /// Accepts `s` unchanged when it is not empty or whitespace only, holds at
    /// most 256 grapheme clusters and none of `/ ( ) " < > \ { }`.
    pub fn parse(s: String) -> (r: Result<SubscriberName, String>)
        ensures
            r is Ok <==> valid_name(s@),
            r matches Ok(n) ==> n@ == s@,
            r matches Err(e) ==> e@ == name_error(s@),
            grapheme_count(s@) == 0 ==> r is Err,
            grapheme_count(s@) > MAX_NAME_GRAPHEMES ==> r is Err,
            has_forbidden(s@) ==> r is Err,
            1 <= grapheme_count(s@) <= MAX_NAME_GRAPHEMES && !has_forbidden(s@) && !blank(s@)
                ==> (r matches Ok(n) && n@ == s@),
    {
        let n = s.as_str().unicode_len();
        let mut all_space = true;
        let mut any_forbidden = false;
        let mut i: usize = 0;
        while i < n
            invariant
                n == s@.len(),
                i <= n,
                all_space <==> forall|j: int| 0 <= j < i ==> whitespace(#[trigger] s@[j]),
                any_forbidden <==> exists|j: int| 0 <= j < i && forbidden(#[trigger] s@[j]),
            decreases n - i,
        {
            let c = s.as_str().get_char(i);
            let space = is_whitespace(c);
            let bad = is_forbidden(c);
            proof {
                if !bad && !any_forbidden {
                    assert forall|j: int| 0 <= j < i + 1 implies !forbidden(#[trigger] s@[j]) by {
                        if j == i {
                            assert(s@[j] == c);
                        }
                    }
                }
            }
            all_space = all_space && space;
            any_forbidden = any_forbidden || bad;
            i = i + 1;
        }
        let too_long = count_graphemes(s.as_str()) > MAX_NAME_GRAPHEMES;
        if all_space || too_long || any_forbidden {
            let mut msg = s;
            msg.append(" is not a valid subscriber name.");
            Err(msg)
        } else {
            Ok(SubscriberName(s))
        }
    }

    /// The name's characters.
    pub fn as_str(&self) -> (r: &str)
        ensures
            r@ == self@,
            valid_name(self@),
    {
        proof {
            use_type_invariant(self);
        }
        self.0.as_str()
    }
}

impl AsRef<str> for SubscriberName {
    fn as_ref(&self) -> &str {
        self.0.as_str()
    }
}

} // verus!
