//! Character-level helpers shared by the value parsers.
use vstd::prelude::*;

verus! {

/// The characters that `char::is_whitespace` accepts (Unicode `White_Space`).
pub uninterp spec fn whitespace(c: char) -> bool;

/// The characters that `char::is_alphanumeric` accepts (Unicode `Alphabetic` or `Numeric`).
pub uninterp spec fn alphanumeric(c: char) -> bool;

/// An ASCII letter or digit: `A-Z`, `a-z` or `0-9`.
pub open spec fn ascii_alnum(c: char) -> bool {
    (65 <= (c as u32) <= 90) || (97 <= (c as u32) <= 122) || (48 <= (c as u32) <= 57)
}

/// Relies on `char::is_whitespace`: the answer depends on the character alone;
/// the ASCII characters with the `White_Space` property are tab, line feed,
/// vertical tab, form feed, carriage return (U+0009 to U+000D) and space.
#[verifier::external_body]
pub(crate) fn is_whitespace(c: char) -> (r: bool)
    ensures
        r == whitespace(c),
        (c as u32) < 128 ==> (r <==> (c == ' ' || 9 <= (c as u32) <= 13)),
        ascii_alnum(c) ==> !r,
{
    c.is_whitespace()
}

/// Relies on `char::is_alphanumeric`: the answer depends on the character alone;
/// among ASCII characters, exactly the letters and digits are alphanumeric.
#[verifier::external_body]
pub(crate) fn is_alphanumeric(c: char) -> (r: bool)
    ensures
        r == alphanumeric(c),
        (c as u32) < 128 ==> (r <==> ascii_alnum(c)),
{
    c.is_alphanumeric()
}

/// Relies on `String`'s `FromIterator<&char>`: the characters, in order.
#[verifier::external_body]
pub(crate) fn string_from_chars(v: &Vec<char>) -> (r: String)
    ensures
        r@ == v@,
{
    v.iter().collect()
}

/// Index of the first character at or after `i` that is not whitespace
/// (`s.len()` if there is none).
pub open spec fn trim_start_from(s: Seq<char>, i: nat) -> nat
    decreases s.len() - i,
{
    if i < s.len() && whitespace(s[i as int]) {
        trim_start_from(s, i + 1)
    } else {
        i
    }
}

/// One past the last character before `j` and after `lo` that is not whitespace
/// (`lo` if there is none).
pub open spec fn trim_end_from(s: Seq<char>, lo: nat, j: nat) -> nat
    decreases j,
{
    if j > lo && whitespace(s[j - 1]) {
        trim_end_from(s, lo, (j - 1) as nat)
    } else {
        j
    }
}

/// `s` without its leading and trailing whitespace.
pub open spec fn trimmed(s: Seq<char>) -> Seq<char> {
    let lo = trim_start_from(s, 0);
    s.subrange(lo as int, trim_end_from(s, lo, s.len()) as int)
}

/// True when `s` holds no character but whitespace (or nothing at all).
pub open spec fn blank(s: Seq<char>) -> bool {
    forall|i: int| 0 <= i < s.len() ==> whitespace(#[trigger] s[i])
}

/// A sequence that neither begins nor ends with whitespace trims to itself.
pub proof fn lemma_trimmed_unchanged(s: Seq<char>)
    requires
        s.len() > 0 ==> !whitespace(s[0]) && !whitespace(s[s.len() - 1]),
    ensures
        trimmed(s) == s,
{
    if s.len() > 0 {
        assert(trim_start_from(s, 0) == 0);
        assert(trim_end_from(s, 0, s.len()) == s.len());
    }
    assert(trimmed(s) =~= s);
}

/// Skipping whitespace from `i` on in a blank sequence reaches its end.
proof fn lemma_blank_start(s: Seq<char>, i: nat)
    requires
        blank(s),
        i <= s.len(),
    ensures
        trim_start_from(s, i) == s.len(),
    decreases s.len() - i,
{
    if i < s.len() {
        assert(whitespace(s[i as int]));
        lemma_blank_start(s, i + 1);
    }
}

/// A blank sequence trims to nothing.
pub proof fn lemma_blank_trims_to_empty(s: Seq<char>)
    requires
        blank(s),
    ensures
        trimmed(s).len() == 0,
{
    lemma_blank_start(s, 0);
}

/// Removes leading and trailing whitespace.
pub fn trim(s: &str) -> (r: &str)
    ensures
        r@ == trimmed(s@),
{
    let n = s.unicode_len();
    let mut lo: usize = 0;
    while lo < n && is_whitespace(s.get_char(lo))
        invariant
            n == s@.len(),
            lo <= n,
            trim_start_from(s@, 0) == trim_start_from(s@, lo as nat),
        decreases n - lo,
    {
        lo = lo + 1;
    }
    let mut hi: usize = n;
    while hi > lo && is_whitespace(s.get_char(hi - 1))
        invariant
            n == s@.len(),
            lo <= hi <= n,
            lo == trim_start_from(s@, 0),
            trim_end_from(s@, lo as nat, n as nat) == trim_end_from(s@, lo as nat, hi as nat),
        decreases hi,
    {
        hi = hi - 1;
    }
    s.substring_char(lo, hi)
}

} // verus!
