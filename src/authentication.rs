//! Credentials: reading them from a `Basic` authorization header and checking
//! them against a stored Argon2 password hash.
use actix_web::http::header::HeaderMap;
use argon2::{PasswordHasher, PasswordVerifier};
use base64::Engine;
use vstd::prelude::*;
use vstd::utf8::{decode_utf8, pop_first_scalar, valid_utf8};

verus! {

/// A username and the password submitted with it.
pub struct Credentials {
    pub username: String,
    pub password: String,
}

/// Why a `Basic` authorization header could not be read.
#[derive(Debug, Clone, Copy, PartialEq, Eq, Structural)]
pub enum BasicAuthError {
    MissingHeader,
    HeaderNotText,
    NotBasicScheme,
    InvalidBase64,
    InvalidUtf8,
    MissingPassword,
}

impl BasicAuthError {
    /// A description for the log.
    pub fn message(&self) -> (r: String)
        ensures
            r@ == basic_auth_message(*self),
    {
        match self {
            BasicAuthError::MissingHeader => String::from_str(
                "The 'Authorization' header is missing",
            ),
            BasicAuthError::HeaderNotText => String::from_str(
                "The 'Authorization' header value is not a valid UTF-8 string",
            ),
            BasicAuthError::NotBasicScheme => String::from_str(
                "The authorization scheme was not 'Basic'.",
            ),
            BasicAuthError::InvalidBase64 => String::from_str(
                "Failed to decode credentials from base64",
            ),
            BasicAuthError::InvalidUtf8 => String::from_str(
                "The decoded credential string is not valid UTF-8",
            ),
            BasicAuthError::MissingPassword => String::from_str(
                "A password must be provided in 'Basic' auth.",
            ),
        }
    }
}

/// The description of each header error.
pub open spec fn basic_auth_message(e: BasicAuthError) -> Seq<char> {
    match e {
        BasicAuthError::MissingHeader => "The 'Authorization' header is missing"@,
        BasicAuthError::HeaderNotText => "The 'Authorization' header value is not a valid UTF-8 string"@,
        BasicAuthError::NotBasicScheme => "The authorization scheme was not 'Basic'."@,
        BasicAuthError::InvalidBase64 => "Failed to decode credentials from base64"@,
        BasicAuthError::InvalidUtf8 => "The decoded credential string is not valid UTF-8"@,
        BasicAuthError::MissingPassword => "A password must be provided in 'Basic' auth."@,
    }
}

/// The bytes that standard, padded base64 decodes `s` to, if it is valid.
pub uninterp spec fn base64_decoded(s: Seq<char>) -> Option<Seq<u8>>;

/// Relies on `base64`'s `BASE64_STANDARD.decode`: the bytes that the text
/// encodes, or an error when it is not valid standard base64.
#[verifier::external_body]
fn decode_base64(s: &str) -> (r: Option<Vec<u8>>)
    ensures
        r is Some <==> base64_decoded(s@) is Some,
        r matches Some(v) ==> base64_decoded(s@) == Some(v@),
{
    base64::prelude::BASE64_STANDARD.decode(s).ok()
}

/// Relies on `String::from_utf8`: the text when the bytes are valid UTF-8.
#[verifier::external_body]
fn string_from_utf8(b: Vec<u8>) -> (r: Option<String>)
    ensures
        r is Some <==> valid_utf8(b@),
        r matches Some(s) ==> s@ == decode_utf8(b@),
{
    String::from_utf8(b).ok()
}

/// The scheme prefix of a `Basic` header value.
pub open spec fn basic_prefix() -> Seq<char> {
    seq!['B', 'a', 's', 'i', 'c', ' ']
}

/// The first index at or after `i` that holds `:` (`t.len()` if none does).
pub open spec fn colon_from(t: Seq<char>, i: nat) -> nat
    decreases t.len() - i,
{
    if i < t.len() && t[i as int] != ':' {
        colon_from(t, i + 1)
    } else if i < t.len() {
        i
    } else {
        t.len()
    }
}

/// `t` split at its first `:` into username and password.
pub open spec fn split_credentials(t: Seq<char>) -> Option<(Seq<char>, Seq<char>)> {
    let k = colon_from(t, 0);
    if k < t.len() {
        Some((t.subrange(0, k as int), t.subrange(k as int + 1, t.len() as int)))
    } else {
        None
    }
}

/// What a `Basic` authorization header value holds: after `Basic `, standard
/// base64 of UTF-8 text `username:password` (the first `:` separates).
pub open spec fn basic_credentials(v: Seq<char>) -> Result<(Seq<char>, Seq<char>), BasicAuthError> {
    if !(v.len() >= 6 && v.subrange(0, 6) == basic_prefix()) {
        Err(BasicAuthError::NotBasicScheme)
    } else {
        match base64_decoded(v.subrange(6, v.len() as int)) {
            None => Err(BasicAuthError::InvalidBase64),
            Some(bytes) => if !valid_utf8(bytes) {
                Err(BasicAuthError::InvalidUtf8)
            } else {
                match split_credentials(decode_utf8(bytes)) {
                    None => Err(BasicAuthError::MissingPassword),
                    Some(pair) => Ok(pair),
                }
            },
        }
    }
}

fn starts_with_basic(v: &str) -> (r: bool)
    ensures
        r == (v@.len() >= 6 && v@.subrange(0, 6) == basic_prefix()),
{
    if v.unicode_len() < 6 {
        return false;
    }
    let ok = v.get_char(0) == 'B' && v.get_char(1) == 'a' && v.get_char(2) == 's' && v.get_char(3)
        == 'i' && v.get_char(4) == 'c' && v.get_char(5) == ' ';
    proof {
        let p = v@.subrange(0, 6);
        if ok {
            assert(p =~= basic_prefix());
        } else if p == basic_prefix() {
            assert(p[0] == 'B' && p[1] == 'a' && p[2] == 's' && p[3] == 'i' && p[4] == 'c' && p[5]
                == ' ');
        }
    }
    ok
}

/// Reads the credentials from the value of an `Authorization` header.
pub fn parse_basic_credentials(header_value: &str) -> (r: Result<Credentials, BasicAuthError>)
    ensures
        r matches Ok(c) ==> basic_credentials(header_value@) == Ok::<
            (Seq<char>, Seq<char>),
            BasicAuthError,
        >((c.username@, c.password@)),
        r matches Err(e) ==> basic_credentials(header_value@) == Err::<
            (Seq<char>, Seq<char>),
            BasicAuthError,
        >(e),
{
    if !starts_with_basic(header_value) {
        return Err(BasicAuthError::NotBasicScheme);
    }
    let encoded = header_value.substring_char(6, header_value.unicode_len());
    let bytes = match decode_base64(encoded) {
        Some(b) => b,
        None => return Err(BasicAuthError::InvalidBase64),
    };
    let text = match string_from_utf8(bytes) {
        Some(t) => t,
        None => return Err(BasicAuthError::InvalidUtf8),
    };
    let t = text.as_str();
    let n = t.unicode_len();
    let mut k: usize = 0;
    while k < n && t.get_char(k) != ':'
        invariant
            n == t@.len(),
            k <= n,
            colon_from(t@, 0) == colon_from(t@, k as nat),
        decreases n - k,
    {
        k = k + 1;
    }
    if k == n {
        return Err(BasicAuthError::MissingPassword);
    }
    let username = String::from_str(t.substring_char(0, k));
    let password = String::from_str(t.substring_char(k + 1, n));
    Ok(Credentials { username, password })
}

#[verifier::external_type_specification]
#[verifier::external_body]
pub struct ExHeaderMap(HeaderMap);

/// For each header name in lowercase, the bytes of the value that
/// `HeaderMap::get` returns for it (the first one stored under that name).
pub uninterp spec fn first_header_values(m: HeaderMap) -> Map<Seq<char>, Seq<u8>>;

/// A header name already in the lowercase form `HeaderMap` keys by.
pub open spec fn lowercase_header_name(name: Seq<char>) -> bool {
    name.len() > 0 && forall|i: int|
        0 <= i < name.len() ==> (97 <= (#[trigger] name[i] as u32) <= 122) || name[i] == '-'
}

/// Relies on `HeaderMap::get` with a lowercase name, then
/// `HeaderValue::as_bytes`: the bytes of the first value stored under that
/// name, if the map has one.
#[verifier::external_body]
fn first_header_value(headers: &HeaderMap, name: &str) -> (r: Option<Vec<u8>>)
    requires
        lowercase_header_name(name@),
    ensures
        r is Some <==> first_header_values(*headers).contains_key(name@),
        r matches Some(b) ==> first_header_values(*headers)[name@] == b@,
{
    headers.get(name).map(|v| v.as_bytes().to_vec())
}

/// A byte that `HeaderValue::to_str` accepts: visible ASCII or a tab.
pub open spec fn visible_ascii(b: u8) -> bool {
    (32 <= b < 127) || b == 9
}

/// A header value that reads as text: visible ASCII throughout.
pub open spec fn header_is_text(b: Seq<u8>) -> bool {
    forall|i: int| 0 <= i < b.len() ==> visible_ascii(#[trigger] b[i])
}

/// The name of the authorization header, as the header map keys it.
pub open spec fn authorization_name() -> Seq<char> {
    "authorization"@
}

/// What the headers `m` give for `Basic` authentication: the authorization
/// header must be present, read as text, and hold what `basic_credentials`
/// accepts.
pub open spec fn authorization_credentials(m: Map<Seq<char>, Seq<u8>>) -> Result<
    (Seq<char>, Seq<char>),
    BasicAuthError,
> {
    if !m.contains_key(authorization_name()) {
        Err(BasicAuthError::MissingHeader)
    } else if !header_is_text(m[authorization_name()]) {
        Err(BasicAuthError::HeaderNotText)
    } else {
        basic_credentials(decode_utf8(m[authorization_name()]))
    }
}

/// ASCII bytes are valid UTF-8.
proof fn lemma_ascii_valid_utf8(b: Seq<u8>)
    requires
        forall|i: int| 0 <= i < b.len() ==> #[trigger] b[i] < 128,
    ensures
        valid_utf8(b),
    decreases b.len(),
{
    if b.len() > 0 {
        let b0 = b[0];
        assert(b0 < 128);
        assert((b0 & 0x7f) as u32 <= 0x7f) by (bit_vector);
        let rest = pop_first_scalar(b);
        assert(rest =~= b.subrange(1, b.len() as int));
        assert forall|i: int| 0 <= i < rest.len() implies #[trigger] rest[i] < 128 by {
            assert(rest[i] == b[i + 1]);
        }
        lemma_ascii_valid_utf8(rest);
    }
}

/// Whether every byte is visible ASCII.
fn all_visible_ascii(b: &Vec<u8>) -> (r: bool)
    ensures
        r == header_is_text(b@),
{
    let mut i: usize = 0;
    while i < b.len()
        invariant
            i <= b@.len(),
            forall|j: int| 0 <= j < i ==> visible_ascii(#[trigger] b@[j]),
        decreases b@.len() - i,
    {
        let x = b[i];
        if !((32 <= x && x < 127) || x == 9) {
            return false;
        }
        i = i + 1;
    }
    true
}

/// Reads the credentials of a request from its `Authorization` header, which
/// must be present, read as text, and hold what `parse_basic_credentials`
/// accepts.
pub fn basic_authentication(headers: &HeaderMap) -> (r: Result<Credentials, BasicAuthError>)
    ensures
        r matches Ok(c) ==> authorization_credentials(first_header_values(*headers)) == Ok::<
            (Seq<char>, Seq<char>),
            BasicAuthError,
        >((c.username@, c.password@)),
        r is Err ==> authorization_credentials(first_header_values(*headers)) == Err::<
            (Seq<char>, Seq<char>),
            BasicAuthError,
        >(r->Err_0),
{
    proof {
        reveal_strlit("authorization");
    }
    let bytes = match first_header_value(headers, "authorization") {
        Some(b) => b,
        None => return Err(BasicAuthError::MissingHeader),
    };
    if !all_visible_ascii(&bytes) {
        return Err(BasicAuthError::HeaderNotText);
    }
    proof {
        lemma_ascii_valid_utf8(bytes@);
    }
    let text = match string_from_utf8(bytes) {
        Some(t) => t,
        None => return Err(BasicAuthError::HeaderNotText),
    };
    parse_basic_credentials(text.as_str())
}

/// Why a credential check did not succeed.
pub enum AuthError {
    InvalidCredentials(String),
    UnexpectedError(String),
}

/// A well-formed Argon2 hash in PHC string format, checked against when the
/// username is unknown so that both failures cost the same hashing work.
pub open spec fn dummy_hash() -> Seq<char> {
    "$argon2id$v=19$m=15000,t=2,p=1$gZiV/M1gPc22ElAH/Jh1Hw$CWOrkoo7oJBQ/iyh7uJ0LO2aLEfrHwTWllSAxT0zRno"@
}

/// The dummy hash as text.
pub fn dummy_password_hash() -> (r: &'static str)
    ensures
        r@ == dummy_hash(),
{
    "$argon2id$v=19$m=15000,t=2,p=1$gZiV/M1gPc22ElAH/Jh1Hw$CWOrkoo7oJBQ/iyh7uJ0LO2aLEfrHwTWllSAxT0zRno"
}

/// Whether `s` parses as a password hash in PHC string format.
pub uninterp spec fn phc_well_formed(s: Seq<char>) -> bool;

/// Whether `password` verifies against the well-formed PHC string `hash`:
/// hashed with the string's own algorithm, version, parameters and salt, it
/// gives the string's output.
pub uninterp spec fn phc_verifies(hash: Seq<char>, password: Seq<char>) -> bool;

/// A decimal digit.
pub open spec fn is_digit(c: char) -> bool {
    48 <= (c as u32) <= 57
}

/// The value of the run of decimal digits that starts at `j`, read after the
/// value `acc` of the digits before it.
pub open spec fn digits_value(s: Seq<char>, j: nat, acc: nat) -> nat
    decreases s.len() - j,
{
    if j < s.len() && is_digit(s[j as int]) {
        digits_value(s, j + 1, acc * 10 + (s[j as int] as u32 - 48) as nat)
    } else {
        acc
    }
}

/// The smallest parallelism whose product by 8 overflows a `u32`.
pub open spec fn parallelism_limit() -> nat {
    0x2000_0000
}

/// At `i` stands `p=` followed by digits worth at least the limit.
pub open spec fn oversized_parallelism_at(s: Seq<char>, i: int) -> bool {
    0 <= i && i + 1 < s.len() && s[i] == 'p' && s[i + 1] == '=' && digits_value(s, (i + 2) as nat, 0)
        >= parallelism_limit()
}

/// The text holds a `p=` parameter so large that Argon2's parameter check
/// (`m_cost < p_cost * 8`, in `u32`) would overflow on it.
pub open spec fn oversized_parallelism(s: Seq<char>) -> bool {
    exists|i: int| oversized_parallelism_at(s, i)
}

/// A stored hash that can be checked against: a PHC string whose
/// parallelism Argon2 can read without overflow.
pub open spec fn phc_usable(s: Seq<char>) -> bool {
    phc_well_formed(s) && !oversized_parallelism(s)
}

proof fn lemma_digits_value_grows(s: Seq<char>, j: nat, acc: nat)
    ensures
        digits_value(s, j, acc) >= acc,
    decreases s.len() - j,
{
    if j < s.len() && is_digit(s[j as int]) {
        lemma_digits_value_grows(s, j + 1, acc * 10 + (s[j as int] as u32 - 48) as nat);
    }
}

/// Whether the digits from `j` on are worth at least the parallelism limit.
fn digits_reach_limit(s: &str, j: usize) -> (r: bool)
    requires
        j <= s@.len(),
    ensures
        r == (digits_value(s@, j as nat, 0) >= parallelism_limit()),
{
    let n = s.unicode_len();
    let mut k: usize = j;
    let mut acc: u64 = 0;
    while k < n
        invariant
            n == s@.len(),
            j <= k <= n,
            acc < 0x2000_0000,
            digits_value(s@, j as nat, 0) == digits_value(s@, k as nat, acc as nat),
        decreases n - k,
    {
        let c = s.get_char(k);
        if !('0' <= c && c <= '9') {
            return false;
        }
        acc = acc * 10 + (c as u64 - 48);
        k = k + 1;
        if acc >= 0x2000_0000 {
            proof {
                lemma_digits_value_grows(s@, k as nat, acc as nat);
            }
            return true;
        }
    }
    false
}

/// Whether the text holds an oversized `p=` parameter.
pub fn has_oversized_parallelism(s: &str) -> (r: bool)
    ensures
        r == oversized_parallelism(s@),
{
    let n = s.unicode_len();
    let mut i: usize = 0;
    while i < n && i + 1 < n
        invariant
            n == s@.len(),
            i <= n,
            forall|k: int| 0 <= k < i ==> !oversized_parallelism_at(s@, k),
        decreases n - i,
    {
        if s.get_char(i) == 'p' && s.get_char(i + 1) == '=' && digits_reach_limit(s, i + 2) {
            assert(oversized_parallelism_at(s@, i as int));
            return true;
        }
        i = i + 1;
    }
    assert forall|k: int| !oversized_parallelism_at(s@, k) by {
        if 0 <= k && k < i {
        }
    }
    false
}

/// Relies on `argon2::PasswordHash::new`, then `PasswordVerifier::verify_password`
/// of `Argon2::default()`: whether the text parses as a PHC string and, if it
/// does, whether the password hashed with the string's own algorithm,
/// version, parameters and salt gives its output. Both answers depend on the
/// two texts alone.
#[verifier::external_body]
fn phc_check(hash: &str, password: &str) -> (r: Option<bool>)
    requires
        !oversized_parallelism(hash@),
    ensures
        r is Some <==> phc_well_formed(hash@),
        r matches Some(b) ==> b == phc_verifies(hash@, password@),
{
    let parsed = argon2::PasswordHash::new(hash).ok()?;
    Some(argon2::Argon2::default().verify_password(password.as_bytes(), &parsed).is_ok())
}

/// Relies on `Argon2::new(Algorithm::Argon2id, Version::V0x13, params)`
/// `.hash_password` with a salt from `SaltString::generate(&mut OsRng)`, and
/// the result's `to_string`: a PHC string that parses and that the password
/// verifies against, since verification recomputes with the string's own
/// algorithm, version, parameters and salt. Its only `p=` parameter carries
/// `p_cost`, below the limit, as the salt and output are base64 without `=`.
/// `Params::new` accepts costs within the bounds required here, and hashing
/// succeeds for any password of at most `MAX_PWD_LEN` (2^32 - 1) bytes, which
/// 2^30 - 1 characters of at most four bytes each never exceed.
#[verifier::external_body]
fn argon2id_hash(password: &str, m_cost: u32, t_cost: u32, p_cost: u32) -> (r: Option<String>)
    requires
        1 <= p_cost <= 0xFF_FFFF,
        8 * p_cost <= m_cost,
        1 <= t_cost,
    ensures
        password@.len() <= 0x3FFF_FFFF ==> r is Some,
        r matches Some(h) ==> phc_usable(h@) && phc_verifies(h@, password@),
{
    let params = argon2::Params::new(m_cost, t_cost, p_cost, None).ok()?;
    let salt = argon2::password_hash::SaltString::generate(
        &mut argon2::password_hash::rand_core::OsRng,
    );
    let hasher = argon2::Argon2::new(argon2::Algorithm::Argon2id, argon2::Version::V0x13, params);
    hasher.hash_password(password.as_bytes(), &salt).ok().map(|h| h.to_string())
}

/// The failure of a stored hash that does not parse.
pub open spec fn malformed_hash_message() -> Seq<char> {
    "Failed to parse hash in PHC string format."@
}

/// What checking `password` against the PHC string `hash` gives: a malformed
/// hash is unexpected, else the password is accepted exactly when it verifies.
pub open spec fn hash_check_result(r: Result<(), AuthError>, hash: Seq<char>, password: Seq<char>) -> bool {
    if !phc_usable(hash) {
        r matches Err(AuthError::UnexpectedError(m)) && m@ == malformed_hash_message()
    } else if phc_verifies(hash, password) {
        r is Ok
    } else {
        r matches Err(AuthError::InvalidCredentials(m)) && m@ == "Invalid password."@
    }
}

/// Checks `password` against `expected_hash`, a PHC string.
pub fn verify_password_hash(expected_hash: &str, password: &str) -> (r: Result<(), AuthError>)
    ensures
        hash_check_result(r, expected_hash@, password@),
        phc_usable(expected_hash@) ==> (r is Ok <==> phc_verifies(expected_hash@, password@)),
{
    if has_oversized_parallelism(expected_hash) {
        return Err(AuthError::UnexpectedError(String::from_str("Failed to parse hash in PHC string format.")));
    }
    match phc_check(expected_hash, password) {
        None => Err(AuthError::UnexpectedError(String::from_str("Failed to parse hash in PHC string format."))),
        Some(true) => Ok(()),
        Some(false) => Err(AuthError::InvalidCredentials(String::from_str("Invalid password."))),
    }
}

/// The memory cost, in KiB, of a new password hash.
pub const HASH_MEMORY_KIB: u32 = 15000;

/// The number of passes of a new password hash.
pub const HASH_ITERATIONS: u32 = 2;

/// The parallelism of a new password hash.
pub const HASH_PARALLELISM: u32 = 1;

/// An Argon2id hash of `password` with a fresh random salt, as a PHC string
/// that `password` verifies against.
pub fn compute_password_hash(password: &str) -> (r: Result<String, AuthError>)
    ensures
        password@.len() <= 0x3FFF_FFFF ==> (r matches Ok(h) && phc_usable(h@) && phc_verifies(
            h@,
            password@,
        )),
        r matches Ok(h) ==> phc_usable(h@) && phc_verifies(h@, password@),
        r is Err ==> r matches Err(AuthError::UnexpectedError(_)),
{
    match argon2id_hash(password, HASH_MEMORY_KIB, HASH_ITERATIONS, HASH_PARALLELISM) {
        Some(h) => Ok(h),
        None => Err(AuthError::UnexpectedError(String::from_str("Failed to hash the new password."))),
    }
}

/// The hash a password is checked against: the stored one, or the dummy hash
/// when the username is unknown.
pub fn hash_to_check<T>(stored: &Option<(T, String)>) -> (r: &str)
    ensures
        stored matches Some(p) ==> r@ == p.1@,
        stored is None ==> r@ == dummy_hash(),
{
    match stored {
        Some(p) => p.1.as_str(),
        None => dummy_password_hash(),
    }
}

/// `r` is the result of a credential check, given what the username lookup
/// found and how the password check came out: a failed check decides, else an
/// unknown username is refused, else the user is returned.
pub open spec fn credentials_result<T>(
    r: Result<T, AuthError>,
    user_id: Option<T>,
    verification: Result<(), AuthError>,
) -> bool {
    match verification {
        Err(e) => r == Err::<T, AuthError>(e),
        Ok(()) => match user_id {
            Some(id) => r == Ok::<T, AuthError>(id),
            None => r matches Err(AuthError::InvalidCredentials(m)) && m@ == "Unknown username."@,
        },
    }
}

/// Combines the username lookup and the password check.
pub fn credentials_outcome<T>(user_id: Option<T>, verification: Result<(), AuthError>) -> (r: Result<T, AuthError>)
    ensures
        credentials_result(r, user_id, verification),
{
    match verification {
        Err(e) => Err(e),
        Ok(()) => match user_id {
            Some(id) => Ok(id),
            None => Err(AuthError::InvalidCredentials(String::from_str("Unknown username."))),
        },
    }
}

/// `r` is what checking `password` gives, for the user and PHC hash that the
/// username lookup found (`stored`), if any: an unknown username is always
/// refused, as invalid credentials when the dummy hash is well formed; for a
/// known one, a malformed hash is unexpected and otherwise the user is
/// returned exactly when the password verifies against the hash.
pub open spec fn credentials_validated<T>(
    r: Result<T, AuthError>,
    stored: Option<(T, Seq<char>)>,
    password: Seq<char>,
) -> bool {
    match stored {
        None => r is Err && (phc_usable(dummy_hash()) ==> r matches Err(
            AuthError::InvalidCredentials(_),
        )),
        Some(p) => if !phc_usable(p.1) {
            r matches Err(AuthError::UnexpectedError(_))
        } else if phc_verifies(p.1, password) {
            r == Ok::<T, AuthError>(p.0)
        } else {
            r matches Err(AuthError::InvalidCredentials(_))
        },
    }
}

/// The lookup result with the hash as text.
pub open spec fn stored_view<T>(stored: Option<(T, String)>) -> Option<(T, Seq<char>)> {
    match stored {
        Some(p) => Some((p.0, p.1@)),
        None => None,
    }
}

/// Checks `password` for the user that the username lookup found (`stored`:
/// the user and their PHC hash), hashing against the dummy hash when there is
/// none, so that an unknown username costs the same work as a wrong password.
pub fn validate_credentials<T>(stored: Option<(T, String)>, password: &str) -> (r: Result<T, AuthError>)
    ensures
        credentials_validated(r, stored_view(stored), password@),
        stored matches Some(p) ==> (phc_usable(p.1@) ==> (r is Ok <==> phc_verifies(p.1@, password@))),
{
    let verification = verify_password_hash(hash_to_check(&stored), password);
    let user_id = match stored {
        Some(p) => Some(p.0),
        None => None,
    };
    credentials_outcome(user_id, verification)
}

/// An unknown username and a known one whose password does not verify fail
/// alike, with `InvalidCredentials`, when the hashes checked are well formed.
pub proof fn lemma_unknown_user_and_wrong_password_fail_alike<T>(
    unknown: Result<T, AuthError>,
    wrong: Result<T, AuthError>,
    id: T,
    hash: Seq<char>,
    password: Seq<char>,
)
    requires
        phc_usable(dummy_hash()),
        phc_usable(hash),
        !phc_verifies(hash, password),
        credentials_validated(unknown, None, password),
        credentials_validated(wrong, Some((id, hash)), password),
    ensures
        unknown matches Err(AuthError::InvalidCredentials(_)),
        wrong matches Err(AuthError::InvalidCredentials(_)),
{
}

/// Once a user's stored hash was replaced by one `compute_password_hash`
/// made from `new_password`, that password is accepted for the user; a
/// password that does not verify against the new hash is refused.
pub proof fn lemma_changed_password_is_accepted<T>(
    accepted: Result<T, AuthError>,
    refused: Result<T, AuthError>,
    id: T,
    new_hash: Seq<char>,
    new_password: Seq<char>,
    other_password: Seq<char>,
)
    requires
        phc_usable(new_hash) && phc_verifies(new_hash, new_password),
        !phc_verifies(new_hash, other_password),
        credentials_validated(accepted, Some((id, new_hash)), new_password),
        credentials_validated(refused, Some((id, new_hash)), other_password),
    ensures
        accepted == Ok::<T, AuthError>(id),
        refused matches Err(AuthError::InvalidCredentials(_)),
{
}

} // verus!
