//! The rules a new password must meet before it replaces the old one.
use crate::authentication::{credentials_validated, phc_usable, phc_verifies, AuthError};
use crate::subscriber_name::{count_graphemes, grapheme_count};
use vstd::prelude::*;

verus! {

/// The fewest grapheme clusters a new password may hold.
pub const MIN_PASSWORD_GRAPHEMES: usize = 12;

/// The most grapheme clusters a new password may hold.
pub const MAX_PASSWORD_GRAPHEMES: usize = 128;

/// Why a password change was refused.
#[derive(Debug, Clone, Copy, PartialEq, Eq, Structural)]
pub enum ChangePasswordError {
    /// The new password and its confirmation differ.
    Mismatch,
    TooShort,
    TooLong,
    /// The current password given is not the user's.
    WrongCurrentPassword,
}

/// The message shown for each refusal.
pub open spec fn change_password_message(e: ChangePasswordError) -> Seq<char> {
    match e {
        ChangePasswordError::Mismatch => "You entered two different new passwords - the field values must match."@,
        ChangePasswordError::TooShort => "Your new password must be longer than 12 characters."@,
        ChangePasswordError::TooLong => "Your new password must be shorter than 128 characters."@,
        ChangePasswordError::WrongCurrentPassword => "The current password is incorrect."@,
    }
}

impl ChangePasswordError {
    /// The message shown to the user.
    pub fn message(&self) -> (r: String)
        ensures
            r@ == change_password_message(*self),
    {
        match self {
            ChangePasswordError::Mismatch => String::from_str(
                "You entered two different new passwords - the field values must match.",
            ),
            ChangePasswordError::TooShort => String::from_str(
                "Your new password must be longer than 12 characters.",
            ),
            ChangePasswordError::TooLong => String::from_str(
                "Your new password must be shorter than 128 characters.",
            ),
            ChangePasswordError::WrongCurrentPassword => String::from_str(
                "The current password is incorrect.",
            ),
        }
    }
}

/// The message shown once the password has been replaced.
pub fn password_changed_message() -> (r: String)
    ensures
        r@ == "Your password has been changed."@,
{
    String::from_str("Your password has been changed.")
}

/// Whether two texts are the same characters.
pub fn same_text(a: &str, b: &str) -> (r: bool)
    ensures
        r == (a@ == b@),
{
    let n = a.unicode_len();
    if n != b.unicode_len() {
        return false;
    }
    let mut i: usize = 0;
    while i < n
        invariant
            n == a@.len(),
            n == b@.len(),
            i <= n,
            forall|j: int| 0 <= j < i ==> a@[j] == b@[j],
        decreases n - i,
    {
        if a.get_char(i) != b.get_char(i) {
            return false;
        }
        i = i + 1;
    }
    assert(a@ =~= b@);
    true
}

/// What the policy says of a new password and its confirmation.
pub open spec fn new_password_verdict(new_password: Seq<char>, check: Seq<char>) -> Result<(), ChangePasswordError> {
    if new_password != check {
        Err(ChangePasswordError::Mismatch)
    } else if grapheme_count(new_password) < MIN_PASSWORD_GRAPHEMES {
        Err(ChangePasswordError::TooShort)
    } else if grapheme_count(new_password) > MAX_PASSWORD_GRAPHEMES {
        Err(ChangePasswordError::TooLong)
    } else {
        Ok(())
    }
}

/// Checks a new password against its confirmation and its length bounds, in
/// that order: it must match, and hold 12 to 128 grapheme clusters.
pub fn check_new_password(new_password: &str, new_password_check: &str) -> (r: Result<(), ChangePasswordError>)
    ensures
        r == new_password_verdict(new_password@, new_password_check@),
        r is Ok <==> new_password@ == new_password_check@ && MIN_PASSWORD_GRAPHEMES <= grapheme_count(
            new_password@,
        ) <= MAX_PASSWORD_GRAPHEMES,
{
    if !same_text(new_password, new_password_check) {
        return Err(ChangePasswordError::Mismatch);
    }
    let n = count_graphemes(new_password);
    if n < MIN_PASSWORD_GRAPHEMES {
        return Err(ChangePasswordError::TooShort);
    }
    if n > MAX_PASSWORD_GRAPHEMES {
        return Err(ChangePasswordError::TooLong);
    }
    Ok(())
}

/// `r` is the step after the current password was checked with result
/// `check`: a wrong one is reported to the user, any other failure is passed
/// on, success lets the change go on.
pub open spec fn current_password_result(
    r: Result<(), Result<ChangePasswordError, AuthError>>,
    check: Result<(), AuthError>,
) -> bool {
    match check {
        Ok(()) => r is Ok,
        Err(AuthError::InvalidCredentials(_)) => r == Err::<(), Result<ChangePasswordError, AuthError>>(
            Ok(ChangePasswordError::WrongCurrentPassword),
        ),
        Err(AuthError::UnexpectedError(m)) => r matches Err(Err(AuthError::UnexpectedError(m2))) && m2
            == m,
    }
}

/// A credential check's result without the user it returns.
pub open spec fn check_of<T>(v: Result<T, AuthError>) -> Result<(), AuthError> {
    match v {
        Ok(_) => Ok(()),
        Err(e) => Err(e),
    }
}

/// A current password that does not verify against the user's well-formed
/// stored hash is reported as incorrect, and the change stops there; one that
/// verifies lets the change go on.
pub proof fn lemma_current_password_decides<T>(
    validated: Result<T, AuthError>,
    outcome: Result<(), Result<ChangePasswordError, AuthError>>,
    id: T,
    hash: Seq<char>,
    password: Seq<char>,
)
    requires
        phc_usable(hash),
        credentials_validated(validated, Some((id, hash)), password),
        current_password_result(outcome, check_of(validated)),
    ensures
        !phc_verifies(hash, password) ==> outcome == Err::<(), Result<ChangePasswordError, AuthError>>(
            Ok(ChangePasswordError::WrongCurrentPassword),
        ),
        phc_verifies(hash, password) ==> outcome is Ok,
{
}

/// The step after the current password was checked: a wrong one is reported
/// to the user, any other failure is passed on, success lets the change go on.
pub fn current_password_outcome(check: Result<(), AuthError>) -> (r: Result<
    (),
    Result<ChangePasswordError, AuthError>,
>)
    ensures
        current_password_result(r, check),
        check is Ok <==> r is Ok,
        check matches Err(AuthError::InvalidCredentials(_)) ==> r == Err::<
            (),
            Result<ChangePasswordError, AuthError>,
        >(Ok(ChangePasswordError::WrongCurrentPassword)),
        check matches Err(AuthError::UnexpectedError(m)) ==> (r matches Err(
            Err(AuthError::UnexpectedError(m2)),
        ) && m2 == m),
{
    match check {
        Ok(()) => Ok(()),
        Err(AuthError::InvalidCredentials(_)) => Err(Ok(ChangePasswordError::WrongCurrentPassword)),
        Err(e) => Err(Err(e)),
    }
}

/// A new password is accepted exactly when it matches its confirmation and
/// holds between 12 and 128 grapheme clusters: shorter or longer ones are
/// refused, and both bounds themselves are accepted.
pub proof fn lemma_password_length_bounds(new_password: Seq<char>)
    ensures
        grapheme_count(new_password) < MIN_PASSWORD_GRAPHEMES ==> new_password_verdict(
            new_password,
            new_password,
        ) == Err::<(), ChangePasswordError>(ChangePasswordError::TooShort),
        grapheme_count(new_password) > MAX_PASSWORD_GRAPHEMES ==> new_password_verdict(
            new_password,
            new_password,
        ) == Err::<(), ChangePasswordError>(ChangePasswordError::TooLong),
        grapheme_count(new_password) == MIN_PASSWORD_GRAPHEMES ==> new_password_verdict(
            new_password,
            new_password,
        ) is Ok,
        grapheme_count(new_password) == MAX_PASSWORD_GRAPHEMES ==> new_password_verdict(
            new_password,
            new_password,
        ) is Ok,
{
}

} // verus!
