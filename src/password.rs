use vstd::prelude::*;
use vstd::utf8::encode_utf8;
use argon2::{Argon2, PasswordHash, PasswordVerifier};
use crate::errors::UserError;

verus! {

/// A well-formed Argon2id record of an unguessable password, verified in place
/// of a stored hash when the username is unknown, so that both cases cost the
/// same work.
pub const FALLBACK_PASSWORD_HASH: &'static str = "$argon2id$v=19$m=15000,t=2,p=1$gZiV/M1gPc22ElAH/Jh1Hw$CWOrkoo7oJBQ/iyh7uJ0LO2aLEfrHwTWllSAxT0zRno";

/// The result of checking a candidate password against a stored hash record.
#[derive(PartialEq, Eq, Structural)]
pub enum HashCheck {
    /// The record is not a valid PHC string.
    Malformed,
    /// The record is valid and the candidate does not match it.
    Rejected,
    /// The record is valid and the candidate matches it.
    Accepted,
}

/// Whether password_hash's `PasswordHash::new` accepts a text as a PHC record.
pub uninterp spec fn phc_parses(phc: Seq<char>) -> bool;

/// Whether argon2's default verifier accepts a password's bytes against a PHC record.
pub uninterp spec fn argon2_accepts(password: Seq<u8>, phc: Seq<char>) -> bool;

/// The check that a candidate password meets against a record.
pub open spec fn expected_check(password: Seq<char>, phc: Seq<char>) -> HashCheck {
    if !phc_parses(phc) {
        HashCheck::Malformed
    } else if argon2_accepts(encode_utf8(password), phc) {
        HashCheck::Accepted
    } else {
        HashCheck::Rejected
    }
}

/// Relies on password_hash's `PasswordHash::new`, which reads the PHC record,
/// and on argon2's `PasswordVerifier::verify_password` for `Argon2::default()`,
/// which recomputes the candidate's digest with the algorithm, version, costs
/// and salt that the record holds and compares it with the record's digest.
/// Both depend on their inputs alone.
#[verifier::external_body]
fn argon2_check(candidate: &[u8], phc: &str) -> (r: HashCheck)
    ensures
        (r == HashCheck::Malformed) == !phc_parses(phc@),
        (r == HashCheck::Accepted) == (phc_parses(phc@) && argon2_accepts(candidate@, phc@)),
{
    match PasswordHash::new(phc) {
        Err(_) => HashCheck::Malformed,
        Ok(h) => match Argon2::default().verify_password(candidate, &h) {
            Ok(()) => HashCheck::Accepted,
            Err(_) => HashCheck::Rejected,
        },
    }
}

/// How a verification result is classed: success, a malformed record
/// (unexpected), or a refused password.
pub open spec fn check_of(r: Result<(), UserError>) -> HashCheck {
    match r {
        Ok(()) => HashCheck::Accepted,
        Err(UserError::UnexpectedError(_)) => HashCheck::Malformed,
        Err(_) => HashCheck::Rejected,
    }
}

/// Verifies a candidate password against a stored PHC record. A malformed
/// record is an `UnexpectedError`; a refused password is an `AuthError`.
pub fn verify_password_hash(expected_password_hash: &str, password_candidate: &str) -> (r: Result<
    (),
    UserError,
>)
    ensures
        check_of(r) == expected_check(password_candidate@, expected_password_hash@),
        r matches Err(e) ==> !(e is ValidationError),
{
    let bytes = password_candidate.as_bytes();
    assert(bytes@ == encode_utf8(password_candidate@));
    match argon2_check(bytes, expected_password_hash) {
        HashCheck::Malformed => Err(
            UserError::UnexpectedError(String::from_str("Failed to parse hash in PHC string format.")),
        ),
        HashCheck::Rejected => Err(UserError::AuthError(String::from_str("Invalid password."))),
        HashCheck::Accepted => Ok(()),
    }
}

/// Verification is a function of the candidate and the record: any two
/// verifications of the same pair end in the same class of result.
pub proof fn verification_is_repeatable(
    password: Seq<char>,
    phc: Seq<char>,
    first: Result<(), UserError>,
    second: Result<(), UserError>,
)
    requires
        check_of(first) == expected_check(password, phc),
        check_of(second) == expected_check(password, phc),
    ensures
        check_of(first) == check_of(second),
        first is Ok <==> second is Ok,
{
}

} // verus!
