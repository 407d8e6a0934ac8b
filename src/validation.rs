use vstd::prelude::*;
use crate::credentials::Credentials;
use crate::errors::{status_of, UserError};
use crate::password::{
    check_of, expected_check, verify_password_hash, HashCheck, FALLBACK_PASSWORD_HASH,
};

verus! {

/// Declares uuid's `Uuid`, which the library only carries through: a user
/// identity is moved from the store's answer to the result, never read.
#[verifier::external_type_specification]
#[verifier::external_body]
pub struct ExUuid(uuid::Uuid);

/// What the credential store holds for one username.
pub struct StoredCredential {
    pub user_id: uuid::Uuid,
    pub password_hash: String,
}

/// The record a candidate is verified against: the stored one, or the
/// fallback record where the username is unknown.
pub open spec fn record_for(found: Option<StoredCredential>) -> Seq<char> {
    match found {
        Some(c) => c.password_hash@,
        None => FALLBACK_PASSWORD_HASH@,
    }
}

/// The identity a lookup result offers, should the password match.
pub open spec fn identity_of(found: Option<StoredCredential>) -> Option<uuid::Uuid> {
    match found {
        Some(c) => Some(c.user_id),
        None => None,
    }
}

/// A verification that is ready to run, off the request-handling scheduler.
pub struct PendingVerification {
    user_id: Option<uuid::Uuid>,
    expected_password_hash: String,
    password_candidate: String,
}

impl PendingVerification {
    /// The identity that success yields; `None` where the username is unknown.
    pub closed spec fn identity_view(&self) -> Option<uuid::Uuid> {
        self.user_id
    }

    /// The record the candidate is checked against.
    pub closed spec fn record_view(&self) -> Seq<char> {
        self.expected_password_hash@
    }

    pub fn user_id(&self) -> (r: Option<uuid::Uuid>)
        ensures
            r == self.identity_view(),
    {
        self.user_id
    }

    pub fn expected_password_hash(&self) -> (r: &str)
        ensures
            r@ == self.record_view(),
    {
        self.expected_password_hash.as_str()
    }

    /// The candidate password this verification holds.
    pub closed spec fn candidate_view(&self) -> Seq<char> {
        self.password_candidate@
    }

    /// Runs the CPU-bound check of the candidate against the record.
    pub fn run(&self) -> (r: Result<(), UserError>)
        ensures
            check_of(r) == expected_check(self.candidate_view(), self.record_view()),
            r matches Err(e) ==> !(e is ValidationError),
    {
        verify_password_hash(self.expected_password_hash.as_str(), self.password_candidate.as_str())
    }
}

/// Prepares the verification of the credentials from the store's answer.
/// A store failure is an `UnexpectedError`; otherwise a verification is always
/// prepared, against the fallback record where the username is unknown.
pub fn begin_verification(
    credentials: Credentials,
    lookup: Result<Option<StoredCredential>, String>,
) -> (r: Result<PendingVerification, UserError>)
    ensures
        match lookup {
            Err(_) => r matches Err(e) && e is UnexpectedError,
            Ok(found) => r matches Ok(p) && p.identity_view() == identity_of(found)
                && p.record_view() == record_for(found) && p.candidate_view()
                == credentials.password_view(),
        },
{
    let password_candidate = String::from_str(credentials.expose_password());
    match lookup {
        Err(cause) => Err(UserError::UnexpectedError(cause)),
        Ok(Some(stored)) => Ok(
            PendingVerification {
                user_id: Some(stored.user_id),
                expected_password_hash: stored.password_hash,
                password_candidate,
            },
        ),
        Ok(None) => Ok(
            PendingVerification {
                user_id: None,
                expected_password_hash: String::from_str(FALLBACK_PASSWORD_HASH),
                password_candidate,
            },
        ),
    }
}

/// The answer to a validation: the identity, or the status of the error.
pub open spec fn answer_of(r: Result<uuid::Uuid, UserError>) -> Result<uuid::Uuid, u16> {
    match r {
        Ok(id) => Ok(id),
        Err(e) => Err(status_of(e)),
    }
}

/// The answer owed once the check has run: its failure stands; its success
/// yields an identity only where the username was found.
pub open spec fn decision(user_id: Option<uuid::Uuid>, check: HashCheck) -> Result<uuid::Uuid, u16> {
    match check {
        HashCheck::Malformed => Err(500),
        HashCheck::Rejected => Err(401),
        HashCheck::Accepted => match user_id {
            Some(id) => Ok(id),
            None => Err(401),
        },
    }
}

/// Ends a validation with the result of the offloaded check; `None` means the
/// check could not be run, an `UnexpectedError`.
pub fn finish_verification(
    user_id: Option<uuid::Uuid>,
    outcome: Option<Result<(), UserError>>,
) -> (r: Result<uuid::Uuid, UserError>)
    ensures
        match outcome {
            None => r matches Err(e) && e is UnexpectedError,
            Some(Err(e)) => r == Err::<uuid::Uuid, UserError>(e),
            Some(Ok(())) => match user_id {
                Some(id) => r == Ok::<uuid::Uuid, UserError>(id),
                None => r matches Err(e) && e is AuthError,
            },
        },
{
    match outcome {
        None => Err(UserError::UnexpectedError(String::from_str("Failed to spawn blocking task."))),
        Some(Err(e)) => Err(e),
        Some(Ok(())) => match user_id {
            Some(id) => Ok(id),
            None => Err(UserError::AuthError(String::from_str("Unknown username."))),
        },
    }
}

/// The answer owed to credentials with a password, given the store's answer.
pub open spec fn expected_validation(
    password: Seq<char>,
    lookup: Result<Option<StoredCredential>, String>,
) -> Result<uuid::Uuid, u16> {
    match lookup {
        Err(_) => Err(500),
        Ok(found) => decision(identity_of(found), expected_check(password, record_for(found))),
    }
}

/// Validates credentials against the store's answer, running the check in
/// place: the check always runs before the found/not-found branch.
pub fn validate_credentials(
    credentials: Credentials,
    lookup: Result<Option<StoredCredential>, String>,
) -> (r: Result<uuid::Uuid, UserError>)
    ensures
        answer_of(r) == expected_validation(credentials.password_view(), lookup),
{
    let ghost password = credentials.password_view();
    let pending = match begin_verification(credentials, lookup) {
        Ok(p) => p,
        Err(e) => {
            return Err(e);
        },
    };
    let outcome = pending.run();
    let r = finish_verification(pending.user_id(), Some(outcome));
    assert(answer_of(r) == decision(pending.identity_view(), check_of(outcome)));
    r
}

/// Timing-safe refusal: an unknown username and a known one with a wrong
/// password get the same answer, a 401, provided the fallback record is well
/// formed; both go through a verification.
pub proof fn unknown_user_and_wrong_password_alike(password: Seq<char>, stored: StoredCredential)
    requires
        expected_check(password, FALLBACK_PASSWORD_HASH@) != HashCheck::Malformed,
        expected_check(password, stored.password_hash@) == HashCheck::Rejected,
    ensures
        expected_validation(password, Ok(None)) == Err::<uuid::Uuid, u16>(401),
        expected_validation(password, Ok(Some(stored))) == Err::<uuid::Uuid, u16>(401),
{
}

/// A password that the stored record accepts yields the stored identity.
pub proof fn matching_password_yields_identity(password: Seq<char>, stored: StoredCredential)
    requires
        expected_check(password, stored.password_hash@) == HashCheck::Accepted,
    ensures
        expected_validation(password, Ok(Some(stored))) == Ok::<uuid::Uuid, u16>(stored.user_id),
{
}

/// An unknown username never yields an identity, even should the fallback
/// record accept the password.
pub proof fn unknown_user_never_verified(password: Seq<char>)
    ensures
        expected_validation(password, Ok(None)) is Err,
{
}

} // verus!
