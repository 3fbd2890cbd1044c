use vstd::prelude::*;
use crate::errors::{ApiError, DbError};
use crate::models::{DbProfile, DbUser};
use crate::status::{reason_phrase, BAD_REQUEST, FORBIDDEN, INTERNAL_SERVER_ERROR, NOT_FOUND};

verus! {

/// The error type of the `bcrypt` crate.
#[verifier::external_type_specification]
#[verifier::external_body]
pub struct ExBcryptError(bcrypt::BcryptError);

/// `bcrypt::verify(password, hash)` answers `Ok(true)`.
pub uninterp spec fn bcrypt_verifies(password: Seq<char>, hash: Seq<char>) -> bool;

/// The form of a bcrypt hash made with the default cost: 60 characters,
/// beginning with the version `$2b$` and the cost `12$`.
pub open spec fn is_default_bcrypt_hash(h: Seq<char>) -> bool {
    h.len() == 60 && h.subrange(0, 7) == "$2b$12$"@
}

/// Calls `bcrypt::hash(password, bcrypt::DEFAULT_COST)`.
/// Claimed: a hash that `bcrypt::verify` accepts for the same password (the
/// crate hashes with a random salt that it writes into the hash, and `verify`
/// recomputes with that salt and cost); and its form: the crate writes
/// `${version}${cost:02}${salt}{hash}` with version `2b`, `DEFAULT_COST` 12,
/// 22 base64 characters of salt and 31 of hash, 60 in all. The salt is
/// chance; the call fails only when the system gives no random bytes.
#[verifier::external_body]
fn bcrypt_hash(password: &str) -> (r: Result<String, bcrypt::BcryptError>)
    ensures
        r matches Ok(h) ==> bcrypt_verifies(password@, h@) && is_default_bcrypt_hash(h@),
{
    bcrypt::hash(password, bcrypt::DEFAULT_COST)
}

/// Calls `bcrypt::verify(password, hash)`.
/// Claimed: the result is `Ok(true)` exactly when `bcrypt_verifies` holds;
/// the answer depends on the two texts alone.
#[verifier::external_body]
fn bcrypt_verify(password: &str, hash: &str) -> (r: Result<bool, bcrypt::BcryptError>)
    ensures
        (r matches Ok(b) && b) <==> bcrypt_verifies(password@, hash@),
{
    bcrypt::verify(password, hash)
}

/// Calls `ToString::to_string` on a `bcrypt` error (its `Display` text).
/// Nothing is claimed of the text.
#[verifier::external_body]
fn bcrypt_error_text(e: &bcrypt::BcryptError) -> String {
    e.to_string()
}

/// The credentials of a sign-in.
#[derive(Clone, Debug, PartialEq, Eq)]
pub struct LoginBody {
    pub username: String,
    pub password: String,
}

/// The fields of the sign-up form.
#[derive(Clone, Debug, PartialEq, Eq)]
pub struct SignupBody {
    pub username: String,
    pub password: String,
    pub password_confirm: String,
}

/// The body of a sign-up request to the API.
#[derive(Clone, Debug, PartialEq, Eq)]
pub struct SignupApiPayload {
    pub username: String,
    pub password: String,
}

/// The message that refuses a sign-up, if any: an empty user name, then an
/// empty password, then (for the form) a confirmation that differs.
pub open spec fn signup_refusal(
    username: Seq<char>,
    password: Seq<char>,
    confirm: Option<Seq<char>>,
) -> Option<Seq<char>> {
    if username.len() == 0 {
        Some("username can NOT be empty"@)
    } else if password.len() == 0 {
        Some("password can NOT be empty"@)
    } else if confirm matches Some(c) && password != c {
        Some("password & password_confirm does NOT mactch"@)
    } else {
        None
    }
}

/// The result of a validation against its refusal: a 400 with the message,
/// or success.
pub open spec fn validated(refusal: Option<Seq<char>>, r: Result<(), ApiError>) -> bool {
    match refusal {
        Some(m) => r matches Err(e) && e.status_code == BAD_REQUEST && e.messages() == seq![m]
            && !e.with_ui,
        None => r is Ok,
    }
}

impl SignupBody {
    /// Refuses an empty user name or password, and a confirmation that
    /// differs from the password.
    pub fn validate(&self) -> (r: Result<(), ApiError>)
        ensures
            validated(
                signup_refusal(self.username@, self.password@, Some(self.password_confirm@)),
                r,
            ),
            self.username@.len() > 0 && self.password@.len() > 0 ==> (r is Ok <==> self.password@
                == self.password_confirm@),
    {
        if self.username.as_str().is_empty() {
            Err(ApiError::from_message("username can NOT be empty", BAD_REQUEST))
        } else if self.password.as_str().is_empty() {
            Err(ApiError::from_message("password can NOT be empty", BAD_REQUEST))
        } else if self.password != self.password_confirm {
            Err(ApiError::from_message("password & password_confirm does NOT mactch", BAD_REQUEST))
        } else {
            Ok(())
        }
    }
}

impl SignupApiPayload {
    /// Refuses an empty user name or password.
    pub fn validate(&self) -> (r: Result<(), ApiError>)
        ensures
            validated(signup_refusal(self.username@, self.password@, None), r),
    {
        if self.username.as_str().is_empty() {
            Err(ApiError::from_message("username can NOT be empty", BAD_REQUEST))
        } else if self.password.as_str().is_empty() {
            Err(ApiError::from_message("password can NOT be empty", BAD_REQUEST))
        } else {
            Ok(())
        }
    }
}

/// The user that a sign-up creates: validated, titled with the user name,
/// with a bcrypt hash of the password. A valid payload yields either such a
/// user or, when hashing fails, a 500 whose first message is its reason
/// phrase.
pub fn signup_user(payload: SignupApiPayload) -> (r: Result<DbUser, ApiError>)
    ensures
        signup_refusal(payload.username@, payload.password@, None) matches Some(m) ==> (r matches Err(
            e,
        ) && e.status_code == BAD_REQUEST && e.messages() == seq![m] && !e.with_ui),
        signup_refusal(payload.username@, payload.password@, None) is None ==> match r {
            Ok(u) => u.username@ == payload.username@ && u.title@ == payload.username@
                && bcrypt_verifies(payload.password@, u.hashed_password@) && is_default_bcrypt_hash(
                u.hashed_password@,
            ) && (!is_default_bcrypt_hash(payload.password@) ==> u.hashed_password@
                != payload.password@),
            Err(e) => e.status_code == INTERNAL_SERVER_ERROR && e.messages().len() == 2
                && e.messages()[0] == "Internal Server Error"@,
        },
{
    match payload.validate() {
        Err(e) => Err(e),
        Ok(()) => match bcrypt_hash(payload.password.as_str()) {
            Ok(hashed_password) => Ok(
                DbUser {
                    title: payload.username.clone(),
                    username: payload.username,
                    hashed_password,
                },
            ),
            Err(e) => Err(ApiError::internal_server_error().append_error(bcrypt_error_text(&e))),
        },
    }
}

/// The outcome of a sign-in with the user found under the given name: that
/// user when the password matches its hash, nobody otherwise.
pub open spec fn signin_outcome(found: Option<DbUser>, password: Seq<char>) -> Option<DbUser> {
    match found {
        Some(u) => if bcrypt_verifies(password, u.hashed_password@) {
            Some(u)
        } else {
            None
        },
        None => None,
    }
}

/// A sign-in: the user found under the name, when the password matches its
/// hash (an unreadable hash counts as no match).
pub fn attemp_signin(found: Option<DbUser>, password: &str) -> (r: Option<DbUser>)
    ensures
        r == signin_outcome(found, password@),
{
    match found {
        Some(user) => {
            let is_password_matches = match bcrypt_verify(password, user.hashed_password.as_str()) {
                Ok(b) => b,
                Err(_) => false,
            };
            if is_password_matches {
                Some(user)
            } else {
                None
            }
        },
        None => None,
    }
}

/// A user that signed up with a password signs in with the same password:
/// the hash that sign-up stores passes the sign-in check, so the stored user
/// comes back.
pub proof fn signup_then_signin(payload: SignupApiPayload, u: DbUser)
    requires
        signup_refusal(payload.username@, payload.password@, None) is None,
        u.username@ == payload.username@,
        bcrypt_verifies(payload.password@, u.hashed_password@),
    ensures
        signin_outcome(Some(u), payload.password@) == Some(u),
        signin_outcome(Some(u), payload.password@)->0.username@ == payload.username@,
{
}

/// Only the user named in the token may change that user: 403 otherwise.
pub fn check_user_match(username: &str, jwt_sub: &str) -> (r: Result<(), ApiError>)
    ensures
        username@ == jwt_sub@ ==> r is Ok,
        username@ != jwt_sub@ ==> (r matches Err(e) && e.status_code == FORBIDDEN && e.messages()
            == seq!["Forbidden"@] && !e.with_ui),
{
    if username.to_owned() != jwt_sub.to_owned() {
        Err(ApiError::forbidden())
    } else {
        Ok(())
    }
}

/// The profile of a user that has none yet: made from the user found under
/// the token's name, or a 404 store error (`Not Found`) without one.
pub fn profile_for_user(found: Option<DbUser>) -> (r: Result<DbProfile, DbError>)
    ensures
        match found {
            Some(u) => r matches Ok(p) && p.username == u.username && p.title == u.title
                && p.avatar_url is None && p.description is None,
            None => r matches Err(e) && e.status_code == NOT_FOUND && e.message@ == "Not Found"@,
        },
{
    match found {
        Some(u) => Ok(DbProfile::from(u)),
        None => Err(DbError { status_code: NOT_FOUND, message: reason_phrase(NOT_FOUND) }),
    }
}


/// What serving a user's profile gives: the stored profile as it is
/// (nothing to store), or, without one, the profile made from the user
/// found under the token's name (to be stored), or the store error when no
/// user has that name.
pub open spec fn profile_served(
    stored: Option<DbProfile>,
    found: Option<DbUser>,
    r: Result<(DbProfile, bool), DbError>,
) -> bool {
    match stored {
        Some(p) => r == Ok::<(DbProfile, bool), DbError>((p, false)),
        None => match found {
            Some(u) => r matches Ok((p, store)) && store && p == (DbProfile {
                username: u.username,
                title: u.title,
                avatar_url: None,
                description: None,
            }),
            None => r matches Err(e) && e.status_code == NOT_FOUND && e.message@ == "Not Found"@,
        },
    }
}

/// The profile to answer with, given the one stored under the token's name
/// and the user found under it; the flag tells that the profile is new and
/// is to be stored.
pub fn served_profile(stored: Option<DbProfile>, found: Option<DbUser>) -> (r: Result<
    (DbProfile, bool),
    DbError,
>)
    ensures
        profile_served(stored, found, r),
{
    match stored {
        Some(p) => Ok((p, false)),
        None => match profile_for_user(found) {
            Ok(p) => Ok((p, true)),
            Err(e) => Err(e),
        },
    }
}

/// A profile is made once: after the profile made from a user is stored, a
/// later request is answered with that same profile and stores nothing,
/// whatever the user store then holds.
pub proof fn profile_is_made_once(
    u: DbUser,
    q: DbProfile,
    later_found: Option<DbUser>,
    later: Result<(DbProfile, bool), DbError>,
)
    requires
        profile_served(None, Some(u), Ok((q, true))),
        profile_served(Some(q), later_found, later),
    ensures
        q.username == u.username,
        q.title == u.title,
        later == Ok::<(DbProfile, bool), DbError>((q, false)),
{
}


/// A sign-up form is accepted exactly when it has a user name and a password
/// and the confirmation repeats the password; a refusal is a 400.
pub proof fn signup_form_needs_matching_confirmation(
    username: Seq<char>,
    password: Seq<char>,
    confirm: Seq<char>,
    r: Result<(), ApiError>,
)
    requires
        validated(signup_refusal(username, password, Some(confirm)), r),
    ensures
        r is Ok <==> (username.len() > 0 && password.len() > 0 && password == confirm),
        r matches Err(e) ==> e.status_code == BAD_REQUEST,
{
}

/// A sign-up through the API is accepted exactly when it has a user name and
/// a password; a refusal is a 400.
pub proof fn signup_payload_needs_name_and_password(
    username: Seq<char>,
    password: Seq<char>,
    r: Result<(), ApiError>,
)
    requires
        validated(signup_refusal(username, password, None), r),
    ensures
        r is Ok <==> (username.len() > 0 && password.len() > 0),
        r matches Err(e) ==> e.status_code == BAD_REQUEST,
{
}


/// A sign-in succeeds only for a user that was found and whose stored hash
/// accepts the password, and then gives back that very user.
pub proof fn signin_needs_the_right_password(found: Option<DbUser>, password: Seq<char>)
    ensures
        signin_outcome(found, password) matches Some(u) ==> found == Some(u) && bcrypt_verifies(
            password,
            u.hashed_password@,
        ),
        found matches Some(u) && !bcrypt_verifies(password, u.hashed_password@) ==> signin_outcome(
            found,
            password,
        ) is None,
        found is None ==> signin_outcome(found, password) is None,
{
}

} // verus!
