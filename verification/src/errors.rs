use vstd::prelude::*;
use crate::status::{
    known_reason, reason_phrase, reason_phrase_of, BAD_REQUEST, FORBIDDEN, INTERNAL_SERVER_ERROR, NOT_FOUND,
    NOT_IMPLEMENTED, UNAUTHORIZED, UNPROCESSABLE_ENTITY,
};

verus! {

/// std's I/O error type.
#[verifier::external_type_specification]
#[verifier::external_body]
pub struct ExIoError(std::io::Error);

/// The texts of a list of strings, as a sequence of character sequences.
pub open spec fn texts(v: Seq<String>) -> Seq<Seq<char>> {
    v.map_values(|s: String| s@)
}

/// An error answered by the API: a status code, the messages, and whether
/// it is shown as an error page rather than as JSON.
#[derive(Debug, Clone, PartialEq, Eq)]
pub struct ApiError {
    pub status_code: u16,
    pub errors: Vec<String>,
    pub with_ui: bool,
}

impl ApiError {
    /// The messages of this error, as text.
    pub open spec fn messages(&self) -> Seq<Seq<char>> {
        texts(self.errors@)
    }

    /// An error with the given status and messages, answered as JSON.
    pub fn new(status_code: u16, errors: Vec<String>) -> (r: ApiError)
        ensures
            r.status_code == status_code,
            r.errors@ == errors@,
            !r.with_ui,
    {
        ApiError { status_code, errors, with_ui: false }
    }

    /// A 400 error with the given messages.
    pub fn bad_request(errors: Vec<String>) -> (r: ApiError)
        ensures
            r.status_code == BAD_REQUEST,
            r.errors@ == errors@,
            !r.with_ui,
    {
        ApiError { status_code: BAD_REQUEST, errors, with_ui: false }
    }

    /// An error whose only message is the reason phrase of its status.
    pub fn from_status(status_code: u16) -> (r: ApiError)
        ensures
            r.status_code == status_code,
            r.messages() == seq![reason_phrase_of(status_code)],
            known_reason(status_code) matches Some(p) ==> r.messages() == seq![p],
            !r.with_ui,
    {
        let mut errors: Vec<String> = Vec::new();
        errors.push(reason_phrase(status_code));
        let r = ApiError { status_code, errors, with_ui: false };
        assert(r.messages() =~= seq![reason_phrase_of(status_code)]);
        r
    }

    /// An error whose only message is `msg`.
    pub fn from_message(msg: &str, status_code: u16) -> (r: ApiError)
        ensures
            r.status_code == status_code,
            r.messages() == seq![msg@],
            !r.with_ui,
    {
        let mut errors: Vec<String> = Vec::new();
        errors.push(msg.to_owned());
        let r = ApiError { status_code, errors, with_ui: false };
        assert(r.messages() =~= seq![msg@]);
        r
    }

    /// 401, with its reason phrase.
    pub fn unauthorized() -> (r: ApiError)
        ensures
            r.status_code == UNAUTHORIZED,
            r.messages() == seq!["Unauthorized"@],
            !r.with_ui,
    {
        Self::from_status(UNAUTHORIZED)
    }

    /// 501, with its reason phrase.
    pub fn not_implemented() -> (r: ApiError)
        ensures
            r.status_code == NOT_IMPLEMENTED,
            r.messages() == seq!["Not Implemented"@],
            !r.with_ui,
    {
        Self::from_status(NOT_IMPLEMENTED)
    }

    /// 404, with its reason phrase.
    pub fn not_found() -> (r: ApiError)
        ensures
            r.status_code == NOT_FOUND,
            r.messages() == seq!["Not Found"@],
            !r.with_ui,
    {
        Self::from_status(NOT_FOUND)
    }

    /// 403, with its reason phrase.
    pub fn forbidden() -> (r: ApiError)
        ensures
            r.status_code == FORBIDDEN,
            r.messages() == seq!["Forbidden"@],
            !r.with_ui,
    {
        Self::from_status(FORBIDDEN)
    }

    /// 422, with its reason phrase.
    pub fn unprocessable_entity() -> (r: ApiError)
        ensures
            r.status_code == UNPROCESSABLE_ENTITY,
            r.messages() == seq!["Unprocessable Entity"@],
            !r.with_ui,
    {
        Self::from_status(UNPROCESSABLE_ENTITY)
    }

    /// 500, with its reason phrase.
    pub fn internal_server_error() -> (r: ApiError)
        ensures
            r.status_code == INTERNAL_SERVER_ERROR,
            r.messages() == seq!["Internal Server Error"@],
            !r.with_ui,
    {
        Self::from_status(INTERNAL_SERVER_ERROR)
    }

    /// The error that answers a failed call to a remote service: its message
    /// is the failure's cause (or `Unknown error` without one), its status
    /// the remote status (or 500 without one).
    pub fn from_remote_failure(cause: Option<String>, remote_status: Option<u16>) -> (r: ApiError)
        ensures
            r.status_code == match remote_status {
                Some(s) => s,
                None => INTERNAL_SERVER_ERROR,
            },
            r.messages() == seq![
                match cause {
                    Some(c) => c@,
                    None => "Unknown error"@,
                },
            ],
            !r.with_ui,
    {
        let msg = match cause {
            Some(c) => c,
            None => "Unknown error".to_owned(),
        };
        let status_code = match remote_status {
            Some(s) => s,
            None => INTERNAL_SERVER_ERROR,
        };
        ApiError::from_message(msg.as_str(), status_code)
    }

    /// The error that answers a failed file operation: `IO Error` with the
    /// given status (the failure itself is only logged).
    pub fn from_io_error(std_error: std::io::Error, status_code: u16) -> (r: ApiError)
        ensures
            r.status_code == status_code,
            r.messages() == seq!["IO Error"@],
            !r.with_ui,
    {
        let _ = std_error;
        ApiError::from_message("IO Error", status_code)
    }

    /// The same error with one more message at the end.
    pub fn append_error(self, error: String) -> (r: ApiError)
        ensures
            r.status_code == self.status_code,
            r.errors@ == self.errors@.push(error),
            r.messages() == self.messages().push(error@),
            r.with_ui == self.with_ui,
    {
        let mut s = self;
        s.errors.push(error);
        assert(texts(s.errors@) =~= texts(self.errors@).push(error@));
        s
    }

    /// The same error, shown as an error page.
    pub fn with_ui(self) -> (r: ApiError)
        ensures
            r.status_code == self.status_code,
            r.errors@ == self.errors@,
            r.with_ui,
    {
        let mut s = self;
        s.with_ui = true;
        s
    }
}

/// Errors of the record stores.
#[derive(Debug, PartialEq, Eq)]
pub enum OrmError {
    NotFound,
}

/// An error of a record store: a status code and one message.
#[derive(Debug, Clone, PartialEq, Eq)]
pub struct DbError {
    pub status_code: u16,
    pub message: String,
}

impl DbError {
    /// A 500 error with the given message.
    pub fn internal_server_error(message: String) -> (r: DbError)
        ensures
            r.status_code == INTERNAL_SERVER_ERROR,
            r.message == message,
    {
        DbError { status_code: INTERNAL_SERVER_ERROR, message }
    }
}

impl DbError {
    /// The API error that answers this store error: the same status and the
    /// message as its only entry.
    pub fn into_api_error(self) -> (r: ApiError)
        ensures
            r.status_code == self.status_code,
            r.messages() == seq![self.message@],
            !r.with_ui,
    {
        let mut errors: Vec<String> = Vec::new();
        errors.push(self.message);
        let r = ApiError::new(self.status_code, errors);
        assert(r.messages() =~= seq![self.message@]);
        r
    }
}

} // verus!
