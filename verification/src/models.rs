//! Domain records for questions and answers, and the two-tier error
//! taxonomy: data-layer errors (`DBError`) and handler-layer errors
//! (`HandlerError`).

use vstd::prelude::*;

verus! {

/// A question as submitted by a caller; it has no identity yet.
#[derive(Debug, PartialEq, Clone)]
pub struct Question {
    pub title: String,
    pub description: String,
}

/// A question as persisted: the store adds a generated UUID and a
/// creation timestamp, both rendered as strings.
#[derive(Debug, PartialEq, Clone)]
pub struct QuestionDetail {
    pub question_uuid: String,
    pub title: String,
    pub description: String,
    pub created_at: String,
}

/// An answer as submitted by a caller: the UUID of the question it
/// answers, and its content.
#[derive(Debug, PartialEq, Clone)]
pub struct Answer {
    pub question_uuid: String,
    pub content: String,
}

/// An answer as persisted: the store adds a generated UUID and a
/// creation timestamp.
#[derive(Debug, PartialEq, Clone)]
pub struct AnswerDetail {
    pub answer_uuid: String,
    pub question_uuid: String,
    pub content: String,
    pub created_at: String,
}

/// A deletion/lookup key naming a question by its UUID string.
#[derive(Debug, PartialEq, Clone)]
pub struct QuestionId {
    pub question_uuid: String,
}

/// A deletion key naming an answer by its UUID string.
#[derive(Debug, PartialEq, Clone)]
pub struct AnswerId {
    pub answer_uuid: String,
}

/// A data-layer failure: either an identifier string that is not a
/// valid UUID (including a foreign-key violation on create), or any
/// other store failure, carried as opaque text for logging only.
#[derive(Debug, PartialEq, Clone)]
pub enum DBError {
    InvalidUUID(String),
    Other(String),
}

/// A handler-layer failure as seen by an HTTP caller: a rejected
/// request, or an internal failure with a user-safe message.
#[derive(Debug, PartialEq, Clone)]
pub enum HandlerError {
    BadRequest(String),
    InternalError(String),
}

impl DBError {
    /// Classifies a reported store failure: a foreign-key violation
    /// means the caller's question reference was invalid; anything
    /// else is an opaque store failure, kept for logging only.
    pub fn from_store_failure(foreign_key_violation: bool, message: String) -> (r: DBError)
        ensures
            foreign_key_violation ==> r == DBError::InvalidUUID(message),
            !foreign_key_violation ==> r == DBError::Other(message),
    {
        if foreign_key_violation {
            DBError::InvalidUUID(message)
        } else {
            DBError::Other(message)
        }
    }
}

/// The one user-safe message used for every internal failure; the
/// underlying cause is never part of a response.
pub open spec fn default_internal_message() -> Seq<char> {
    "Something went wrong! Please try again."@
}

/// Holds exactly of the handler error that every internal failure
/// turns into.
pub open spec fn is_default_internal(e: HandlerError) -> bool {
    e matches HandlerError::InternalError(m) && m@ == default_internal_message()
}

impl HandlerError {
    /// The generic internal error: its message never depends on the
    /// failure that caused it.
    pub fn default_internal_error() -> (r: HandlerError)
        ensures
            is_default_internal(r),
    {
        HandlerError::InternalError("Something went wrong! Please try again.".to_owned())
    }

    /// The fixed HTTP face of a handler error: a rejected request is
    /// status 400, an internal failure status 500, and the message is
    /// the whole body.
    pub fn http_status_and_body(self) -> (r: (u16, String))
        ensures
            self matches HandlerError::BadRequest(m) ==> (r.0 == 400 && r.1 == m),
            self matches HandlerError::InternalError(m) ==> (r.0 == 500 && r.1 == m),
    {
        match self {
            HandlerError::BadRequest(m) => (400, m),
            HandlerError::InternalError(m) => (500, m),
        }
    }
}

} // verus!
