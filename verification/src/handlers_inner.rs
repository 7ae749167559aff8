//! Handler logic: one function per operation, each making a single
//! data-access call and applying the error-mapping rule. A malformed or
//! unknown question UUID on the create-answer path is the caller's
//! fault (`BadRequest`); every other failure, on every path, reaches
//! the caller only as the generic internal error.

use vstd::prelude::*;
use crate::answers_dao::AnswersDao;
use crate::models::{
    Answer, AnswerDetail, AnswerId, DBError, HandlerError, Question, QuestionDetail, QuestionId,
    is_default_internal,
};
use crate::questions_dao::QuestionsDao;
use crate::uuids::{invalid_uuid_error, is_uuid};

verus! {

/// The error-mapping rule for the create-answer path: a data-layer
/// `InvalidUUID` keeps its message and becomes `BadRequest`; any other
/// failure becomes the generic internal error.
pub open spec fn create_answer_error_mapped(e: DBError, h: HandlerError) -> bool {
    match e {
        DBError::InvalidUUID(m) => h matches HandlerError::BadRequest(b) && b@ == m@,
        DBError::Other(_) => is_default_internal(h),
    }
}

/// Maps a data-layer outcome for an operation whose failures are all
/// internal: a value passes through unchanged; every error becomes the
/// generic internal error, whatever its cause said.
pub fn to_internal_outcome<T>(result: Result<T, DBError>) -> (r: Result<T, HandlerError>)
    ensures
        result matches Ok(v) ==> (r matches Ok(out) && out == v),
        result is Err ==> (r matches Err(e) && is_default_internal(e)),
{
    match result {
        Ok(v) => Ok(v),
        Err(_) => Err(HandlerError::default_internal_error()),
    }
}

/// Maps a data-layer outcome for the create-answer path: a value passes
/// through unchanged; an error is mapped by the create-answer rule.
pub fn create_answer_outcome(result: Result<AnswerDetail, DBError>) -> (r: Result<
    AnswerDetail,
    HandlerError,
>)
    ensures
        result matches Ok(a) ==> (r matches Ok(out) && out == a),
        result matches Err(e) ==> (r matches Err(h) && create_answer_error_mapped(e, h)),
{
    match result {
        Ok(a) => Ok(a),
        Err(DBError::InvalidUUID(m)) => Err(HandlerError::BadRequest(m)),
        Err(DBError::Other(_)) => Err(HandlerError::default_internal_error()),
    }
}

/// Law: a data-layer failure other than `InvalidUUID` on the
/// create-answer path turns into the internal error with the fixed
/// generic message, whatever text the underlying cause carried.
pub proof fn lemma_non_uuid_create_failure_is_generic(e: DBError, h: HandlerError)
    requires
        e matches DBError::Other(_),
        create_answer_error_mapped(e, h),
    ensures
        is_default_internal(h),
{
}

/// Law: for a malformed UUID string, the data-layer error that a
/// validating store reports on the create-answer path maps to
/// `BadRequest`, never to the internal error.
pub proof fn lemma_malformed_uuid_create_answer_is_bad_request(
    u: Seq<char>,
    e: DBError,
    h: HandlerError,
)
    requires
        !is_uuid(u),
        invalid_uuid_error(e, u),
        create_answer_error_mapped(e, h),
    ensures
        h matches HandlerError::BadRequest(_),
        !(h matches HandlerError::InternalError(_)),
{
}

/// Creates a question through the given store capability. Whatever the
/// store answers, a failure reaches the caller only as the generic
/// internal error.
pub fn create_question<D: QuestionsDao>(question: Question, questions_dao: &mut D) -> (r: Result<
    QuestionDetail,
    HandlerError,
>)
    ensures
        r matches Err(e) ==> is_default_internal(e),
{
    to_internal_outcome(questions_dao.create_question(question))
}

/// Lists all questions through the given store capability; a failure
/// reaches the caller only as the generic internal error.
pub fn read_questions<D: QuestionsDao>(questions_dao: &mut D) -> (r: Result<
    Vec<QuestionDetail>,
    HandlerError,
>)
    ensures
        r matches Err(e) ==> is_default_internal(e),
{
    to_internal_outcome(questions_dao.get_questions())
}

/// Deletes a question by its UUID; a failure reaches the caller only
/// as the generic internal error.
pub fn delete_question<D: QuestionsDao>(question_uuid: QuestionId, questions_dao: &mut D) -> (r:
    Result<(), HandlerError>)
    ensures
        r matches Err(e) ==> is_default_internal(e),
{
    to_internal_outcome(questions_dao.delete_question(question_uuid.question_uuid))
}

/// Creates an answer through the given store capability. A data-layer
/// `InvalidUUID` — a malformed or unknown question UUID — comes back as
/// `BadRequest`; any other failure only as the generic internal error.
pub fn create_answer<D: AnswersDao>(answer: Answer, answers_dao: &mut D) -> (r: Result<
    AnswerDetail,
    HandlerError,
>)
    ensures
        r matches Err(e) ==> (e matches HandlerError::BadRequest(_) || is_default_internal(e)),
{
    create_answer_outcome(answers_dao.create_answer(answer))
}

/// Lists the answers of one question; a failure reaches the caller
/// only as the generic internal error.
pub fn read_answers<D: AnswersDao>(question_uuid: QuestionId, answers_dao: &mut D) -> (r: Result<
    Vec<AnswerDetail>,
    HandlerError,
>)
    ensures
        r matches Err(e) ==> is_default_internal(e),
{
    to_internal_outcome(answers_dao.get_answers(question_uuid.question_uuid))
}

/// Deletes an answer by its UUID; a failure reaches the caller only as
/// the generic internal error.
pub fn delete_answer<D: AnswersDao>(answer_uuid: AnswerId, answers_dao: &mut D) -> (r: Result<
    (),
    HandlerError,
>)
    ensures
        r matches Err(e) ==> is_default_internal(e),
{
    to_internal_outcome(answers_dao.delete_answer(answer_uuid.answer_uuid))
}

} // verus!
