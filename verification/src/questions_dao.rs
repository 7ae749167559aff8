//! The capability a handler needs to reach the question store.

use vstd::prelude::*;
use crate::models::{DBError, Question, QuestionDetail};

verus! {

/// Store access for questions. A production implementation issues SQL;
/// the in-memory store keeps the records itself; a test double returns
/// programmed responses. Nothing is promised of an arbitrary
/// implementation, so handler contracts state only what holds of every
/// outcome.
pub trait QuestionsDao {
    fn create_question(&mut self, question: Question) -> Result<QuestionDetail, DBError>;

    fn delete_question(&mut self, question_uuid: String) -> Result<(), DBError>;

    fn get_questions(&mut self) -> Result<Vec<QuestionDetail>, DBError>;
}

} // verus!
