//! The capability a handler needs to reach the answer store.

use vstd::prelude::*;
use crate::models::{Answer, AnswerDetail, DBError};

verus! {

/// Store access for answers, scoped by the question they answer. As
/// with questions, nothing is promised of an arbitrary implementation.
pub trait AnswersDao {
    fn create_answer(&mut self, answer: Answer) -> Result<AnswerDetail, DBError>;

    fn delete_answer(&mut self, answer_uuid: String) -> Result<(), DBError>;

    fn get_answers(&mut self, question_uuid: String) -> Result<Vec<AnswerDetail>, DBError>;
}

} // verus!
