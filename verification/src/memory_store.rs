//! An in-memory question-and-answer store with exact contracts. It
//! implements both data-access capabilities, keeps records in insertion
//! order, and generates identifiers and timestamps from a tick counter
//! that advances on every successful insert. It enforces what the
//! production schema enforces: a created answer must reference a stored
//! question, and a referenced question cannot be deleted.

use vstd::prelude::*;
use crate::decimal::{decimal_seq, decimal_string};
use crate::models::{Answer, AnswerDetail, DBError, Question, QuestionDetail};
use crate::uuids::{invalid_uuid_error, is_uuid, uuid_string, uuid_text, validate_uuid};

verus! {

/// The message the store reports when a created answer references no
/// stored question.
pub open spec fn fk_violation_message() -> Seq<char> {
    "foreign key violation: question_uuid references no question"@
}

/// The message the store reports when a deleted question is still
/// referenced by an answer.
pub open spec fn referenced_question_message() -> Seq<char> {
    "foreign key violation: an answer still references this question"@
}

/// The message the store reports when its tick counter is exhausted
/// and it cannot generate another identifier.
pub open spec fn tick_exhausted_message() -> Seq<char> {
    "the store cannot generate another identifier"@
}

/// The questions left once every record carrying the UUID `u` is gone.
pub open spec fn questions_without(qs: Seq<QuestionDetail>, u: Seq<char>) -> Seq<QuestionDetail>
    decreases qs.len(),
{
    if qs.len() == 0 {
        Seq::empty()
    } else {
        let rest = questions_without(qs.drop_last(), u);
        if qs.last().question_uuid@ != u {
            rest.push(qs.last())
        } else {
            rest
        }
    }
}

/// The answers left once every record carrying the answer UUID `u` is
/// gone.
pub open spec fn answers_without(ans: Seq<AnswerDetail>, u: Seq<char>) -> Seq<AnswerDetail>
    decreases ans.len(),
{
    if ans.len() == 0 {
        Seq::empty()
    } else {
        let rest = answers_without(ans.drop_last(), u);
        if ans.last().answer_uuid@ != u {
            rest.push(ans.last())
        } else {
            rest
        }
    }
}

/// The answers of the question with UUID `u`, in insertion order.
pub open spec fn answers_of(ans: Seq<AnswerDetail>, u: Seq<char>) -> Seq<AnswerDetail>
    decreases ans.len(),
{
    if ans.len() == 0 {
        Seq::empty()
    } else {
        let rest = answers_of(ans.drop_last(), u);
        if ans.last().question_uuid@ == u {
            rest.push(ans.last())
        } else {
            rest
        }
    }
}

/// An in-memory store for questions and answers.
pub struct InMemoryStore {
    pub questions: Vec<QuestionDetail>,
    pub answers: Vec<AnswerDetail>,
    pub tick: u64,
}

impl InMemoryStore {
    /// Whether some stored question carries the UUID `u`.
    pub open spec fn spec_has_question(self, u: Seq<char>) -> bool {
        exists|i: int|
            0 <= i < self.questions@.len() && (#[trigger] self.questions@[i]).question_uuid@ == u
    }

    /// Whether some stored answer references the question UUID `u`.
    pub open spec fn spec_answer_refers_to(self, u: Seq<char>) -> bool {
        exists|i: int|
            0 <= i < self.answers@.len() && (#[trigger] self.answers@[i]).question_uuid@ == u
    }

    /// Whether some stored answer carries the answer UUID `u`.
    pub open spec fn spec_has_answer(self, u: Seq<char>) -> bool {
        exists|i: int|
            0 <= i < self.answers@.len() && (#[trigger] self.answers@[i]).answer_uuid@ == u
    }

    /// Every stored identifier is a valid UUID, and every answer
    /// references a stored question.
    pub open spec fn wf(self) -> bool {
        &&& forall|i: int|
            0 <= i < self.questions@.len() ==> is_uuid(
                (#[trigger] self.questions@[i]).question_uuid@,
            )
        &&& forall|i: int|
            0 <= i < self.answers@.len() ==> is_uuid((#[trigger] self.answers@[i]).answer_uuid@)
        &&& forall|i: int|
            0 <= i < self.answers@.len() ==> is_uuid((#[trigger] self.answers@[i]).question_uuid@)
        &&& forall|i: int|
            0 <= i < self.answers@.len() ==> self.spec_has_question(
                (#[trigger] self.answers@[i]).question_uuid@,
            )
    }

    /// An empty store.
    pub fn new() -> (s: InMemoryStore)
        ensures
            s.questions@ == Seq::<QuestionDetail>::empty(),
            s.answers@ == Seq::<AnswerDetail>::empty(),
            s.tick == 0,
            s.wf(),
    {
        let s = InMemoryStore { questions: Vec::new(), answers: Vec::new(), tick: 0 };
        proof {
            assert(s.questions@ =~= Seq::<QuestionDetail>::empty());
            assert(s.answers@ =~= Seq::<AnswerDetail>::empty());
        }
        s
    }

    /// Whether some stored question carries the given UUID string.
    fn has_question(&self, u: &String) -> (r: bool)
        ensures
            r == self.spec_has_question(u@),
    {
        let mut i: usize = 0;
        while i < self.questions.len()
            invariant
                i <= self.questions@.len(),
                forall|k: int|
                    0 <= k < i ==> (#[trigger] self.questions@[k]).question_uuid@ != u@,
            decreases self.questions@.len() - i,
        {
            if self.questions[i].question_uuid == *u {
                return true;
            }
            i = i + 1;
        }
        false
    }

    /// Inserts a question: the store generates the identifier and the
    /// timestamp from its tick, which then advances. It fails only
    /// when the tick counter is exhausted, and then changes nothing.
    pub fn create_question_record(&mut self, question: Question) -> (r: Result<
        QuestionDetail,
        DBError,
    >)
        ensures
            old(self).tick < u64::MAX ==> (r matches Ok(d) && created_question(
                *old(self),
                question,
                d,
                *final(self),
            )),
            old(self).tick == u64::MAX ==> (r matches Err(e) && (e matches DBError::Other(m)
                && m@ == tick_exhausted_message()) && *final(self) == *old(self)),
            old(self).wf() ==> final(self).wf(),
    {
        if self.tick == u64::MAX {
            return Err(DBError::Other("the store cannot generate another identifier".to_owned()));
        }
        let d = QuestionDetail {
            question_uuid: uuid_string(self.tick as u128),
            title: question.title,
            description: question.description,
            created_at: decimal_string(self.tick),
        };
        self.questions.push(clone_question_detail(&d));
        self.tick = self.tick + 1;
        proof {
            if old(self).wf() {
                assert forall|i: int| 0 <= i < self.answers@.len() implies self.spec_has_question(
                    (#[trigger] self.answers@[i]).question_uuid@,
                ) by {
                    let u = self.answers@[i].question_uuid@;
                    let j = choose|j: int|
                        0 <= j < old(self).questions@.len() && (#[trigger] old(
                            self,
                        ).questions@[j]).question_uuid@ == u;
                    assert(self.questions@[j].question_uuid@ == u);
                }
            }
        }
        Ok(d)
    }

    /// Whether some stored answer references the given question UUID.
    fn answer_refers_to(&self, u: &String) -> (r: bool)
        ensures
            r == self.spec_answer_refers_to(u@),
    {
        let mut i: usize = 0;
        while i < self.answers.len()
            invariant
                i <= self.answers@.len(),
                forall|k: int| 0 <= k < i ==> (#[trigger] self.answers@[k]).question_uuid@ != u@,
            decreases self.answers@.len() - i,
        {
            if self.answers[i].question_uuid == *u {
                return true;
            }
            i = i + 1;
        }
        false
    }

    /// Deletes every question carrying the given UUID. A malformed
    /// UUID is rejected before anything is read; deleting a question
    /// that an answer still references fails as the schema's
    /// foreign-key constraint would; deleting a UUID that no record
    /// carries succeeds and changes nothing.
    pub fn delete_question_record(&mut self, question_uuid: &String) -> (r: Result<(), DBError>)
        ensures
            !is_uuid(question_uuid@) ==> (r matches Err(e) && invalid_uuid_error(
                e,
                question_uuid@,
            ) && *final(self) == *old(self)),
            is_uuid(question_uuid@) && old(self).spec_answer_refers_to(question_uuid@) ==> (
            r matches Err(e) && (e matches DBError::Other(m) && m@
                == referenced_question_message()) && *final(self) == *old(self)),
            is_uuid(question_uuid@) && !old(self).spec_answer_refers_to(question_uuid@) ==> (
            r is Ok && final(self).questions@ == questions_without(
                old(self).questions@,
                question_uuid@,
            ) && final(self).answers@ == old(self).answers@ && final(self).tick == old(
                self,
            ).tick),
            old(self).wf() ==> final(self).wf(),
    {
        if let Err(e) = validate_uuid(question_uuid.as_str()) {
            return Err(e);
        }
        if self.answer_refers_to(question_uuid) {
            return Err(
                DBError::Other(
                    "foreign key violation: an answer still references this question".to_owned(),
                ),
            );
        }
        let ghost qs = self.questions@;
        let mut kept: Vec<QuestionDetail> = Vec::new();
        let mut i: usize = 0;
        while i < self.questions.len()
            invariant
                i <= self.questions@.len(),
                self.questions@ == qs,
                kept@ == questions_without(qs.subrange(0, i as int), question_uuid@),
            decreases self.questions@.len() - i,
        {
            let keep = !(self.questions[i].question_uuid == *question_uuid);
            if keep {
                kept.push(clone_question_detail(&self.questions[i]));
            }
            i = i + 1;
            proof {
                let sub1 = qs.subrange(0, i as int);
                assert(sub1.drop_last() =~= qs.subrange(0, i - 1));
                assert(sub1.last() == qs[i - 1]);
                assert(kept@ == questions_without(sub1, question_uuid@));
            }
        }
        proof {
            assert(qs.subrange(0, qs.len() as int) =~= qs);
        }
        self.questions = kept;
        proof {
            if old(self).wf() {
                lemma_questions_without_membership(qs, question_uuid@);
                assert forall|i: int| 0 <= i < self.questions@.len() implies is_uuid(
                    (#[trigger] self.questions@[i]).question_uuid@,
                ) by {
                    let x = self.questions@[i];
                    let j = choose|j: int| 0 <= j < qs.len() && qs[j] == x;
                    assert(is_uuid(qs[j].question_uuid@));
                }
                assert forall|i: int| 0 <= i < self.answers@.len() implies self.spec_has_question(
                    (#[trigger] self.answers@[i]).question_uuid@,
                ) by {
                    let w = self.answers@[i].question_uuid@;
                    assert(old(self).spec_has_question(w));
                    assert(w != question_uuid@);
                    lemma_questions_without_keeps_other(qs, question_uuid@, w);
                }
            }
        }
        Ok(())
    }

    /// Inserts an answer. The question UUID is validated before
    /// anything is read: a malformed one is rejected as `InvalidUUID`
    /// with the parser's diagnostic, and a well-formed one that no
    /// stored question carries is rejected as `InvalidUUID` with the
    /// foreign-key message, as the production schema reports it.
    pub fn create_answer_record(&mut self, answer: Answer) -> (r: Result<AnswerDetail, DBError>)
        ensures
            !is_uuid(answer.question_uuid@) ==> (r matches Err(e) && invalid_uuid_error(
                e,
                answer.question_uuid@,
            ) && *final(self) == *old(self)),
            is_uuid(answer.question_uuid@) && !old(self).spec_has_question(answer.question_uuid@)
                ==> (r matches Err(e) && (e matches DBError::InvalidUUID(m) && m@
                == fk_violation_message()) && *final(self) == *old(self)),
            is_uuid(answer.question_uuid@) && old(self).spec_has_question(answer.question_uuid@)
                && old(self).tick < u64::MAX ==> (r matches Ok(d) && created_answer(
                *old(self),
                answer,
                d,
                *final(self),
            )),
            is_uuid(answer.question_uuid@) && old(self).spec_has_question(answer.question_uuid@)
                && old(self).tick == u64::MAX ==> (r matches Err(e) && (e
                matches DBError::Other(m) && m@ == tick_exhausted_message()) && *final(self)
                == *old(self)),
            old(self).wf() ==> final(self).wf(),
    {
        if let Err(e) = validate_uuid(answer.question_uuid.as_str()) {
            return Err(e);
        }
        if !self.has_question(&answer.question_uuid) {
            return Err(
                DBError::InvalidUUID(
                    "foreign key violation: question_uuid references no question".to_owned(),
                ),
            );
        }
        if self.tick == u64::MAX {
            return Err(DBError::Other("the store cannot generate another identifier".to_owned()));
        }
        let d = AnswerDetail {
            answer_uuid: uuid_string(self.tick as u128),
            question_uuid: answer.question_uuid,
            content: answer.content,
            created_at: decimal_string(self.tick),
        };
        self.answers.push(clone_answer_detail(&d));
        self.tick = self.tick + 1;
        proof {
            if old(self).wf() {
                assert forall|i: int| 0 <= i < self.answers@.len() implies self.spec_has_question(
                    (#[trigger] self.answers@[i]).question_uuid@,
                ) by {
                    let u = self.answers@[i].question_uuid@;
                    if i < old(self).answers@.len() {
                        assert(old(self).spec_has_question(u));
                    } else {
                        assert(old(self).spec_has_question(u));
                    }
                    let j = choose|j: int|
                        0 <= j < old(self).questions@.len() && (#[trigger] old(
                            self,
                        ).questions@[j]).question_uuid@ == u;
                    assert(self.questions@[j].question_uuid@ == u);
                }
            }
        }
        Ok(d)
    }

    /// Lists the answers of one question, in insertion order. A
    /// question with no answers yields the empty list, not an error;
    /// only a malformed UUID is rejected.
    pub fn get_answers_records(&self, question_uuid: &String) -> (r: Result<
        Vec<AnswerDetail>,
        DBError,
    >)
        ensures
            !is_uuid(question_uuid@) ==> (r matches Err(e) && invalid_uuid_error(
                e,
                question_uuid@,
            )),
            is_uuid(question_uuid@) ==> (r matches Ok(v) && v@ == answers_of(
                self.answers@,
                question_uuid@,
            )),
    {
        if let Err(e) = validate_uuid(question_uuid.as_str()) {
            return Err(e);
        }
        let mut out: Vec<AnswerDetail> = Vec::new();
        let mut i: usize = 0;
        while i < self.answers.len()
            invariant
                i <= self.answers@.len(),
                out@ == answers_of(self.answers@.subrange(0, i as int), question_uuid@),
            decreases self.answers@.len() - i,
        {
            if self.answers[i].question_uuid == *question_uuid {
                out.push(clone_answer_detail(&self.answers[i]));
            }
            i = i + 1;
            proof {
                let sub1 = self.answers@.subrange(0, i as int);
                assert(sub1.drop_last() =~= self.answers@.subrange(0, i - 1));
                assert(sub1.last() == self.answers@[i - 1]);
                assert(out@ == answers_of(sub1, question_uuid@));
            }
        }
        proof {
            assert(self.answers@.subrange(0, self.answers@.len() as int) =~= self.answers@);
        }
        Ok(out)
    }

    /// Deletes every answer carrying the given UUID. A malformed UUID
    /// is rejected before anything is read; deleting a UUID that no
    /// record carries succeeds and changes nothing.
    pub fn delete_answer_record(&mut self, answer_uuid: &String) -> (r: Result<(), DBError>)
        ensures
            !is_uuid(answer_uuid@) ==> (r matches Err(e) && invalid_uuid_error(e, answer_uuid@)
                && *final(self) == *old(self)),
            is_uuid(answer_uuid@) ==> (r is Ok && final(self).answers@ == answers_without(
                old(self).answers@,
                answer_uuid@,
            ) && final(self).questions@ == old(self).questions@ && final(self).tick == old(
                self,
            ).tick),
            old(self).wf() ==> final(self).wf(),
    {
        if let Err(e) = validate_uuid(answer_uuid.as_str()) {
            return Err(e);
        }
        let ghost ans = self.answers@;
        let mut kept: Vec<AnswerDetail> = Vec::new();
        let mut i: usize = 0;
        while i < self.answers.len()
            invariant
                i <= self.answers@.len(),
                self.answers@ == ans,
                kept@ == answers_without(ans.subrange(0, i as int), answer_uuid@),
            decreases self.answers@.len() - i,
        {
            let keep = !(self.answers[i].answer_uuid == *answer_uuid);
            if keep {
                kept.push(clone_answer_detail(&self.answers[i]));
            }
            i = i + 1;
            proof {
                let sub1 = ans.subrange(0, i as int);
                assert(sub1.drop_last() =~= ans.subrange(0, i - 1));
                assert(sub1.last() == ans[i - 1]);
                assert(kept@ == answers_without(sub1, answer_uuid@));
            }
        }
        proof {
            assert(ans.subrange(0, ans.len() as int) =~= ans);
        }
        self.answers = kept;
        proof {
            if old(self).wf() {
                lemma_answers_without_membership(ans, answer_uuid@);
                assert forall|i: int|
                    0 <= i < self.answers@.len() implies is_uuid(
                    (#[trigger] self.answers@[i]).answer_uuid@,
                ) && is_uuid(self.answers@[i].question_uuid@) && self.spec_has_question(
                    self.answers@[i].question_uuid@,
                ) by {
                    let x = self.answers@[i];
                    let j = choose|j: int| 0 <= j < ans.len() && ans[j] == x;
                    assert(is_uuid(ans[j].answer_uuid@));
                    assert(is_uuid(ans[j].question_uuid@));
                    assert(old(self).spec_has_question(ans[j].question_uuid@));
                    let k = choose|k: int|
                        0 <= k < old(self).questions@.len() && (#[trigger] old(
                            self,
                        ).questions@[k]).question_uuid@ == x.question_uuid@;
                    assert(self.questions@[k].question_uuid@ == x.question_uuid@);
                }
            }
        }
        Ok(())
    }

    /// Lists every stored question, in insertion order.
    pub fn get_questions_records(&self) -> (r: Vec<QuestionDetail>)
        ensures
            r@ == self.questions@,
    {
        let mut out: Vec<QuestionDetail> = Vec::new();
        let mut i: usize = 0;
        while i < self.questions.len()
            invariant
                i <= self.questions@.len(),
                out@ == self.questions@.subrange(0, i as int),
            decreases self.questions@.len() - i,
        {
            out.push(clone_question_detail(&self.questions[i]));
            i = i + 1;
            proof {
                assert(out@ =~= self.questions@.subrange(0, i as int));
            }
        }
        proof {
            assert(out@ =~= self.questions@);
        }
        out
    }
}

/// What a successful question insert does: the record carries the
/// caller's fields, a stored-generated UUID and timestamp, and is
/// appended; nothing else changes.
pub open spec fn created_question(
    s: InMemoryStore,
    question: Question,
    d: QuestionDetail,
    s2: InMemoryStore,
) -> bool {
    &&& d.title == question.title
    &&& d.description == question.description
    &&& d.question_uuid@ == uuid_text(s.tick as u128)
    &&& is_uuid(d.question_uuid@)
    &&& d.created_at@ == decimal_seq(s.tick as nat)
    &&& s2.questions@ == s.questions@.push(d)
    &&& s2.answers@ == s.answers@
    &&& s2.tick == s.tick + 1
}

/// What a successful answer insert does: the record carries the
/// caller's fields, a store-generated UUID and timestamp, and is
/// appended; nothing else changes.
pub open spec fn created_answer(
    s: InMemoryStore,
    answer: Answer,
    d: AnswerDetail,
    s2: InMemoryStore,
) -> bool {
    &&& d.question_uuid == answer.question_uuid
    &&& d.content == answer.content
    &&& d.answer_uuid@ == uuid_text(s.tick as u128)
    &&& is_uuid(d.answer_uuid@)
    &&& d.created_at@ == decimal_seq(s.tick as nat)
    &&& s2.answers@ == s.answers@.push(d)
    &&& s2.questions@ == s.questions@
    &&& s2.tick == s.tick + 1
}

/// Every question left after a deletion was already stored.
proof fn lemma_questions_without_membership(qs: Seq<QuestionDetail>, u: Seq<char>)
    ensures
        forall|i: int|
            0 <= i < questions_without(qs, u).len() ==> qs.contains(
                #[trigger] questions_without(qs, u)[i],
            ),
    decreases qs.len(),
{
    if qs.len() == 0 {
    } else {
        lemma_questions_without_membership(qs.drop_last(), u);
        let rest = questions_without(qs.drop_last(), u);
        assert forall|i: int| 0 <= i < questions_without(qs, u).len() implies qs.contains(
            #[trigger] questions_without(qs, u)[i],
        ) by {
            let x = questions_without(qs, u)[i];
            if i < rest.len() {
                assert(qs.drop_last().contains(rest[i]));
                let j = choose|j: int| 0 <= j < qs.drop_last().len() && qs.drop_last()[j] == x;
                assert(qs[j] == x);
            } else {
                assert(x == qs.last());
                assert(qs[qs.len() - 1] == x);
            }
        }
    }
}

/// A question carrying another UUID than the deleted one survives the
/// deletion.
proof fn lemma_questions_without_keeps_other(qs: Seq<QuestionDetail>, u: Seq<char>, w: Seq<char>)
    requires
        w != u,
        exists|i: int| 0 <= i < qs.len() && (#[trigger] qs[i]).question_uuid@ == w,
    ensures
        exists|i: int|
            0 <= i < questions_without(qs, u).len() && (#[trigger] questions_without(
                qs,
                u,
            )[i]).question_uuid@ == w,
    decreases qs.len(),
{
    let j = choose|i: int| 0 <= i < qs.len() && (#[trigger] qs[i]).question_uuid@ == w;
    let rest = questions_without(qs.drop_last(), u);
    if j == qs.len() - 1 {
        assert(questions_without(qs, u)[rest.len() as int].question_uuid@ == w);
    } else {
        assert((qs.drop_last()[j]).question_uuid@ == w);
        lemma_questions_without_keeps_other(qs.drop_last(), u, w);
        let k = choose|i: int|
            0 <= i < rest.len() && (#[trigger] rest[i]).question_uuid@ == w;
        assert(questions_without(qs, u)[k].question_uuid@ == w);
    }
}

/// Deleting a question UUID that no stored question carries changes
/// nothing.
pub proof fn lemma_questions_without_absent(qs: Seq<QuestionDetail>, u: Seq<char>)
    requires
        forall|i: int| 0 <= i < qs.len() ==> (#[trigger] qs[i]).question_uuid@ != u,
    ensures
        questions_without(qs, u) == qs,
    decreases qs.len(),
{
    if qs.len() == 0 {
        assert(questions_without(qs, u) =~= qs);
    } else {
        assert(forall|i: int|
            0 <= i < qs.drop_last().len() ==> (#[trigger] qs.drop_last()[i]).question_uuid@ != u);
        lemma_questions_without_absent(qs.drop_last(), u);
        assert((qs[qs.len() - 1]).question_uuid@ != u);
        assert(questions_without(qs, u) =~= qs);
    }
}

/// Every answer left after a deletion was already stored.
proof fn lemma_answers_without_membership(ans: Seq<AnswerDetail>, u: Seq<char>)
    ensures
        forall|i: int|
            0 <= i < answers_without(ans, u).len() ==> ans.contains(
                #[trigger] answers_without(ans, u)[i],
            ),
    decreases ans.len(),
{
    if ans.len() == 0 {
    } else {
        lemma_answers_without_membership(ans.drop_last(), u);
        let rest = answers_without(ans.drop_last(), u);
        assert forall|i: int| 0 <= i < answers_without(ans, u).len() implies ans.contains(
            #[trigger] answers_without(ans, u)[i],
        ) by {
            let x = answers_without(ans, u)[i];
            if i < rest.len() {
                assert(ans.drop_last().contains(rest[i]));
                let j = choose|j: int| 0 <= j < ans.drop_last().len() && ans.drop_last()[j] == x;
                assert(ans[j] == x);
            } else {
                assert(x == ans.last());
                assert(ans[ans.len() - 1] == x);
            }
        }
    }
}

/// Deleting an answer UUID that no stored answer carries changes
/// nothing.
pub proof fn lemma_answers_without_absent(ans: Seq<AnswerDetail>, u: Seq<char>)
    requires
        forall|i: int| 0 <= i < ans.len() ==> (#[trigger] ans[i]).answer_uuid@ != u,
    ensures
        answers_without(ans, u) == ans,
    decreases ans.len(),
{
    if ans.len() == 0 {
        assert(answers_without(ans, u) =~= ans);
    } else {
        assert(forall|i: int|
            0 <= i < ans.drop_last().len() ==> (#[trigger] ans.drop_last()[i]).answer_uuid@ != u);
        lemma_answers_without_absent(ans.drop_last(), u);
        assert((ans[ans.len() - 1]).answer_uuid@ != u);
        assert(answers_without(ans, u) =~= ans);
    }
}

impl crate::questions_dao::QuestionsDao for InMemoryStore {
    fn create_question(&mut self, question: Question) -> Result<QuestionDetail, DBError> {
        self.create_question_record(question)
    }

    fn delete_question(&mut self, question_uuid: String) -> Result<(), DBError> {
        self.delete_question_record(&question_uuid)
    }

    fn get_questions(&mut self) -> Result<Vec<QuestionDetail>, DBError> {
        Ok(self.get_questions_records())
    }
}

impl crate::answers_dao::AnswersDao for InMemoryStore {
    fn create_answer(&mut self, answer: Answer) -> Result<AnswerDetail, DBError> {
        self.create_answer_record(answer)
    }

    fn delete_answer(&mut self, answer_uuid: String) -> Result<(), DBError> {
        self.delete_answer_record(&answer_uuid)
    }

    fn get_answers(&mut self, question_uuid: String) -> Result<Vec<AnswerDetail>, DBError> {
        self.get_answers_records(&question_uuid)
    }
}

/// Law: a created question is listed afterwards. Any store that a
/// create succeeded on (`created_question`) lists — this is what
/// `get_questions_records` returns — a record with the caller's title
/// and description and a valid, store-generated UUID.
pub proof fn lemma_created_question_is_listed(
    s: InMemoryStore,
    question: Question,
    d: QuestionDetail,
    s2: InMemoryStore,
)
    requires
        created_question(s, question, d, s2),
    ensures
        s2.questions@.contains(d),
        d.title == question.title,
        d.description == question.description,
        is_uuid(d.question_uuid@),
        d.question_uuid@ == uuid_text(s.tick as u128),
{
    assert(s2.questions@[s2.questions@.len() - 1] == d);
}

/// Law: a created answer is listed afterwards by a read scoped to its
/// question. Any store that a create succeeded on (`created_answer`)
/// lists — this is what `get_answers_records` returns for the same
/// question UUID — a record with the caller's content and a valid,
/// store-generated UUID.
pub proof fn lemma_created_answer_is_listed(
    s: InMemoryStore,
    answer: Answer,
    d: AnswerDetail,
    s2: InMemoryStore,
)
    requires
        created_answer(s, answer, d, s2),
    ensures
        answers_of(s2.answers@, answer.question_uuid@).contains(d),
        d.content == answer.content,
        is_uuid(d.answer_uuid@),
{
    let listed = answers_of(s2.answers@, answer.question_uuid@);
    assert(s2.answers@.drop_last() =~= s.answers@);
    assert(listed[listed.len() - 1] == d);
}

/// Law: deleting a well-formed question UUID that no stored question
/// carries is a silent success. In a well-formed store no answer can
/// refer to it either, so the delete contract's error cases cannot
/// apply, and the questions that are kept are exactly those that were
/// stored.
pub proof fn lemma_delete_missing_question_is_silent(s: InMemoryStore, u: Seq<char>)
    requires
        s.wf(),
        is_uuid(u),
        !s.spec_has_question(u),
    ensures
        !s.spec_answer_refers_to(u),
        questions_without(s.questions@, u) == s.questions@,
{
    assert forall|i: int|
        0 <= i < s.answers@.len() implies (#[trigger] s.answers@[i]).question_uuid@ != u by {
        if s.answers@[i].question_uuid@ == u {
            assert(s.spec_has_question(u));
        }
    }
    assert forall|i: int|
        0 <= i < s.questions@.len() implies (#[trigger] s.questions@[i]).question_uuid@ != u by {
        if s.questions@[i].question_uuid@ == u {
            assert(s.spec_has_question(u));
        }
    }
    lemma_questions_without_absent(s.questions@, u);
}

/// Law: deleting a well-formed answer UUID that no stored answer
/// carries is a silent success: the answers that are kept are exactly
/// those that were stored.
pub proof fn lemma_delete_missing_answer_is_silent(s: InMemoryStore, u: Seq<char>)
    requires
        is_uuid(u),
        !s.spec_has_answer(u),
    ensures
        answers_without(s.answers@, u) == s.answers@,
{
    assert forall|i: int|
        0 <= i < s.answers@.len() implies (#[trigger] s.answers@[i]).answer_uuid@ != u by {
        if s.answers@[i].answer_uuid@ == u {
            assert(s.spec_has_answer(u));
        }
    }
    lemma_answers_without_absent(s.answers@, u);
}

/// A field-for-field copy, equal as a value to the record it copies.
fn clone_question_detail(q: &QuestionDetail) -> (r: QuestionDetail)
    ensures
        r == *q,
{
    QuestionDetail {
        question_uuid: q.question_uuid.clone(),
        title: q.title.clone(),
        description: q.description.clone(),
        created_at: q.created_at.clone(),
    }
}

/// A field-for-field copy, equal as a value to the record it copies.
fn clone_answer_detail(a: &AnswerDetail) -> (r: AnswerDetail)
    ensures
        r == *a,
{
    AnswerDetail {
        answer_uuid: a.answer_uuid.clone(),
        question_uuid: a.question_uuid.clone(),
        content: a.content.clone(),
        created_at: a.created_at.clone(),
    }
}

} // verus!
