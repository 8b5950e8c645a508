//! Cache-resident copies of question records: the shape the TTL cache holds
//! between the store and the read handlers.

use vstd::prelude::*;
use crate::model::qa;

verus! {

/// A question as cached, with its answers inlined.
#[derive(Clone, Debug)]
pub struct Question {
    pub id: i64,
    pub product_code: String,
    pub question_code: String,
    pub question_content: String,
    pub create_user_id: Option<String>,
    pub create_time: i64,
    pub update_time: i64,
    pub status: i8,
    pub sort: i32,
    pub rank: i32,
    pub creator_name: Option<String>,
    pub answer_list: Vec<Answer>,
}

/// An answer as cached.
#[derive(Clone, Debug)]
pub struct Answer {
    pub id: i64,
    pub question_code: String,
    pub answer_content: String,
    pub create_user_id: Option<String>,
    pub create_time: i64,
    pub update_time: i64,
    pub status: i8,
    pub creator_name: Option<String>,
}

/// What a stored answer looks like once cached: a missing id reads as 0,
/// every other field is carried over.
pub open spec fn answer_from_db(a: qa::Answer) -> Answer {
    Answer {
        id: match a.id {
            Option::Some(v) => v,
            Option::None => 0i64,
        },
        question_code: a.question_code,
        answer_content: a.answer_content,
        create_user_id: a.create_user_id,
        creator_name: a.creator_name,
        create_time: a.create_time,
        update_time: a.update_time,
        status: a.status,
    }
}

impl Answer {
    /// The cached copy of a stored answer.
    pub fn from_db(db_answer: qa::Answer) -> (r: Self)
        ensures
            r == answer_from_db(db_answer),
    {
        Answer {
            id: match db_answer.id {
                Some(v) => v,
                None => 0,
            },
            question_code: db_answer.question_code,
            answer_content: db_answer.answer_content,
            create_user_id: db_answer.create_user_id,
            creator_name: db_answer.creator_name,
            create_time: db_answer.create_time,
            update_time: db_answer.update_time,
            status: db_answer.status,
        }
    }
}

impl Question {
    /// The cached copy of a stored question with its answers: a missing id
    /// reads as 0, and each answer is cached in order.
    pub fn from_db(db_question: qa::Question, db_review_list: Vec<qa::Answer>) -> (r: Self)
        ensures
            r.id == (match db_question.id {
                Option::Some(v) => v,
                Option::None => 0i64,
            }),
            r.product_code == db_question.product_code,
            r.question_code == db_question.question_code,
            r.question_content == db_question.question_content,
            r.create_user_id == db_question.create_user_id,
            r.creator_name == db_question.creator_name,
            r.create_time == db_question.create_time,
            r.update_time == db_question.update_time,
            r.status == db_question.status,
            r.sort == db_question.sort,
            r.rank == db_question.rank,
            r.answer_list@.len() == db_review_list@.len(),
            forall|i: int|
                0 <= i < db_review_list@.len() ==> r.answer_list@[i] == answer_from_db(
                    #[trigger] db_review_list@[i],
                ),
    {
        let mut answer_list: Vec<Answer> = Vec::new();
        let ghost src = db_review_list@;
        let total: usize = db_review_list.len();
        let mut rest = db_review_list;
        let mut taken: usize = 0;
        while rest.len() > 0
            invariant
                total == src.len(),
                taken + rest@.len() == total,
                rest@ == src.subrange(taken as int, src.len() as int),
                answer_list@.len() == taken,
                forall|i: int|
                    0 <= i < taken ==> answer_list@[i] == answer_from_db(#[trigger] src[i]),
            decreases rest@.len(),
        {
            let a = rest.remove(0);
            proof {
                assert(a == src[taken as int]);
                assert(rest@ =~= src.subrange(taken + 1, src.len() as int));
            }
            answer_list.push(Answer::from_db(a));
            taken += 1;
        }
        Question {
            id: match db_question.id {
                Some(v) => v,
                None => 0,
            },
            product_code: db_question.product_code,
            question_code: db_question.question_code,
            question_content: db_question.question_content,
            create_user_id: db_question.create_user_id,
            creator_name: db_question.creator_name,
            create_time: db_question.create_time,
            update_time: db_question.update_time,
            status: db_question.status,
            sort: db_question.sort,
            rank: db_question.rank,
            answer_list,
        }
    }
}

} // verus!
