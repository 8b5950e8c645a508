//! Response shapes and their conversions from stored and cached records.
//! Timestamps are rendered as text on the way out.

use vstd::prelude::*;
use crate::datetime::{datetime_text, format_datetime, valid_timestamp_ms};
use crate::model::qa;
use crate::model::qa_cache;
use crate::model::sku::Sku;
use crate::text::{format_i64, int_text};

verus! {

/// A SKU as answered to the read side.
#[derive(Clone, Debug)]
pub struct FindSku {
    pub sku_code: String,
    pub name: String,
}

impl FindSku {
    /// The answer a lookup result stands for: the code and name of the
    /// found SKU, or nothing.
    pub fn from_db_sku(sku_option: Option<Sku>) -> (r: Option<FindSku>)
        ensures
            (sku_option matches Some(sku) ==> (r matches Some(f) && f.sku_code@ == sku.sku_code@
                && f.name@ == sku.name@)),
            sku_option is None ==> r is None,
    {
        if let Some(sku) = sku_option {
            let find_sku_response = FindSku { sku_code: sku.sku_code.clone(), name: sku.name.clone() };
            Some(find_sku_response)
        } else {
            None
        }
    }
}

/// An answer as shipped with a question lookup.
#[derive(Clone, Debug)]
pub struct AnswerGetQuestionByCode {
    pub id: i64,
    pub question_code: String,
    pub answer_content: String,
    pub create_user_id: Option<String>,
    pub creator_name: Option<String>,
    pub create_time: String,
    pub update_time: String,
    pub status: i8,
}

/// A question lookup's answer shape.
#[derive(Clone, Debug)]
pub struct GetQuestionByCode {
    pub id_str: String,
    pub id: i64,
    pub question_code: String,
    pub product_code: String,
    pub question_content: String,
    pub creator_name: Option<String>,
    pub create_user_id: Option<String>,
    pub sort: i32,
    pub rank: i32,
    pub create_time: String,
    pub update_time: String,
    pub answers: Vec<AnswerGetQuestionByCode>,
}

/// Both timestamps of a cached answer are renderable.
pub open spec fn cache_answer_times_valid(a: qa_cache::Answer) -> bool {
    valid_timestamp_ms(a.create_time) && valid_timestamp_ms(a.update_time)
}

/// Every timestamp of a cached question, its answers included, is
/// renderable.
pub open spec fn cache_question_times_valid(q: qa_cache::Question) -> bool {
    &&& valid_timestamp_ms(q.create_time)
    &&& valid_timestamp_ms(q.update_time)
    &&& forall|i: int|
        0 <= i < q.answer_list@.len() ==> cache_answer_times_valid(#[trigger] q.answer_list@[i])
}

/// Both timestamps of a stored answer are renderable.
pub open spec fn db_answer_times_valid(a: qa::Answer) -> bool {
    valid_timestamp_ms(a.create_time) && valid_timestamp_ms(a.update_time)
}

/// The expected answer shape of one cached answer.
pub open spec fn answer_from_cache_matches(r: AnswerGetQuestionByCode, a: qa_cache::Answer) -> bool {
    &&& r.id == a.id
    &&& r.question_code == a.question_code
    &&& r.answer_content == a.answer_content
    &&& r.create_user_id == a.create_user_id
    &&& r.creator_name == a.creator_name
    &&& r.create_time@ == datetime_text(a.create_time)
    &&& r.update_time@ == datetime_text(a.update_time)
    &&& r.status == a.status
}

/// The expected answer shape of one stored answer.
pub open spec fn answer_from_db_matches(r: AnswerGetQuestionByCode, a: qa::Answer) -> bool {
    &&& r.id == (match a.id {
        Option::Some(v) => v,
        Option::None => 0i64,
    })
    &&& r.question_code == a.question_code
    &&& r.answer_content == a.answer_content
    &&& r.create_user_id == a.create_user_id
    &&& r.creator_name == a.creator_name
    &&& r.create_time@ == datetime_text(a.create_time)
    &&& r.update_time@ == datetime_text(a.update_time)
    &&& r.status == a.status
}

impl AnswerGetQuestionByCode {
    /// The answer shape of one cached answer, timestamps rendered.
    pub fn from_cache(answer: qa_cache::Answer) -> (r: Self)
        requires
            cache_answer_times_valid(answer),
        ensures
            answer_from_cache_matches(r, answer),
    {
        let create_time = format_datetime(answer.create_time);
        let update_time = format_datetime(answer.update_time);
        AnswerGetQuestionByCode {
            id: answer.id,
            question_code: answer.question_code,
            answer_content: answer.answer_content,
            create_user_id: answer.create_user_id,
            creator_name: answer.creator_name,
            create_time,
            update_time,
            status: answer.status,
        }
    }

    /// The answer shape of one stored answer: a missing id reads as 0,
    /// timestamps rendered.
    pub fn from_db(answer: qa::Answer) -> (r: Self)
        requires
            db_answer_times_valid(answer),
        ensures
            answer_from_db_matches(r, answer),
    {
        let create_time = format_datetime(answer.create_time);
        let update_time = format_datetime(answer.update_time);
        AnswerGetQuestionByCode {
            id: match answer.id {
                Some(v) => v,
                None => 0,
            },
            question_code: answer.question_code,
            answer_content: answer.answer_content,
            create_user_id: answer.create_user_id,
            creator_name: answer.creator_name,
            create_time,
            update_time,
            status: answer.status,
        }
    }
}

impl GetQuestionByCode {
    /// The lookup answer a cache hit stands for: nothing stays nothing;
    /// a cached question is rendered with its answers in order.
    pub fn from_cache(question_option: Option<qa_cache::Question>) -> (r: Option<Self>)
        requires
            (question_option matches Some(q) ==> cache_question_times_valid(q)),
        ensures
            question_option is None ==> r is None,
            (question_option matches Some(q) ==> (r matches Some(out) && out.id == q.id
                && out.id_str@ == int_text(q.id as int) && out.question_code == q.question_code
                && out.product_code == q.product_code && out.question_content == q.question_content
                && out.creator_name == q.creator_name && out.create_user_id == q.create_user_id
                && out.sort == q.sort && out.rank == q.rank && out.create_time@ == datetime_text(
                q.create_time,
            ) && out.update_time@ == datetime_text(q.update_time) && out.answers@.len()
                == q.answer_list@.len() && (forall|i: int|
                0 <= i < q.answer_list@.len() ==> answer_from_cache_matches(
                    #[trigger] out.answers@[i],
                    q.answer_list@[i],
                )))),
    {
        if let Some(question) = question_option {
            let id_str = format_i64(question.id);
            let create_time = format_datetime(question.create_time);
            let update_time = format_datetime(question.update_time);
            let mut answers: Vec<AnswerGetQuestionByCode> = Vec::new();
            let ghost src = question.answer_list@;
            let total: usize = question.answer_list.len();
            let mut rest = question.answer_list;
            let mut taken: usize = 0;
            while rest.len() > 0
                invariant
                    total == src.len(),
                    taken + rest@.len() == total,
                    rest@ == src.subrange(taken as int, src.len() as int),
                    answers@.len() == taken,
                    forall|i: int| 0 <= i < src.len() ==> cache_answer_times_valid(#[trigger] src[i]),
                    forall|i: int|
                        0 <= i < taken ==> answer_from_cache_matches(
                            #[trigger] answers@[i],
                            src[i],
                        ),
                decreases rest@.len(),
            {
                let a = rest.remove(0);
                proof {
                    assert(a == src[taken as int]);
                    assert(rest@ =~= src.subrange(taken + 1, src.len() as int));
                }
                answers.push(AnswerGetQuestionByCode::from_cache(a));
                taken += 1;
            }
            let response = Self {
                id_str,
                id: question.id,
                question_code: question.question_code,
                product_code: question.product_code,
                question_content: question.question_content,
                creator_name: question.creator_name,
                create_user_id: question.create_user_id,
                sort: question.sort,
                rank: question.rank,
                create_time,
                update_time,
                answers,
            };
            Some(response)
        } else {
            None
        }
    }

    /// The lookup answer a store row stands for: a missing id reads as 0,
    /// timestamps rendered, answers in order.
    pub fn from_db(db_question: qa::Question, db_answer: Vec<qa::Answer>) -> (r: Self)
        requires
            valid_timestamp_ms(db_question.create_time),
            valid_timestamp_ms(db_question.update_time),
            forall|i: int| 0 <= i < db_answer@.len() ==> db_answer_times_valid(#[trigger] db_answer@[i]),
        ensures
            r.id == (match db_question.id {
                Option::Some(v) => v,
                Option::None => 0i64,
            }),
            r.id_str@ == int_text(
                match db_question.id {
                    Option::Some(v) => v as int,
                    Option::None => 0,
                },
            ),
            r.question_code == db_question.question_code,
            r.product_code == db_question.product_code,
            r.question_content == db_question.question_content,
            r.creator_name == db_question.creator_name,
            r.create_user_id == db_question.create_user_id,
            r.sort == db_question.sort,
            r.rank == db_question.rank,
            r.create_time@ == datetime_text(db_question.create_time),
            r.update_time@ == datetime_text(db_question.update_time),
            r.answers@.len() == db_answer@.len(),
            forall|i: int|
                0 <= i < db_answer@.len() ==> answer_from_db_matches(
                    #[trigger] r.answers@[i],
                    db_answer@[i],
                ),
    {
        let id = match db_question.id {
            Some(v) => v,
            None => 0,
        };
        let id_str = format_i64(id);
        let create_time = format_datetime(db_question.create_time);
        let update_time = format_datetime(db_question.update_time);
        let mut answers: Vec<AnswerGetQuestionByCode> = Vec::new();
        let ghost src = db_answer@;
        let total: usize = db_answer.len();
        let mut rest = db_answer;
        let mut taken: usize = 0;
        while rest.len() > 0
            invariant
                total == src.len(),
                taken + rest@.len() == total,
                rest@ == src.subrange(taken as int, src.len() as int),
                answers@.len() == taken,
                forall|i: int| 0 <= i < src.len() ==> db_answer_times_valid(#[trigger] src[i]),
                forall|i: int|
                    0 <= i < taken ==> answer_from_db_matches(#[trigger] answers@[i], src[i]),
            decreases rest@.len(),
        {
            let a = rest.remove(0);
            proof {
                assert(a == src[taken as int]);
                assert(rest@ =~= src.subrange(taken + 1, src.len() as int));
            }
            answers.push(AnswerGetQuestionByCode::from_db(a));
            taken += 1;
        }
        Self {
            id_str,
            id,
            question_code: db_question.question_code,
            product_code: db_question.product_code,
            question_content: db_question.question_content,
            creator_name: db_question.creator_name,
            create_user_id: db_question.create_user_id,
            sort: db_question.sort,
            rank: db_question.rank,
            create_time,
            update_time,
            answers,
        }
    }
}

/// The pagination block of the question-list answer.
#[derive(Clone, Debug)]
pub struct Page {
    pub total_records: i64,
    pub current_pageno: i64,
    pub page_size: i64,
    pub total_pages: i64,
}

/// An answer as shipped with the question list.
#[derive(Clone, Debug)]
pub struct Answer {
    pub id: i64,
    pub question_code: String,
    pub answer_content: String,
    pub create_user_id: Option<String>,
    pub creator_name: Option<String>,
    pub create_time: String,
    pub update_time: String,
    pub status: i8,
}

/// A question as shipped with the question list.
#[derive(Clone, Debug)]
pub struct Question {
    pub id_str: String,
    pub id: i64,
    pub question_code: String,
    pub product_code: String,
    pub question_content: String,
    pub creator_name: Option<String>,
    pub create_user_id: Option<String>,
    pub sort: i32,
    pub rank: i32,
    pub create_time: String,
    pub answers: Vec<Answer>,
}

/// The question-list answer: its pagination block and the page of
/// questions.
#[derive(Clone, Debug)]
pub struct FindQuestionListForTrad {
    pub page: Page,
    pub total_records: i64,
    pub list: Vec<Question>,
}

impl FindQuestionListForTrad {
    /// Assemble the list answer from the pagination numbers and the page.
    pub fn new(
        total_records: i64,
        current_pageno: i64,
        page_size: i64,
        total_pages: i64,
        list: Vec<Question>,
    ) -> (r: Self)
        ensures
            r.page.total_records == total_records,
            r.page.current_pageno == current_pageno,
            r.page.page_size == page_size,
            r.page.total_pages == total_pages,
            r.total_records == total_records,
            r.list == list,
    {
        let page = Page { total_records, current_pageno, page_size, total_pages };
        FindQuestionListForTrad { total_records, page, list }
    }
}

/// The expected list shape of one stored answer.
pub open spec fn list_answer_matches(r: Answer, a: qa::Answer) -> bool {
    &&& r.id == (match a.id {
        Option::Some(v) => v,
        Option::None => 0i64,
    })
    &&& r.question_code == a.question_code
    &&& r.answer_content == a.answer_content
    &&& r.create_user_id == a.create_user_id
    &&& r.creator_name == a.creator_name
    &&& r.create_time@ == datetime_text(a.create_time)
    &&& r.update_time@ == datetime_text(a.update_time)
    &&& r.status == a.status
}

impl Answer {
    /// The list shape of one stored answer: a missing id reads as 0,
    /// timestamps rendered.
    pub fn from_db_answer(answer: qa::Answer) -> (r: Self)
        requires
            db_answer_times_valid(answer),
        ensures
            list_answer_matches(r, answer),
    {
        let create_time = format_datetime(answer.create_time);
        let update_time = format_datetime(answer.update_time);
        Self {
            id: match answer.id {
                Some(v) => v,
                None => 0,
            },
            question_code: answer.question_code,
            answer_content: answer.answer_content,
            create_user_id: answer.create_user_id,
            creator_name: answer.creator_name,
            create_time,
            update_time,
            status: answer.status,
        }
    }
}

impl Question {
    /// The list shape of one stored question with its answers: a missing
    /// id reads as 0 and is also rendered as text, answers in order.
    pub fn from_db_questions(question: qa::Question, answers: Vec<qa::Answer>) -> (r: Self)
        requires
            valid_timestamp_ms(question.create_time),
            forall|i: int| 0 <= i < answers@.len() ==> db_answer_times_valid(#[trigger] answers@[i]),
        ensures
            r.id == (match question.id {
                Option::Some(v) => v,
                Option::None => 0i64,
            }),
            r.id_str@ == int_text(
                match question.id {
                    Option::Some(v) => v as int,
                    Option::None => 0,
                },
            ),
            r.question_code == question.question_code,
            r.product_code == question.product_code,
            r.question_content == question.question_content,
            r.creator_name == question.creator_name,
            r.create_user_id == question.create_user_id,
            r.sort == question.sort,
            r.rank == question.rank,
            r.create_time@ == datetime_text(question.create_time),
            r.answers@.len() == answers@.len(),
            forall|i: int|
                0 <= i < answers@.len() ==> list_answer_matches(
                    #[trigger] r.answers@[i],
                    answers@[i],
                ),
    {
        let id = match question.id {
            Some(v) => v,
            None => 0,
        };
        let id_str = format_i64(id);
        let create_time = format_datetime(question.create_time);
        let mut list: Vec<Answer> = Vec::new();
        let ghost src = answers@;
        let total: usize = answers.len();
        let mut rest = answers;
        let mut taken: usize = 0;
        while rest.len() > 0
            invariant
                total == src.len(),
                taken + rest@.len() == total,
                rest@ == src.subrange(taken as int, src.len() as int),
                list@.len() == taken,
                forall|i: int| 0 <= i < src.len() ==> db_answer_times_valid(#[trigger] src[i]),
                forall|i: int|
                    0 <= i < taken ==> list_answer_matches(#[trigger] list@[i], src[i]),
            decreases rest@.len(),
        {
            let a = rest.remove(0);
            proof {
                assert(a == src[taken as int]);
                assert(rest@ =~= src.subrange(taken + 1, src.len() as int));
            }
            list.push(Answer::from_db_answer(a));
            taken += 1;
        }
        Self {
            id_str,
            id,
            question_code: question.question_code,
            product_code: question.product_code,
            question_content: question.question_content,
            creator_name: question.creator_name,
            create_user_id: question.create_user_id,
            sort: question.sort,
            rank: question.rank,
            create_time,
            answers: list,
        }
    }
}

} // verus!
