//! Database-facing records for questions and answers, and the generic page.

use vstd::prelude::*;
use crate::datetime::now_local;
use crate::ids::new_uuid;

verus! {

/// Whether a question is visible.
#[derive(Clone, Copy, Debug, PartialEq, Eq, Structural)]
pub enum QuestionStatus {
    Active,
    Inactive,
}

impl QuestionStatus {
    /// The status a stored code stands for; any unknown code reads as inactive.
    pub fn from_code(status: i8) -> (r: Self)
        ensures
            r == (if status == 1i8 {
                QuestionStatus::Active
            } else {
                QuestionStatus::Inactive
            }),
    {
        if status == 1 {
            QuestionStatus::Active
        } else {
            QuestionStatus::Inactive
        }
    }

    /// The stored code of this status.
    pub fn code(self) -> (r: i8)
        ensures
            r == (match self {
                QuestionStatus::Active => 1i8,
                QuestionStatus::Inactive => 0i8,
            }),
    {
        match self {
            QuestionStatus::Active => 1,
            QuestionStatus::Inactive => 0,
        }
    }
}

/// Whether an answer is visible.
#[derive(Clone, Copy, Debug, PartialEq, Eq, Structural)]
pub enum AnswerStatus {
    Active,
    Inactive,
}

impl AnswerStatus {
    /// The status a stored code stands for; any unknown code reads as inactive.
    pub fn from_code(status: i8) -> (r: Self)
        ensures
            r == (if status == 1i8 {
                AnswerStatus::Active
            } else {
                AnswerStatus::Inactive
            }),
    {
        if status == 1 {
            AnswerStatus::Active
        } else {
            AnswerStatus::Inactive
        }
    }

    /// The stored code of this status.
    pub fn code(self) -> (r: i8)
        ensures
            r == (match self {
                AnswerStatus::Active => 1i8,
                AnswerStatus::Inactive => 0i8,
            }),
    {
        match self {
            AnswerStatus::Active => 1,
            AnswerStatus::Inactive => 0,
        }
    }
}

/// A stored question. Timestamps are milliseconds since the epoch.
#[derive(Clone, Debug)]
pub struct Question {
    pub id: Option<i64>,
    pub sku_code: Option<String>,
    pub product_code: String,
    pub question_code: String,
    pub question_content: String,
    pub create_user_id: Option<String>,
    pub creator_name: Option<String>,
    pub create_time: i64,
    pub update_time: i64,
    pub status: i8,
    pub sort: i32,
    pub rank: i32,
}

impl Question {
    /// A new question with a fresh question code, created now: active,
    /// unsorted, with equal creation and update times.
    pub fn new(
        sku_code: Option<String>,
        product_code: String,
        question_content: String,
        create_user_id: Option<String>,
        creator_name: Option<String>,
        rank: i32,
    ) -> (r: Self)
        ensures
            r.id is None,
            r.sku_code == sku_code,
            r.product_code == product_code,
            r.question_code@.len() == 36,
            r.question_content == question_content,
            r.create_user_id == create_user_id,
            r.creator_name == creator_name,
            r.create_time == r.update_time,
            r.status == 1i8,
            r.sort == 0i32,
            r.rank == rank,
    {
        let now = now_local();
        let question_code = new_uuid();
        Question {
            id: None,
            sku_code,
            product_code,
            question_code,
            question_content,
            create_user_id,
            creator_name,
            create_time: now,
            update_time: now,
            status: QuestionStatus::Active.code(),
            sort: 0,
            rank,
        }
    }

    /// A question record under an existing question code, created now:
    /// active, unsorted, with equal creation and update times.
    pub fn with_question_code(
        question_code: String,
        sku_code: Option<String>,
        product_code: String,
        question_content: String,
        create_user_id: Option<String>,
        creator_name: Option<String>,
        rank: i32,
    ) -> (r: Self)
        ensures
            r.id is None,
            r.sku_code == sku_code,
            r.product_code == product_code,
            r.question_code == question_code,
            r.question_content == question_content,
            r.create_user_id == create_user_id,
            r.creator_name == creator_name,
            r.create_time == r.update_time,
            r.status == 1i8,
            r.sort == 0i32,
            r.rank == rank,
    {
        let now = now_local();
        Question {
            id: None,
            sku_code,
            product_code,
            question_code,
            question_content,
            create_user_id,
            creator_name,
            create_time: now,
            update_time: now,
            status: QuestionStatus::Active.code(),
            sort: 0,
            rank,
        }
    }

    /// Overwrite the update time.
    pub fn update_time(&mut self, new_date_time: i64)
        ensures
            *final(self) == (Question { update_time: new_date_time, ..*old(self) }),
    {
        self.update_time = new_date_time;
    }
}

/// A stored answer. Timestamps are milliseconds since the epoch.
#[derive(Clone, Debug)]
pub struct Answer {
    pub id: Option<i64>,
    pub question_code: String,
    pub answer_content: String,
    pub create_user_id: Option<String>,
    pub create_time: i64,
    pub update_time: i64,
    pub status: i8,
    pub creator_name: Option<String>,
}

impl Answer {
    /// A new answer to the given question, created now: active, with equal
    /// creation and update times.
    pub fn new(
        question_code: String,
        answer_content: String,
        create_user_id: Option<String>,
        creator_name: Option<String>,
    ) -> (r: Self)
        ensures
            r.id is None,
            r.question_code == question_code,
            r.answer_content == answer_content,
            r.create_user_id == create_user_id,
            r.creator_name == creator_name,
            r.create_time == r.update_time,
            r.status == 1i8,
    {
        let now = now_local();
        Answer {
            id: None,
            question_code,
            answer_content,
            create_user_id,
            create_time: now,
            update_time: now,
            status: AnswerStatus::Active.code(),
            creator_name,
        }
    }
}

/// One page of query results with its pagination bookkeeping.
#[derive(Clone, Debug)]
pub struct Page<T> {
    pub total_records: i64,
    pub total_pages: i64,
    pub current_pageno: i64,
    pub next_pageno: Option<i64>,
    pub previous_pageno: Option<i64>,
    pub page_size: i64,
    pub data: Vec<T>,
}

impl<T> Page<T> {
    /// Assemble a page: the next page exists exactly when records remain
    /// beyond this page, the previous one exactly when this is not the
    /// first, and the page count is the record count divided by the page
    /// size, rounded down.
    pub fn new(total_records: i64, current_pageno: i64, page_size: i64, data: Vec<T>) -> (r: Self)
        requires
            0 <= total_records,
            1 <= current_pageno,
            1 <= page_size,
            current_pageno * page_size <= i64::MAX,
        ensures
            r.total_records == total_records,
            r.total_pages == total_records as int / page_size as int,
            r.current_pageno == current_pageno,
            r.next_pageno == (if total_records > current_pageno * page_size {
                Some((current_pageno + 1) as i64)
            } else {
                Option::<i64>::None
            }),
            r.previous_pageno == (if current_pageno > 1 {
                Some((current_pageno - 1) as i64)
            } else {
                Option::<i64>::None
            }),
            r.page_size == page_size,
            r.data == data,
    {
        let next_pageno = if total_records > current_pageno * page_size {
            proof {
                assert(current_pageno <= current_pageno * page_size) by (nonlinear_arith)
                    requires
                        1 <= page_size,
                        1 <= current_pageno,
                ;
            }
            Some(current_pageno + 1)
        } else {
            None
        };
        let previous_pageno = if current_pageno > 1 {
            Some(current_pageno - 1)
        } else {
            None
        };
        let total_pages = total_records / page_size;
        Page { total_records, total_pages, current_pageno, next_pageno, previous_pageno, page_size, data }
    }
}

} // verus!
