//! The data-access side of the question list: the one piece of query logic
//! worth stating — which SQL conditions a search request adds, in which
//! order, with which bound values. Issuing the query is outside work.

use vstd::prelude::*;
use crate::model::request::FindQuestionListForTrad;

verus! {

/// A value bound into a query condition.
pub enum BindValue {
    Text(String),
    Time(i64),
}

/// Mathematical image of a bound value.
pub ghost enum BindValueView {
    Text(Seq<char>),
    Time(i64),
}

impl View for BindValue {
    type V = BindValueView;

    open spec fn view(&self) -> BindValueView {
        match self {
            BindValue::Text(s) => BindValueView::Text(s@),
            BindValue::Time(t) => BindValueView::Time(*t),
        }
    }
}

/// One condition: the SQL before the bound value, the value, and the SQL
/// after it (empty for all but a subquery condition).
pub struct BindClause {
    pub prefix: String,
    pub bind: BindValue,
    pub suffix: String,
}

/// Mathematical image of a condition.
pub ghost struct BindClauseView {
    pub prefix: Seq<char>,
    pub bind: BindValueView,
    pub suffix: Seq<char>,
}

impl View for BindClause {
    type V = BindClauseView;

    open spec fn view(&self) -> BindClauseView {
        BindClauseView { prefix: self.prefix@, bind: self.bind@, suffix: self.suffix@ }
    }
}

/// One optional text condition.
pub open spec fn text_clause(prefix: Seq<char>, field: Option<String>) -> Seq<BindClauseView> {
    match field {
        Option::Some(v) => seq![
            BindClauseView { prefix: prefix, bind: BindValueView::Text(v@), suffix: Seq::empty() },
        ],
        Option::None => Seq::empty(),
    }
}

/// One optional timestamp condition.
pub open spec fn time_clause(prefix: Seq<char>, field: Option<i64>) -> Seq<BindClauseView> {
    match field {
        Option::Some(t) => seq![
            BindClauseView { prefix: prefix, bind: BindValueView::Time(t), suffix: Seq::empty() },
        ],
        Option::None => Seq::empty(),
    }
}

/// The conditions a search request stands for, in the order they are added.
pub open spec fn question_list_conditions(q: &FindQuestionListForTrad) -> Seq<BindClauseView> {
    text_clause(" and product_code like "@, q.product_code) + text_clause(
        " and question_content like "@,
        q.question_content,
    ) + text_clause(" and question_code like "@, q.question_code) + text_clause(
        " and create_name like "@,
        q.create_name,
    ) + time_clause(" and create_time >= "@, q.start_time) + time_clause(
        " and create_time <= "@,
        q.end_time,
    ) + (match q.answer_content {
        Option::Some(v) => seq![
            BindClauseView {
                prefix: " and question_code  in (select question_code from rc_qa_answer where status=1 and answer_content like "@,
                bind: BindValueView::Text(v@),
                suffix: ")"@,
            },
        ],
        Option::None => Seq::empty(),
    })
}

/// The question store. Its queries run outside; the conditions they are
/// built from are decided here.
pub struct QuestionDao;

impl QuestionDao {
    /// The conditions of one question-list search, in order: one `like`
    /// condition per set text filter, a creation-time bound per set end of
    /// the time window, and an answer-content subquery when asked.
    #[verifier::rlimit(100)]
    pub fn query_question_list_condition(
        request_find_question_list_for_trad: &FindQuestionListForTrad,
    ) -> (r: Vec<BindClause>)
        ensures
            r@.map_values(|c: BindClause| c@) == question_list_conditions(
                request_find_question_list_for_trad,
            ),
    {
        let q = request_find_question_list_for_trad;
        let mut r: Vec<BindClause> = Vec::new();
        if let Some(v) = &q.product_code {
            r.push(
                BindClause {
                    prefix: " and product_code like ".to_owned(),
                    bind: BindValue::Text(v.clone()),
                    suffix: String::new(),
                },
            );
        }
        if let Some(v) = &q.question_content {
            r.push(
                BindClause {
                    prefix: " and question_content like ".to_owned(),
                    bind: BindValue::Text(v.clone()),
                    suffix: String::new(),
                },
            );
        }
        if let Some(v) = &q.question_code {
            r.push(
                BindClause {
                    prefix: " and question_code like ".to_owned(),
                    bind: BindValue::Text(v.clone()),
                    suffix: String::new(),
                },
            );
        }
        if let Some(v) = &q.create_name {
            r.push(
                BindClause {
                    prefix: " and create_name like ".to_owned(),
                    bind: BindValue::Text(v.clone()),
                    suffix: String::new(),
                },
            );
        }
        if let Some(t) = q.start_time {
            r.push(
                BindClause {
                    prefix: " and create_time >= ".to_owned(),
                    bind: BindValue::Time(t),
                    suffix: String::new(),
                },
            );
        }
        if let Some(t) = q.end_time {
            r.push(
                BindClause {
                    prefix: " and create_time <= ".to_owned(),
                    bind: BindValue::Time(t),
                    suffix: String::new(),
                },
            );
        }
        if let Some(v) = &q.answer_content {
            r.push(
                BindClause {
                    prefix: " and question_code  in (select question_code from rc_qa_answer where status=1 and answer_content like ".to_owned(),
                    bind: BindValue::Text(v.clone()),
                    suffix: ")".to_owned(),
                },
            );
        }
        proof {
            assert(r@.map_values(|c: BindClause| c@) =~= question_list_conditions(q));
        }
        r
    }

    /// How many records the page before this one spans: the offset of a
    /// paged query.
    pub fn page_offset(current_pageno: i64, page_size: i64) -> (r: i64)
        requires
            1 <= current_pageno,
            0 <= page_size,
            (current_pageno - 1) * page_size <= i64::MAX,
        ensures
            r == (current_pageno - 1) * page_size,
    {
        proof {
            assert((current_pageno - 1) * page_size >= 0) by (nonlinear_arith)
                requires
                    1 <= current_pageno,
                    0 <= page_size,
            ;
        }
        (current_pageno - 1) * page_size
    }
}

/// The SKU store. All of its queries run outside; nothing about them is
/// decided locally.
pub struct SkuDao;

} // verus!
