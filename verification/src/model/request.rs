//! Request shapes, their validation rules, and their conversions into
//! stored records. Every rule the handlers enforce on incoming data is a
//! verified function here, with the exact field names and messages the
//! callers see.

use vstd::prelude::*;
use crate::error::{BusinessError, ErrorParams};
use crate::model::qa;
use crate::model::sku::{Decimal, Price as DbPrice, Sku};

verus! {

/// One named finding of validation: which field failed and with what text.
pub ghost struct FieldError {
    pub field: Seq<char>,
    pub message: Seq<char>,
}

/// Whether an error-parameter list names exactly this finding, as a
/// message pair followed by a field pair.
pub open spec fn pair_is(p: ErrorParams, e: FieldError) -> bool {
    p@.len() == 2 && p@[0].0@ == "message"@ && p@[0].1@ == e.message && p@[1].0@ == "field"@
        && p@[1].1@ == e.field
}

/// Whether `ps` spells out exactly the findings `es`, in order.
pub open spec fn params_match(ps: Seq<ErrorParams>, es: Seq<FieldError>) -> bool {
    ps.len() == es.len() && forall|i: int| 0 <= i < es.len() ==> pair_is(#[trigger] ps[i], es[i])
}

/// Build the error-parameter list of one finding.
fn one_field_error(field: &str, message: &str) -> (p: ErrorParams)
    ensures
        pair_is(p, FieldError { field: field@, message: message@ }),
{
    let mut p: ErrorParams = Vec::new();
    p.push(("message".to_owned(), message.to_owned()));
    p.push(("field".to_owned(), field.to_owned()));
    p
}

/// A question-creation request.
#[derive(Clone, Debug)]
pub struct CreateQuestion {
    pub sku_code: Option<String>,
    pub product_code: String,
    pub question_content: String,
    pub create_user_id: String,
    pub creator_name: String,
    pub rank: i32,
    pub answer_list: Vec<CreateAnswer>,
}

/// One answer inside a question-creation request.
#[derive(Clone, Debug)]
pub struct CreateAnswer {
    pub answer_content: String,
    pub create_user_id: String,
    pub creator_name: String,
}

/// The findings on a creation request's own fields, in declaration order.
pub open spec fn create_question_findings(q: &CreateQuestion) -> Seq<FieldError> {
    let e0: Seq<FieldError> = if q.product_code@.len() == 0 {
        seq![FieldError { field: "productCode"@, message: "productCode不能为空"@ }]
    } else {
        Seq::empty()
    };
    let e1: Seq<FieldError> = if q.question_content@.len() == 0 {
        seq![FieldError { field: "questionContent"@, message: "questionContent不能为空"@ }]
    } else {
        Seq::empty()
    };
    let e2: Seq<FieldError> = if q.create_user_id@.len() == 0 {
        seq![FieldError { field: "createUserId"@, message: "createUserId不能为空"@ }]
    } else {
        Seq::empty()
    };
    let e3: Seq<FieldError> = if q.answer_list@.len() == 0 {
        seq![FieldError { field: "answers"@, message: "answers列表不能为空"@ }]
    } else {
        Seq::empty()
    };
    e0 + e1 + e2 + e3
}

/// The findings on one answer, in declaration order.
pub open spec fn create_answer_findings(a: &CreateAnswer) -> Seq<FieldError> {
    let e0: Seq<FieldError> = if a.answer_content@.len() == 0 {
        seq![FieldError { field: "answerContent"@, message: "answerContent不能为空"@ }]
    } else {
        Seq::empty()
    };
    let e1: Seq<FieldError> = if a.create_user_id@.len() == 0 {
        seq![FieldError { field: "createUserId"@, message: "createUserId不能为空"@ }]
    } else {
        Seq::empty()
    };
    e0 + e1
}

/// The first answer with findings, from position `i` on.
pub open spec fn first_invalid_answer(s: Seq<CreateAnswer>, i: nat) -> Option<int>
    decreases s.len() - i,
{
    if i >= s.len() {
        Option::None
    } else if create_answer_findings(&s[i as int]).len() > 0 {
        Option::Some(i as int)
    } else {
        first_invalid_answer(s, i + 1)
    }
}

impl CreateAnswer {
    /// Check this answer's fields, reporting every finding in order.
    pub fn validate(&self) -> (r: Result<(), BusinessError>)
        ensures
            create_answer_findings(self).len() == 0 <==> r is Ok,
            (r matches Err(e) ==> e matches BusinessError::InvalidParameter(pair) && pair.0
                is None && (pair.1 matches Some(ps) && params_match(
                ps@,
                create_answer_findings(self),
            ))),
    {
        let mut ps: Vec<ErrorParams> = Vec::new();
        if self.answer_content.as_str().is_empty() {
            ps.push(one_field_error("answerContent", "answerContent不能为空"));
        }
        if self.create_user_id.as_str().is_empty() {
            ps.push(one_field_error("createUserId", "createUserId不能为空"));
        }
        if ps.len() == 0 {
            Ok(())
        } else {
            Err(BusinessError::InvalidParameter((None, Some(ps))))
        }
    }

    /// The stored answer this request stands for, under the given question
    /// code, created now.
    pub fn into_db_answer(&self, question_code: String) -> (r: qa::Answer)
        ensures
            r.id is None,
            r.question_code == question_code,
            r.answer_content@ == self.answer_content@,
            (r.create_user_id matches Some(u) && u@ == self.create_user_id@),
            (r.creator_name matches Some(c) && c@ == self.creator_name@),
            r.status == 1i8,
    {
        qa::Answer::new(
            question_code,
            self.answer_content.clone(),
            Some(self.create_user_id.clone()),
            Some(self.creator_name.clone()),
        )
    }
}

impl CreateQuestion {
    /// Check the request's own fields, reporting every finding in order.
    pub fn validate(&self) -> (r: Result<(), BusinessError>)
        ensures
            create_question_findings(self).len() == 0 <==> r is Ok,
            (r matches Err(e) ==> e matches BusinessError::InvalidParameter(pair) && pair.0
                is None && (pair.1 matches Some(ps) && params_match(
                ps@,
                create_question_findings(self),
            ))),
    {
        let mut ps: Vec<ErrorParams> = Vec::new();
        if self.product_code.as_str().is_empty() {
            ps.push(one_field_error("productCode", "productCode不能为空"));
        }
        if self.question_content.as_str().is_empty() {
            ps.push(one_field_error("questionContent", "questionContent不能为空"));
        }
        if self.create_user_id.as_str().is_empty() {
            ps.push(one_field_error("createUserId", "createUserId不能为空"));
        }
        if self.answer_list.len() == 0 {
            ps.push(one_field_error("answers", "answers列表不能为空"));
        }
        if ps.len() == 0 {
            Ok(())
        } else {
            Err(BusinessError::InvalidParameter((None, Some(ps))))
        }
    }

    /// Check the request and then each answer: the request's own findings
    /// come first; otherwise the first answer with findings is reported.
    pub fn custom_validate(&self) -> (r: Result<(), BusinessError>)
        ensures
            (create_question_findings(self).len() == 0 && first_invalid_answer(
                self.answer_list@,
                0,
            ) is None) <==> r is Ok,
            (create_question_findings(self).len() > 0 ==> (r matches Err(e) && e
                matches BusinessError::InvalidParameter(pair) && pair.0 is None && (pair.1
                matches Some(ps) && params_match(ps@, create_question_findings(self))))),
            ((create_question_findings(self).len() == 0 && first_invalid_answer(
                self.answer_list@,
                0,
            ) is Some) ==> (first_invalid_answer(self.answer_list@, 0) matches Some(a) && (r
                matches Err(e) && e matches BusinessError::InvalidParameter(pair) && pair.0 is None
                && (pair.1 matches Some(ps) && params_match(
                ps@,
                create_answer_findings(&self.answer_list@[a]),
            ))))),
    {
        let own = self.validate();
        if let Err(e) = own {
            return Err(e);
        }
        let ghost s = self.answer_list@;
        let n = self.answer_list.len();
        let mut i: usize = 0;
        while i < n
            invariant
                i <= n,
                n == self.answer_list@.len(),
                s == self.answer_list@,
                create_question_findings(self).len() == 0,
                first_invalid_answer(s, 0) == first_invalid_answer(s, i as nat),
            decreases n - i,
        {
            let a = &self.answer_list[i];
            let checked = a.validate();
            match checked {
                Err(e) => {
                    return Err(e);
                },
                Ok(()) => {
                    proof {
                        assert(first_invalid_answer(s, i as nat) == first_invalid_answer(
                            s,
                            (i + 1) as nat,
                        ));
                    }
                },
            }
            i += 1;
        }
        Ok(())
    }

    /// The stored question this request stands for: a fresh question code,
    /// created now. (The stored answers are built separately, one per
    /// answer in the request, under that question code.)
    pub fn into_db_question(&self) -> (r: qa::Question)
        ensures
            r.id is None,
            r.sku_code == (match self.sku_code {
                Option::Some(ref s) => Option::Some(*s),
                Option::None => Option::None::<String>,
            }),
            r.product_code@ == self.product_code@,
            r.question_code@.len() == 36,
            r.question_content@ == self.question_content@,
            (r.create_user_id matches Some(u) && u@ == self.create_user_id@),
            (r.creator_name matches Some(c) && c@ == self.creator_name@),
            r.status == 1i8,
            r.sort == 0i32,
            r.rank == self.rank,
    {
        let sku_code = match &self.sku_code {
            Some(s) => Some(s.clone()),
            None => None,
        };
        qa::Question::new(
            sku_code,
            self.product_code.clone(),
            self.question_content.clone(),
            Some(self.create_user_id.clone()),
            Some(self.creator_name.clone()),
            self.rank,
        )
    }
}

/// A question-update request.
#[derive(Clone, Debug)]
pub struct UpdateQuestion {
    pub sku_code: Option<String>,
    pub product_code: String,
    pub question_content: String,
    pub rank: i32,
    pub answer_list: Vec<UpdateAnswer>,
    pub question_code: String,
}

/// One answer inside a question-update request.
#[derive(Clone, Debug)]
pub struct UpdateAnswer {
    pub answer_content: String,
}

/// The findings on an update request's own fields, in declaration order.
pub open spec fn update_question_findings(q: &UpdateQuestion) -> Seq<FieldError> {
    let e0: Seq<FieldError> = if q.product_code@.len() == 0 {
        seq![FieldError { field: "productCode"@, message: "productCode不能为空"@ }]
    } else {
        Seq::empty()
    };
    let e1: Seq<FieldError> = if q.question_content@.len() == 0 {
        seq![FieldError { field: "questionContent"@, message: "questionContent不能为空"@ }]
    } else {
        Seq::empty()
    };
    let e2: Seq<FieldError> = if q.answer_list@.len() == 0 {
        seq![FieldError { field: "answers"@, message: "answers列表不能为空"@ }]
    } else {
        Seq::empty()
    };
    let e3: Seq<FieldError> = if q.question_code@.len() == 0 {
        seq![FieldError { field: "questionCode"@, message: "questionCode不能为空"@ }]
    } else {
        Seq::empty()
    };
    e0 + e1 + e2 + e3
}

/// The finding on one updated answer.
pub open spec fn update_answer_findings(a: &UpdateAnswer) -> Seq<FieldError> {
    if a.answer_content@.len() == 0 {
        seq![FieldError { field: "answerContent"@, message: "answerContent不能为空"@ }]
    } else {
        Seq::empty()
    }
}

/// The first updated answer with findings, from position `i` on.
pub open spec fn first_invalid_update_answer(s: Seq<UpdateAnswer>, i: nat) -> Option<int>
    decreases s.len() - i,
{
    if i >= s.len() {
        Option::None
    } else if update_answer_findings(&s[i as int]).len() > 0 {
        Option::Some(i as int)
    } else {
        first_invalid_update_answer(s, i + 1)
    }
}

impl UpdateAnswer {
    /// Check this answer's field.
    pub fn validate(&self) -> (r: Result<(), BusinessError>)
        ensures
            update_answer_findings(self).len() == 0 <==> r is Ok,
            (r matches Err(e) ==> e matches BusinessError::InvalidParameter(pair) && pair.0
                is None && (pair.1 matches Some(ps) && params_match(
                ps@,
                update_answer_findings(self),
            ))),
    {
        let mut ps: Vec<ErrorParams> = Vec::new();
        if self.answer_content.as_str().is_empty() {
            ps.push(one_field_error("answerContent", "answerContent不能为空"));
        }
        if ps.len() == 0 {
            Ok(())
        } else {
            Err(BusinessError::InvalidParameter((None, Some(ps))))
        }
    }

    /// The stored answer this update stands for, under the given question
    /// code, created now, with no author recorded.
    pub fn into_db_answer(&self, question_code: String) -> (r: qa::Answer)
        ensures
            r.id is None,
            r.question_code == question_code,
            r.answer_content@ == self.answer_content@,
            r.create_user_id is None,
            r.creator_name is None,
            r.status == 1i8,
    {
        qa::Answer::new(question_code, self.answer_content.clone(), None, None)
    }
}

impl UpdateQuestion {
    /// Check the request's own fields, reporting every finding in order.
    pub fn validate(&self) -> (r: Result<(), BusinessError>)
        ensures
            update_question_findings(self).len() == 0 <==> r is Ok,
            (r matches Err(e) ==> e matches BusinessError::InvalidParameter(pair) && pair.0
                is None && (pair.1 matches Some(ps) && params_match(
                ps@,
                update_question_findings(self),
            ))),
    {
        let mut ps: Vec<ErrorParams> = Vec::new();
        if self.product_code.as_str().is_empty() {
            ps.push(one_field_error("productCode", "productCode不能为空"));
        }
        if self.question_content.as_str().is_empty() {
            ps.push(one_field_error("questionContent", "questionContent不能为空"));
        }
        if self.answer_list.len() == 0 {
            ps.push(one_field_error("answers", "answers列表不能为空"));
        }
        if self.question_code.as_str().is_empty() {
            ps.push(one_field_error("questionCode", "questionCode不能为空"));
        }
        if ps.len() == 0 {
            Ok(())
        } else {
            Err(BusinessError::InvalidParameter((None, Some(ps))))
        }
    }

    /// Check the request and then each answer: the request's own findings
    /// come first; otherwise the first answer with findings is reported.
    pub fn custom_validate(&self) -> (r: Result<(), BusinessError>)
        ensures
            (update_question_findings(self).len() == 0 && first_invalid_update_answer(
                self.answer_list@,
                0,
            ) is None) <==> r is Ok,
            (update_question_findings(self).len() > 0 ==> (r matches Err(e) && e
                matches BusinessError::InvalidParameter(pair) && pair.0 is None && (pair.1
                matches Some(ps) && params_match(ps@, update_question_findings(self))))),
            ((update_question_findings(self).len() == 0 && first_invalid_update_answer(
                self.answer_list@,
                0,
            ) is Some) ==> (first_invalid_update_answer(self.answer_list@, 0) matches Some(a) && (
            r matches Err(e) && e matches BusinessError::InvalidParameter(pair) && pair.0 is None
                && (pair.1 matches Some(ps) && params_match(
                ps@,
                update_answer_findings(&self.answer_list@[a]),
            ))))),
    {
        let own = self.validate();
        if let Err(e) = own {
            return Err(e);
        }
        let ghost s = self.answer_list@;
        let n = self.answer_list.len();
        let mut i: usize = 0;
        while i < n
            invariant
                i <= n,
                n == self.answer_list@.len(),
                s == self.answer_list@,
                update_question_findings(self).len() == 0,
                first_invalid_update_answer(s, 0) == first_invalid_update_answer(s, i as nat),
            decreases n - i,
        {
            let a = &self.answer_list[i];
            let checked = a.validate();
            match checked {
                Err(e) => {
                    return Err(e);
                },
                Ok(()) => {
                    proof {
                        assert(first_invalid_update_answer(s, i as nat)
                            == first_invalid_update_answer(s, (i + 1) as nat));
                    }
                },
            }
            i += 1;
        }
        Ok(())
    }

    /// The stored question this update stands for, under the existing
    /// question code, with no author recorded.
    pub fn into_db_question(&self) -> (r: qa::Question)
        ensures
            r.id is None,
            r.sku_code == (match self.sku_code {
                Option::Some(ref s) => Option::Some(*s),
                Option::None => Option::None::<String>,
            }),
            r.product_code@ == self.product_code@,
            r.question_code@ == self.question_code@,
            r.question_content@ == self.question_content@,
            r.create_user_id is None,
            r.creator_name is None,
            r.status == 1i8,
            r.sort == 0i32,
            r.rank == self.rank,
    {
        let sku_code = match &self.sku_code {
            Some(s) => Some(s.clone()),
            None => None,
        };
        qa::Question::with_question_code(
            self.question_code.clone(),
            sku_code,
            self.product_code.clone(),
            self.question_content.clone(),
            None,
            None,
            self.rank,
        )
    }
}

/// A question-deletion request.
#[derive(Clone, Debug)]
pub struct DeleteQuestion {
    pub question_code: String,
}

impl DeleteQuestion {
    /// The question code must be set.
    pub fn validate(&self) -> (r: Result<(), BusinessError>)
        ensures
            self.question_code@.len() > 0 <==> r is Ok,
            (r matches Err(e) ==> e matches BusinessError::InvalidParameter(pair) && pair.0
                is None && (pair.1 matches Some(ps) && params_match(
                ps@,
                seq![
                    FieldError { field: "questionCode"@, message: "questionCode不能为空"@ },
                ],
            ))),
    {
        if self.question_code.as_str().is_empty() {
            let mut ps: Vec<ErrorParams> = Vec::new();
            ps.push(one_field_error("questionCode", "questionCode不能为空"));
            Err(BusinessError::InvalidParameter((None, Some(ps))))
        } else {
            Ok(())
        }
    }
}

/// A question lookup by code, as queried by the read side.
#[derive(Clone, Debug)]
pub struct GetQuestionByCode {
    pub question_code: String,
}

/// The search-and-page request of the question list.
#[derive(Clone, Debug)]
pub struct FindQuestionListForTrad {
    pub current_pageno: i64,
    pub page_size: i64,
    pub id_str: Option<String>,
    pub product_code: Option<String>,
    pub question_content: Option<String>,
    pub question_code: Option<String>,
    pub create_name: Option<String>,
    pub answer_code: Option<String>,
    pub start_time: Option<i64>,
    pub end_time: Option<i64>,
    pub answer_content: Option<String>,
}

/// The findings on a list request, in declaration order.
pub open spec fn find_question_list_findings(q: &FindQuestionListForTrad) -> Seq<FieldError> {
    let e0: Seq<FieldError> = if q.current_pageno < 1 {
        seq![
            FieldError {
                field: "pageNum"@,
                message: "页面参数不合法，pageNum应该是大于等于1的整数"@,
            },
        ]
    } else {
        Seq::empty()
    };
    let e1: Seq<FieldError> = if q.page_size < 1 {
        seq![
            FieldError {
                field: "pageSize"@,
                message: "页面参数不合法，pageSize应该是大于等于1的整数"@,
            },
        ]
    } else {
        Seq::empty()
    };
    e0 + e1
}

impl FindQuestionListForTrad {
    /// The default search: first page, ten records, no filter.
    pub fn new() -> (r: Self)
        ensures
            r.current_pageno == 1i64,
            r.page_size == 10i64,
            r.id_str is None,
            r.product_code is None,
            r.question_content is None,
            r.question_code is None,
            r.create_name is None,
            r.answer_code is None,
            r.start_time is None,
            r.end_time is None,
            r.answer_content is None,
    {
        FindQuestionListForTrad {
            current_pageno: 1,
            page_size: 10,
            id_str: None,
            product_code: None,
            question_content: None,
            question_code: None,
            create_name: None,
            answer_code: None,
            start_time: None,
            end_time: None,
            answer_content: None,
        }
    }

    /// Both page parameters must be at least one.
    pub fn validate(&self) -> (r: Result<(), BusinessError>)
        ensures
            find_question_list_findings(self).len() == 0 <==> r is Ok,
            (r matches Err(e) ==> e matches BusinessError::InvalidParameter(pair) && pair.0
                is None && (pair.1 matches Some(ps) && params_match(
                ps@,
                find_question_list_findings(self),
            ))),
    {
        let mut ps: Vec<ErrorParams> = Vec::new();
        if self.current_pageno < 1 {
            ps.push(one_field_error("pageNum", "页面参数不合法，pageNum应该是大于等于1的整数"));
        }
        if self.page_size < 1 {
            ps.push(one_field_error("pageSize", "页面参数不合法，pageSize应该是大于等于1的整数"));
        }
        if ps.len() == 0 {
            Ok(())
        } else {
            Err(BusinessError::InvalidParameter((None, Some(ps))))
        }
    }
}

/// One price period as requested.
#[derive(Clone, Copy, Debug, PartialEq, Eq, Structural)]
pub struct Price {
    pub sequence: i32,
    pub price: Decimal,
    pub start_date_time: i64,
    pub end_date_time: i64,
}

impl Price {
    /// The stored price this request stands for, under the given SKU code,
    /// with no bookkeeping timestamps yet.
    pub fn into_db_price(&self, sku_code: &str) -> (r: DbPrice)
        ensures
            r.sku_code@ == sku_code@,
            r.sequence == self.sequence,
            r.price == self.price,
            r.start_date_time == self.start_date_time,
            r.end_date_time == self.end_date_time,
            r.create_date_time is None,
            r.update_date_time is None,
    {
        DbPrice {
            sku_code: sku_code.to_owned(),
            sequence: self.sequence,
            price: self.price,
            start_date_time: self.start_date_time,
            end_date_time: self.end_date_time,
            create_date_time: None,
            update_date_time: None,
        }
    }
}

/// What a price list can be rejected for.
#[derive(Clone, Copy, Debug, PartialEq, Eq, Structural)]
pub enum PriceListError {
    /// The list holds no price.
    EmptyPriceList,
    /// A period ends after the next one starts.
    EndOverlapsNextStart,
    /// Two adjacent prices carry the same sequence number.
    DuplicateSequence,
    /// The sequence numbers do not ascend.
    SequenceOutOfOrder,
    /// A period starts after it ends.
    StartAfterEnd,
    /// A price is negative.
    NegativePrice,
    /// A price carries more than two decimal digits.
    TooManyDecimalDigits,
    /// A sequence number is below one.
    SequenceBelowOne,
}

impl PriceListError {
    /// The diagnostic line of this rejection.
    pub fn message(&self) -> (r: String)
        ensures
            r@ == self.spec_message(),
    {
        match self {
            PriceListError::EmptyPriceList => "价格列表不能为空".to_owned(),
            PriceListError::EndOverlapsNextStart => "价格列表中的上一次结束时间不能大于下一次开始时间".to_owned(),
            PriceListError::DuplicateSequence => "价格序号不能重复".to_owned(),
            PriceListError::SequenceOutOfOrder => "价格序号必须是从小到大".to_owned(),
            PriceListError::StartAfterEnd => "开始时间不能大于结束时间".to_owned(),
            PriceListError::NegativePrice => "价格不能是负数".to_owned(),
            PriceListError::TooManyDecimalDigits => "价格小数位数不能超过2位".to_owned(),
            PriceListError::SequenceBelowOne => "价格序号只能是大于等于1".to_owned(),
        }
    }

    pub open spec fn spec_message(self) -> Seq<char> {
        match self {
            PriceListError::EmptyPriceList => "价格列表不能为空"@,
            PriceListError::EndOverlapsNextStart => "价格列表中的上一次结束时间不能大于下一次开始时间"@,
            PriceListError::DuplicateSequence => "价格序号不能重复"@,
            PriceListError::SequenceOutOfOrder => "价格序号必须是从小到大"@,
            PriceListError::StartAfterEnd => "开始时间不能大于结束时间"@,
            PriceListError::NegativePrice => "价格不能是负数"@,
            PriceListError::TooManyDecimalDigits => "价格小数位数不能超过2位"@,
            PriceListError::SequenceBelowOne => "价格序号只能是大于等于1"@,
        }
    }
}

/// The absolute value.
pub open spec fn abs_of(m: int) -> int {
    if m < 0 {
        -m
    } else {
        m
    }
}

/// Whether one of the lowest `k` decimal digits of `a` is nonzero.
pub open spec fn low_digits_nonzero(a: int, k: nat) -> bool
    decreases k,
{
    if k == 0 {
        false
    } else {
        a % 10 != 0 || low_digits_nonzero(a / 10, (k - 1) as nat)
    }
}

/// Zero has no nonzero digit anywhere.
pub proof fn lemma_zero_digits(k: nat)
    ensures
        !low_digits_nonzero(0, k),
    decreases k,
{
    if k > 0 {
        lemma_zero_digits((k - 1) as nat);
    }
}

/// Whether the amount carries more than two decimal digits: its scale goes
/// beyond two and some digit past the first two fractional ones is nonzero.
pub open spec fn too_many_decimal_digits(d: Decimal) -> bool {
    d.scale > 2 && low_digits_nonzero(abs_of(d.mantissa as int), (d.scale - 2) as nat)
}

/// Decide `too_many_decimal_digits` on a concrete amount.
pub fn has_more_than_two_decimals(d: &Decimal) -> (r: bool)
    ensures
        r == too_many_decimal_digits(*d),
{
    if d.scale <= 2 {
        return false;
    }
    let k: u32 = d.scale - 2;
    let a: u64 = if d.mantissa < 0 {
        if d.mantissa == i64::MIN {
            9223372036854775808u64
        } else {
            (-d.mantissa) as u64
        }
    } else {
        d.mantissa as u64
    };
    proof {
        assert(a as int == abs_of(d.mantissa as int));
    }
    let ghost a0 = a as int;
    let mut cur: u64 = a;
    let mut j: u32 = 0;
    while j < k
        invariant
            j <= k,
            d.scale > 2,
            k == d.scale - 2,
            a0 == abs_of(d.mantissa as int),
            low_digits_nonzero(a0, k as nat) == low_digits_nonzero(
                cur as int,
                (k - j) as nat,
            ),
        decreases k - j,
    {
        if cur == 0 {
            proof {
                lemma_zero_digits((k - j) as nat);
            }
            return false;
        }
        if cur % 10 != 0 {
            return true;
        }
        cur = cur / 10;
        j += 1;
    }
    false
}

/// The fault of one adjacent pair, in the order the rules are checked.
pub open spec fn price_pair_fault(a: Price, b: Price) -> Option<PriceListError> {
    if a.end_date_time > b.start_date_time {
        Option::Some(PriceListError::EndOverlapsNextStart)
    } else if a.sequence == b.sequence {
        Option::Some(PriceListError::DuplicateSequence)
    } else if a.sequence > b.sequence {
        Option::Some(PriceListError::SequenceOutOfOrder)
    } else {
        Option::None
    }
}

/// The fault of one price on its own, in the order the rules are checked.
pub open spec fn price_item_fault(p: Price) -> Option<PriceListError> {
    if p.start_date_time > p.end_date_time {
        Option::Some(PriceListError::StartAfterEnd)
    } else if p.price.mantissa < 0 {
        Option::Some(PriceListError::NegativePrice)
    } else if too_many_decimal_digits(p.price) {
        Option::Some(PriceListError::TooManyDecimalDigits)
    } else if p.sequence < 1 {
        Option::Some(PriceListError::SequenceBelowOne)
    } else {
        Option::None
    }
}

/// The first pair fault from position `i` on.
pub open spec fn scan_price_pairs(s: Seq<Price>, i: nat) -> Option<PriceListError>
    decreases s.len() - i,
{
    if i + 1 >= s.len() {
        Option::None
    } else {
        match price_pair_fault(s[i as int], s[i as int + 1]) {
            Option::Some(e) => Option::Some(e),
            Option::None => scan_price_pairs(s, i + 1),
        }
    }
}

/// The first item fault from position `i` on.
pub open spec fn scan_price_items(s: Seq<Price>, i: nat) -> Option<PriceListError>
    decreases s.len() - i,
{
    if i >= s.len() {
        Option::None
    } else {
        match price_item_fault(s[i as int]) {
            Option::Some(e) => Option::Some(e),
            Option::None => scan_price_items(s, i + 1),
        }
    }
}

/// What price-list validation decides: an empty list is refused; then the
/// adjacent-pair rules are checked over the whole list, then each price's
/// own rules, each in order.
pub open spec fn price_list_verdict(s: Seq<Price>) -> Result<(), PriceListError> {
    if s.len() == 0 {
        Result::Err(PriceListError::EmptyPriceList)
    } else {
        match scan_price_pairs(s, 0) {
            Option::Some(e) => Result::Err(e),
            Option::None => match scan_price_items(s, 0) {
                Option::Some(e) => Result::Err(e),
                Option::None => Result::Ok(()),
            },
        }
    }
}

/// Validate a price list: periods must not overlap and must ascend by
/// unique sequence numbers starting at one, each period must be ordered,
/// and each amount must be non-negative with at most two decimal digits.
pub fn validate_price_list(value: &Vec<Price>) -> (r: Result<(), PriceListError>)
    ensures
        r == price_list_verdict(value@),
{
    let ghost s = value@;
    if value.len() == 0 {
        return Err(PriceListError::EmptyPriceList);
    }
    let n = value.len();
    let mut i: usize = 0;
    while i + 1 < n
        invariant
            i < n,
            n == value@.len(),
            s == value@,
            scan_price_pairs(s, 0) == scan_price_pairs(s, i as nat),
        decreases n - i,
    {
        let a = value[i];
        let b = value[i + 1];
        if a.end_date_time > b.start_date_time {
            return Err(PriceListError::EndOverlapsNextStart);
        }
        if a.sequence == b.sequence {
            return Err(PriceListError::DuplicateSequence);
        }
        if a.sequence > b.sequence {
            return Err(PriceListError::SequenceOutOfOrder);
        }
        proof {
            assert(scan_price_pairs(s, i as nat) == scan_price_pairs(s, (i + 1) as nat));
        }
        i += 1;
    }
    proof {
        assert(scan_price_pairs(s, i as nat) is None);
    }
    let mut j: usize = 0;
    while j < n
        invariant
            j <= n,
            n == value@.len(),
            s == value@,
            scan_price_pairs(s, 0) is None,
            scan_price_items(s, 0) == scan_price_items(s, j as nat),
        decreases n - j,
    {
        let p = value[j];
        if p.start_date_time > p.end_date_time {
            return Err(PriceListError::StartAfterEnd);
        }
        if p.price.is_negative() {
            return Err(PriceListError::NegativePrice);
        }
        if has_more_than_two_decimals(&p.price) {
            return Err(PriceListError::TooManyDecimalDigits);
        }
        if p.sequence < 1 {
            return Err(PriceListError::SequenceBelowOne);
        }
        proof {
            assert(scan_price_items(s, j as nat) == scan_price_items(s, (j + 1) as nat));
        }
        j += 1;
    }
    Ok(())
}

/// A SKU-creation request.
#[derive(Clone, Debug)]
pub struct CreateSku {
    pub sku_code: String,
    pub name: String,
    pub description: Option<String>,
    pub price_list: Vec<Price>,
}

impl CreateSku {
    /// The stored SKU this request stands for. (The stored prices are built
    /// separately, one per listed price, under this SKU code.)
    pub fn into_db_sku(&self) -> (r: Sku)
        ensures
            r.sku_code@ == self.sku_code@,
            r.name@ == self.name@,
            r.description == (match self.description {
                Option::Some(ref d) => Option::Some(*d),
                Option::None => Option::None::<String>,
            }),
    {
        Sku {
            sku_code: self.sku_code.clone(),
            name: self.name.clone(),
            description: match &self.description {
                Some(d) => Some(d.clone()),
                None => None,
            },
        }
    }
}

/// A SKU-update request.
#[derive(Clone, Debug)]
pub struct UpdateSku {
    pub sku_code: String,
    pub name: Option<String>,
    pub description: Option<String>,
    pub price_list: Option<Vec<Price>>,
}

impl UpdateSku {
    /// The stored SKU this update stands for: a missing name becomes empty.
    pub fn into_db_sku(&self) -> (r: Sku)
        ensures
            r.sku_code@ == self.sku_code@,
            r.name@ == (match self.name {
                Option::Some(ref nm) => nm@,
                Option::None => Seq::<char>::empty(),
            }),
            r.description == (match self.description {
                Option::Some(ref d) => Option::Some(*d),
                Option::None => Option::None::<String>,
            }),
    {
        Sku {
            sku_code: self.sku_code.clone(),
            name: match &self.name {
                Some(nm) => nm.clone(),
                None => String::new(),
            },
            description: match &self.description {
                Some(d) => Some(d.clone()),
                None => None,
            },
        }
    }

    /// The update is only admissible against a SKU that exists: judge the
    /// store's lookup answer. A failed lookup is an internal fault; a
    /// lookup that found nothing refuses the update, naming the SKU code.
    pub fn validate_not_found_sku(&self, lookup: &Result<Option<Sku>, String>) -> (r: Result<
        (),
        BusinessError,
    >)
        ensures
            (lookup matches Ok(found) && found is Some) <==> r is Ok,
            ((lookup matches Ok(found) && found is None) ==> (r matches Err(e) && e
                matches BusinessError::SkuNotFound(pair) && pair.0 is None && (pair.1 matches Some(
                params,
            ) && params@.len() == 1 && params@[0].0@ == "sku_code"@ && params@[0].1@
                == self.sku_code@))),
            (lookup is Err ==> (r matches Err(e) && e matches BusinessError::InternalServerError(
                pair,
            ) && (pair.0 matches Some(m) && m@ == "校验sku是否存在-执行失败"@) && pair.1
                is None)),
    {
        match lookup {
            Ok(found) => match found {
                Some(_) => Ok(()),
                None => {
                    let mut params: ErrorParams = Vec::new();
                    params.push(("sku_code".to_owned(), self.sku_code.clone()));
                    Err(BusinessError::SkuNotFound((None, Some(params))))
                },
            },
            Err(_) => Err(
                BusinessError::InternalServerError(
                    (Some("校验sku是否存在-执行失败".to_owned()), None),
                ),
            ),
        }
    }
}

} // verus!
