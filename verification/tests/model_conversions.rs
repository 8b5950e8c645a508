use chrono::TimeZone;
use service_discovery::datetime::{format_datetime, now_local};
use service_discovery::divide0::{check_dived_by, Divide0Response};
use service_discovery::error::BusinessError;
use service_discovery::model::qa::{Answer, AnswerStatus, Page, Question, QuestionStatus};
use service_discovery::model::qa_cache;
use service_discovery::model::request::{CreateAnswer, CreateQuestion, UpdateQuestion, UpdateSku};
use service_discovery::model::response;
use service_discovery::model::sku::{Decimal, Sku};
use service_discovery::models::response_models::{AppResponse, PageResponse};
use service_discovery::default_value::default_empty_to_string;
use service_discovery::text::{format_i64, format_u64};

fn ts(year: i32, month: u32, day: u32, h: u32, m: u32, s: u32) -> i64 {
    chrono::Utc
        .with_ymd_and_hms(year, month, day, h, m, s)
        .unwrap()
        .timestamp_millis()
}

#[test]
fn datetime_test1() {
    println!(
        "当前北京时间是: {}",
        format_datetime(now_local())
    );
}

#[test]
fn datetime_renders_the_expected_text() {
    assert_eq!(format_datetime(ts(2024, 1, 15, 10, 30, 0)), "2024-01-15 10:30:00");
    assert_eq!(format_datetime(0), "1970-01-01 00:00:00");
}

#[test]
fn integers_render_as_decimal_text() {
    assert_eq!(format_u64(0), "0");
    assert_eq!(format_u64(7), "7");
    assert_eq!(format_u64(1234567890123), "1234567890123");
    assert_eq!(format_i64(-42), "-42");
    assert_eq!(format_i64(i64::MIN), "-9223372036854775808");
    assert_eq!(format_i64(i64::MAX), "9223372036854775807");
}

#[test]
fn page_bookkeeping_is_computed_from_the_counts() {
    let page = Page::new(25, 2, 10, vec![1u32, 2, 3]);
    assert_eq!(page.total_records, 25);
    assert_eq!(page.total_pages, 2);
    assert_eq!(page.current_pageno, 2);
    assert_eq!(page.next_pageno, Some(3));
    assert_eq!(page.previous_pageno, Some(1));
    assert_eq!(page.page_size, 10);
    assert_eq!(page.data, vec![1u32, 2, 3]);

    let first = Page::new(5, 1, 10, Vec::<u32>::new());
    assert_eq!(first.next_pageno, None);
    assert_eq!(first.previous_pageno, None);
    assert_eq!(first.total_pages, 0);
}

#[test]
fn envelope_builders_carry_their_parts() {
    let pr = PageResponse::new(9, 1, 10, 1, Some(vec!["a".to_string()]));
    assert_eq!(pr.total_records, 9);
    assert_eq!(pr.total_pages, 1);
    let ok = AppResponse::success(41i32);
    assert_eq!(ok.code, "0");
    assert_eq!(ok.msg, "success");
    assert!(ok.success);
    assert_eq!(ok.data, 41);
    assert_eq!(default_empty_to_string(), "");
}

#[test]
fn every_error_kind_carries_its_code_and_message() {
    assert_eq!(BusinessError::InternalServerError((None, None)).code(), "500");
    assert_eq!(BusinessError::InternalServerError((None, None)).msg(), "程序内部处理错误");
    assert_eq!(BusinessError::InternalServerError((None, None)).status_code(), 500);
    assert_eq!(BusinessError::SkuAlreadyExists((None, None)).code(), "0201021");
    assert_eq!(BusinessError::SkuAlreadyExists((None, None)).msg(), "商品已存在");
    assert_eq!(BusinessError::SkuNotFound((None, None)).code(), "0201022");
    assert_eq!(BusinessError::SkuNotFound((None, None)).msg(), "商品找不到");
    assert_eq!(BusinessError::QuestionNotFound((None, None)).code(), "1301002");
    assert_eq!(BusinessError::QuestionNotFound((None, None)).msg(), "找不到对应的问题记录");
    assert_eq!(BusinessError::DivedByCannotBe0((None, None)).code(), "1301003");
    assert_eq!(BusinessError::DivedByCannotBe0((None, None)).msg(), "除数不能为0");
    assert_eq!(BusinessError::DivedByCannotBe0((None, None)).status_code(), 200);
}

#[test]
fn zero_divisor_is_refused_and_others_pass() {
    let refused = check_dived_by(0);
    assert!(matches!(refused, Err(BusinessError::DivedByCannotBe0(_))));
    let passed = check_dived_by(5);
    assert!(matches!(passed, Ok(5)));
    let response = Divide0Response::new(5);
    assert_eq!(response.dived_by, 5);
}

#[test]
fn statuses_map_to_their_codes_and_back() {
    assert_eq!(QuestionStatus::Active.code(), 1);
    assert_eq!(QuestionStatus::Inactive.code(), 0);
    assert_eq!(QuestionStatus::from_code(1), QuestionStatus::Active);
    assert_eq!(QuestionStatus::from_code(0), QuestionStatus::Inactive);
    assert_eq!(QuestionStatus::from_code(9), QuestionStatus::Inactive);
    assert_eq!(AnswerStatus::Active.code(), 1);
    assert_eq!(AnswerStatus::from_code(1), AnswerStatus::Active);
    assert_eq!(AnswerStatus::from_code(7), AnswerStatus::Inactive);
}

#[test]
fn a_new_question_gets_a_fresh_code_and_a_clean_state() {
    let q = Question::new(
        Some("sku".to_string()),
        "product".to_string(),
        "content".to_string(),
        Some("user".to_string()),
        Some("name".to_string()),
        3,
    );
    assert_eq!(q.id, None);
    assert_eq!(q.question_code.len(), 36);
    assert_eq!(q.status, 1);
    assert_eq!(q.sort, 0);
    assert_eq!(q.rank, 3);
    assert_eq!(q.create_time, q.update_time);
}

#[test]
fn a_created_question_converts_with_a_generated_code() {
    let request = CreateQuestion {
        sku_code: Some("sku".to_string()),
        product_code: "product".to_string(),
        question_content: "content".to_string(),
        create_user_id: "user".to_string(),
        creator_name: "name".to_string(),
        rank: 2,
        answer_list: vec![CreateAnswer {
            answer_content: "a".to_string(),
            create_user_id: "user".to_string(),
            creator_name: "name".to_string(),
        }],
    };
    let db = request.into_db_question();
    assert_eq!(db.product_code, "product");
    assert_eq!(db.question_code.len(), 36);
    assert_eq!(db.create_user_id, Some("user".to_string()));
    assert_eq!(db.status, 1);
    let answer = request.answer_list[0].into_db_answer(db.question_code.clone());
    assert_eq!(answer.question_code, db.question_code);
    assert_eq!(answer.answer_content, "a");
    assert_eq!(answer.status, 1);
}

#[test]
fn an_updated_question_keeps_its_code_and_drops_the_author() {
    let request = UpdateQuestion {
        sku_code: None,
        product_code: "product".to_string(),
        question_content: "content".to_string(),
        rank: 2,
        answer_list: vec![],
        question_code: "code-1".to_string(),
    };
    let db = request.into_db_question();
    assert_eq!(db.question_code, "code-1");
    assert_eq!(db.create_user_id, None);
    assert_eq!(db.creator_name, None);
}

#[test]
fn sku_updates_convert_and_judge_the_lookup() {
    let request = UpdateSku {
        sku_code: "sku-1".to_string(),
        name: None,
        description: Some("d".to_string()),
        price_list: None,
    };
    let db = request.into_db_sku();
    assert_eq!(db.sku_code, "sku-1");
    assert_eq!(db.name, "");
    assert_eq!(db.description, Some("d".to_string()));

    let found = Ok(Some(Sku {
        sku_code: "sku-1".to_string(),
        name: "n".to_string(),
        description: None,
    }));
    assert!(request.validate_not_found_sku(&found).is_ok());
    let missing: Result<Option<Sku>, String> = Ok(None);
    match request.validate_not_found_sku(&missing) {
        Err(BusinessError::SkuNotFound((None, Some(params)))) => {
            assert_eq!(params[0], ("sku_code".to_string(), "sku-1".to_string()));
        }
        _ => panic!("a missing SKU must refuse the update"),
    }
    let broken: Result<Option<Sku>, String> = Err("store down".to_string());
    match request.validate_not_found_sku(&broken) {
        Err(BusinessError::InternalServerError((Some(m), None))) => {
            assert_eq!(m, "校验sku是否存在-执行失败");
        }
        _ => panic!("a failed lookup must surface as internal"),
    }
}

#[test]
fn find_sku_answers_only_what_was_found() {
    let sku = Sku { sku_code: "s1".to_string(), name: "n1".to_string(), description: None };
    let hit = response::FindSku::from_db_sku(Some(sku)).unwrap();
    assert_eq!(hit.sku_code, "s1");
    assert_eq!(hit.name, "n1");
    assert!(response::FindSku::from_db_sku(None).is_none());
}

fn stored_question() -> Question {
    Question {
        id: Some(12),
        sku_code: None,
        product_code: "p".to_string(),
        question_code: "qc".to_string(),
        question_content: "what".to_string(),
        create_user_id: Some("u".to_string()),
        creator_name: Some("c".to_string()),
        create_time: ts(2024, 1, 15, 10, 30, 0),
        update_time: ts(2024, 1, 16, 11, 0, 0),
        status: 1,
        sort: 0,
        rank: 1,
    }
}

fn stored_answer() -> Answer {
    Answer {
        id: Some(5),
        question_code: "qc".to_string(),
        answer_content: "because".to_string(),
        create_user_id: Some("u".to_string()),
        create_time: ts(2024, 1, 15, 10, 31, 0),
        update_time: ts(2024, 1, 15, 10, 32, 0),
        status: 1,
        creator_name: Some("c".to_string()),
    }
}

#[test]
fn question_lookups_render_rows_and_cached_copies_alike() {
    let from_db = response::GetQuestionByCode::from_db(stored_question(), vec![stored_answer()]);
    assert_eq!(from_db.id, 12);
    assert_eq!(from_db.id_str, "12");
    assert_eq!(from_db.create_time, "2024-01-15 10:30:00");
    assert_eq!(from_db.update_time, "2024-01-16 11:00:00");
    assert_eq!(from_db.answers.len(), 1);
    assert_eq!(from_db.answers[0].id, 5);
    assert_eq!(from_db.answers[0].create_time, "2024-01-15 10:31:00");

    let cached = qa_cache::Question::from_db(stored_question(), vec![stored_answer()]);
    assert_eq!(cached.id, 12);
    assert_eq!(cached.answer_list.len(), 1);
    assert_eq!(cached.answer_list[0].id, 5);

    let from_cache = response::GetQuestionByCode::from_cache(Some(cached)).unwrap();
    assert_eq!(from_cache.id_str, "12");
    assert_eq!(from_cache.create_time, "2024-01-15 10:30:00");
    assert_eq!(from_cache.answers[0].update_time, "2024-01-15 10:32:00");
    assert!(response::GetQuestionByCode::from_cache(None).is_none());
}

#[test]
fn the_question_list_renders_rows_with_their_answers() {
    let row = response::Question::from_db_questions(stored_question(), vec![stored_answer()]);
    assert_eq!(row.id_str, "12");
    assert_eq!(row.create_time, "2024-01-15 10:30:00");
    assert_eq!(row.answers.len(), 1);
    assert_eq!(row.answers[0].answer_content, "because");

    let listing = response::FindQuestionListForTrad::new(25, 2, 10, 2, vec![row]);
    assert_eq!(listing.page.total_records, 25);
    assert_eq!(listing.page.current_pageno, 2);
    assert_eq!(listing.page.total_pages, 2);
    assert_eq!(listing.total_records, 25);
    assert_eq!(listing.list.len(), 1);
}

#[test]
fn decimals_know_their_sign() {
    assert!(Decimal::from_units(-1).is_negative());
    assert!(!Decimal::from_units(0).is_negative());
    assert!(!Decimal { mantissa: 100123, scale: 3 }.is_negative());
}
