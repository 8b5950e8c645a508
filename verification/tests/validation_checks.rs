use service_discovery::error::BusinessError;
use service_discovery::model::request::{
    validate_price_list, CreateAnswer, CreateQuestion, DeleteQuestion, FindQuestionListForTrad,
    Price, UpdateAnswer, UpdateQuestion,
};
use service_discovery::model::sku::Decimal;
use chrono::TimeZone;

fn param_of(params: &Vec<(String, String)>, key: &str) -> Option<String> {
    for (k, v) in params {
        if k == key {
            return Some(v.clone());
        }
    }
    None
}

fn expect_single_finding(result: Result<(), BusinessError>, field: &str, message: &str) {
    assert_eq!(result.is_err(), true);
    if let Err(error) = result {
        match error {
            BusinessError::InvalidParameter((_, errors_parameters)) => {
                assert_eq!(errors_parameters.is_some(), true);
                let error_parameters = errors_parameters.unwrap();
                let error_parameters0 = error_parameters.get(0);
                assert_eq!(error_parameters0.is_some(), true);
                let error_parameters0 = error_parameters0.unwrap();
                assert_eq!(param_of(error_parameters0, "field").is_some(), true);
                assert_eq!(param_of(error_parameters0, "message").is_some(), true);
                assert_eq!(param_of(error_parameters0, "field").unwrap(), field);
                assert_eq!(param_of(error_parameters0, "message").unwrap(), message);
            }
            _ => {
                panic!("错误类型不匹配")
            }
        }
    }
}

fn question_with(
    product_code: &str,
    question_content: &str,
    create_user_id: &str,
    answer_list: Vec<CreateAnswer>,
) -> CreateQuestion {
    CreateQuestion {
        sku_code: Some("sku_code".to_string()),
        product_code: product_code.to_string(),
        question_content: question_content.to_string(),
        create_user_id: create_user_id.to_string(),
        creator_name: "creator_name".to_string(),
        rank: 1,
        answer_list,
    }
}

fn good_answer() -> CreateAnswer {
    CreateAnswer {
        answer_content: "answer_content".to_string(),
        create_user_id: "create_user_id".to_string(),
        creator_name: "creator_name".to_string(),
    }
}

#[test]
fn create_question_test_validate_error() {
    let error = BusinessError::InvalidParameter((None, None));
    assert_eq!(error.code(), "1399001");
    assert_eq!(error.msg(), "参数校验异常");
}

#[test]
fn create_question_test_validate_product_code_empty() {
    let question = question_with("", "question_content", "create_user_id", vec![good_answer()]);
    expect_single_finding(question.custom_validate(), "productCode", "productCode不能为空");
}

#[test]
fn create_question_test_validate_question_content_empty() {
    let question = question_with("product_code", "", "create_user_id", vec![good_answer()]);
    expect_single_finding(
        question.custom_validate(),
        "questionContent",
        "questionContent不能为空",
    );
}

#[test]
fn test_validate_create_user_id_empty() {
    let question = question_with("product_code", "question_content", "", vec![good_answer()]);
    expect_single_finding(question.custom_validate(), "createUserId", "createUserId不能为空");
}

#[test]
fn create_question_test_validate_answer_list_empty() {
    let question = question_with("product_code", "question_content", "create_user_id", vec![]);
    expect_single_finding(question.custom_validate(), "answers", "answers列表不能为空");
}

#[test]
fn create_question_test_validate_answer_content_empty() {
    let answer = CreateAnswer {
        answer_content: "".to_string(),
        create_user_id: "create_user_id".to_string(),
        creator_name: "creator_name".to_string(),
    };
    let question = question_with("product_code", "question_content", "create_user_id", vec![answer]);
    expect_single_finding(question.custom_validate(), "answerContent", "answerContent不能为空");
}

#[test]
fn test_validate_create_user_id_in_answer_empty() {
    let answer = CreateAnswer {
        answer_content: "answer_content".to_string(),
        create_user_id: "".to_string(),
        creator_name: "creator_name".to_string(),
    };
    let question = question_with("product_code", "question_content", "create_user_id", vec![answer]);
    expect_single_finding(question.custom_validate(), "createUserId", "createUserId不能为空");
}

#[test]
fn delete_question_test_validate_product_code_empty() {
    let question_code = "".to_string();
    let question = DeleteQuestion { question_code };
    expect_single_finding(question.validate(), "questionCode", "questionCode不能为空");
}

fn list_request(current_pageno: i64, page_size: i64) -> FindQuestionListForTrad {
    FindQuestionListForTrad {
        current_pageno,
        page_size,
        id_str: None,
        product_code: None,
        question_content: None,
        question_code: None,
        create_name: None,
        answer_code: None,
        start_time: None,
        end_time: None,
        answer_content: None,
    }
}

#[test]
fn test_validate_current_pageno() {
    let possible_values = vec![0, -1];
    for value in possible_values {
        let request = list_request(value, 10);
        expect_single_finding(
            request.validate(),
            "pageNum",
            "页面参数不合法，pageNum应该是大于等于1的整数",
        );
    }
    let request = list_request(1, 10);
    assert_eq!(request.validate().is_err(), false);
}

#[test]
fn test_validate_page_size() {
    let possible_values = vec![0, -1];
    for value in possible_values {
        let request = list_request(1, value);
        expect_single_finding(
            request.validate(),
            "pageSize",
            "页面参数不合法，pageSize应该是大于等于1的整数",
        );
    }
    let request = list_request(1, 10);
    assert_eq!(request.validate().is_err(), false);
}

fn update_question_with(
    product_code: &str,
    question_code: &str,
    question_content: &str,
    answer_list: Vec<UpdateAnswer>,
) -> UpdateQuestion {
    UpdateQuestion {
        sku_code: Some("sku_code".to_string()),
        product_code: product_code.to_string(),
        question_content: question_content.to_string(),
        rank: 1,
        answer_list,
        question_code: question_code.to_string(),
    }
}

fn good_update_answer() -> UpdateAnswer {
    UpdateAnswer { answer_content: "answer_content".to_string() }
}

#[test]
fn update_question_test_validate_error() {
    let error = BusinessError::InvalidParameter((None, None));
    assert_eq!(error.code(), "1399001");
    assert_eq!(error.msg(), "参数校验异常");
}

#[test]
fn update_question_test_validate_product_code_empty() {
    let question = update_question_with("", "question_code", "question_content", vec![
        good_update_answer(),
    ]);
    expect_single_finding(question.custom_validate(), "productCode", "productCode不能为空");
}

#[test]
fn update_question_test_validate_question_content_empty() {
    let question = update_question_with("product_code", "question_code", "", vec![
        good_update_answer(),
    ]);
    expect_single_finding(
        question.custom_validate(),
        "questionContent",
        "questionContent不能为空",
    );
}

#[test]
fn update_question_test_validate_answer_list_empty() {
    let question = update_question_with("product_code", "question_code", "question_content", vec![]);
    expect_single_finding(question.custom_validate(), "answers", "answers列表不能为空");
}

#[test]
fn update_question_test_validate_answer_content_empty() {
    let answer = UpdateAnswer { answer_content: "".to_string() };
    let question = update_question_with("product_code", "question_code", "question_content", vec![
        answer,
    ]);
    expect_single_finding(question.custom_validate(), "answerContent", "answerContent不能为空");
}

fn utc_ms(year: i32, month: u32, day: u32) -> i64 {
    chrono::Utc
        .with_ymd_and_hms(year, month, day, 0, 0, 0)
        .unwrap()
        .timestamp_millis()
}

#[test]
fn test_validate_price_list() {
    // an empty price list is refused
    let price_list = vec![];
    let result = validate_price_list(&price_list);
    assert_eq!(result.is_err(), true);
    // a period ending after the next one starts is refused
    let price_list = vec![
        Price {
            sequence: 1,
            price: Decimal::from_units(100),
            start_date_time: utc_ms(2015, 1, 1),
            end_date_time: utc_ms(2015, 12, 31),
        },
        Price {
            sequence: 2,
            price: Decimal::from_units(100),
            start_date_time: utc_ms(2015, 10, 1),
            end_date_time: utc_ms(2016, 12, 31),
        },
    ];
    let result = validate_price_list(&price_list);
    assert_eq!(result.is_err(), true);
    // a repeated sequence number is refused
    let price_list = vec![
        Price {
            sequence: 1,
            price: Decimal::from_units(100),
            start_date_time: utc_ms(2015, 1, 1),
            end_date_time: utc_ms(2015, 12, 31),
        },
        Price {
            sequence: 1,
            price: Decimal::from_units(100),
            start_date_time: utc_ms(2016, 1, 1),
            end_date_time: utc_ms(2016, 12, 31),
        },
    ];
    let result = validate_price_list(&price_list);
    assert_eq!(result.is_err(), true);
    // sequence numbers out of order are refused
    let price_list = vec![
        Price {
            sequence: 2,
            price: Decimal::from_units(100),
            start_date_time: utc_ms(2016, 1, 1),
            end_date_time: utc_ms(2016, 12, 31),
        },
        Price {
            sequence: 1,
            price: Decimal::from_units(100),
            start_date_time: utc_ms(2015, 1, 1),
            end_date_time: utc_ms(2015, 12, 31),
        },
    ];
    let result = validate_price_list(&price_list);
    assert_eq!(result.is_err(), true);
    // a period starting after it ends is refused
    let price_list = vec![Price {
        sequence: 1,
        price: Decimal::from_units(100),
        start_date_time: utc_ms(2015, 12, 31),
        end_date_time: utc_ms(2015, 1, 1),
    }];
    let result = validate_price_list(&price_list);
    assert_eq!(result.is_err(), true);
    // a negative price is refused
    let price_list = vec![Price {
        sequence: 1,
        price: Decimal::from_units(-100),
        start_date_time: utc_ms(2015, 1, 1),
        end_date_time: utc_ms(2015, 12, 31),
    }];
    let result = validate_price_list(&price_list);
    assert_eq!(result.is_err(), true);
    // more than two decimal digits are refused (100.123)
    let price_list = vec![Price {
        sequence: 1,
        price: Decimal { mantissa: 100123, scale: 3 },
        start_date_time: utc_ms(2015, 1, 1),
        end_date_time: utc_ms(2015, 12, 31),
    }];
    let result = validate_price_list(&price_list);
    assert_eq!(result.is_err(), true);
    // a sequence number below one is refused
    let price_list = vec![Price {
        sequence: 0,
        price: Decimal::from_units(100),
        start_date_time: utc_ms(2015, 1, 1),
        end_date_time: utc_ms(2015, 12, 31),
    }];
    let result = validate_price_list(&price_list);
    assert_eq!(result.is_err(), true);
    // a well-formed single price passes
    let price_list = vec![Price {
        sequence: 1,
        price: Decimal::from_units(100),
        start_date_time: utc_ms(2015, 1, 1),
        end_date_time: utc_ms(2015, 12, 31),
    }];
    let result = validate_price_list(&price_list);
    assert_eq!(result.is_ok(), true);
}

#[test]
fn findings_accumulate_in_declaration_order() {
    let question = question_with("", "", "create_user_id", vec![good_answer()]);
    match question.custom_validate() {
        Err(BusinessError::InvalidParameter((None, Some(ps)))) => {
            assert_eq!(ps.len(), 2);
            assert_eq!(param_of(&ps[0], "field").unwrap(), "productCode");
            assert_eq!(param_of(&ps[0], "message").unwrap(), "productCode不能为空");
            assert_eq!(param_of(&ps[1], "field").unwrap(), "questionContent");
            assert_eq!(param_of(&ps[1], "message").unwrap(), "questionContent不能为空");
        }
        _ => panic!("two empty fields must yield two findings"),
    }
}

#[test]
fn a_well_formed_question_passes_validation() {
    let question = question_with("product_code", "question_content", "create_user_id", vec![
        good_answer(),
    ]);
    assert!(question.custom_validate().is_ok());
    let update = update_question_with("product_code", "question_code", "question_content", vec![
        good_update_answer(),
    ]);
    assert!(update.custom_validate().is_ok());
}
