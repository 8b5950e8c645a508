//! Small response shapes shared by the handlers.

use vstd::prelude::*;

verus! {

/// A created user.
#[derive(Debug)]
pub struct User {
    pub id: u64,
    pub username: String,
}

/// A health-check echo answer.
#[derive(Debug)]
pub struct HealthCheck {
    pub text: String,
}

/// The value of a configuration variable.
#[derive(Debug)]
pub struct EnvVariable {
    pub value: String,
}

/// One page of records, in the wire shape.
#[derive(Debug)]
pub struct PageResponse<T> {
    pub total_records: i64,
    pub current_pageno: i64,
    pub page_size: i64,
    pub total_pages: i64,
    pub data: Option<Vec<T>>,
}

impl<T> PageResponse<T> {
    /// Assemble a page answer from its parts, unchanged.
    pub fn new(
        total_records: i64,
        current_pageno: i64,
        page_size: i64,
        total_pages: i64,
        data: Option<Vec<T>>,
    ) -> (r: Self)
        ensures
            r.total_records == total_records,
            r.current_pageno == current_pageno,
            r.page_size == page_size,
            r.total_pages == total_pages,
            r.data == data,
    {
        PageResponse { total_records, current_pageno, page_size, total_pages, data }
    }
}

/// The uniform envelope of a successful answer.
#[derive(Debug)]
pub struct AppResponse<T> {
    pub code: String,
    pub msg: String,
    pub success: bool,
    pub data: T,
}

impl<T> AppResponse<T> {
    /// Wrap a payload as a success: code 0, message success.
    pub fn success(data: T) -> (r: Self)
        ensures
            r.code@ == "0"@,
            r.msg@ == "success"@,
            r.success,
            r.data == data,
    {
        AppResponse { code: "0".to_owned(), msg: "success".to_owned(), success: true, data }
    }
}

} // verus!
