//! The request-path error taxonomy, with the code and default message each
//! kind carries to the caller.

use vstd::prelude::*;

verus! {

/// A list of named parameters attached to an error.
pub type ErrorParams = Vec<(String, String)>;

/// What a handler can fail with. Each variant carries an optional message
/// overriding the default, and optional named parameters.
pub enum BusinessError {
    InternalServerError((Option<String>, Option<ErrorParams>)),
    SkuAlreadyExists((Option<String>, Option<ErrorParams>)),
    InvalidParameter((Option<String>, Option<Vec<ErrorParams>>)),
    SkuNotFound((Option<String>, Option<ErrorParams>)),
    QuestionNotFound((Option<String>, Option<ErrorParams>)),
    DivedByCannotBe0((Option<String>, Option<ErrorParams>)),
}

impl BusinessError {
    /// The wire code of this error kind.
    pub fn code(&self) -> (r: String)
        ensures
            r@ == self.spec_code(),
    {
        match self {
            BusinessError::InternalServerError(_) => "500".to_owned(),
            BusinessError::InvalidParameter(_) => "1399001".to_owned(),
            BusinessError::SkuAlreadyExists(_) => "0201021".to_owned(),
            BusinessError::SkuNotFound(_) => "0201022".to_owned(),
            BusinessError::QuestionNotFound(_) => "1301002".to_owned(),
            BusinessError::DivedByCannotBe0(_) => "1301003".to_owned(),
        }
    }

    pub open spec fn spec_code(self) -> Seq<char> {
        match self {
            BusinessError::InternalServerError(_) => "500"@,
            BusinessError::InvalidParameter(_) => "1399001"@,
            BusinessError::SkuAlreadyExists(_) => "0201021"@,
            BusinessError::SkuNotFound(_) => "0201022"@,
            BusinessError::QuestionNotFound(_) => "1301002"@,
            BusinessError::DivedByCannotBe0(_) => "1301003"@,
        }
    }

    /// The default message of this error kind.
    pub fn msg(&self) -> (r: String)
        ensures
            r@ == self.spec_msg(),
    {
        match self {
            BusinessError::InternalServerError(_) => "程序内部处理错误".to_owned(),
            BusinessError::InvalidParameter(_) => "参数校验异常".to_owned(),
            BusinessError::SkuAlreadyExists(_) => "商品已存在".to_owned(),
            BusinessError::SkuNotFound(_) => "商品找不到".to_owned(),
            BusinessError::QuestionNotFound(_) => "找不到对应的问题记录".to_owned(),
            BusinessError::DivedByCannotBe0(_) => "除数不能为0".to_owned(),
        }
    }

    pub open spec fn spec_msg(self) -> Seq<char> {
        match self {
            BusinessError::InternalServerError(_) => "程序内部处理错误"@,
            BusinessError::InvalidParameter(_) => "参数校验异常"@,
            BusinessError::SkuAlreadyExists(_) => "商品已存在"@,
            BusinessError::SkuNotFound(_) => "商品找不到"@,
            BusinessError::QuestionNotFound(_) => "找不到对应的问题记录"@,
            BusinessError::DivedByCannotBe0(_) => "除数不能为0"@,
        }
    }

    /// The HTTP status this error kind answers with: 500 for an internal
    /// fault, 200 otherwise (the body carries the error).
    pub fn status_code(&self) -> (r: u16)
        ensures
            r == (match self {
                BusinessError::InternalServerError(_) => 500u16,
                _ => 200u16,
            }),
    {
        match self {
            BusinessError::InternalServerError(_) => 500,
            _ => 200,
        }
    }
}

} // verus!
