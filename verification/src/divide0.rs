//! The division probe: rejects a zero divisor with a typed error instead of
//! panicking.

use vstd::prelude::*;
use crate::error::BusinessError;

verus! {

/// The divisor, as queried.
#[derive(Clone)]
pub struct Divide0Request {
    pub dived_by: i32,
}

/// The answer carrying the divisor back.
#[derive(Clone)]
pub struct Divide0Response {
    pub dived_by: i32,
}

impl Divide0Response {
    pub fn new(dived_by: i32) -> (r: Self)
        ensures
            r.dived_by == dived_by,
    {
        Divide0Response { dived_by }
    }
}

/// A zero divisor is refused with `DivedByCannotBe0`; any other value
/// passes through unchanged.
pub fn check_dived_by(a: i32) -> (r: Result<i32, BusinessError>)
    ensures
        a == 0 ==> (r matches Err(e) && e is DivedByCannotBe0),
        a != 0 ==> r == Result::<i32, BusinessError>::Ok(a),
{
    if a == 0 {
        Err(BusinessError::DivedByCannotBe0((None, None)))
    } else {
        Ok(a)
    }
}

} // verus!
