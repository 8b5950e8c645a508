//! Small request shapes shared by the handlers.

use vstd::prelude::*;

verus! {

/// A user-creation request.
#[derive(Clone, Debug)]
pub struct CreateUser {
    pub username: String,
    pub age: u8,
}

/// Asks the handler to sleep this long, for timeout testing.
pub struct MockTimeout {
    pub sleep_seconds: u64,
}

/// A health-check echo request.
pub struct HealthCheck {
    pub text: String,
}

/// Asks for the value of a configuration variable.
pub struct EnvVariable {
    pub text: String,
}

} // verus!
