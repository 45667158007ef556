pub mod _packages;
pub mod _project;

use vstd::prelude::*;

verus! {

/// A body that the server can send back as JSON text.
pub trait Response {
    fn to_string(&self) -> String;
}

/// The body of an error answer.
pub struct ErrorResponse {
    pub error: String,
}

impl ErrorResponse {
    pub fn new(error: &str) -> (r: Self)
        ensures
            r.error@ == error@,
    {
        Self { error: String::from_str(error) }
    }
}

/// What the server answers for a path it does not serve.
pub const CONTENT_NOT_FOUND: &'static str = "content not found";

} // verus!
