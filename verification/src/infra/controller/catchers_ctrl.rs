use crate::infra::api_response::HttpStatus;
use vstd::prelude::*;

verus! {

/// What the client reads where no route matches.
#[derive(Debug)]
pub struct ErrorResponse {
    pub message: String,
}

/// The answer where no route matches: status 404 and the message
/// `Not Found`.
pub fn not_found_ctrl() -> (response: (HttpStatus, ErrorResponse))
    ensures
        response.0.value() == 404,
        response.1.message@ == "Not Found"@,
{
    (HttpStatus::not_found(), ErrorResponse { message: String::from_str("Not Found") })
}

} // verus!
