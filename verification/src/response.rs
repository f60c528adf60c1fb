//! The answers of the API: a status and a body.

use vstd::prelude::*;
use vstd::string::StringExecFns;

verus! {

/// HTTP status of a successful answer.
pub const STATUS_OK: u16 = 200;

/// HTTP status of a request that is malformed or out of range.
pub const STATUS_BAD_REQUEST: u16 = 400;

/// HTTP status of a request whose values cannot be processed.
pub const STATUS_UNPROCESSABLE_ENTITY: u16 = 422;

/// HTTP status of a failure inside the service or the driver.
pub const STATUS_INTERNAL_SERVER_ERROR: u16 = 500;

/// An answer of the API.
#[derive(Debug)]
pub enum CResponse {
    Success(String),
    BadRequest(String),
    UnprocessableEntity(String),
    InternalServerError(String),
}

impl View for CResponse {
    /// The HTTP status and the text of the body.
    type V = (u16, Seq<char>);

    open spec fn view(&self) -> (u16, Seq<char>) {
        match self {
            CResponse::Success(body) => (STATUS_OK, body@),
            CResponse::BadRequest(body) => (STATUS_BAD_REQUEST, body@),
            CResponse::UnprocessableEntity(body) => (STATUS_UNPROCESSABLE_ENTITY, body@),
            CResponse::InternalServerError(body) => (STATUS_INTERNAL_SERVER_ERROR, body@),
        }
    }
}

impl CResponse {
    /// The HTTP status of this answer.
    pub fn status(&self) -> (code: u16)
        ensures
            code == self@.0,
    {
        match self {
            CResponse::Success(_) => STATUS_OK,
            CResponse::BadRequest(_) => STATUS_BAD_REQUEST,
            CResponse::UnprocessableEntity(_) => STATUS_UNPROCESSABLE_ENTITY,
            CResponse::InternalServerError(_) => STATUS_INTERNAL_SERVER_ERROR,
        }
    }

    /// The body of this answer.
    pub fn body(&self) -> (body: &String)
        ensures
            body@ == self@.1,
    {
        match self {
            CResponse::Success(body) => body,
            CResponse::BadRequest(body) => body,
            CResponse::UnprocessableEntity(body) => body,
            CResponse::InternalServerError(body) => body,
        }
    }
}

/// A successful answer carrying `body`.
pub fn ok(body: String) -> (r: CResponse)
    ensures
        r@ == (STATUS_OK, body@),
{
    CResponse::Success(body)
}

/// An answer refusing a malformed or out-of-range request.
pub fn bad_request(message: String) -> (r: CResponse)
    ensures
        r@ == (STATUS_BAD_REQUEST, message@),
{
    CResponse::BadRequest(message)
}

/// An answer refusing a request whose values cannot be processed.
pub fn unprocessable_entity(message: String) -> (r: CResponse)
    ensures
        r@ == (STATUS_UNPROCESSABLE_ENTITY, message@),
{
    CResponse::UnprocessableEntity(message)
}

/// An answer reporting a failure inside the service or the driver.
pub fn internal_server_error(message: String) -> (r: CResponse)
    ensures
        r@ == (STATUS_INTERNAL_SERVER_ERROR, message@),
{
    CResponse::InternalServerError(message)
}

/// The answer where the driver's command builder refused the request's
/// values with the error text `err`.
pub fn command_refused(err: &str) -> (r: CResponse)
    ensures
        r@ == (STATUS_UNPROCESSABLE_ENTITY, err@),
{
    unprocessable_entity(String::from_str(err))
}

/// The text that opens the body of an answer to a failed driver exchange.
pub open spec fn driver_failure_prefix() -> Seq<char> {
    "Internal driver communication failed: "@
}

/// The answer to a driver exchange that failed with the error text `err`.
pub fn driver_failed(err: &str) -> (r: CResponse)
    ensures
        r@ == (STATUS_INTERNAL_SERVER_ERROR, driver_failure_prefix() + err@),
{
    let message = String::from_str("Internal driver communication failed: ").concat(err);
    internal_server_error(message)
}

/// The answer to a driver exchange: its serialized result on success, and a
/// driver failure carrying the error text otherwise.
pub fn driver_response(result: Result<String, String>) -> (r: CResponse)
    ensures
        result matches Ok(body) ==> r@ == (STATUS_OK, body@),
        result matches Err(err) ==> r@ == (STATUS_INTERNAL_SERVER_ERROR, driver_failure_prefix()
            + err@),
{
    match result {
        Ok(body) => ok(body),
        Err(err) => driver_failed(err.as_str()),
    }
}

/// The answer to an exchange whose failure is reported by the fixed text
/// `message` in place of the driver's own error.
pub fn ok_or_internal(result: Result<String, String>, message: &str) -> (r: CResponse)
    ensures
        result matches Ok(body) ==> r@ == (STATUS_OK, body@),
        result is Err ==> r@ == (STATUS_INTERNAL_SERVER_ERROR, message@),
{
    match result {
        Ok(body) => ok(body),
        Err(_) => internal_server_error(String::from_str(message)),
    }
}

/// The statuses of the four kinds of answer are the HTTP codes 200, 400, 422
/// and 500, and a failed driver exchange is reported with the text
/// "Internal driver communication failed: " before the driver's error.
pub proof fn law_answer_codes_and_texts(body: String)
    ensures
        CResponse::Success(body)@ == (200u16, body@),
        CResponse::BadRequest(body)@ == (400u16, body@),
        CResponse::UnprocessableEntity(body)@ == (422u16, body@),
        CResponse::InternalServerError(body)@ == (500u16, body@),
        driver_failure_prefix() == "Internal driver communication failed: "@,
{
}

} // verus!
