//! Responses of the mock: a status and a JSON body.

use vstd::prelude::*;
use crate::json::JsonModel;
use crate::json::JsonObject;
use crate::json::JsonPatch;
use crate::json::JsonValue;

verus! {

/// Status of a request that was answered.
pub const STATUS_OK: u16 = 200;

/// Status of a request whose body the mock could not accept.
pub const STATUS_BAD_REQUEST: u16 = 400;

/// Status of a request for something that is not there.
pub const STATUS_NOT_FOUND: u16 = 404;

/// What a handler answers: a status code and a body that is always a JSON
/// document.
#[derive(Debug)]
pub struct Response {
    pub status: u16,
    pub body: JsonValue,
}

/// The mathematical value of a response.
pub struct ResponseModel {
    pub status: int,
    pub body: JsonModel,
}

impl View for Response {
    type V = ResponseModel;

    open spec fn view(&self) -> ResponseModel {
        ResponseModel { status: self.status as int, body: self.body@ }
    }
}

/// The body of an error answer: `{"error": message}`.
pub open spec fn error_body(message: Seq<char>) -> JsonModel {
    JsonModel::Object(
        Map::<Seq<char>, JsonModel>::empty().insert("error"@, JsonModel::String(message)),
    )
}

impl JsonValue {
    /// This document as the body of a successful answer.
    pub fn into_ok_response(self) -> (response: Response)
        ensures
            response@ == (ResponseModel { status: 200, body: self@ }),
    {
        Response { status: STATUS_OK, body: self }
    }

    /// This document as the body of an answer with the given status.
    pub fn into_response(self, status: u16) -> (response: Response)
        ensures
            response@ == (ResponseModel { status: status as int, body: self@ }),
    {
        Response { status, body: self }
    }
}

impl JsonPatch {
    /// Builds the document and answers with it, status 200.
    pub fn into_ok_response(self) -> (response: Response)
        ensures
            response@ == (ResponseModel {
                status: 200,
                body: JsonModel::Object(self@.document()),
            }),
    {
        JsonValue::Object(self.build()).into_ok_response()
    }
}

/// The answer for a resource that is absent: status 404 with the empty JSON
/// string as its body.
pub fn not_found() -> (response: Response)
    ensures
        response@ == (ResponseModel { status: 404, body: JsonModel::String(Seq::empty()) }),
{
    let body = String::new();
    JsonValue::String(body).into_response(STATUS_NOT_FOUND)
}

/// The answer that rejects a request: status 400 with `{"error": message}`.
pub fn bad_request(message: &str) -> (response: Response)
    ensures
        response@ == (ResponseModel { status: 400, body: error_body(message@) }),
{
    let body = JsonObject::new().with("error", JsonValue::string(message));
    JsonValue::Object(body).into_response(STATUS_BAD_REQUEST)
}

/// The answer that acknowledges an action without reporting anything: status
/// 200 with the empty object.
pub fn acknowledged() -> (response: Response)
    ensures
        response@ == (ResponseModel {
            status: 200,
            body: JsonModel::Object(Map::<Seq<char>, JsonModel>::empty()),
        }),
{
    JsonValue::Object(JsonObject::new()).into_ok_response()
}

} // verus!
