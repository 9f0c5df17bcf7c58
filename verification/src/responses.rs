//! The error answers of the API, and how request failures and unparsable identifiers map to
//! them.

use vstd::prelude::*;
use crate::ids::{parse_uuid_text, uuid_parse};

verus! {

/// An error answer: its HTTP status, its message, and at most one more named detail.
#[derive(Debug, Clone)]
pub struct ApiError {
    pub status: u16,
    pub error: String,
    pub detail: Option<(String, String)>,
}

/// An error answer as plain values.
pub struct ApiErrorView {
    pub status: u16,
    pub error: Seq<char>,
    pub detail: Option<(Seq<char>, Seq<char>)>,
}

impl View for ApiError {
    type V = ApiErrorView;

    open spec fn view(&self) -> ApiErrorView {
        ApiErrorView {
            status: self.status,
            error: self.error@,
            detail: match self.detail {
                Some((k, v)) => Some((k@, v@)),
                None => None,
            },
        }
    }
}

/// The answer with `status`, `error` and no detail.
pub open spec fn plain_error(status: u16, error: Seq<char>) -> ApiErrorView {
    ApiErrorView { status, error, detail: None }
}

/// The answer with `status`, `error` and the detail `key`: `value`.
pub open spec fn detailed_error(status: u16, error: Seq<char>, key: Seq<char>, value: Seq<char>) -> ApiErrorView {
    ApiErrorView { status, error, detail: Some((key, value)) }
}

/// The answer with `status`, `error` and no detail.
pub fn error_reply(status: u16, error: &str) -> (r: ApiError)
    ensures
        r@ == plain_error(status, error@),
{
    ApiError { status, error: String::from_str(error), detail: None }
}

/// The answer with `status`, `error` and the detail `key`: `value`.
pub fn detailed_reply(status: u16, error: &str, key: &str, value: &str) -> (r: ApiError)
    ensures
        r@ == detailed_error(status, error@, key@, value@),
{
    ApiError {
        status,
        error: String::from_str(error),
        detail: Some((String::from_str(key), String::from_str(value))),
    }
}

/// The answer to a write that the caller's role does not allow.
pub fn forbidden() -> (r: ApiError)
    ensures
        r@ == plain_error(403, "Action non autorisée"@),
{
    error_reply(403, "Action non autorisée")
}

/// The answer to an identifier that is not a UUID.
pub open spec fn invalid_id_error(message: Seq<char>) -> ApiErrorView {
    detailed_error(400, message, "details"@, "L'ID doit être un UUID valide"@)
}

/// The UUID that `value` writes, or the answer refusing it with `message`.
pub fn parse_uuid(value: &str, message: &str) -> (r: Result<u128, ApiError>)
    ensures
        match uuid_parse(value@) {
            Some(id) => r matches Ok(v) && v == id,
            None => r matches Err(e) && e@ == invalid_id_error(message@),
        },
{
    match parse_uuid_text(value) {
        Some(id) => Ok(id),
        None => Err(detailed_reply(400, message, "details", "L'ID doit être un UUID valide")),
    }
}

/// The answer to a failure inside the service (a database or library error): status 500,
/// `error`, and the fixed detail "Erreur interne". What caused the failure stays in the
/// service's logs; no part of it reaches the client.
pub open spec fn internal_error_view(error: Seq<char>) -> ApiErrorView {
    detailed_error(500, error, "details"@, "Erreur interne"@)
}

/// The answer to a failure inside the service: `error` with the neutral detail.
pub fn internal_error(error: &str) -> (r: ApiError)
    ensures
        r@ == internal_error_view(error@),
{
    detailed_reply(500, error, "details", "Erreur interne")
}

/// Why a request was turned away before reaching a handler.
#[derive(Debug, Clone, Copy, PartialEq, Eq, Structural)]
pub enum RejectionKind {
    AuthenticationRequired,
    NotFound,
    InvalidBody,
    PayloadTooLarge,
    LengthRequired,
    MethodNotAllowed,
    Unhandled,
}

/// The answer to a turned-away request: status, message, and whether it asks for a bearer
/// token.
pub struct RejectionReply {
    pub status: u16,
    pub message: &'static str,
    pub bearer_challenge: bool,
}

/// The status of the answer to each kind of turned-away request.
pub open spec fn rejection_status(kind: RejectionKind) -> u16 {
    match kind {
        RejectionKind::AuthenticationRequired => 401,
        RejectionKind::NotFound => 404,
        RejectionKind::InvalidBody => 400,
        RejectionKind::PayloadTooLarge => 413,
        RejectionKind::LengthRequired => 411,
        RejectionKind::MethodNotAllowed => 405,
        RejectionKind::Unhandled => 500,
    }
}

/// The message of the answer to each kind of turned-away request.
pub open spec fn rejection_message(kind: RejectionKind) -> Seq<char> {
    match kind {
        RejectionKind::AuthenticationRequired => "Authentication required"@,
        RejectionKind::NotFound => "Resource not found"@,
        RejectionKind::InvalidBody => "Invalid request body"@,
        RejectionKind::PayloadTooLarge => "Request payload is too large"@,
        RejectionKind::LengthRequired => "Content-Length header is required"@,
        RejectionKind::MethodNotAllowed => "Method not allowed"@,
        RejectionKind::Unhandled => "Internal server error"@,
    }
}

/// The answer to a request turned away for `kind`; only an authentication failure asks for
/// a bearer token.
pub fn rejection_reply(kind: RejectionKind) -> (r: RejectionReply)
    ensures
        r.status == rejection_status(kind),
        r.message@ == rejection_message(kind),
        r.bearer_challenge == (r.status == 401),
{
    let (status, message): (u16, &'static str) = match kind {
        RejectionKind::AuthenticationRequired => (401, "Authentication required"),
        RejectionKind::NotFound => (404, "Resource not found"),
        RejectionKind::InvalidBody => (400, "Invalid request body"),
        RejectionKind::PayloadTooLarge => (413, "Request payload is too large"),
        RejectionKind::LengthRequired => (411, "Content-Length header is required"),
        RejectionKind::MethodNotAllowed => (405, "Method not allowed"),
        RejectionKind::Unhandled => (500, "Internal server error"),
    };
    RejectionReply { status, message, bearer_challenge: status == 401 }
}

/// Only an authentication failure is answered with 401, and every turned-away request gets
/// an error status.
pub proof fn law_only_missing_authentication_is_unauthorized(kind: RejectionKind)
    ensures
        rejection_status(kind) == 401 <==> kind == RejectionKind::AuthenticationRequired,
        400 <= rejection_status(kind) <= 599,
{
}

} // verus!
