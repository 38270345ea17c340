//! Response statuses and error replies.
use vstd::prelude::*;

verus! {

pub const OK: u16 = 200;

pub const BAD_REQUEST: u16 = 400;

pub const NOT_FOUND: u16 = 404;

pub const TOO_MANY_REQUESTS: u16 = 429;

pub const INTERNAL_SERVER_ERROR: u16 = 500;

pub const BAD_GATEWAY: u16 = 502;

pub const SERVICE_UNAVAILABLE: u16 = 503;

/// Whether a status says that a request succeeded.
#[verifier::allow_in_spec]
pub fn is_success(status: u16) -> bool
    returns
        200 <= status < 300,
{
    200 <= status && status < 300
}

/// Whether a status puts the fault on the client.
#[verifier::allow_in_spec]
pub fn is_client_error(status: u16) -> bool
    returns
        400 <= status < 500,
{
    400 <= status && status < 500
}

/// Whether a status puts the fault on the server.
#[verifier::allow_in_spec]
pub fn is_server_error(status: u16) -> bool
    returns
        500 <= status < 600,
{
    500 <= status && status < 600
}

/// Whether a number is a status at all.
pub open spec fn is_status(status: u16) -> bool {
    100 <= status < 1000
}

/// A status as it was received, or an internal error where the number is none.
#[verifier::allow_in_spec]
pub fn received_status(status: u16) -> u16
    returns
        (if is_status(status) {
            status
        } else {
            INTERNAL_SERVER_ERROR
        }),
{
    if 100 <= status && status < 1000 {
        status
    } else {
        INTERNAL_SERVER_ERROR
    }
}

/// Whether a status leaves a worker blameless: the request succeeded, or the
/// fault lies with the client.
#[verifier::allow_in_spec]
pub fn is_not_worker_fault(status: u16) -> bool
    returns
        200 <= status < 300 || 400 <= status < 500,
{
    is_success(status) || is_client_error(status)
}

/// A status as `http::StatusCode` writes it: its number and its reason.
pub uninterp spec fn status_line(status: u16) -> Seq<char>;

/// The `Display` format of `http::StatusCode`, whose result is named by
/// [`status_line`]. Numbers outside 100 to 999 are no status codes.
#[verifier::external_body]
pub(crate) fn write_status(status: u16) -> (r: String)
    requires
        is_status(status),
    ensures
        r@ == status_line(status),
{
    axum::http::StatusCode::from_u16(status).unwrap().to_string()
}

/// An error as it is answered to a client.
#[derive(Debug)]
pub struct ErrorReply {
    pub status: u16,
    pub code: &'static str,
    pub message: String,
}

/// What an error reply says.
pub struct ErrorText {
    pub status: u16,
    pub code: Seq<char>,
    pub message: Seq<char>,
}

impl View for ErrorReply {
    type V = ErrorText;

    open spec fn view(&self) -> ErrorText {
        ErrorText { status: self.status, code: self.code@, message: self.message@ }
    }
}

/// An error reply with the given parts.
pub fn create_error(status: u16, code: &'static str, message: String) -> (r: ErrorReply)
    ensures
        r@ == (ErrorText { status, code: code@, message: message@ }),
{
    ErrorReply { status, code, message }
}

/// The error codes that a refusal by an upstream server is answered with.
pub struct RefusalCodes {
    pub bad_request: &'static str,
    pub not_found: &'static str,
    pub internal_error: &'static str,
    pub unavailable: &'static str,
    pub bad_gateway: &'static str,
    pub other: &'static str,
}

/// The status that a refusal by an upstream server is answered with: the five
/// that are passed on as they are, and an internal error for any other.
pub open spec fn refusal_status(status: u16) -> u16 {
    if status == BAD_REQUEST || status == NOT_FOUND || status == SERVICE_UNAVAILABLE || status
        == BAD_GATEWAY {
        status
    } else {
        INTERNAL_SERVER_ERROR
    }
}

/// The code that a refusal by an upstream server is answered with.
pub open spec fn refusal_code(codes: RefusalCodes, status: u16) -> Seq<char> {
    if status == BAD_REQUEST {
        codes.bad_request@
    } else if status == NOT_FOUND {
        codes.not_found@
    } else if status == INTERNAL_SERVER_ERROR {
        codes.internal_error@
    } else if status == SERVICE_UNAVAILABLE {
        codes.unavailable@
    } else if status == BAD_GATEWAY {
        codes.bad_gateway@
    } else {
        codes.other@
    }
}

/// The reply to a refusal by an upstream server.
pub fn refusal_reply(status: u16, codes: RefusalCodes, message: String) -> (r: ErrorReply)
    ensures
        r@ == (ErrorText {
            status: refusal_status(status),
            code: refusal_code(codes, status),
            message: message@,
        }),
{
    match status {
        BAD_REQUEST => create_error(BAD_REQUEST, codes.bad_request, message),
        NOT_FOUND => create_error(NOT_FOUND, codes.not_found, message),
        INTERNAL_SERVER_ERROR => create_error(INTERNAL_SERVER_ERROR, codes.internal_error, message),
        SERVICE_UNAVAILABLE => create_error(SERVICE_UNAVAILABLE, codes.unavailable, message),
        BAD_GATEWAY => create_error(BAD_GATEWAY, codes.bad_gateway, message),
        _ => create_error(INTERNAL_SERVER_ERROR, codes.other, message),
    }
}

/// A refusal is never answered as a success, and whether the client or the
/// server side is at fault is kept for the statuses that are passed on.
pub proof fn law_a_refusal_is_answered_as_an_error(status: u16)
    ensures
        400 <= refusal_status(status) < 600,
        refusal_status(status) == status || refusal_status(status) == INTERNAL_SERVER_ERROR,
        refusal_status(status) == status <==> (status == 400 || status == 404 || status == 500
            || status == 502 || status == 503),
{
}

} // verus!
