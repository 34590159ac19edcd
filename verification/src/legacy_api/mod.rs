pub mod review_laws;
pub mod school_comments;

use vstd::prelude::*;
use vstd::string::*;

use crate::api_data::errors::{is_known_message, user_message_for, ApiError};
use crate::json::{json_bool_member, json_bool_member_of, json_string_member, json_string_member_of};
use crate::request::{http_error_text, matches_outcome, text_option};

verus! {

/// The address of the older review service; its endpoints are appended to it.
pub const LEGACY_BASE_URL: &'static str = "";

/// The value of the `Authorization` header for a bearer token.
pub open spec fn bearer_header(token: Seq<char>) -> Seq<char> {
    "Bearer "@ + token
}

/// The `Authorization` header value for `token`: "Bearer " followed by the token.
pub fn bearer_token(token: &str) -> (r: String)
    ensures
        r@ == bearer_header(token@),
{
    let mut s = String::from_str("Bearer ");
    s.append(token);
    s
}

/// The `Authorization` header to send: none where the request needs no
/// authentication, and the stored bearer value otherwise.
pub fn authorization_header(no_auth: bool, bearer: &str) -> (r: Option<String>)
    ensures
        no_auth ==> r is None,
        !no_auth ==> (r matches Some(h) && h@ == bearer@),
{
    if no_auth {
        None
    } else {
        Some(String::from_str(bearer))
    }
}

/// The URL of `endpoint` on the older review service.
pub fn legacy_endpoint_url(endpoint: &str) -> (r: String)
    ensures
        r@ == LEGACY_BASE_URL@ + endpoint@,
{
    let mut s = String::from_str(LEGACY_BASE_URL);
    s.append(endpoint);
    s
}

/// What is wrong with an answer of the older review service, or `None` where it
/// is accepted. A rejected request is reported with the user message of the error
/// that the service message stands for.
pub open spec fn legacy_answer_error(
    status_ok: bool,
    status_label: Seq<char>,
    body: Seq<char>,
    message: Option<Seq<char>>,
    success: Option<bool>,
) -> Option<Seq<char>> {
    if !status_ok {
        Some(http_error_text(status_label, match message {
            Some(m) => m,
            None => body,
        }))
    } else if success == Some(false) {
        Some("业务错误: "@ + user_message_for(match message {
            Some(m) => m,
            None => "未知业务错误"@,
        }))
    } else {
        None
    }
}

/// Decides on an answer of the older review service from its status, its body and
/// the members `message` and `success` read from the body.
pub fn legacy_answer_verdict(
    status_ok: bool,
    status_label: &str,
    body: &str,
    message: Option<String>,
    success: Option<bool>,
) -> (r: Result<(), String>)
    ensures
        matches_outcome(
            r,
            legacy_answer_error(status_ok, status_label@, body@, text_option(message), success),
        ),
{
    if !status_ok {
        let mut e = String::from_str("HTTP错误 (");
        e.append(status_label);
        e.append("): ");
        match message {
            Some(m) => e.append(m.as_str()),
            None => e.append(body),
        }
        return Err(e);
    }
    match success {
        Some(false) => {
            let error = match message {
                Some(m) => ApiError::from_message(m.as_str()),
                None => ApiError::from_message("未知业务错误"),
            };
            let mut e = String::from_str("业务错误: ");
            e.append(error.to_user_message().as_str());
            Err(e)
        },
        _ => Ok(()),
    }
}

/// Checks an answer of the older review service before its body is decoded: an
/// HTTP status that is not a success, or a body whose `success` member is `false`,
/// gives the error text; any other answer is accepted.
pub fn check_legacy_answer(status_ok: bool, status_label: &str, body: &str) -> (r: Result<
    (),
    String,
>)
    ensures
        matches_outcome(
            r,
            legacy_answer_error(
                status_ok,
                status_label@,
                body@,
                json_string_member_of(body@, "message"@),
                json_bool_member_of(body@, "success"@),
            ),
        ),
{
    let message = json_string_member(body, "message");
    let success = json_bool_member(body, "success");
    legacy_answer_verdict(status_ok, status_label, body, message, success)
}


/// Where the HTTP status is not a success, the older review service's answer is
/// rejected with "HTTP错误 (", the status label, "): " and then the body's message,
/// or the whole body where it has none, whatever the `success` member says.
pub proof fn law_legacy_http_failure(
    status_label: Seq<char>,
    body: Seq<char>,
    message: Option<Seq<char>>,
    success: Option<bool>,
    other_success: Option<bool>,
)
    ensures
        legacy_answer_error(false, status_label, body, message, success) == legacy_answer_error(
            false,
            status_label,
            body,
            message,
            other_success,
        ),
        legacy_answer_error(false, status_label, body, message, success) == Some(
            "HTTP错误 ("@ + status_label + "): "@ + match message {
                Some(m) => m,
                None => body,
            },
        ),
        message is None ==> legacy_answer_error(false, status_label, body, message, success)->0.len()
            == "HTTP错误 ("@.len() + status_label.len() + "): "@.len() + body.len(),
        message is None ==> legacy_answer_error(false, status_label, body, message, success)->0.skip(
            "HTTP错误 ("@.len() as int + status_label.len() + "): "@.len(),
        ) == body,
{
    let t = "HTTP错误 ("@ + status_label + "): "@ + match message {
        Some(m) => m,
        None => body,
    };
    let k = "HTTP错误 ("@.len() as int + status_label.len() + "): "@.len();
    if message is None {
        assert(t.skip(k) =~= body);
    }
}

/// Where the HTTP status is a success, the answer is rejected exactly where the
/// `success` member is `false`, with "业务错误: " and then the user message of the
/// error that the body's message (or "未知业务错误") stands for; an unknown message
/// comes back whole after "业务错误: 未知错误: ".
pub proof fn law_legacy_business_failure(
    status_label: Seq<char>,
    body: Seq<char>,
    message: Option<Seq<char>>,
    success: Option<bool>,
)
    ensures
        legacy_answer_error(true, status_label, body, message, success) is Some <==> success
            == Some(false),
        success == Some(false) ==> legacy_answer_error(true, status_label, body, message, success)
            == Some(
            "业务错误: "@ + user_message_for(
                match message {
                    Some(m) => m,
                    None => "未知业务错误"@,
                },
            ),
        ),
        success == Some(false) && (message matches Some(m) && !is_known_message(m))
            ==> legacy_answer_error(true, status_label, body, message, success) == Some(
            "业务错误: "@ + "未知错误: "@ + message->0,
        ),
{
    if success == Some(false) && (message matches Some(m) && !is_known_message(m)) {
        assert("业务错误: "@ + ("未知错误: "@ + message->0) =~= "业务错误: "@ + "未知错误: "@
            + message->0);
    }
}

} // verus!
