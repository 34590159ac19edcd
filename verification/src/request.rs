use vstd::prelude::*;
use vstd::string::*;

use crate::json::{json_bool_member, json_bool_member_of, json_string_member, json_string_member_of};

verus! {

/// The address of the service.
pub const BASE_URL: &'static str = "https://srgaoxiao.online";

/// The text that the extra query parameters add to a URL: `&key=value` for each
/// pair, in order.
pub open spec fn query_params_text(params: Seq<(&str, String)>) -> Seq<char>
    decreases params.len(),
{
    if params.len() == 0 {
        Seq::empty()
    } else {
        let last = params.last();
        query_params_text(params.drop_last()) + "&"@ + last.0@ + "="@ + last.1@
    }
}

/// The URL of a request to `endpoint`, with the verification code, the API key
/// and the extra parameters in its query.
pub open spec fn request_url(
    endpoint: Seq<char>,
    code: Seq<char>,
    api_key: Seq<char>,
    params: Option<Seq<(&str, String)>>,
) -> Seq<char> {
    BASE_URL@ + endpoint + "?code="@ + code + "&api_key="@ + api_key + match params {
        Some(p) => query_params_text(p),
        None => Seq::empty(),
    }
}

/// Builds the URL of a request to `endpoint` on the service.
pub fn build_request_url(
    endpoint: &str,
    code: &str,
    api_key: &str,
    params: Option<Vec<(&str, String)>>,
) -> (r: String)
    ensures
        r@ == request_url(endpoint@, code@, api_key@, match params {
            Some(p) => Some(p@),
            None => None,
        }),
{
    let mut url = String::from_str(BASE_URL);
    url.append(endpoint);
    url.append("?code=");
    url.append(code);
    url.append("&api_key=");
    url.append(api_key);
    let ghost head = url@;
    match params {
        Some(p) => {
            let n = p.len();
            let mut i: usize = 0;
            while i < n
                invariant
                    n == p@.len(),
                    i <= n,
                    url@ == head + query_params_text(p@.take(i as int)),
                decreases n - i,
            {
                let (key, value) = &p[i];
                url.append("&");
                url.append(key);
                url.append("=");
                url.append(value.as_str());
                assert(p@.take(i + 1).drop_last() =~= p@.take(i as int));
                i = i + 1;
            }
            assert(p@.take(n as int) =~= p@);
        },
        None => {
            assert(url@ =~= head + Seq::<char>::empty());
        },
    }
    url
}

/// The text of an optional string.
pub open spec fn text_option(o: Option<String>) -> Option<Seq<char>> {
    match o {
        Some(s) => Some(s@),
        None => None,
    }
}

/// The error text for an answer whose HTTP status is not a success.
pub open spec fn http_error_text(status_label: Seq<char>, detail: Seq<char>) -> Seq<char> {
    "HTTP错误 ("@ + status_label + "): "@ + detail
}

/// What is wrong with an answer of the query service, or `None` where it is
/// accepted. `message` and `success` are the string member `message` and the
/// boolean member `success` of the body, where it has them.
pub open spec fn query_answer_error(
    status_ok: bool,
    status_label: Seq<char>,
    body: Seq<char>,
    message: Option<Seq<char>>,
    success: Option<bool>,
) -> Option<Seq<char>> {
    if !status_ok {
        Some(http_error_text(status_label, match message {
            Some(m) => m,
            None => body,
        }))
    } else if success == Some(false) {
        Some("业务错误: "@ + match message {
            Some(m) => m,
            None => "未知业务错误"@,
        })
    } else {
        None
    }
}

/// Whether a `Result` of the library is what a spec outcome says: `Ok` where there
/// is no error, and the error text otherwise.
pub open spec fn matches_outcome(r: Result<(), String>, outcome: Option<Seq<char>>) -> bool {
    match r {
        Ok(_) => outcome is None,
        Err(e) => outcome == Some(e@),
    }
}

/// Decides on an answer of the query service from its status, its body and the
/// members `message` and `success` read from the body.
pub fn query_answer_verdict(
    status_ok: bool,
    status_label: &str,
    body: &str,
    message: Option<String>,
    success: Option<bool>,
) -> (r: Result<(), String>)
    ensures
        matches_outcome(
            r,
            query_answer_error(
                status_ok,
                status_label@,
                body@,
                text_option(message),
                success,
            ),
        ),
{
    if !status_ok {
        let mut e = String::from_str("HTTP错误 (");
        e.append(status_label);
        e.append("): ");
        match message {
            Some(m) => e.append(m.as_str()),
            None => e.append(body),
        }
        return Err(e);
    }
    match success {
        Some(false) => {
            let mut e = String::from_str("业务错误: ");
            match message {
                Some(m) => e.append(m.as_str()),
                None => e.append("未知业务错误"),
            }
            Err(e)
        },
        _ => Ok(()),
    }
}

/// Checks an answer of the query service before its body is decoded: an HTTP
/// status that is not a success, or a body whose `success` member is `false`,
/// gives the error text; any other answer is accepted.
pub fn check_query_answer(status_ok: bool, status_label: &str, body: &str) -> (r: Result<
    (),
    String,
>)
    ensures
        matches_outcome(
            r,
            query_answer_error(
                status_ok,
                status_label@,
                body@,
                json_string_member_of(body@, "message"@),
                json_bool_member_of(body@, "success"@),
            ),
        ),
{
    let message = json_string_member(body, "message");
    let success = json_bool_member(body, "success");
    query_answer_verdict(status_ok, status_label, body, message, success)
}


/// The URL holds each part verbatim, one after another: the service address, the
/// endpoint, "?code=", the whole code, "&api_key=", the whole key, and then the
/// extra parameters (nothing where there are none); its length is the sum of theirs.
pub proof fn law_request_url_parts(
    endpoint: Seq<char>,
    code: Seq<char>,
    api_key: Seq<char>,
    params: Option<Seq<(&str, String)>>,
)
    ensures
        request_url(endpoint, code, api_key, params).subrange(0, BASE_URL@.len() as int)
            == BASE_URL@,
        request_url(endpoint, code, api_key, params).subrange(
            BASE_URL@.len() as int,
            BASE_URL@.len() as int + endpoint.len(),
        ) == endpoint,
        request_url(endpoint, code, api_key, params).subrange(
            BASE_URL@.len() as int + endpoint.len(),
            BASE_URL@.len() as int + endpoint.len() + "?code="@.len(),
        ) == "?code="@,
        request_url(endpoint, code, api_key, params).subrange(
            BASE_URL@.len() as int + endpoint.len() + "?code="@.len(),
            BASE_URL@.len() as int + endpoint.len() + "?code="@.len() + code.len(),
        ) == code,
        request_url(endpoint, code, api_key, params).subrange(
            BASE_URL@.len() as int + endpoint.len() + "?code="@.len() + code.len(),
            BASE_URL@.len() as int + endpoint.len() + "?code="@.len() + code.len() + "&api_key="@.len(),
        ) == "&api_key="@,
        request_url(endpoint, code, api_key, params).subrange(
            BASE_URL@.len() as int + endpoint.len() + "?code="@.len() + code.len() + "&api_key="@.len(),
            BASE_URL@.len() as int + endpoint.len() + "?code="@.len() + code.len() + "&api_key="@.len()
                + api_key.len(),
        ) == api_key,
        params is None ==> request_url(endpoint, code, api_key, params).len() == BASE_URL@.len()
            + endpoint.len() + "?code="@.len() + code.len() + "&api_key="@.len() + api_key.len(),
        params matches Some(p) ==> request_url(endpoint, code, api_key, params).skip(
            BASE_URL@.len() as int + endpoint.len() + "?code="@.len() + code.len() + "&api_key="@.len()
                + api_key.len(),
        ) == query_params_text(p),
{
    let head = BASE_URL@ + endpoint + "?code="@ + code + "&api_key="@ + api_key;
    let tail = match params {
        Some(p) => query_params_text(p),
        None => Seq::<char>::empty(),
    };
    let url = request_url(endpoint, code, api_key, params);
    assert(url =~= head + tail);
    let p0 = BASE_URL@.len() as int;
    let p1 = p0 + endpoint.len();
    let p2 = p1 + "?code="@.len();
    let p3 = p2 + code.len();
    let p4 = p3 + "&api_key="@.len();
    let p5 = p4 + api_key.len();
    assert(url.subrange(0, p0) =~= BASE_URL@);
    assert(url.subrange(p0, p1) =~= endpoint);
    assert(url.subrange(p1, p2) =~= "?code="@);
    assert(url.subrange(p2, p3) =~= code);
    assert(url.subrange(p3, p4) =~= "&api_key="@);
    assert(url.subrange(p4, p5) =~= api_key);
    assert(url.skip(p5) =~= tail);
}

/// Where the HTTP status is not a success, the answer is rejected with
/// "HTTP错误 (", the status label, "): " and then the body's message (the whole
/// body where it has none), whatever the body's `success` member says.
pub proof fn law_query_http_failure(
    status_label: Seq<char>,
    body: Seq<char>,
    message: Option<Seq<char>>,
    success: Option<bool>,
    other_success: Option<bool>,
)
    ensures
        query_answer_error(false, status_label, body, message, success) == query_answer_error(
            false,
            status_label,
            body,
            message,
            other_success,
        ),
        query_answer_error(false, status_label, body, message, success) == Some(
            "HTTP错误 ("@ + status_label + "): "@ + match message {
                Some(m) => m,
                None => body,
            },
        ),
{
}

/// Where the HTTP status is a success, the answer is rejected exactly where the
/// body's `success` member is `false`, with "业务错误: " and then the body's message
/// (or "未知业务错误" where it has none).
pub proof fn law_query_business_failure(
    status_label: Seq<char>,
    body: Seq<char>,
    message: Option<Seq<char>>,
    success: Option<bool>,
)
    ensures
        query_answer_error(true, status_label, body, message, success) is Some <==> success == Some(
            false,
        ),
        success == Some(false) ==> query_answer_error(true, status_label, body, message, success)
            == Some(
            "业务错误: "@ + match message {
                Some(m) => m,
                None => "未知业务错误"@,
            },
        ),
{
}

/// One extra parameter adds "&", its key, "=" and its value, all verbatim.
pub proof fn law_query_params_single(key: &str, value: String)
    ensures
        query_params_text(seq![(key, value)]) == "&"@ + key@ + "="@ + value@,
{
    let x = seq![(key, value)];
    assert(x.drop_last() =~= Seq::<(&str, String)>::empty());
    assert(x.last() == (key, value));
    assert(query_params_text(x.drop_last()) == Seq::<char>::empty());
    assert(Seq::<char>::empty() + "&"@ + key@ + "="@ + value@ =~= "&"@ + key@ + "="@ + value@);
}

/// The parameters' text of two lists one after the other is the text of the first
/// list followed by that of the second: every parameter is written, in order.
pub proof fn law_query_params_concat(p: Seq<(&str, String)>, q: Seq<(&str, String)>)
    ensures
        query_params_text(p + q) == query_params_text(p) + query_params_text(q),
    decreases q.len(),
{
    if q.len() == 0 {
        assert(p + q =~= p);
        assert(query_params_text(p) + Seq::<char>::empty() =~= query_params_text(p));
    } else {
        law_query_params_concat(p, q.drop_last());
        assert((p + q).drop_last() =~= p + q.drop_last());
        assert((p + q).last() == q.last());
        let l = q.last();
        assert(query_params_text(p) + query_params_text(q.drop_last()) + "&"@ + l.0@ + "="@ + l.1@
            =~= query_params_text(p) + (query_params_text(q.drop_last()) + "&"@ + l.0@ + "="@
            + l.1@));
    }
}

} // verus!
