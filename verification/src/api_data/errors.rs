use vstd::prelude::*;
use vstd::string::*;

verus! {

/// Errors that the query service reports, as classified from its message text.
#[derive(Debug, Clone, PartialEq, Eq)]
pub enum ApiError {
    /// The online verification code is malformed or was already used.
    InvalidCode,
    /// The report has expired.
    ReportExpired,
    /// The registry did not find the verification code.
    CodeNotFound,
    /// Too many requests: the registry blocked the IP for about ten seconds.
    IpBlocked,
    /// Any other message, kept verbatim.
    Unknown(String),
}

/// The service message that stands for `ApiError::InvalidCode`.
pub open spec fn msg_invalid_code() -> Seq<char> { "不合要求的在线验证码"@ }

/// The service message that stands for `ApiError::ReportExpired`.
pub open spec fn msg_report_expired() -> Seq<char> { "报告已过期"@ }

/// The service message that stands for `ApiError::CodeNotFound`.
pub open spec fn msg_code_not_found() -> Seq<char> { "验证码无效"@ }

/// The service message that stands for `ApiError::IpBlocked`.
pub open spec fn msg_ip_blocked() -> Seq<char> { "IP 被学信网拦截"@ }

/// Whether `m` is one of the four messages that the service documents.
pub open spec fn is_known_message(m: Seq<char>) -> bool {
    m == msg_invalid_code() || m == msg_report_expired() || m == msg_code_not_found()
        || m == msg_ip_blocked()
}

/// The classification of a service message: what `from_message` returns, by views.
pub open spec fn classify_message(m: Seq<char>, r: ApiError) -> bool {
    if m == msg_invalid_code() {
        r == ApiError::InvalidCode
    } else if m == msg_report_expired() {
        r == ApiError::ReportExpired
    } else if m == msg_code_not_found() {
        r == ApiError::CodeNotFound
    } else if m == msg_ip_blocked() {
        r == ApiError::IpBlocked
    } else {
        r matches ApiError::Unknown(s) && s@ == m
    }
}

/// The text that `to_user_message` returns for each error.
pub open spec fn user_message(e: ApiError) -> Seq<char> {
    match e {
        ApiError::InvalidCode => "验证码格式不正确或已使用"@,
        ApiError::ReportExpired => "学历报告已过期"@,
        ApiError::CodeNotFound => "学信网未找到该验证码"@,
        ApiError::IpBlocked => "请求频率过高，IP被学信网拦截，请等待10秒后重试"@,
        ApiError::Unknown(msg) => "未知错误: "@ + msg@,
    }
}

/// The error answer of the service, as it arrives.
#[derive(Debug, Clone, PartialEq, Eq)]
pub struct ApiErrorResponse {
    /// Always `false` in an error answer.
    pub success: bool,
    /// The message that says what went wrong.
    pub message: String,
    /// Time spent on the request, in milliseconds.
    pub elapsed: u64,
}

impl ApiErrorResponse {
    /// The typed error that the answer's message stands for.
    pub fn into_api_error(self) -> (r: ApiError)
        ensures
            classify_message(self.message@, r),
    {
        ApiError::from_message(self.message.as_str())
    }
}

/// The outside error type of `anyhow`, carried through opaquely.
#[verifier::external_type_specification]
#[verifier::external_body]
pub struct ExAnyhowError(anyhow::Error);

/// The text that an `anyhow::Error` displays (what its `Display` impl prints
/// without the alternate flag). For an error made by `anyhow::Error::msg` this is
/// the message alone: the backtrace that `msg` may capture is not printed.
pub uninterp spec fn anyhow_error_text(e: anyhow::Error) -> Seq<char>;

/// Calls `anyhow::Error::msg`, which wraps `message` into an `anyhow::Error` whose
/// `Display` output is the message itself. The contract states that text and
/// nothing else of the error (its backtrace and source chain are left unsaid).
#[verifier::external_body]
fn anyhow_error_from_message(message: String) -> (r: anyhow::Error)
    ensures
        anyhow_error_text(r) == message@,
{
    anyhow::Error::msg(message)
}

/// The user message for the error that the service message `m` stands for.
pub open spec fn user_message_for(m: Seq<char>) -> Seq<char> {
    if m == msg_invalid_code() {
        "验证码格式不正确或已使用"@
    } else if m == msg_report_expired() {
        "学历报告已过期"@
    } else if m == msg_code_not_found() {
        "学信网未找到该验证码"@
    } else if m == msg_ip_blocked() {
        "请求频率过高，IP被学信网拦截，请等待10秒后重试"@
    } else {
        "未知错误: "@ + m
    }
}

/// Classifying a service message and then asking for the user message gives
/// `user_message_for` of the service message; an unknown message comes back
/// verbatim after the prefix "未知错误: ".
pub proof fn law_user_message_of_classified(m: Seq<char>, e: ApiError)
    requires
        classify_message(m, e),
    ensures
        user_message(e) == user_message_for(m),
        !is_known_message(m) ==> e is Unknown,
{
}

/// Only a blocked IP is worth retrying: of the classified messages, exactly the
/// message for a blocked IP gives a retryable error.
pub proof fn law_retryable_iff_ip_blocked(m: Seq<char>, e: ApiError)
    requires
        classify_message(m, e),
    ensures
        (e == ApiError::IpBlocked) <==> m == msg_ip_blocked(),
{
    reveal_strlit("不合要求的在线验证码");
    reveal_strlit("报告已过期");
    reveal_strlit("验证码无效");
    reveal_strlit("IP 被学信网拦截");
    assert(msg_ip_blocked().len() == 9);
    assert(msg_invalid_code().len() == 10);
    assert(msg_report_expired().len() == 5);
    assert(msg_code_not_found().len() == 5);
}

/// The user message of an unknown error is "未知错误: " followed by the whole
/// message, nothing cut: it is as long as both together and ends with the message.
/// The same holds of a service message that is none of the documented ones.
pub proof fn law_unknown_message_kept_whole(e: ApiError, m: Seq<char>)
    ensures
        e matches ApiError::Unknown(msg) ==> user_message(e).len() == "未知错误: "@.len()
            + msg@.len(),
        e matches ApiError::Unknown(msg) ==> user_message(e).take("未知错误: "@.len() as int)
            == "未知错误: "@,
        e matches ApiError::Unknown(msg) ==> user_message(e).skip("未知错误: "@.len() as int)
            == msg@,
        !is_known_message(m) ==> user_message_for(m).len() == "未知错误: "@.len() + m.len(),
        !is_known_message(m) ==> user_message_for(m).take("未知错误: "@.len() as int)
            == "未知错误: "@,
        !is_known_message(m) ==> user_message_for(m).skip("未知错误: "@.len() as int) == m,
{
    let k = "未知错误: "@.len() as int;
    if let ApiError::Unknown(msg) = e {
        assert(user_message(e).take(k) =~= "未知错误: "@);
        assert(user_message(e).skip(k) =~= msg@);
    }
    if !is_known_message(m) {
        assert(user_message_for(m).take(k) =~= "未知错误: "@);
        assert(user_message_for(m).skip(k) =~= m);
    }
}

/// Whether two strings hold the same characters.
fn same_text(a: &str, b: &str) -> (r: bool)
    ensures
        r == (a@ == b@),
{
    let x = String::from_str(a);
    let y = String::from_str(b);
    x == y
}

impl ApiError {
    /// Classifies a message returned by the service.
    pub fn from_message(msg: &str) -> (r: ApiError)
        ensures
            classify_message(msg@, r),
    {
        if same_text(msg, "不合要求的在线验证码") {
            ApiError::InvalidCode
        } else if same_text(msg, "报告已过期") {
            ApiError::ReportExpired
        } else if same_text(msg, "验证码无效") {
            ApiError::CodeNotFound
        } else if same_text(msg, "IP 被学信网拦截") {
            ApiError::IpBlocked
        } else {
            ApiError::Unknown(String::from_str(msg))
        }
    }

    /// A message for the user that explains the error.
    pub fn to_user_message(&self) -> (r: String)
        ensures
            r@ == user_message(*self),
    {
        match self {
            ApiError::InvalidCode => String::from_str("验证码格式不正确或已使用"),
            ApiError::ReportExpired => String::from_str("学历报告已过期"),
            ApiError::CodeNotFound => String::from_str("学信网未找到该验证码"),
            ApiError::IpBlocked => String::from_str("请求频率过高，IP被学信网拦截，请等待10秒后重试"),
            ApiError::Unknown(msg) => {
                let mut s = String::from_str("未知错误: ");
                s.append(msg.as_str());
                s
            },
        }
    }

    /// The error as an `anyhow::Error`, whose message is `to_user_message()`.
    pub fn to_anyhow(&self) -> (r: anyhow::Error)
        ensures
            anyhow_error_text(r) == user_message(*self),
    {
        anyhow_error_from_message(self.to_user_message())
    }

    /// Whether waiting and sending the request again may succeed.
    pub fn is_retryable(&self) -> (r: bool)
        ensures
            r == (*self == ApiError::IpBlocked),
    {
        match self {
            ApiError::IpBlocked => true,
            _ => false,
        }
    }
}

} // verus!
