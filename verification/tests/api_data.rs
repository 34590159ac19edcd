use lib_srgx::api_data::errors::{ApiError, ApiErrorResponse};
use lib_srgx::api_data::{QueryErrorResponse, QueryRequest, QueryResponse, QuerySuccessResponse};
use serde_json::Value;

fn text_of(v: &Value, key: &str) -> String {
    v.get(key).and_then(|x| x.as_str()).unwrap().to_string()
}

fn success_from_json(json: &str) -> QuerySuccessResponse {
    let v: Value = serde_json::from_str(json).unwrap();
    QuerySuccessResponse {
        success: v.get("success").and_then(|x| x.as_bool()).unwrap(),
        name: text_of(&v, "name"),
        school_name: text_of(&v, "schoolName"),
        major: text_of(&v, "major"),
        degree_level: text_of(&v, "degreeLevel"),
        elapsed: v.get("elapsed").and_then(|x| x.as_u64()).unwrap(),
        node_id: text_of(&v, "nodeId"),
    }
}

fn error_from_json(json: &str) -> QueryErrorResponse {
    let v: Value = serde_json::from_str(json).unwrap();
    QueryErrorResponse {
        success: v.get("success").and_then(|x| x.as_bool()).unwrap(),
        message: text_of(&v, "message"),
        elapsed: v.get("elapsed").and_then(|x| x.as_u64()).unwrap(),
    }
}

/// Chooses the variant as an untagged decoding would: a success where all the
/// success fields are there, a failure otherwise.
fn response_from_json(json: &str) -> QueryResponse {
    let v: Value = serde_json::from_str(json).unwrap();
    if v.get("name").is_some() && v.get("nodeId").is_some() {
        QueryResponse::Success(success_from_json(json))
    } else {
        QueryResponse::Error(error_from_json(json))
    }
}

const SUCCESS_JSON: &str = r#"{"success":true,"name":"张某某","schoolName":"某大学","major":"园艺","degreeLevel":"本科","elapsed":602,"nodeId":"node_1"}"#;
const ERROR_JSON: &str = r#"{"success":false,"message":"报告已过期","elapsed":300}"#;

#[test]
fn test_deserialize_success_response() {
    let resp = success_from_json(SUCCESS_JSON);

    assert!(resp.success);
    assert_eq!(resp.name, "张某某");
    assert_eq!(resp.school_name, "某大学");
    assert_eq!(resp.major, "园艺");
    assert_eq!(resp.degree_level, "本科");
    assert_eq!(resp.elapsed, 602);
    assert_eq!(resp.node_id, "node_1");
}

#[test]
fn test_deserialize_error_response() {
    let resp = error_from_json(ERROR_JSON);

    assert!(!resp.success);
    assert_eq!(resp.message, "报告已过期");
    assert_eq!(resp.elapsed, 300);
}

#[test]
fn test_deserialize_enum_success() {
    let resp = response_from_json(SUCCESS_JSON);

    assert!(resp.is_success());
    assert!(resp.success_data().is_some());
    assert!(resp.error_data().is_none());

    let data = resp.success_data().unwrap();
    assert_eq!(data.school_name, "某大学");
}

#[test]
fn test_deserialize_enum_error() {
    let resp = response_from_json(ERROR_JSON);

    assert!(!resp.is_success());
    assert!(resp.success_data().is_none());
    assert!(resp.error_data().is_some());

    let error = resp.error_data().unwrap();
    assert_eq!(error.message, "报告已过期");
}

#[test]
fn query_response_parts_are_exclusive() {
    let ok = response_from_json(SUCCESS_JSON);
    let err = response_from_json(ERROR_JSON);
    assert_eq!(ok.clone().into_success_data(), Some(success_from_json(SUCCESS_JSON)));
    assert_eq!(ok.into_error_data(), None);
    assert_eq!(err.clone().into_error_data(), Some(error_from_json(ERROR_JSON)));
    assert_eq!(err.into_success_data(), None);
}

#[test]
fn query_response_mutable_access() {
    let mut ok = response_from_json(SUCCESS_JSON);
    ok.success_data_mut().unwrap().elapsed = 7;
    assert!(ok.error_data_mut().is_none());
    assert_eq!(ok.success_data().unwrap().elapsed, 7);

    let mut err = response_from_json(ERROR_JSON);
    err.error_data_mut().unwrap().message = "x".to_string();
    assert!(err.success_data_mut().is_none());
    assert_eq!(err.error_data().unwrap().message, "x");
}

#[test]
fn query_request_holds_its_fields() {
    let request = QueryRequest {
        code: "ABCD1234EFGH5678".to_string(),
        api_key: "sk_chsi_xxx".to_string(),
    };
    assert_eq!(request.clone(), request);
    assert_eq!(request.code, "ABCD1234EFGH5678");
}

#[test]
fn from_message_classifies_each_documented_message() {
    assert_eq!(ApiError::from_message("不合要求的在线验证码"), ApiError::InvalidCode);
    assert_eq!(ApiError::from_message("报告已过期"), ApiError::ReportExpired);
    assert_eq!(ApiError::from_message("验证码无效"), ApiError::CodeNotFound);
    assert_eq!(ApiError::from_message("IP 被学信网拦截"), ApiError::IpBlocked);
    assert_eq!(
        ApiError::from_message("服务器维护"),
        ApiError::Unknown("服务器维护".to_string())
    );
    assert_eq!(ApiError::from_message(""), ApiError::Unknown(String::new()));
    assert_eq!(
        ApiError::from_message("报告已过期 "),
        ApiError::Unknown("报告已过期 ".to_string())
    );
}

#[test]
fn user_messages() {
    assert_eq!(ApiError::InvalidCode.to_user_message(), "验证码格式不正确或已使用");
    assert_eq!(ApiError::ReportExpired.to_user_message(), "学历报告已过期");
    assert_eq!(ApiError::CodeNotFound.to_user_message(), "学信网未找到该验证码");
    assert_eq!(
        ApiError::IpBlocked.to_user_message(),
        "请求频率过高，IP被学信网拦截，请等待10秒后重试"
    );
    assert_eq!(
        ApiError::Unknown("服务器维护".to_string()).to_user_message(),
        "未知错误: 服务器维护"
    );
}

#[test]
fn only_ip_blocked_is_retryable() {
    assert!(ApiError::IpBlocked.is_retryable());
    assert!(!ApiError::InvalidCode.is_retryable());
    assert!(!ApiError::ReportExpired.is_retryable());
    assert!(!ApiError::CodeNotFound.is_retryable());
    assert!(!ApiError::Unknown("IP 被学信网拦截".to_string()).is_retryable());
    assert!(ApiError::from_message("IP 被学信网拦截").is_retryable());
}

#[test]
fn anyhow_error_carries_the_user_message() {
    let e = ApiError::ReportExpired.to_anyhow();
    assert_eq!(e.to_string(), "学历报告已过期");
    let e = ApiError::Unknown("abc".to_string()).to_anyhow();
    assert_eq!(e.to_string(), "未知错误: abc");
    assert_eq!(format!("{}", ApiError::IpBlocked.to_anyhow()), ApiError::IpBlocked.to_user_message());
}

#[test]
fn error_response_into_api_error() {
    let resp = ApiErrorResponse {
        success: false,
        message: "验证码无效".to_string(),
        elapsed: 12,
    };
    assert_eq!(resp.into_api_error(), ApiError::CodeNotFound);
    let resp = ApiErrorResponse {
        success: false,
        message: "别的".to_string(),
        elapsed: 1,
    };
    assert_eq!(resp.into_api_error(), ApiError::Unknown("别的".to_string()));
}
