use midas_client::error::Error;
use midas_client::response::{ApiResponse, RawApiResponse};

#[test]
fn test_response() {
    let status = "success";
    let msg = "message";
    let code = 200u16;
    let response: ApiResponse<String> = ApiResponse::new(status, msg, code, "".to_string());

    // Test
    assert_eq!(response.status, status);
    assert_eq!(response.code, 200);
    assert_eq!(response.message, msg);
    assert_eq!(response.data, "");
}

#[test]
fn test_response_from_json() {
    let json = "{\"status\": \"success\", \"message\": \"Testing msg.\", \"code\": 200, \"data\": \"12345\"}";

    // Test
    let api_response: ApiResponse<String> = ApiResponse::from_body(json).unwrap();

    // Validate
    let status = "success";
    let msg = "Testing msg.";
    let code = 200u16;
    let response = ApiResponse::new(status, msg, code, "12345".to_string());
    assert_eq!(response, api_response);
}

#[test]
fn test_strict_round_trip_string() {
    let env: ApiResponse<String> =
        ApiResponse::new("success", "hello there", 201, "payload".to_string());
    let body = format!(
        "{{\"status\":\"{}\",\"message\":\"{}\",\"code\":{},\"data\":\"{}\"}}",
        env.status, env.message, env.code, env.data
    );
    let decoded: ApiResponse<String> = ApiResponse::from_body(&body).unwrap();
    assert_eq!(decoded, env);
}

#[test]
fn test_strict_round_trip_u32() {
    let env: ApiResponse<u32> = ApiResponse::new("success", "id assigned", 200, 7u32);
    let body = format!(
        "{{\"status\":\"{}\",\"message\":\"{}\",\"code\":{},\"data\":{}}}",
        env.status, env.message, env.code, env.data
    );
    let decoded: ApiResponse<u32> = ApiResponse::from_body(&body).unwrap();
    assert_eq!(decoded, env);
}

#[test]
fn test_strict_decode_negative_i32() {
    let body = "{\"status\":\"success\",\"message\":\"m\",\"code\":200,\"data\":-5}";
    let decoded: ApiResponse<i32> = ApiResponse::from_body(body).unwrap();
    assert_eq!(decoded.data, -5);
}

#[test]
fn test_fallback_keeps_raw_fields_and_defaults_string() {
    let body = "{\"status\":\"failed\",\"message\":\"m\",\"code\":404}";
    let decoded: ApiResponse<String> = ApiResponse::from_body(body).unwrap();
    assert_eq!(decoded.status, "failed");
    assert_eq!(decoded.message, "m");
    assert_eq!(decoded.code, 404);
    assert_eq!(decoded.data, "");
}

#[test]
fn test_fallback_keeps_raw_fields_and_defaults_u32() {
    let body = "{\"status\":\"failed\",\"message\":\"m\",\"code\":404}";
    let decoded: ApiResponse<u32> = ApiResponse::from_body(body).unwrap();
    assert_eq!(decoded.status, "failed");
    assert_eq!(decoded.message, "m");
    assert_eq!(decoded.code, 404);
    assert_eq!(decoded.data, 0);
}

#[test]
fn test_fallback_on_mistyped_data() {
    // The data field is present but cannot decode as u32, so the strict tier
    // fails and the status-only tier substitutes the zero value.
    let body = "{\"status\":\"success\",\"message\":\"m\",\"code\":200,\"data\":99999999999}";
    let decoded: ApiResponse<u32> = ApiResponse::from_body(body).unwrap();
    assert_eq!(decoded.status, "success");
    assert_eq!(decoded.data, 0);
}

#[test]
fn test_strict_decode_byte_vector() {
    let body = "{\"status\":\"success\",\"message\":\"m\",\"code\":200,\"data\":[1,2,255,0]}";
    let decoded: ApiResponse<Vec<u8>> = ApiResponse::from_body(body).unwrap();
    assert_eq!(decoded.data, vec![1u8, 2, 255, 0]);
}

#[test]
fn test_fallback_on_byte_out_of_range() {
    // 300 does not fit a byte, so the strict tier fails and the status-only
    // tier substitutes the empty sequence.
    let body = "{\"status\":\"success\",\"message\":\"m\",\"code\":200,\"data\":[1,300]}";
    let decoded: ApiResponse<Vec<u8>> = ApiResponse::from_body(body).unwrap();
    assert!(decoded.data.is_empty());
}

#[test]
fn test_decode_error_on_invalid_json() {
    let body = "this is not json";
    let r: Result<ApiResponse<String>, Error> = ApiResponse::from_body(body);
    assert!(matches!(r, Err(Error::JsonError(_))));
}

#[test]
fn test_decode_error_on_missing_status() {
    let body = "{\"message\":\"m\",\"code\":200,\"data\":\"\"}";
    let r: Result<ApiResponse<String>, Error> = ApiResponse::from_body(body);
    assert!(matches!(r, Err(Error::JsonError(_))));
}

#[test]
fn test_decode_error_on_mistyped_code() {
    let body = "{\"status\":\"success\",\"message\":\"m\",\"code\":\"200\",\"data\":\"\"}";
    let r: Result<ApiResponse<String>, Error> = ApiResponse::from_body(body);
    assert!(matches!(r, Err(Error::JsonError(_))));
}

#[test]
fn test_decode_error_on_code_out_of_range() {
    let body = "{\"status\":\"success\",\"message\":\"m\",\"code\":70000,\"data\":\"\"}";
    let r: Result<ApiResponse<String>, Error> = ApiResponse::from_body(body);
    assert!(matches!(r, Err(Error::JsonError(_))));
}

#[test]
fn test_decode_error_on_fractional_code() {
    let body = "{\"status\":\"success\",\"message\":\"m\",\"code\":200.5,\"data\":\"\"}";
    let r: Result<ApiResponse<String>, Error> = ApiResponse::from_body(body);
    assert!(matches!(r, Err(Error::JsonError(_))));
}

#[test]
fn test_raw_decode_ignores_extra_fields() {
    let v: serde_json::Value =
        serde_json::from_str("{\"status\":\"ok\",\"message\":\"m\",\"code\":1,\"extra\":true}")
            .unwrap();
    let raw = RawApiResponse::from_json(&v).unwrap();
    assert_eq!(raw.status, "ok");
    assert_eq!(raw.message, "m");
    assert_eq!(raw.code, 1);
}

#[test]
fn test_raw_decode_rejects_non_object() {
    let v: serde_json::Value = serde_json::from_str("[1,2,3]").unwrap();
    assert!(RawApiResponse::from_json(&v).is_none());
}

#[test]
fn test_with_default_string() {
    let env: ApiResponse<String> = ApiResponse::with_default("failed", "m", 500);
    assert_eq!(env.status, "failed");
    assert_eq!(env.message, "m");
    assert_eq!(env.code, 500);
    assert_eq!(env.data, "");
}

#[test]
fn test_with_default_vec_and_option() {
    let env: ApiResponse<Vec<u32>> = ApiResponse::with_default("failed", "m", 500);
    assert!(env.data.is_empty());
    let env: ApiResponse<Option<u32>> = ApiResponse::with_default("failed", "m", 500);
    assert!(env.data.is_none());
}

#[test]
fn test_get_symbol_not_found_scenario() {
    // A get-symbol reply for a ticker that does not exist: the request itself
    // succeeded, the code carries 404, and the id payload is the zero value.
    let body = "{\"status\":\"success\",\"message\":\"No instrument found for ticker AAPL\",\"code\":404}";
    let decoded: ApiResponse<u32> = ApiResponse::from_body(body).unwrap();
    assert_eq!(decoded.status, "success");
    assert_eq!(decoded.code, 404);
    assert_eq!(decoded.data, 0);
}

#[test]
fn test_create_then_delete_scenario() {
    // Create an instrument with ticker AAPL9: the reply's message carries the
    // numeric id, which the caller parses and hands to delete.
    let create_body = "{\"status\":\"success\",\"message\":\"Successfully created instrument with id 42\",\"code\":200,\"data\":42}";
    let created: ApiResponse<u32> = ApiResponse::from_body(create_body).unwrap();
    assert_eq!(created.status, "success");
    assert_eq!(created.code, 200);
    let prefix = created.message.trim_end_matches(|c: char| c.is_ascii_digit());
    let id: i32 = created.message[prefix.len()..].parse().unwrap();
    assert_eq!(id, 42);

    let delete_body = "{\"status\":\"success\",\"message\":\"Deleted instrument with id 42\",\"code\":200,\"data\":\"\"}";
    let deleted: ApiResponse<String> = ApiResponse::from_body(delete_body).unwrap();
    assert_eq!(deleted.status, "success");
    assert_eq!(deleted.code, 200);
}

#[test]
fn test_error_describe_and_detail() {
    let e = Error::JsonError("bad body".to_string());
    assert_eq!(e.describe(), "JSON error: bad body");
    assert_eq!(e.detail(), "bad body");
    let e = Error::RequestError("timed out".to_string());
    assert_eq!(e.describe(), "Request error: timed out");
    let e = Error::ParseError("bad date".to_string());
    assert_eq!(e.describe(), "Parse Error : bad date");
    let e = Error::IOError("disk".to_string());
    assert_eq!(e.describe(), "Io error: disk");
    let e = Error::SqlError("db".to_string());
    assert_eq!(e.describe(), "SQL error: db");
}
