use chrono::Datelike;
use stellaria::apod::{
    check_status, decode_payload, ApiResponse, ApodApi, ApodApiError, ApodError, ApodParams,
    ApodResponse,
};
use stellaria::date::{ApodDate, DateFormatError};
use stellaria::params::day_from_clock;
use stellaria::json::{JsonObject, JsonScalar, JsonValue};
use stellaria::{ApiError, StellariaClient, StellariaError};

fn ymd(year: i32, month: u32, day: u32) -> ApodDate {
    ApodDate::from_ymd_opt(year, month, day).unwrap()
}

fn today() -> ApodDate {
    let d = chrono::Utc::now().date_naive();
    ymd(d.year(), d.month(), d.day())
}

fn scalar_from(v: &serde_json::Value) -> JsonScalar {
    match v {
        serde_json::Value::Null => JsonScalar::Null,
        serde_json::Value::Bool(b) => JsonScalar::Bool(*b),
        serde_json::Value::Number(n) => JsonScalar::Number(n.as_u64()),
        serde_json::Value::String(s) => JsonScalar::Str(s.clone()),
        _ => JsonScalar::Nested,
    }
}

fn object_from(v: &serde_json::Map<String, serde_json::Value>) -> JsonObject {
    JsonObject { fields: v.iter().map(|(k, x)| (k.clone(), scalar_from(x))).collect() }
}

fn value_from_text(text: &str) -> JsonValue {
    match serde_json::from_str::<serde_json::Value>(text).unwrap() {
        serde_json::Value::Object(o) => JsonValue::Object(object_from(&o)),
        serde_json::Value::Array(a) => JsonValue::Array(
            a.iter()
                .map(|x| match x {
                    serde_json::Value::Object(o) => Some(object_from(o)),
                    _ => None,
                })
                .collect(),
        ),
        other => JsonValue::Scalar(scalar_from(&other)),
    }
}

fn object_from_text(text: &str) -> JsonObject {
    match value_from_text(text) {
        JsonValue::Object(o) => o,
        _ => panic!("not an object"),
    }
}

fn str_member(o: &JsonObject, key: &str) -> Option<String> {
    match o.get(key) {
        Some(JsonScalar::Str(s)) => Some(s.clone()),
        _ => None,
    }
}

const RECORD: &str = r#"{"copyright": "Jane Doe", "date": "2024-12-12",
    "explanation": "A galaxy.", "hdurl": "https://apod.nasa.gov/apod/image/big.jpg",
    "media_type": "image", "service_version": "v1", "title": "Galaxy",
    "url": "https://apod.nasa.gov/apod/image/small.jpg"}"#;

// ==================== Error conversion ====================

#[test]
fn test_apod_error_conversion() {
    let error = ApodApiError {
        code: 500,
        msg: "Internal Server Error".to_string(),
        service_version: "v1".to_string(),
    };

    let stellaria_error: StellariaError = error.into();
    assert!(stellaria_error.to_string().contains("Internal Server Error"));
}

#[test]
fn api_error_text_has_code_and_message() {
    let error = ApodApiError {
        code: 404,
        msg: "Not Found".to_string(),
        service_version: "v1".to_string(),
    };
    assert_eq!(error.to_string(), "http code 404: Not Found");
    let params_error = ApodError::ApodParamsError("bad".to_string());
    assert_eq!(params_error.to_string(), "invalid parameters: bad");
    let wrapped: StellariaError = params_error.into();
    assert_eq!(wrapped.to_string(), "invalid parameters: bad");
    assert_eq!(ApodApiError { code: 0, msg: String::new(), service_version: String::new() }.to_string(), "http code 0: ");
}

// ==================== Builder ====================

#[test]
fn test_builder_default_uses_today() {
    let params = ApodParams::builder().build().unwrap();
    let today = today();
    assert_eq!(params.date, Some(today));
    assert_eq!(params.count, None);
    assert!(!params.thumbs);
}

#[test]
fn builder_default_on_given_day() {
    let day = ymd(2024, 3, 1);
    let params = ApodParams::builder().build_on(day).unwrap();
    assert_eq!(params, ApodParams { date: Some(day), start_date: None, end_date: None, count: None, thumbs: false });
}

#[test]
fn test_builder_with_single_date() {
    let date = ymd(2024, 12, 12);
    let params = ApodParams::builder().date(date).build().unwrap();

    assert_eq!(params.date, Some(date));
    assert_eq!(params.start_date, None);
    assert_eq!(params.end_date, None);
}

#[test]
fn test_builder_with_count() {
    let params = ApodParams::builder().count(5).build().unwrap();

    assert_eq!(params.count, Some(5));
    assert_eq!(params.date, None);
}

#[test]
fn count_after_date_wins() {
    let params = ApodParams::builder().date(ymd(2024, 12, 12)).count(5).build().unwrap();
    assert_eq!(params.count, Some(5));
    assert_eq!(params.date, None);
    let params = ApodParams::builder().count(5).date(ymd(2024, 12, 12)).build().unwrap();
    assert_eq!(params.count, None);
    assert_eq!(params.date, Some(ymd(2024, 12, 12)));
}

#[test]
fn test_builder_with_date_range() {
    let start = ymd(2024, 1, 1);
    let end = ymd(2024, 1, 31);

    let params = ApodParams::builder().date_range(start, end).build().unwrap();

    assert_eq!(params.start_date, Some(start));
    assert_eq!(params.end_date, Some(end));
    assert_eq!(params.date, None);
    assert_eq!(params.count, None);
}

#[test]
fn test_builder_with_thumbs() {
    let params = ApodParams::builder().thumbs(true).build().unwrap();

    assert!(params.thumbs);
}

// ==================== Date validation ====================

#[test]
fn test_date_too_early_fails() {
    let too_early = ymd(1995, 6, 15);
    let result = ApodParams::builder().date(too_early).build();

    assert!(result.is_err());
    let err = result.unwrap_err().to_string();
    assert!(err.contains("Date must be between"));
}

#[test]
fn launch_day_and_today_accepted_next_day_rejected() {
    assert!(ApodParams::builder().date(ymd(1995, 6, 16)).build().is_ok());
    let day = ymd(2024, 2, 28);
    assert!(ApodParams::builder().date(day).build_on(day).is_ok());
    let next = ymd(2024, 2, 29);
    match ApodParams::builder().date(next).build_on(day) {
        Err(ApodError::ApodParamsError(m)) => {
            assert_eq!(m, "Date must be between Jun 16, 1995 and Dec 12, 2025.")
        }
        other => panic!("unexpected {:?}", other),
    }
    assert!(ApodParams::builder().date(today()).build().is_ok());
}

#[test]
fn test_too_late_fails() {
    let future = ymd(2099, 12, 31);
    let result = ApodParams::builder().date(future).build();

    assert!(result.is_err());
}

#[test]
fn test_recent_valid_date_succeeds() {
    let valid = ymd(2024, 12, 1);
    let result = ApodParams::builder().date(valid).build();

    assert!(result.is_ok());
}

#[test]
fn test_date_range_reversed_fails() {
    let start = ymd(2024, 12, 31);
    let end = ymd(2024, 1, 1);

    let result = ApodParams::builder().date_range(start, end).build();

    assert!(result.is_err());
    match result {
        Err(ApodError::ApodParamsError(m)) => assert_eq!(m, "Start date cannot be greater than end date"),
        other => panic!("unexpected {:?}", other),
    }
}

#[test]
fn test_date_range_same_date_succeeds() {
    let date = ymd(2024, 6, 15);
    let result = ApodParams::builder().date_range(date, date).build();

    assert!(result.is_ok());
    let params = result.unwrap();
    assert_eq!(params.start_date, Some(date));
    assert_eq!(params.end_date, Some(date));
}

#[test]
fn test_date_range_valid_span_succeeds() {
    let start = ymd(2024, 1, 1);
    let end = ymd(2024, 12, 31);

    let result = ApodParams::builder().date_range(start, end).build();

    assert!(result.is_ok());
}

// ==================== Dates ====================

#[test]
fn calendar_days_checked() {
    assert!(ApodDate::from_ymd_opt(2024, 2, 29).is_some());
    assert!(ApodDate::from_ymd_opt(2023, 2, 29).is_none());
    assert!(ApodDate::from_ymd_opt(1900, 2, 29).is_none());
    assert!(ApodDate::from_ymd_opt(2000, 2, 29).is_some());
    assert!(ApodDate::from_ymd_opt(2024, 4, 31).is_none());
    assert!(ApodDate::from_ymd_opt(2024, 13, 1).is_none());
    assert!(ApodDate::from_ymd_opt(2024, 1, 0).is_none());
}

#[test]
fn iso_text_and_parse() {
    assert_eq!(ymd(2024, 1, 5).to_iso_string(), "2024-01-05");
    assert_eq!(ymd(7, 12, 31).to_iso_string(), "0007-12-31");
    assert_eq!(ApodDate::parse_iso("2024-12-12"), Ok(ymd(2024, 12, 12)));
    assert_eq!(ApodDate::parse_iso("2024-02-30"), Err(DateFormatError::NoSuchDay));
    assert_eq!(ApodDate::parse_iso("2024-2-03"), Err(DateFormatError::Shape));
    assert_eq!(ApodDate::parse_iso("2024/12/12"), Err(DateFormatError::Shape));
    assert_eq!(ApodDate::parse_iso(""), Err(DateFormatError::Shape));
}

// ==================== Serialization ====================

#[test]
fn test_serialize_with_date() {
    let date = ymd(2024, 12, 12);
    let params = ApodParams::builder().date(date).build().unwrap();

    let json = params.to_json();
    assert_eq!(str_member(&json, "date").unwrap(), "2024-12-12");
}

#[test]
fn test_serialize_date_range() {
    let start = ymd(2024, 1, 1);
    let end = ymd(2024, 1, 31);

    let params = ApodParams::builder().date_range(start, end).build().unwrap();

    let json = params.to_json();
    assert_eq!(str_member(&json, "start_date").unwrap(), "2024-01-01");
    assert_eq!(str_member(&json, "end_date").unwrap(), "2024-01-31");
}

#[test]
fn test_serialize_count() {
    let params = ApodParams::builder().count(10).build().unwrap();

    let json = params.to_json();
    assert_eq!(json.get("count"), Some(&JsonScalar::Number(Some(10))));
}

#[test]
fn test_serialize_thumbs() {
    let params = ApodParams::builder().thumbs(true).build().unwrap();

    let json = params.to_json();
    assert_eq!(json.get("thumbs"), Some(&JsonScalar::Bool(true)));
}

#[test]
fn serialize_omits_absent_fields() {
    let params = ApodParams::builder().count(3).build().unwrap();
    let json = params.to_json();
    assert_eq!(json.get("date"), None);
    assert_eq!(json.get("start_date"), None);
    assert_eq!(json.get("end_date"), None);
    assert_eq!(json.fields.len(), 2);
}

#[test]
fn test_deserialize_date_from_string() {
    let json = r#"{"date": "2024-12-12", "thumbs": false}"#;
    let params = ApodParams::from_json(&object_from_text(json)).unwrap();

    assert_eq!(params.date, Some(ymd(2024, 12, 12)));
}

#[test]
fn deserialize_rejects_bad_members() {
    assert!(ApodParams::from_json(&object_from_text(r#"{"date": "2024-12-12"}"#)).is_none());
    assert!(ApodParams::from_json(&object_from_text(r#"{"date": "12/12/2024", "thumbs": false}"#)).is_none());
    assert!(ApodParams::from_json(&object_from_text(r#"{"count": 256, "thumbs": false}"#)).is_none());
    let p = ApodParams::from_json(&object_from_text(r#"{"count": 255, "date": null, "thumbs": true}"#)).unwrap();
    assert_eq!(p, ApodParams { date: None, start_date: None, end_date: None, count: Some(255), thumbs: true });
}

#[test]
fn test_round_trip_serialization() {
    let date = ymd(2024, 6, 15);
    let sent = ApodParams::builder().date(date).thumbs(true).build().unwrap();

    let json = sent.to_json();
    let deserialized = ApodParams::from_json(&json).unwrap();

    assert_eq!(sent.date, deserialized.date);
    assert_eq!(sent.thumbs, deserialized.thumbs);
    assert_eq!(sent, deserialized);
}

// ==================== Responses ====================

#[test]
fn single_record_decodes_to_one() {
    let recs = decode_payload(&value_from_text(RECORD)).unwrap();
    assert_eq!(recs.len(), 1);
    let r: &ApodResponse = &recs[0];
    assert_eq!(r.copyright.as_deref(), Some("Jane Doe"));
    assert_eq!(r.date, ymd(2024, 12, 12));
    assert_eq!(r.explanation, "A galaxy.");
    assert_eq!(r.hdurl.as_deref(), Some("https://apod.nasa.gov/apod/image/big.jpg"));
    assert_eq!(r.media_type, "image");
    assert_eq!(r.service_version, "v1");
    assert_eq!(r.title, "Galaxy");
    assert_eq!(r.url, "https://apod.nasa.gov/apod/image/small.jpg");
}

#[test]
fn urls_are_normalized() {
    let text = r#"{"date": "2024-12-12", "explanation": "e", "media_type": "video",
        "service_version": "v1", "title": "t", "url": "HTTPS://Example.COM"}"#;
    let recs = decode_payload(&value_from_text(text)).unwrap();
    assert_eq!(recs[0].url, "https://example.com/");
    assert_eq!(recs[0].hdurl, None);
    assert_eq!(recs[0].copyright, None);
}

#[test]
fn error_shape_wins_over_record() {
    let text = r#"{"code": 400, "msg": "Bad date", "service_version": "v1",
        "date": "2024-12-12", "explanation": "e", "media_type": "image",
        "title": "t", "url": "https://apod.nasa.gov/"}"#;
    let v = value_from_text(text);
    match ApiResponse::from_json(&v) {
        Some(ApiResponse::Error(e)) => {
            assert_eq!(e.code, 400);
            assert_eq!(e.msg, "Bad date");
        }
        other => panic!("unexpected {:?}", other),
    }
    match decode_payload(&v) {
        Err(StellariaError::ApiError(ApiError::ApodError(ApodError::ApodApiError(e)))) => {
            assert_eq!(e, ApodApiError { code: 400, msg: "Bad date".to_string(), service_version: "v1".to_string() })
        }
        other => panic!("unexpected {:?}", other),
    }
}

#[test]
fn empty_array_is_no_records() {
    let recs = decode_payload(&value_from_text("[]")).unwrap();
    assert!(recs.is_empty());
}

#[test]
fn array_of_records() {
    let text = format!("[{}, {}]", RECORD, RECORD);
    let recs = decode_payload(&value_from_text(&text)).unwrap();
    assert_eq!(recs.len(), 2);
    assert_eq!(recs[1].title, "Galaxy");
    let bad = format!("[{}, 3]", RECORD);
    assert!(matches!(decode_payload(&value_from_text(&bad)), Err(StellariaError::DecodeError)));
}

#[test]
fn unknown_shapes_fail() {
    assert!(matches!(decode_payload(&value_from_text("3")), Err(StellariaError::DecodeError)));
    assert!(matches!(decode_payload(&value_from_text(r#"{"title": "t"}"#)), Err(StellariaError::DecodeError)));
    let bad_date = RECORD.replace("2024-12-12", "2024-13-12");
    assert!(matches!(decode_payload(&value_from_text(&bad_date)), Err(StellariaError::DecodeError)));
    let bad_url = RECORD.replace("https://apod.nasa.gov/apod/image/small.jpg", "not a url");
    assert!(matches!(decode_payload(&value_from_text(&bad_url)), Err(StellariaError::DecodeError)));
    let big_code = r#"{"code": 70000, "msg": "m", "service_version": "v1"}"#;
    assert!(matches!(decode_payload(&value_from_text(big_code)), Err(StellariaError::DecodeError)));
}

#[test]
fn failed_status_truncates_body() {
    let body = "x".repeat(2000);
    let e = check_status(503, &body).unwrap_err();
    assert_eq!(e.code, 503);
    assert_eq!(e.msg.chars().count(), 1024);
    assert_eq!(e.service_version, "unknown");
    let short = check_status(404, "not here").unwrap_err();
    assert_eq!(short.msg, "not here");
    let wide = "é".repeat(1500);
    assert_eq!(check_status(500, &wide).unwrap_err().msg.chars().count(), 1024);
    assert!(check_status(200, "anything").is_ok());
    assert!(check_status(299, "").is_ok());
    assert!(check_status(300, "").is_err());
    assert!(check_status(199, "").is_err());
}

#[test]
fn request_url_carries_key() {
    let api = ApodApi::new("KEY".to_string(), reqwest::Client::new());
    assert_eq!(api.request_url(), "https://api.nasa.gov/planetary/apod?api_key=KEY");
    let client = StellariaClient::new("TOKEN".to_string(), reqwest::Client::new());
    assert_eq!(client.api_token, "TOKEN");
    assert_eq!(client.apod.api_key(), "TOKEN");
}

#[test]
fn clock_gives_todays_utc_date() {
    let before = today();
    let read = stellaria::params::utc_today().unwrap();
    let after = today();
    assert!(read == before || read == after);
}

#[test]
fn interpret_failed_status_ignores_payload() {
    let body = "<html>".repeat(300);
    let r = stellaria::apod::interpret_response(500, &body, Ok(value_from_text(RECORD)));
    match r {
        Err(StellariaError::ApiError(ApiError::ApodError(ApodError::ApodApiError(e)))) => {
            assert_eq!(e.code, 500);
            assert_eq!(e.msg, body.chars().take(1024).collect::<String>());
            assert_eq!(e.service_version, "unknown");
        }
        other => panic!("unexpected {:?}", other),
    }
    let ok = stellaria::apod::interpret_response(200, RECORD, Ok(value_from_text(RECORD))).unwrap();
    assert_eq!(ok.len(), 1);
    let not_json = serde_json::from_str::<serde_json::Value>("<html>").map(|_| JsonValue::Object(JsonObject { fields: vec![] }));
    let r = stellaria::apod::interpret_response(200, "<html>", not_json);
    assert!(matches!(r, Err(StellariaError::JsonError(_))));
    assert!(r.unwrap_err().to_string().starts_with("error in parsing json: "));
}

#[test]
fn day_from_clock_readings() {
    assert_eq!(day_from_clock(true, 0, 0), Some(ymd(1970, 1, 1)));
    assert_eq!(day_from_clock(true, 86_399, 999_999_999), Some(ymd(1970, 1, 1)));
    assert_eq!(day_from_clock(true, 86_400, 0), Some(ymd(1970, 1, 2)));
    assert_eq!(day_from_clock(false, 0, 1), Some(ymd(1969, 12, 31)));
    assert_eq!(day_from_clock(false, 86_400, 0), Some(ymd(1969, 12, 31)));
    assert_eq!(day_from_clock(false, 86_400, 1), Some(ymd(1969, 12, 30)));
    assert_eq!(day_from_clock(true, 1_733_961_600, 0), Some(ymd(2024, 12, 12)));
    assert_eq!(day_from_clock(true, 253_402_300_800, 0), None);
    assert_eq!(day_from_clock(true, u64::MAX, 0), None);
}
