//! The picture-of-the-day endpoint: its records, its errors and the decoding
//! of its three response shapes.
use vstd::prelude::*;

pub use crate::params::{ApodParams, ApodParamsBuilder};

verus! {

/// A logical failure reported by the service.
#[derive(Clone, Debug, PartialEq, Eq)]
pub struct ApodApiError {
    pub code: u16,
    pub msg: String,
    pub service_version: String,
}

impl ApodError {
    pub open spec fn text(&self) -> Seq<char> {
        match self {
            ApodError::ApodApiError(e) => e.text(),
            ApodError::ApodParamsError(m) => "invalid parameters: "@ + m@,
        }
    }

    /// The error in words.
    pub fn to_string(&self) -> (r: String)
        ensures
            r@ == self.text(),
    {
        match self {
            ApodError::ApodApiError(e) => e.to_string(),
            ApodError::ApodParamsError(m) => {
                let mut s = String::from_str("invalid parameters: ");
                s.append(m.as_str());
                s
            },
        }
    }
}

/// A failure of the picture-of-the-day endpoint.
#[derive(Clone, Debug, PartialEq, Eq)]
#[non_exhaustive]
pub enum ApodError {
    ApodApiError(ApodApiError),
    /// The parameters were rejected before any request; the reason in words.
    ApodParamsError(String),
}

} // verus!

use crate::date::{decimal, push_decimal, four_digits, is_iso_date, two_digits, ApodDate};
use crate::json::{field, is_absent, str_field, JsonObject, JsonScalar, JsonValue, ObjectView, ScalarView};
use crate::{ApiError, StellariaError};

verus! {

/// What `url::Url` makes of a text: its serialization, or `None` where the
/// text is not a URL.
pub uninterp spec fn url_serialization(s: Seq<char>) -> Option<Seq<char>>;

/// Relies on `url::Url::parse` and on `String::from(Url)`, which hands out
/// the URL's serialization.
#[verifier::external_body]
fn parse_url(s: &str) -> (r: Option<String>)
    ensures
        match r {
            Some(t) => url_serialization(s@) == Some(t@),
            None => url_serialization(s@) is None,
        },
{
    url::Url::parse(s).ok().map(String::from)
}

/// One picture of the day.
#[derive(Clone, Debug, PartialEq, Eq)]
pub struct ApodResponse {
    pub copyright: Option<String>,
    pub date: ApodDate,
    pub explanation: String,
    /// The high-resolution URL, in the serialization of a parsed URL.
    pub hdurl: Option<String>,
    pub media_type: String,
    pub service_version: String,
    pub title: String,
    /// The URL, in the serialization of a parsed URL.
    pub url: String,
}

/// The three shapes of a successful response, told apart by their fields.
#[derive(Clone, Debug, PartialEq, Eq)]
pub enum ApiResponse {
    Error(ApodApiError),
    One(ApodResponse),
    Many(Vec<ApodResponse>),
}

pub open spec fn u16_field(o: ObjectView, key: Seq<char>) -> Option<u16> {
    match field(o, key) {
        Some(ScalarView::Number(Some(n))) => if n <= u16::MAX {
            Some(n as u16)
        } else {
            None
        },
        _ => None,
    }
}

/// An optional text member: absent, null or a string.
pub open spec fn opt_str_ok(o: ObjectView, key: Seq<char>) -> bool {
    is_absent(o, key) || str_field(o, key) is Some
}

/// A URL member: a string that parses as a URL.
pub open spec fn url_ok(o: ObjectView, key: Seq<char>) -> bool {
    str_field(o, key) matches Some(s) && url_serialization(s) is Some
}

pub open spec fn is_error_shape(o: ObjectView) -> bool {
    &&& u16_field(o, "code"@) is Some
    &&& str_field(o, "msg"@) is Some
    &&& str_field(o, "service_version"@) is Some
}

pub open spec fn is_record_shape(o: ObjectView) -> bool {
    &&& opt_str_ok(o, "copyright"@)
    &&& str_field(o, "date"@) matches Some(s) && is_iso_date(s)
    &&& str_field(o, "explanation"@) is Some
    &&& is_absent(o, "hdurl"@) || url_ok(o, "hdurl"@)
    &&& str_field(o, "media_type"@) is Some
    &&& str_field(o, "service_version"@) is Some
    &&& str_field(o, "title"@) is Some
    &&& url_ok(o, "url"@)
}

pub open spec fn error_from(e: ApodApiError, o: ObjectView) -> bool {
    &&& u16_field(o, "code"@) == Some(e.code)
    &&& str_field(o, "msg"@) == Some(e.msg@)
    &&& str_field(o, "service_version"@) == Some(e.service_version@)
}

pub open spec fn opt_text_from(v: Option<String>, o: ObjectView, key: Seq<char>) -> bool {
    match str_field(o, key) {
        Some(s) => v matches Some(t) && t@ == s,
        None => v is None,
    }
}

/// `r` holds what the members of `o` say, each field from the member of its name.
pub open spec fn record_from(r: ApodResponse, o: ObjectView) -> bool {
    &&& opt_text_from(r.copyright, o, "copyright"@)
    &&& str_field(o, "date"@) matches Some(s) && r.date.year == four_digits(s, 0)
        && r.date.month == two_digits(s, 5) && r.date.day == two_digits(s, 8) && r.date.wf()
    &&& str_field(o, "explanation"@) == Some(r.explanation@)
    &&& match str_field(o, "hdurl"@) {
        Some(s) => r.hdurl matches Some(t) && url_serialization(s) == Some(t@),
        None => r.hdurl is None,
    }
    &&& str_field(o, "media_type"@) == Some(r.media_type@)
    &&& str_field(o, "service_version"@) == Some(r.service_version@)
    &&& str_field(o, "title"@) == Some(r.title@)
    &&& str_field(o, "url"@) matches Some(s) && url_serialization(s) == Some(r.url@)
}

pub open spec fn all_records(a: Seq<Option<JsonObject>>) -> bool {
    forall|i: int| 0 <= i < a.len() ==> (#[trigger] a[i] matches Some(o) && is_record_shape(o@))
}

/// `r` is the decoding of `v`: the error shape is tried first, then a single
/// record, then an array of records.
pub open spec fn decodes_to(v: JsonValue, r: Option<ApiResponse>) -> bool {
    match v {
        JsonValue::Object(o) => if is_error_shape(o@) {
            r matches Some(ApiResponse::Error(e)) && error_from(e, o@)
        } else if is_record_shape(o@) {
            r matches Some(ApiResponse::One(rec)) && record_from(rec, o@)
        } else {
            r is None
        },
        JsonValue::Array(a) => if all_records(a@) {
            r matches Some(ApiResponse::Many(recs)) && recs@.len() == a@.len() && forall|i: int|
                0 <= i < a@.len() ==> record_from(#[trigger] recs@[i], a@[i]->Some_0@)
        } else {
            r is None
        },
        JsonValue::Scalar(_) => r is None,
    }
}

fn get_str(o: &JsonObject, key: &str) -> (r: Option<String>)
    ensures
        match r {
            Some(s) => str_field(o@, key@) == Some(s@),
            None => str_field(o@, key@) is None,
        },
{
    match o.get(key) {
        Some(JsonScalar::Str(s)) => Some(s.clone()),
        _ => None,
    }
}

/// `Some(None)` for an absent or null member, `Some(Some(_))` for a string, else `None`.
fn get_opt_str(o: &JsonObject, key: &str) -> (r: Option<Option<String>>)
    ensures
        r is Some <==> opt_str_ok(o@, key@),
        r matches Some(v) ==> opt_text_from(v, o@, key@),
{
    match o.get(key) {
        None => Some(None),
        Some(JsonScalar::Null) => Some(None),
        Some(JsonScalar::Str(s)) => Some(Some(s.clone())),
        _ => None,
    }
}

fn get_u16(o: &JsonObject, key: &str) -> (r: Option<u16>)
    ensures
        r == u16_field(o@, key@),
{
    match o.get(key) {
        Some(JsonScalar::Number(Some(n))) => if *n <= 0xFFFF {
            Some(*n as u16)
        } else {
            None
        },
        _ => None,
    }
}

fn get_url(o: &JsonObject, key: &str) -> (r: Option<String>)
    ensures
        r is Some <==> url_ok(o@, key@),
        r matches Some(t) ==> (str_field(o@, key@) matches Some(s) && url_serialization(s) == Some(t@)),
{
    match get_str(o, key) {
        Some(s) => parse_url(s.as_str()),
        None => None,
    }
}

impl ApodApiError {
    pub open spec fn text(&self) -> Seq<char> {
        "http code "@ + decimal(self.code as nat) + ": "@ + self.msg@
    }

    /// The error in words: `http code <code>: <msg>`.
    pub fn to_string(&self) -> (r: String)
        ensures
            r@ == self.text(),
    {
        let mut s = String::from_str("http code ");
        push_decimal(&mut s, self.code as u32);
        s.append(": ");
        s.append(self.msg.as_str());
        s
    }

    /// Reads the error shape: `code`, `msg` and `service_version`.
    pub fn from_json(o: &JsonObject) -> (r: Option<ApodApiError>)
        ensures
            r is Some <==> is_error_shape(o@),
            r matches Some(e) ==> error_from(e, o@),
    {
        let code = get_u16(o, "code");
        let msg = get_str(o, "msg");
        let service_version = get_str(o, "service_version");
        match (code, msg, service_version) {
            (Some(code), Some(msg), Some(service_version)) => Some(ApodApiError { code, msg, service_version }),
            _ => None,
        }
    }
}

impl ApodResponse {
    /// Reads the record shape.
    pub fn from_json(o: &JsonObject) -> (r: Option<ApodResponse>)
        ensures
            r is Some <==> is_record_shape(o@),
            r matches Some(rec) ==> record_from(rec, o@),
    {
        let copyright = match get_opt_str(o, "copyright") {
            Some(c) => c,
            None => return None,
        };
        let date = match get_str(o, "date") {
            Some(s) => match ApodDate::parse_iso(s.as_str()) {
                Ok(d) => d,
                Err(_) => return None,
            },
            None => return None,
        };
        let explanation = match get_str(o, "explanation") {
            Some(s) => s,
            None => return None,
        };
        let hdurl = match o.get("hdurl") {
            None | Some(JsonScalar::Null) => None,
            _ => match get_url(o, "hdurl") {
                Some(u) => Some(u),
                None => return None,
            },
        };
        let media_type = match get_str(o, "media_type") {
            Some(s) => s,
            None => return None,
        };
        let service_version = match get_str(o, "service_version") {
            Some(s) => s,
            None => return None,
        };
        let title = match get_str(o, "title") {
            Some(s) => s,
            None => return None,
        };
        let url = match get_url(o, "url") {
            Some(u) => u,
            None => return None,
        };
        Some(ApodResponse { copyright, date, explanation, hdurl, media_type, service_version, title, url })
    }
}

/// Characters of a failed response's body that an error keeps.
pub const MAX_ERROR_CHARS: usize = 1024;

/// At most the first `MAX_ERROR_CHARS` characters of `s`.
pub open spec fn truncated(s: Seq<char>) -> Seq<char> {
    if s.len() <= MAX_ERROR_CHARS {
        s
    } else {
        s.take(MAX_ERROR_CHARS as int)
    }
}

pub open spec fn is_success_status(status: u16) -> bool {
    200 <= status <= 299
}

/// Whether an HTTP status is a success (`2xx`).
pub fn is_success(status: u16) -> (r: bool)
    ensures
        r == is_success_status(status),
{
    200 <= status && status <= 299
}

/// The error for a response with the given status and body, where the status
/// is not a success: the status as code, the start of the body as message.
pub fn check_status(status: u16, body: &str) -> (r: Result<(), ApodApiError>)
    ensures
        r is Ok <==> is_success_status(status),
        r matches Err(e) ==> e.code == status && e.msg@ == truncated(body@)
            && e.service_version@ == "unknown"@,
{
    if is_success(status) {
        return Ok(());
    }
    let n = body.unicode_len();
    let keep = if n <= MAX_ERROR_CHARS {
        n
    } else {
        MAX_ERROR_CHARS
    };
    let msg = String::from_str(body.substring_char(0, keep));
    proof {
        if n <= MAX_ERROR_CHARS {
            assert(body@.subrange(0, n as int) =~= body@);
        }
    }
    Err(ApodApiError { code: status, msg, service_version: String::from_str("unknown") })
}

impl ApiResponse {
    /// Tells the shape of a payload: the error shape first, then a single
    /// record, then an array of records.
    pub fn from_json(v: &JsonValue) -> (r: Option<ApiResponse>)
        ensures
            decodes_to(*v, r),
    {
        match v {
            JsonValue::Object(o) => {
                if let Some(e) = ApodApiError::from_json(o) {
                    return Some(ApiResponse::Error(e));
                }
                match ApodResponse::from_json(o) {
                    Some(rec) => Some(ApiResponse::One(rec)),
                    None => None,
                }
            },
            JsonValue::Array(a) => {
                let mut recs: Vec<ApodResponse> = Vec::new();
                let mut i: usize = 0;
                while i < a.len()
                    invariant
                        *v == JsonValue::Array(*a),
                        0 <= i <= a@.len(),
                        recs@.len() == i,
                        forall|k: int| 0 <= k < i ==> (#[trigger] a@[k] matches Some(o) && is_record_shape(o@)),
                        forall|k: int| 0 <= k < i ==> record_from(#[trigger] recs@[k], a@[k]->Some_0@),
                    decreases a@.len() - i,
                {
                    match &a[i] {
                        Some(o) => match ApodResponse::from_json(o) {
                            Some(rec) => recs.push(rec),
                            None => {
                                assert(!all_records(a@));
                                return None;
                            },
                        },
                        None => {
                            assert(!all_records(a@));
                            return None;
                        },
                    }
                    i = i + 1;
                }
                Some(ApiResponse::Many(recs))
            },
            JsonValue::Scalar(_) => None,
        }
    }

    /// The records of the response, or the error it reports.
    pub fn parse(self) -> (r: Result<Vec<ApodResponse>, ApodError>)
        ensures
            match self {
                ApiResponse::Error(e) => r == Err::<Vec<ApodResponse>, ApodError>(ApodError::ApodApiError(e)),
                ApiResponse::One(rec) => r matches Ok(v) && v@ == seq![rec],
                ApiResponse::Many(recs) => r matches Ok(v) && v@ == recs@,
            },
    {
        match self {
            ApiResponse::Error(error) => Err(ApodError::ApodApiError(error)),
            ApiResponse::One(response) => Ok(vec![response]),
            ApiResponse::Many(responses) => Ok(responses),
        }
    }
}

/// `r` is the outcome of decoding the payload `v` of a successful response.
pub open spec fn payload_outcome(v: JsonValue, r: Result<Vec<ApodResponse>, StellariaError>) -> bool {
    match v {
        JsonValue::Object(o) => if is_error_shape(o@) {
            r matches Err(StellariaError::ApiError(ApiError::ApodError(ApodError::ApodApiError(e))))
                && error_from(e, o@)
        } else if is_record_shape(o@) {
            r matches Ok(recs) && recs@.len() == 1 && record_from(recs@[0], o@)
        } else {
            r matches Err(StellariaError::DecodeError)
        },
        JsonValue::Array(a) => if all_records(a@) {
            r matches Ok(recs) && recs@.len() == a@.len() && forall|i: int|
                0 <= i < a@.len() ==> record_from(#[trigger] recs@[i], a@[i]->Some_0@)
        } else {
            r matches Err(StellariaError::DecodeError)
        },
        JsonValue::Scalar(_) => r matches Err(StellariaError::DecodeError),
    }
}

/// Decodes the JSON body of a successful response into its records.
pub fn decode_payload(v: &JsonValue) -> (r: Result<Vec<ApodResponse>, StellariaError>)
    ensures
        payload_outcome(*v, r),
{
    match ApiResponse::from_json(v) {
        Some(resp) => match resp.parse() {
            Ok(recs) => Ok(recs),
            Err(e) => Err(StellariaError::ApiError(ApiError::ApodError(e))),
        },
        None => Err(StellariaError::DecodeError),
    }
}

/// The endpoint's address, without the key's value.
pub open spec fn endpoint_prefix() -> Seq<char> {
    "https://api.nasa.gov/planetary/apod?api_key="@
}

/// The picture-of-the-day endpoint: the API key and the HTTP client it sends with.
pub struct ApodApi {
    api_key: String,
    reqwest_client: reqwest::Client,
}

impl ApodApi {
    pub closed spec fn spec_api_key(&self) -> Seq<char> {
        self.api_key@
    }

    pub closed spec fn spec_client(&self) -> reqwest::Client {
        self.reqwest_client
    }

    pub fn new(api_key: String, reqwest_client: reqwest::Client) -> (r: Self)
        ensures
            r.spec_api_key() == api_key@,
            r.spec_client() == reqwest_client,
    {
        ApodApi { api_key, reqwest_client }
    }

    pub fn api_key(&self) -> (r: &String)
        ensures
            r@ == self.spec_api_key(),
    {
        &self.api_key
    }

    pub fn http_client(&self) -> (r: &reqwest::Client)
        ensures
            *r == self.spec_client(),
    {
        &self.reqwest_client
    }

    /// The address a request goes to: the endpoint with the key as query parameter.
    pub fn request_url(&self) -> (r: String)
        ensures
            r@ == endpoint_prefix() + self.spec_api_key(),
    {
        let mut url = String::from_str("https://api.nasa.gov/planetary/apod?api_key=");
        url.append(self.api_key.as_str());
        url
    }
}

/// An object that has the error shape decodes as that error, whatever
/// record fields it also has.
pub proof fn lemma_error_shape_first(o: JsonObject, r: Result<Vec<ApodResponse>, StellariaError>)
    requires
        is_error_shape(o@),
        payload_outcome(JsonValue::Object(o), r),
    ensures
        r matches Err(StellariaError::ApiError(ApiError::ApodError(ApodError::ApodApiError(e))))
            && error_from(e, o@),
{
}

/// The error for a failed response keeps exactly the first
/// `MAX_ERROR_CHARS` characters of a longer body.
pub proof fn lemma_long_body_truncated(body: Seq<char>)
    requires
        body.len() > MAX_ERROR_CHARS,
    ensures
        truncated(body).len() == MAX_ERROR_CHARS,
        forall|i: int| 0 <= i < MAX_ERROR_CHARS ==> #[trigger] truncated(body)[i] == body[i],
{
}

/// An empty array decodes to no records, not to an error.
pub proof fn lemma_empty_array(a: Vec<Option<JsonObject>>, r: Result<Vec<ApodResponse>, StellariaError>)
    requires
        a@.len() == 0,
        payload_outcome(JsonValue::Array(a), r),
    ensures
        r matches Ok(recs) && recs@.len() == 0,
{
}

/// `r` is the outcome of a request answered with `status` and `body`, where
/// `payload` is the body read as JSON: a failed status gives its error from
/// the body's text alone, a body that is not JSON gives its parse error, and
/// any other body is decoded.
pub open spec fn response_outcome(
    status: u16,
    body: Seq<char>,
    payload: Result<JsonValue, serde_json::Error>,
    r: Result<Vec<ApodResponse>, StellariaError>,
) -> bool {
    if !is_success_status(status) {
        r matches Err(StellariaError::ApiError(ApiError::ApodError(ApodError::ApodApiError(e))))
            && e.code == status && e.msg@ == truncated(body) && e.service_version@ == "unknown"@
    } else {
        match payload {
            Err(j) => r == Err::<Vec<ApodResponse>, StellariaError>(StellariaError::JsonError(j)),
            Ok(v) => payload_outcome(v, r),
        }
    }
}

/// Turns the answer to a request into records or an error.
pub fn interpret_response(status: u16, body: &str, payload: Result<JsonValue, serde_json::Error>) -> (r:
    Result<Vec<ApodResponse>, StellariaError>)
    ensures
        response_outcome(status, body@, payload, r),
{
    if let Err(e) = check_status(status, body) {
        return Err(StellariaError::ApiError(ApiError::ApodError(ApodError::ApodApiError(e))));
    }
    match payload {
        Err(j) => Err(StellariaError::JsonError(j)),
        Ok(v) => decode_payload(&v),
    }
}

/// A successful answer whose body has the error shape is that error, whatever
/// record fields it also has.
pub proof fn lemma_response_error_shape_first(
    status: u16,
    body: Seq<char>,
    o: JsonObject,
    r: Result<Vec<ApodResponse>, StellariaError>,
)
    requires
        is_success_status(status),
        is_error_shape(o@),
        response_outcome(status, body, Ok(JsonValue::Object(o)), r),
    ensures
        r matches Err(StellariaError::ApiError(ApiError::ApodError(ApodError::ApodApiError(e))))
            && error_from(e, o@),
{
}

/// A failed answer with a body longer than `MAX_ERROR_CHARS` characters is
/// an error with the status as code, exactly the first `MAX_ERROR_CHARS`
/// characters of the body as message and `unknown` as version, whatever the
/// body is.
pub proof fn lemma_failed_status_short_circuit(
    status: u16,
    body: Seq<char>,
    payload: Result<JsonValue, serde_json::Error>,
    r: Result<Vec<ApodResponse>, StellariaError>,
)
    requires
        !is_success_status(status),
        body.len() > MAX_ERROR_CHARS,
        response_outcome(status, body, payload, r),
    ensures
        r matches Err(StellariaError::ApiError(ApiError::ApodError(ApodError::ApodApiError(e))))
            && e.code == status && e.service_version@ == "unknown"@ && e.msg@.len() == MAX_ERROR_CHARS
            && e.msg@ == body.take(MAX_ERROR_CHARS as int),
{
}

} // verus!
