//! A typed client for the Astronomy Picture of the Day service.
use vstd::prelude::*;

pub mod apod;
pub mod date;
pub mod json;
pub mod params;

verus! {

#[verifier::external_type_specification]
#[verifier::external_body]
pub struct ExReqwestError(reqwest::Error);

#[verifier::external_type_specification]
#[verifier::external_body]
pub struct ExJsonError(serde_json::Error);

#[verifier::external_type_specification]
#[verifier::external_body]
pub struct ExReqwestClient(reqwest::Client);

/// The client: the picture-of-the-day endpoint and the API token it uses.
pub struct StellariaClient {
    pub apod: apod::ApodApi,
    pub api_token: String,
}

/// A failure of a call through the client.
#[derive(Debug)]
#[non_exhaustive]
pub enum StellariaError {
    /// The HTTP transport failed.
    RequestError(reqwest::Error),
    /// The service reported a failure, or the parameters were rejected.
    ApiError(ApiError),
    /// The body was not JSON.
    JsonError(serde_json::Error),
    /// The body was JSON of none of the shapes the endpoint answers with.
    DecodeError,
}

/// A failure of one of the service's endpoints.
#[derive(Debug, Clone, PartialEq, Eq)]
#[non_exhaustive]
pub enum ApiError {
    ApodError(apod::ApodError),
}

/// Relies on `reqwest::Error`'s `Display`: the error's description.
#[verifier::external_body]
fn request_error_text(e: &reqwest::Error) -> String {
    format!("{}", e)
}

/// Relies on `serde_json::Error`'s `Display`: the error's description.
#[verifier::external_body]
fn json_error_text(e: &serde_json::Error) -> String {
    format!("{}", e)
}

impl ApiError {
    pub open spec fn text(&self) -> Seq<char> {
        match self {
            ApiError::ApodError(e) => e.text(),
        }
    }

    /// The error in words.
    pub fn to_string(&self) -> (r: String)
        ensures
            r@ == self.text(),
    {
        match self {
            ApiError::ApodError(e) => e.to_string(),
        }
    }
}

impl StellariaError {
    /// The error in words; a failure of the service reads as its own text.
    pub fn to_string(&self) -> (r: String)
        ensures
            self matches StellariaError::ApiError(e) ==> r@ == e.text(),
            self matches StellariaError::DecodeError ==> r@ == "unexpected response shape"@,
            self matches StellariaError::RequestError(_) ==> exists|t: Seq<char>|
                r@ == "invalid http request: "@ + t,
            self matches StellariaError::JsonError(_) ==> exists|t: Seq<char>|
                r@ == "error in parsing json: "@ + t,
    {
        match self {
            StellariaError::RequestError(e) => {
                let mut s = String::from_str("invalid http request: ");
                let t = request_error_text(e);
                s.append(t.as_str());
                assert(s@ == "invalid http request: "@ + t@);
                s
            },
            StellariaError::ApiError(e) => e.to_string(),
            StellariaError::JsonError(e) => {
                let mut s = String::from_str("error in parsing json: ");
                let t = json_error_text(e);
                s.append(t.as_str());
                assert(s@ == "error in parsing json: "@ + t@);
                s
            },
            StellariaError::DecodeError => String::from_str("unexpected response shape"),
        }
    }
}

impl StellariaClient {
    /// A client for the given token, over the given HTTP client.
    pub fn new(api_token: String, reqwest_client: reqwest::Client) -> (r: Self)
        ensures
            r.api_token@ == api_token@,
            r.apod.spec_api_key() == api_token@,
            r.apod.spec_client() == reqwest_client,
    {
        let token = api_token.clone();
        StellariaClient { api_token, apod: apod::ApodApi::new(token, reqwest_client) }
    }
}

impl From<apod::ApodError> for StellariaError {
    fn from(err: apod::ApodError) -> (r: Self)
        ensures
            r == StellariaError::ApiError(ApiError::ApodError(err)),
    {
        StellariaError::ApiError(ApiError::ApodError(err))
    }
}

impl vstd::std_specs::convert::FromSpecImpl<apod::ApodError> for StellariaError {
    open spec fn obeys_from_spec() -> bool {
        true
    }

    open spec fn from_spec(err: apod::ApodError) -> StellariaError {
        StellariaError::ApiError(ApiError::ApodError(err))
    }
}

impl From<apod::ApodApiError> for StellariaError {
    fn from(err: apod::ApodApiError) -> (r: Self)
        ensures
            r == StellariaError::ApiError(ApiError::ApodError(apod::ApodError::ApodApiError(err))),
    {
        StellariaError::ApiError(ApiError::ApodError(apod::ApodError::ApodApiError(err)))
    }
}

impl vstd::std_specs::convert::FromSpecImpl<apod::ApodApiError> for StellariaError {
    open spec fn obeys_from_spec() -> bool {
        true
    }

    open spec fn from_spec(err: apod::ApodApiError) -> StellariaError {
        StellariaError::ApiError(ApiError::ApodError(apod::ApodError::ApodApiError(err)))
    }
}

} // verus!
