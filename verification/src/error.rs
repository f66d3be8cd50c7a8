use crate::json::{
    data_field, field_opt_str, field_str, get_field, json_view, spec_field_opt_str, spec_field_str,
    JsonData, JsonValue,
};
use vstd::prelude::*;

verus! {

/// The context part of the error body the catalog server sends when a
/// request fails: the concrete message, and the path and method of the
/// request the server saw.
#[derive(Debug)]
pub struct BangumiErrordetails {
    pub error: Option<String>,
    pub path: String,
    pub method: String,
}

/// The error body the catalog server sends when a request fails.
#[derive(Debug)]
pub struct BangumiError {
    pub title: String,
    pub details: BangumiErrordetails,
    pub request_id: Option<String>,
    pub description: String,
}

/// The view of `BangumiErrordetails`.
pub struct ErrorDetailsData {
    pub error: Option<Seq<char>>,
    pub path: Seq<char>,
    pub method: Seq<char>,
}

/// The view of `BangumiError`.
pub struct BangumiErrorData {
    pub title: Seq<char>,
    pub details: ErrorDetailsData,
    pub request_id: Option<Seq<char>>,
    pub description: Seq<char>,
}

pub open spec fn opt_str_view(s: Option<String>) -> Option<Seq<char>> {
    match s {
        Some(x) => Some(x@),
        None => None,
    }
}

pub open spec fn details_view(d: BangumiErrordetails) -> ErrorDetailsData {
    ErrorDetailsData { error: opt_str_view(d.error), path: d.path@, method: d.method@ }
}

pub open spec fn error_view(e: BangumiError) -> BangumiErrorData {
    BangumiErrorData {
        title: e.title@,
        details: details_view(e.details),
        request_id: opt_str_view(e.request_id),
        description: e.description@,
    }
}

/// What the details object of an error body decodes to, if it is well
/// formed: a `path` and a `method` member are required, the `error`
/// member may be absent or null.
pub open spec fn details_of_json(jd: JsonData) -> Option<ErrorDetailsData> {
    match (spec_field_opt_str(jd, "error"@), spec_field_str(jd, "path"@), spec_field_str(
        jd,
        "method"@,
    )) {
        (Some(e), Some(p), Some(m)) => Some(ErrorDetailsData { error: e, path: p, method: m }),
        _ => None,
    }
}

/// What an error body decodes to, if it is well formed: `title`,
/// `description` and a well-formed `details` object are required, the
/// tracing id may be absent or null.
pub open spec fn error_of_json(jd: JsonData) -> Option<BangumiErrorData> {
    match (spec_field_str(jd, "title"@), spec_field_str(jd, "description"@), spec_field_opt_str(
        jd,
        "request_id"@,
    )) {
        (Some(t), Some(desc), Some(rid)) => match data_field(jd, "details"@) {
            Some(d) => match details_of_json(d) {
                Some(dd) => Some(
                    BangumiErrorData { title: t, details: dd, request_id: rid, description: desc },
                ),
                None => None,
            },
            None => None,
        },
        _ => None,
    }
}

fn decode_details(v: &JsonValue) -> (r: Option<BangumiErrordetails>)
    ensures
        match r {
            Some(d) => details_of_json(json_view(*v)) == Some(details_view(d)),
            None => details_of_json(json_view(*v)) is None,
        },
{
    let error = match field_opt_str(v, "error") {
        Some(e) => e,
        None => {
            return None;
        },
    };
    let path = match field_str(v, "path") {
        Some(p) => p,
        None => {
            return None;
        },
    };
    let method = match field_str(v, "method") {
        Some(m) => m,
        None => {
            return None;
        },
    };
    Some(BangumiErrordetails { error, path, method })
}

/// Decodes the server's error body from its parsed JSON form.
pub fn decode_bangumi_error(v: &JsonValue) -> (r: Option<BangumiError>)
    ensures
        match r {
            Some(e) => error_of_json(json_view(*v)) == Some(error_view(e)),
            None => error_of_json(json_view(*v)) is None,
        },
{
    let title = match field_str(v, "title") {
        Some(t) => t,
        None => {
            return None;
        },
    };
    let description = match field_str(v, "description") {
        Some(d) => d,
        None => {
            return None;
        },
    };
    let request_id = match field_opt_str(v, "request_id") {
        Some(r) => r,
        None => {
            return None;
        },
    };
    let details = match get_field(v, "details") {
        Some(d) => match decode_details(d) {
            Some(d) => d,
            None => {
                return None;
            },
        },
        None => {
            return None;
        },
    };
    Some(BangumiError { title, details, request_id, description })
}

/// How a call can fail: the request never got an answer, the server
/// answered with a failure status and a well-formed error body, or a
/// body (of a success or of a failure) did not have the expected shape.
/// The latter two keep the status code; a decode failure also keeps the
/// raw body for diagnostics.
#[derive(Debug)]
pub enum ApiError {
    Transport(String),
    Server(u16, BangumiError),
    Decode(u16, String),
}

/// The view of `ApiError`.
pub enum ApiErrorData {
    Transport(Seq<char>),
    Server(u16, BangumiErrorData),
    Decode(u16, Seq<char>),
}

pub open spec fn api_error_view(e: ApiError) -> ApiErrorData {
    match e {
        ApiError::Transport(m) => ApiErrorData::Transport(m@),
        ApiError::Server(status, b) => ApiErrorData::Server(status, error_view(b)),
        ApiError::Decode(status, body) => ApiErrorData::Decode(status, body@),
    }
}

} // verus!
