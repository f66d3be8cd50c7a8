use crate::error::{
    api_error_view, decode_bangumi_error, error_of_json, ApiError, ApiErrorData,
};
use crate::json::{
    json_view, list_of_json, list_view, parse_json, parsed_json, JsonCodec, JsonData, JsonValue,
};
use crate::model::{paged_of_json, Paged};
use vstd::prelude::*;
use vstd::string::StringExecFns;

verus! {

/// The HTTP method of a request to the catalog server.
#[derive(Clone, Copy, Debug, PartialEq, Eq, Structural)]
pub enum HttpMethod {
    Get,
    Post,
    Put,
    Patch,
    Delete,
}

/// A fully built request, ready for a transport to send: the method, the
/// absolute URL, the query parameters in order, the headers in order, and
/// an optional JSON body. Built fresh for each call and never reused.
#[derive(Debug)]
pub struct HttpRequest {
    pub method: HttpMethod,
    pub url: String,
    pub query: Vec<(String, String)>,
    pub headers: Vec<(String, String)>,
    pub body: Option<JsonValue>,
}

/// The view of a name/value pair list: each text as its character sequence.
pub open spec fn pairs_view(q: Seq<(String, String)>) -> Seq<(Seq<char>, Seq<char>)> {
    q.map_values(|p: (String, String)| (p.0@, p.1@))
}

/// The view of an optional JSON body.
pub open spec fn body_view(b: Option<JsonValue>) -> Option<JsonData> {
    match b {
        Some(j) => Some(json_view(j)),
        None => None,
    }
}

/// The client configuration: the base URL of the service, an optional
/// User-Agent text identifying the caller, and an optional bearer token
/// for authenticated endpoints. Immutable after construction; the
/// transport handle that sends the built requests lives outside the
/// library. No default token exists: credentials are always the
/// caller's own choice.
#[derive(Debug)]
pub struct BangumiClient {
    pub base_path: String,
    pub user_agent: Option<String>,
    pub access_token: Option<String>,
}

/// The headers every request of a client carries: the User-Agent pair if
/// one is configured, then the bearer Authorization pair if a token is
/// configured, and nothing else.
pub open spec fn spec_headers(c: BangumiClient) -> Seq<(Seq<char>, Seq<char>)> {
    (match c.user_agent {
        Some(ua) => seq![("User-Agent"@, ua@)],
        None => Seq::<(Seq<char>, Seq<char>)>::empty(),
    }) + (match c.access_token {
        Some(tok) => seq![("Authorization"@, "Bearer "@ + tok@)],
        None => Seq::<(Seq<char>, Seq<char>)>::empty(),
    })
}

impl BangumiClient {
    /// A client for the given service, with the caller's own identification
    /// and credentials.
    pub fn new(base_path: String, user_agent: Option<String>, access_token: Option<String>) -> (r:
        Self)
        ensures
            r.base_path@ == base_path@,
            match (r.user_agent, user_agent) {
                (Some(a), Some(b)) => a@ == b@,
                (None, None) => true,
                _ => false,
            },
            match (r.access_token, access_token) {
                (Some(a), Some(b)) => a@ == b@,
                (None, None) => true,
                _ => false,
            },
    {
        BangumiClient { base_path, user_agent, access_token }
    }

    /// A request for the given method and URL with the client's headers
    /// attached and nothing else: no query parameters and no body yet.
    pub fn request_builder(&self, method: HttpMethod, url: &str) -> (r: HttpRequest)
        ensures
            r.method == method,
            r.url@ == url@,
            pairs_view(r.query@) == Seq::<(Seq<char>, Seq<char>)>::empty(),
            pairs_view(r.headers@) == spec_headers(*self),
            r.body is None,
    {
        let mut headers: Vec<(String, String)> = Vec::new();
        if let Some(ua) = &self.user_agent {
            headers.push(("User-Agent".to_owned(), ua.clone()));
        }
        if let Some(tok) = &self.access_token {
            headers.push(("Authorization".to_owned(), "Bearer ".to_owned().concat(tok.as_str())));
        }
        let r = HttpRequest {
            method,
            url: url.to_owned(),
            query: Vec::new(),
            headers,
            body: None,
        };
        proof {
            assert(pairs_view(r.query@) =~= Seq::<(Seq<char>, Seq<char>)>::empty());
            assert(pairs_view(r.headers@) =~= spec_headers(*self));
        }
        r
    }
}

/// No configured token, no Authorization header: with `access_token`
/// absent no header pair of any request is named Authorization, and with
/// a token configured exactly one is, carrying the bearer form of that
/// token.
pub proof fn lemma_authorization_header(c: BangumiClient)
    ensures
        c.access_token is None ==> forall|i: int|
            0 <= i < spec_headers(c).len() ==> #[trigger] spec_headers(c)[i].0 != "Authorization"@,
        c.access_token matches Some(tok) ==> exists|i: int|
            0 <= i < spec_headers(c).len() && #[trigger] spec_headers(c)[i] == (
            "Authorization"@,
            "Bearer "@ + tok@,
            ),
{
    reveal_strlit("User-Agent");
    reveal_strlit("Authorization");
    if c.access_token is None {
        let hs = spec_headers(c);
        assert forall|i: int| 0 <= i < hs.len() implies #[trigger] hs[i].0 != "Authorization"@ by {
            assert(hs[i].0 == "User-Agent"@);
        }
    }
    if c.access_token is Some {
        let tok = c.access_token->0;
        let hs = spec_headers(c);
        if c.user_agent is Some {
            assert(hs[1] == ("Authorization"@, "Bearer "@ + tok@));
        } else {
            assert(hs[0] == ("Authorization"@, "Bearer "@ + tok@));
        }
    }
}

/// A failure response whose body matches the error schema always comes
/// back as the server's structured error, with the path and method the
/// body carries preserved unchanged; one whose body does not parse or
/// does not match comes back as a decode failure keeping the raw status
/// and body.
pub proof fn lemma_failure_classification(status: u16, body: Seq<char>)
    ensures
        (match parsed_json(body) {
            Some(jd) => error_of_json(jd) is Some,
            None => false,
        }) ==> spec_failure(status, body) == ApiErrorData::Server(
            status,
            error_of_json(parsed_json(body)->0)->0,
        ),
        (match parsed_json(body) {
            Some(jd) => error_of_json(jd) is None,
            None => true,
        }) ==> spec_failure(status, body) == ApiErrorData::Decode(status, body),
{
}

/// On a success status, a call that returns a record succeeds exactly when
/// the body parses and decodes, and a malformed body is a decode failure,
/// never anything else; on any other status the call fails with the
/// classified failure.
pub proof fn lemma_record_response_classification<T: JsonCodec>(status: u16, body: Seq<char>)
    ensures
        200 <= status < 300 ==> (spec_record_response::<T>(status, body) is Ok <==> (
        parsed_json(body) matches Some(jd) && T::of_json(jd) is Some)),
        200 <= status < 300 && parsed_json(body) is None ==> spec_record_response::<T>(
            status,
            body,
        ) == Err::<T::Data, ApiErrorData>(ApiErrorData::Decode(status, body)),
        !(200 <= status < 300) ==> spec_record_response::<T>(status, body) == Err::<
            T::Data,
            ApiErrorData,
        >(spec_failure(status, body)),
{
}

/// Whether an HTTP status code counts as success: any code in [200, 300)
/// is success, everything else is a failure to be classified.
pub fn is_success_status(status: u16) -> (r: bool)
    ensures
        r == (200 <= status < 300),
{
    200 <= status && status < 300
}

/// How a failure response is classified: if the body parses and matches
/// the error schema the failure is the server's structured error, else it
/// is a decode failure keeping the raw status and body.
pub open spec fn spec_failure(status: u16, body: Seq<char>) -> ApiErrorData {
    match parsed_json(body) {
        Some(jd) => match error_of_json(jd) {
            Some(e) => ApiErrorData::Server(status, e),
            None => ApiErrorData::Decode(status, body),
        },
        None => ApiErrorData::Decode(status, body),
    }
}

/// Classifies the body of a failure response.
pub fn failure_of_response(status: u16, body: &str) -> (r: ApiError)
    ensures
        api_error_view(r) == spec_failure(status, body@),
{
    match parse_json(body) {
        Some(j) => match decode_bangumi_error(&j) {
            Some(e) => ApiError::Server(status, e),
            None => ApiError::Decode(status, body.to_owned()),
        },
        None => ApiError::Decode(status, body.to_owned()),
    }
}

/// What a call whose success body is ignored returns for each response:
/// success exactly on a success status, the classified failure otherwise.
pub open spec fn spec_unit_response(status: u16, body: Seq<char>) -> Result<(), ApiErrorData> {
    if 200 <= status < 300 {
        Ok(())
    } else {
        Err(spec_failure(status, body))
    }
}

/// Classifies a response whose success body carries nothing the caller
/// needs: `Ok` exactly on a success status.
pub fn unit_response(status: u16, body: &str) -> (r: Result<(), ApiError>)
    ensures
        match r {
            Ok(u) => spec_unit_response(status, body@) is Ok,
            Err(e) => spec_unit_response(status, body@) == Err::<(), ApiErrorData>(
                api_error_view(e),
            ),
        },
        r is Ok <==> 200 <= status < 300,
{
    if is_success_status(status) {
        Ok(())
    } else {
        Err(failure_of_response(status, body))
    }
}

/// Appends one name/value pair to a query under construction.
pub fn query_push(q: &mut Vec<(String, String)>, key: &str, value: String)
    ensures
        pairs_view(final(q)@) == pairs_view(old(q)@) + seq![(key@, value@)],
{
    let ghost gv = value@;
    q.push((key.to_owned(), value));
    proof {
        assert(pairs_view(q@) =~= pairs_view(old(q)@) + seq![(key@, gv)]);
    }
}

/// An optional query pair: present exactly when the caller supplied the
/// value, absent otherwise — never an empty placeholder.
pub open spec fn opt_pair(key: Seq<char>, v: Option<Seq<char>>) -> Seq<(Seq<char>, Seq<char>)> {
    match v {
        Some(s) => seq![(key, s)],
        None => Seq::empty(),
    }
}

/// What a call that returns one record gives back for each response:
/// the decoded record exactly when the status is a success and the body
/// parses and decodes; a decode failure on a success status otherwise;
/// the classified failure on any other status.
pub open spec fn spec_record_response<T: JsonCodec>(status: u16, body: Seq<char>) -> Result<
    T::Data,
    ApiErrorData,
> {
    if 200 <= status < 300 {
        match parsed_json(body) {
            Some(jd) => match T::of_json(jd) {
                Some(d) => Ok(d),
                None => Err(ApiErrorData::Decode(status, body)),
            },
            None => Err(ApiErrorData::Decode(status, body)),
        }
    } else {
        Err(spec_failure(status, body))
    }
}

/// Classifies and decodes a response that carries one record.
pub fn record_response<T: JsonCodec>(status: u16, body: &str) -> (r: Result<T, ApiError>)
    ensures
        match r {
            Ok(x) => spec_record_response::<T>(status, body@) == Ok::<T::Data, ApiErrorData>(
                x.view_data(),
            ),
            Err(e) => spec_record_response::<T>(status, body@) == Err::<T::Data, ApiErrorData>(
                api_error_view(e),
            ),
        },
{
    if !is_success_status(status) {
        return Err(failure_of_response(status, body));
    }
    match parse_json(body) {
        Some(j) => match T::decode(&j) {
            Some(x) => Ok(x),
            None => Err(ApiError::Decode(status, body.to_owned())),
        },
        None => Err(ApiError::Decode(status, body.to_owned())),
    }
}

/// What a call that returns a bare list of records gives back for each
/// response, under the same classification as `spec_record_response`.
pub open spec fn spec_list_response<T: JsonCodec>(status: u16, body: Seq<char>) -> Result<
    Seq<T::Data>,
    ApiErrorData,
> {
    if 200 <= status < 300 {
        match parsed_json(body) {
            Some(JsonData::Arr(items)) => match list_of_json::<T>(items) {
                Some(ds) => Ok(ds),
                None => Err(ApiErrorData::Decode(status, body)),
            },
            Some(_) => Err(ApiErrorData::Decode(status, body)),
            None => Err(ApiErrorData::Decode(status, body)),
        }
    } else {
        Err(spec_failure(status, body))
    }
}

/// Classifies and decodes a response that carries a bare list of records.
pub fn list_response<T: JsonCodec>(status: u16, body: &str) -> (r: Result<Vec<T>, ApiError>)
    ensures
        match r {
            Ok(xs) => spec_list_response::<T>(status, body@) == Ok::<Seq<T::Data>, ApiErrorData>(
                list_view(xs@),
            ),
            Err(e) => spec_list_response::<T>(status, body@) == Err::<Seq<T::Data>, ApiErrorData>(
                api_error_view(e),
            ),
        },
{
    if !is_success_status(status) {
        return Err(failure_of_response(status, body));
    }
    match parse_json(body) {
        Some(j) => match j {
            JsonValue::Arr(items) => match crate::json::decode_list::<T>(&items) {
                Some(xs) => Ok(xs),
                None => Err(ApiError::Decode(status, body.to_owned())),
            },
            _ => Err(ApiError::Decode(status, body.to_owned())),
        },
        None => Err(ApiError::Decode(status, body.to_owned())),
    }
}

/// The view of a decoded page of records.
pub struct PagedData<D> {
    pub total: u32,
    pub limit: u32,
    pub offset: u32,
    pub data: Option<Seq<D>>,
}

pub open spec fn paged_view<T: JsonCodec>(p: Paged<T>) -> PagedData<T::Data> {
    PagedData {
        total: p.total,
        limit: p.limit,
        offset: p.offset,
        data: match p.data {
            Some(v) => Some(list_view(v@)),
            None => None,
        },
    }
}

/// What the pagination envelope with typed items decodes to: the envelope
/// must be well formed, and every item must decode; an absent or null
/// item list stays absent.
pub open spec fn paged_list_of_json<T: JsonCodec>(jd: JsonData) -> Option<PagedData<T::Data>> {
    match paged_of_json(jd) {
        Some(raw) => match raw.data {
            Some(items) => match list_of_json::<T>(items) {
                Some(ds) => Some(
                    PagedData {
                        total: raw.total,
                        limit: raw.limit,
                        offset: raw.offset,
                        data: Some(ds),
                    },
                ),
                None => None,
            },
            None => Some(
                PagedData { total: raw.total, limit: raw.limit, offset: raw.offset, data: None },
            ),
        },
        None => None,
    }
}

/// Decodes a pagination envelope and every item in it.
pub fn decode_paged_list<T: JsonCodec>(v: &JsonValue) -> (r: Option<Paged<T>>)
    ensures
        match r {
            Some(p) => paged_list_of_json::<T>(json_view(*v)) == Some(paged_view(p)),
            None => paged_list_of_json::<T>(json_view(*v)) is None,
        },
{
    let raw = match crate::model::decode_paged(v) {
        Some(raw) => raw,
        None => {
            return None;
        },
    };
    let total = raw.total;
    let limit = raw.limit;
    let offset = raw.offset;
    match raw.data {
        Some(items) => match crate::json::decode_list::<T>(&items) {
            Some(xs) => Some(Paged { total, limit, offset, data: Some(xs) }),
            None => None,
        },
        None => Some(Paged { total, limit, offset, data: None }),
    }
}

/// What a call that returns a page of records gives back for each
/// response, under the same classification as `spec_record_response`.
pub open spec fn spec_paged_response<T: JsonCodec>(status: u16, body: Seq<char>) -> Result<
    PagedData<T::Data>,
    ApiErrorData,
> {
    if 200 <= status < 300 {
        match parsed_json(body) {
            Some(jd) => match paged_list_of_json::<T>(jd) {
                Some(p) => Ok(p),
                None => Err(ApiErrorData::Decode(status, body)),
            },
            None => Err(ApiErrorData::Decode(status, body)),
        }
    } else {
        Err(spec_failure(status, body))
    }
}

/// Classifies and decodes a response that carries a page of records.
pub fn paged_response<T: JsonCodec>(status: u16, body: &str) -> (r: Result<Paged<T>, ApiError>)
    ensures
        match r {
            Ok(p) => spec_paged_response::<T>(status, body@) == Ok::<
                PagedData<T::Data>,
                ApiErrorData,
            >(paged_view(p)),
            Err(e) => spec_paged_response::<T>(status, body@) == Err::<
                PagedData<T::Data>,
                ApiErrorData,
            >(api_error_view(e)),
        },
{
    if !is_success_status(status) {
        return Err(failure_of_response(status, body));
    }
    match parse_json(body) {
        Some(j) => match decode_paged_list::<T>(&j) {
            Some(p) => Ok(p),
            None => Err(ApiError::Decode(status, body.to_owned())),
        },
        None => Err(ApiError::Decode(status, body.to_owned())),
    }
}

} // verus!
