use vstd::prelude::*;
use std::rc::Rc;
use crate::errors::ApiError;
use crate::errors::ConstructionError;
use crate::errors::HeaderError;
use crate::transport::header_name_valid;
use crate::transport::header_value_valid;
use crate::transport::json_parses;
use crate::transport::parse_header_name_ok;
use crate::transport::parse_header_value_ok;
use crate::transport::parse_json_value;
use crate::transport::parse_url_ok;
use crate::transport::response_bytes;
use crate::transport::response_headers;
use crate::transport::response_status;
use crate::transport::send_multipart;
use crate::transport::send_request;
use crate::transport::url_ok;
use crate::util::append_query;
use crate::util::spec_append_query;
use crate::util::spec_url_join;
use crate::util::url_join;

verus! {

/// The verb a builder chain was opened with.
#[derive(Clone, Copy, Debug, PartialEq, Eq, Structural)]
pub enum HttpMethod {
    Get,
    Post,
    Put,
}

/// The payload the pending request will be sent with.
pub enum RequestBody {
    /// No payload: the chain was opened with `get`.
    Empty,
    /// A JSON payload, already encoded.
    Json(Vec<u8>),
    /// A multipart form handed over by the caller.
    Multipart(reqwest::blocking::multipart::Form),
}

/// What the specification sees of a payload. A multipart form is opaque to
/// the model: only its presence is recorded.
pub ghost enum BodyView {
    Empty,
    Json(Seq<u8>),
    Multipart,
}

impl View for RequestBody {
    type V = BodyView;

    open spec fn view(&self) -> BodyView {
        match self {
            RequestBody::Empty => BodyView::Empty,
            RequestBody::Json(b) => BodyView::Json(b@),
            RequestBody::Multipart(_) => BodyView::Multipart,
        }
    }
}

/// An in-progress HTTP request, held as plain values: the verb, the URL text
/// accumulated so far, the header pairs to send, and the payload.
pub struct RequestModel {
    pub method: HttpMethod,
    pub url: String,
    pub headers: Vec<(String, String)>,
    pub body: RequestBody,
}

/// What the specification sees of an in-progress request.
pub ghost struct ModelView {
    pub method: HttpMethod,
    pub url: Seq<char>,
    pub headers: Seq<(Seq<char>, Seq<char>)>,
    pub body: BodyView,
}

/// The header pairs as the specification sees them.
pub open spec fn headers_view(hs: Seq<(String, String)>) -> Seq<(Seq<char>, Seq<char>)> {
    hs.map_values(|p: (String, String)| (p.0@, p.1@))
}

impl View for RequestModel {
    type V = ModelView;

    open spec fn view(&self) -> ModelView {
        ModelView {
            method: self.method,
            url: self.url@,
            headers: headers_view(self.headers@),
            body: self.body@,
        }
    }
}

/// The central entity threaded through every builder state: either a live
/// in-progress request, or the construction error that ended the chain, plus
/// the staged value of a query parameter awaiting its key.
pub struct PendingRequest {
    pub(crate) client: Rc<reqwest::blocking::Client>,
    pub(crate) request: Result<RequestModel, ConstructionError>,
    pub(crate) parameter: Option<String>,
}

/// What the specification sees of a pending request. The transport handle is
/// opaque and does not appear.
pub ghost struct PendingView {
    pub request: Result<ModelView, ConstructionError>,
    pub parameter: Option<Seq<char>>,
}

impl View for PendingRequest {
    type V = PendingView;

    closed spec fn view(&self) -> PendingView {
        PendingView {
            request: match self.request {
                Ok(m) => Ok(m@),
                Err(e) => Err(e),
            },
            parameter: match self.parameter {
                Some(s) => Some(s@),
                None => None,
            },
        }
    }
}

/// The headers every fresh chain starts with.
pub open spec fn spec_default_headers() -> Seq<(Seq<char>, Seq<char>)> {
    seq![
        ("Content-Type"@, "application/json"@),
        ("User-Agent"@, "bardo-confluence"@),
        ("Accept"@, "application/json"@),
    ]
}

/// The request a fresh chain starts with: the verb, the host as its URL, the
/// default headers and no payload — or an invalid-URL error when the host
/// does not parse.
pub open spec fn spec_new_pending(method: HttpMethod, host: Seq<char>) -> Result<
    ModelView,
    ConstructionError,
> {
    if url_ok(host) {
        Ok(
            ModelView {
                method,
                url: host,
                headers: spec_default_headers(),
                body: BodyView::Empty,
            },
        )
    } else {
        Err(ConstructionError::InvalidUrl)
    }
}

/// A fixed-segment transition: an existing error is forwarded unchanged;
/// otherwise the segment is joined onto the URL, and the request keeps its
/// verb, headers and payload — or turns into an invalid-URL error when the
/// joined text no longer parses.
pub open spec fn spec_segment_step(
    r: Result<ModelView, ConstructionError>,
    seg: Seq<char>,
) -> Result<ModelView, ConstructionError> {
    match r {
        Err(e) => Err(e),
        Ok(m) => {
            let joined = spec_url_join(m.url, seg);
            if url_ok(joined) {
                Ok(ModelView { url: joined, ..m })
            } else {
                Err(ConstructionError::InvalidUrl)
            }
        },
    }
}

/// A query transition: an existing error is forwarded unchanged; without a
/// staged value the chain ends with a missing-parameter error; otherwise
/// `key=value` is appended to the query string — or the chain ends with an
/// invalid-URL error when the appended text no longer parses.
pub open spec fn spec_query_step(
    r: Result<ModelView, ConstructionError>,
    key: Seq<char>,
    parameter: Option<Seq<char>>,
) -> Result<ModelView, ConstructionError> {
    match r {
        Err(e) => Err(e),
        Ok(m) => match parameter {
            None => Err(ConstructionError::MissingParameter),
            Some(value) => {
                let appended = spec_append_query(m.url, key, value);
                if url_ok(appended) {
                    Ok(ModelView { url: appended, ..m })
                } else {
                    Err(ConstructionError::InvalidUrl)
                }
            },
        },
    }
}

/// A multipart transition: an existing error is forwarded unchanged;
/// otherwise the payload becomes the form and the headers are replaced by the
/// anti-CSRF header alone, the transport adding its own multipart headers at
/// send time.
pub open spec fn spec_multipart_step(r: Result<ModelView, ConstructionError>) -> Result<
    ModelView,
    ConstructionError,
> {
    match r {
        Err(e) => Err(e),
        Ok(m) => Ok(
            ModelView {
                headers: seq![("X-Atlassian-Token"@, "nocheck"@)],
                body: BodyView::Multipart,
                ..m
            },
        ),
    }
}

/// The header list with every pair of the given name removed, the order of
/// the others kept. Names are compared exactly as given.
pub open spec fn spec_remove_header(
    hs: Seq<(Seq<char>, Seq<char>)>,
    name: Seq<char>,
) -> Seq<(Seq<char>, Seq<char>)>
    decreases hs.len(),
{
    if hs.len() == 0 {
        Seq::empty()
    } else {
        let rest = spec_remove_header(hs.drop_last(), name);
        if hs.last().0 == name {
            rest
        } else {
            rest.push(hs.last())
        }
    }
}

/// A header transition: an existing error is forwarded unchanged; otherwise
/// the pair overwrites: every earlier pair of the same name is removed, and
/// the new pair is appended, so at most one pair per set name goes on the
/// wire.
pub open spec fn spec_header_step(
    r: Result<ModelView, ConstructionError>,
    name: Seq<char>,
    value: Seq<char>,
) -> Result<ModelView, ConstructionError> {
    match r {
        Err(e) => Err(e),
        Ok(m) => Ok(
            ModelView { headers: spec_remove_header(m.headers, name).push((name, value)), ..m },
        ),
    }
}

/// A body transition: an existing error is forwarded unchanged; otherwise the
/// payload becomes the encoded bytes, or the chain ends with a serialization
/// error when the encoder reported none.
pub open spec fn spec_body_step(
    r: Result<ModelView, ConstructionError>,
    bytes: Option<Seq<u8>>,
) -> Result<ModelView, ConstructionError> {
    match r {
        Err(e) => Err(e),
        Ok(m) => match bytes {
            Some(b) => Ok(ModelView { body: BodyView::Json(b), ..m }),
            None => Err(ConstructionError::SerializeBody),
        },
    }
}

/// Errors are sticky: every transition forwards an existing construction
/// error unchanged, whatever its inputs, and mutates no URL.
pub proof fn lemma_error_sticky(
    r: Result<ModelView, ConstructionError>,
    seg: Seq<char>,
    key: Seq<char>,
    parameter: Option<Seq<char>>,
    name: Seq<char>,
    value: Seq<char>,
    bytes: Option<Seq<u8>>,
)
    requires
        r is Err,
    ensures
        spec_segment_step(r, seg) == r,
        spec_query_step(r, key, parameter) == r,
        spec_multipart_step(r) == r,
        spec_header_step(r, name, value) == r,
        spec_body_step(r, bytes) == r,
{
}

/// The view of the header list grows by the views of a pushed pair.
proof fn lemma_headers_view_push(hs: Seq<(String, String)>, p: (String, String))
    ensures
        headers_view(hs.push(p)) == headers_view(hs).push((p.0@, p.1@)),
{
    assert(headers_view(hs.push(p)) =~= headers_view(hs).push((p.0@, p.1@)));
}

/// The executable overwrite behind a header transition: every pair of the
/// same name is removed, and the new pair is appended at the end.
fn insert_header(headers: Vec<(String, String)>, name: &str, value: &str) -> (r: Vec<
    (String, String),
>)
    ensures
        headers_view(r@) == spec_remove_header(headers_view(headers@), name@).push(
            (name@, value@),
        ),
{
    let name_key = name.to_owned();
    let mut out: Vec<(String, String)> = Vec::new();
    let n = headers.len();
    let ghost hv = headers_view(headers@);
    let mut i: usize = 0;
    while i < n
        invariant
            0 <= i <= n,
            n == headers@.len(),
            hv == headers_view(headers@),
            hv.len() == n,
            name_key@ == name@,
            headers_view(out@) == spec_remove_header(hv.subrange(0, i as int), name@),
        decreases n - i,
    {
        proof {
            assert(hv.subrange(0, i as int + 1).drop_last() =~= hv.subrange(0, i as int));
            assert(hv.subrange(0, i as int + 1).last() == hv[i as int]);
            assert(hv[i as int] == (headers@[i as int].0@, headers@[i as int].1@));
        }
        if !(headers[i].0 == name_key) {
            let pair = (headers[i].0.clone(), headers[i].1.clone());
            proof {
                lemma_headers_view_push(out@, pair);
            }
            out.push(pair);
        }
        i += 1;
    }
    proof {
        assert(hv.subrange(0, n as int) =~= hv);
    }
    let pair = (name_key, value.to_owned());
    proof {
        lemma_headers_view_push(out@, pair);
    }
    out.push(pair);
    out
}

/// The view of an `Option<Vec<u8>>` payload.
pub open spec fn opt_bytes_view(bytes: Option<Vec<u8>>) -> Option<Seq<u8>> {
    match bytes {
        Some(b) => Some(b@),
        None => None,
    }
}

impl PendingRequest {
    /// Open a fresh pending request against `host` with the given verb, the
    /// default headers and no payload; an unparsable host ends the chain at
    /// once with an invalid-URL error.
    pub fn new(client: Rc<reqwest::blocking::Client>, method: HttpMethod, host: &str) -> (r:
        PendingRequest)
        ensures
            r@.request == spec_new_pending(method, host@),
            r@.parameter is None,
    {
        let request = if parse_url_ok(host) {
            let mut headers: Vec<(String, String)> = Vec::new();
            headers.push(("Content-Type".to_owned(), "application/json".to_owned()));
            headers.push(("User-Agent".to_owned(), "bardo-confluence".to_owned()));
            headers.push(("Accept".to_owned(), "application/json".to_owned()));
            proof {
                assert(headers_view(headers@) =~= spec_default_headers());
            }
            Ok(RequestModel { method, url: host.to_owned(), headers, body: RequestBody::Empty })
        } else {
            Err(ConstructionError::InvalidUrl)
        };
        PendingRequest { client, request, parameter: None }
    }

    /// Apply a fixed-segment transition and clear the staged parameter.
    pub fn with_segment(self, seg: &str) -> (r: PendingRequest)
        ensures
            r@.request == spec_segment_step(self@.request, seg@),
            r@.parameter is None,
    {
        let request = match self.request {
            Err(e) => Err(e),
            Ok(m) => {
                let joined = url_join(m.url.as_str(), seg);
                if parse_url_ok(joined.as_str()) {
                    Ok(
                        RequestModel {
                            method: m.method,
                            url: joined,
                            headers: m.headers,
                            body: m.body,
                        },
                    )
                } else {
                    Err(ConstructionError::InvalidUrl)
                }
            },
        };
        PendingRequest { client: self.client, request, parameter: None }
    }

    /// Stage the value of a query parameter; the next query transition
    /// combines it with its key.
    pub fn stage_value(self, value: &str) -> (r: PendingRequest)
        ensures
            r@.request == self@.request,
            r@.parameter == Some(value@),
    {
        PendingRequest {
            client: self.client,
            request: self.request,
            parameter: Some(value.to_owned()),
        }
    }

    /// Apply a query transition: combine the staged value with `key` and
    /// clear the staged parameter.
    pub fn resolve_query(self, key: &str) -> (r: PendingRequest)
        ensures
            r@.request == spec_query_step(self@.request, key@, self@.parameter),
            r@.parameter is None,
    {
        let request = match self.request {
            Err(e) => Err(e),
            Ok(m) => match self.parameter {
                None => Err(ConstructionError::MissingParameter),
                Some(value) => {
                    let appended = append_query(m.url.as_str(), key, value.as_str());
                    if parse_url_ok(appended.as_str()) {
                        Ok(
                            RequestModel {
                                method: m.method,
                                url: appended,
                                headers: m.headers,
                                body: m.body,
                            },
                        )
                    } else {
                        Err(ConstructionError::InvalidUrl)
                    }
                },
            },
        };
        PendingRequest { client: self.client, request, parameter: None }
    }

    /// Apply a header transition: remove every pair of the same name, then
    /// append the new pair.
    pub(crate) fn with_header(self, name: &str, value: &str) -> (r: PendingRequest)
        ensures
            r@.request == spec_header_step(self@.request, name@, value@),
            r@.parameter == self@.parameter,
    {
        match self.request {
            Err(e) => PendingRequest {
                client: self.client,
                request: Err(e),
                parameter: self.parameter,
            },
            Ok(m) => {
                let headers = insert_header(m.headers, name, value);
                PendingRequest {
                    client: self.client,
                    request: Ok(
                        RequestModel { method: m.method, url: m.url, headers, body: m.body },
                    ),
                    parameter: self.parameter,
                }
            },
        }
    }

    /// Set one header. On a chain that already failed the inputs are ignored
    /// and the state comes back unchanged; otherwise an invalid name or value
    /// is refused here, at the call itself, and a valid pair overwrites any
    /// earlier pair of the same name.
    pub fn set_header(self, name: &str, value: &str) -> (r: Result<PendingRequest, HeaderError>)
        ensures
            ({
                let valid = header_name_valid(name@) && header_value_valid(value@);
                if self@.request is Err || valid {
                    &&& r matches Ok(p)
                    &&& p@.request == spec_header_step(self@.request, name@, value@)
                    &&& p@.parameter == self@.parameter
                } else if !header_name_valid(name@) {
                    r matches Err(e) && e == HeaderError::InvalidName
                } else {
                    r matches Err(e) && e == HeaderError::InvalidValue
                }
            }),
    {
        if self.request.is_err() {
            return Ok(self);
        }
        if !parse_header_name_ok(name) {
            return Err(HeaderError::InvalidName);
        }
        if !parse_header_value_ok(value) {
            return Err(HeaderError::InvalidValue);
        }
        Ok(self.with_header(name, value))
    }

    /// Apply a multipart transition: the payload becomes the form, and the
    /// header list is replaced by the anti-CSRF header alone. On a chain that
    /// already failed the form is dropped.
    pub fn with_multipart(self, form: reqwest::blocking::multipart::Form) -> (r: PendingRequest)
        ensures
            r@.request == spec_multipart_step(self@.request),
            r@.parameter == self@.parameter,
    {
        match self.request {
            Err(e) => PendingRequest {
                client: self.client,
                request: Err(e),
                parameter: self.parameter,
            },
            Ok(m) => {
                let mut headers: Vec<(String, String)> = Vec::new();
                headers.push(("X-Atlassian-Token".to_owned(), "nocheck".to_owned()));
                proof {
                    assert(headers_view(headers@) =~= seq![("X-Atlassian-Token"@, "nocheck"@)]);
                }
                PendingRequest {
                    client: self.client,
                    request: Ok(
                        RequestModel {
                            method: m.method,
                            url: m.url,
                            headers,
                            body: RequestBody::Multipart(form),
                        },
                    ),
                    parameter: self.parameter,
                }
            },
        }
    }

    /// Apply a body transition: `bytes` is the encoder's verdict, `Some` with
    /// the JSON encoding or `None` on a serializer error.
    pub fn with_json_body(self, bytes: Option<Vec<u8>>) -> (r: PendingRequest)
        ensures
            r@.request == spec_body_step(self@.request, opt_bytes_view(bytes)),
            r@.parameter == self@.parameter,
    {
        let request = match self.request {
            Err(e) => Err(e),
            Ok(m) => match bytes {
                Some(b) => Ok(
                    RequestModel {
                        method: m.method,
                        url: m.url,
                        headers: m.headers,
                        body: RequestBody::Json(b),
                    },
                ),
                None => Err(ConstructionError::SerializeBody),
            },
        };
        PendingRequest { client: self.client, request, parameter: self.parameter }
    }

    /// The URL accumulated so far, or None once the chain has failed.
    pub fn current_url(&self) -> (r: Option<&String>)
        ensures
            match r {
                Some(u) => self@.request matches Ok(m) && m.url == u@,
                None => self@.request is Err,
            },
    {
        match &self.request {
            Ok(m) => Some(&m.url),
            Err(_) => None,
        }
    }

    /// The construction error the chain has captured, if any.
    pub fn construction_error(&self) -> (r: Option<ConstructionError>)
        ensures
            match r {
                Some(e) => self@.request == Err::<ModelView, ConstructionError>(e),
                None => self@.request is Ok,
            },
    {
        match &self.request {
            Ok(_) => None,
            Err(e) => Some(*e),
        }
    }

    /// The verb of the pending request, or None once the chain has failed.
    pub fn method(&self) -> (r: Option<HttpMethod>)
        ensures
            match r {
                Some(v) => self@.request matches Ok(m) && m.method == v,
                None => self@.request is Err,
            },
    {
        match &self.request {
            Ok(m) => Some(m.method),
            Err(_) => None,
        }
    }

    /// The header pairs to be sent, or None once the chain has failed.
    pub fn header_pairs(&self) -> (r: Option<&Vec<(String, String)>>)
        ensures
            match r {
                Some(h) => self@.request matches Ok(m) && m.headers == headers_view(h@),
                None => self@.request is Err,
            },
    {
        match &self.request {
            Ok(m) => Some(&m.headers),
            Err(_) => None,
        }
    }

    /// The encoded JSON payload, or None when the chain failed or carries no
    /// JSON payload.
    pub fn json_body(&self) -> (r: Option<&Vec<u8>>)
        ensures
            match r {
                Some(b) => self@.request matches Ok(m) && m.body == BodyView::Json(b@),
                None => !(self@.request matches Ok(m) && m.body is Json),
            },
    {
        match &self.request {
            Ok(m) => match &m.body {
                RequestBody::Json(b) => Some(b),
                _ => None,
            },
            Err(_) => None,
        }
    }

    /// The staged query-parameter value, if one awaits its key.
    pub fn staged_parameter(&self) -> (r: &Option<String>)
        ensures
            match r {
                Some(v) => self@.parameter == Some(v@),
                None => self@.parameter is None,
            },
    {
        &self.parameter
    }

    /// Send the pending request and hand back what came over the wire. A
    /// chain that failed returns its construction error without a network
    /// call; a transport failure is the only other error; whatever the status
    /// and body, a response is a success, its body decoded to a JSON value
    /// when it parses and None otherwise.
    pub fn execute(self) -> (r: Result<
        (Vec<(String, String)>, u16, Option<serde_json::Value>),
        ApiError,
    >)
        ensures
            self@.request matches Err(e) ==> r matches Err(a) && a == ApiError::Construction(e),
            self@.request is Ok ==> !(r matches Err(a) && a is Construction),
    {
        match self.request {
            Err(e) => Err(ApiError::Construction(e)),
            Ok(m) => {
                let sent = match m.body {
                    RequestBody::Multipart(form) => send_multipart(
                        &self.client,
                        &m.method,
                        m.url.as_str(),
                        &m.headers,
                        form,
                    ),
                    RequestBody::Json(b) => send_request(
                        &self.client,
                        &m.method,
                        m.url.as_str(),
                        &m.headers,
                        Some(b),
                    ),
                    RequestBody::Empty => send_request(
                        &self.client,
                        &m.method,
                        m.url.as_str(),
                        &m.headers,
                        None,
                    ),
                };
                match sent {
                    Err(msg) => Err(ApiError::Transport(msg)),
                    Ok(resp) => {
                        let status = response_status(&resp);
                        let headers = response_headers(&resp);
                        let body = response_bytes(resp);
                        finish_response(headers, status, body)
                    },
                }
            },
        }
    }
}

/// Assemble the terminal result from what the transport handed back. This is
/// always a success: the headers and status are passed through, and the body
/// becomes a JSON value exactly when its bytes were read and parse as JSON —
/// an unreadable or non-JSON body yields None, never an error.
pub fn finish_response(
    headers: Vec<(String, String)>,
    status: u16,
    body: Result<Vec<u8>, String>,
) -> (r: Result<(Vec<(String, String)>, u16, Option<serde_json::Value>), ApiError>)
    ensures
        r matches Ok(t) && t.0 == headers && t.1 == status && (t.2 is Some <==> (
        body matches Ok(b) && json_parses(b@))),
{
    match body {
        Err(_) => Ok((headers, status, None)),
        Ok(bytes) => {
            let v = parse_json_value(&bytes);
            Ok((headers, status, v))
        },
    }
}

} // verus!
