use vstd::prelude::*;
use std::rc::Rc;
use crate::errors::ApiError;
use crate::errors::ConstructionError;
use crate::errors::HeaderError;
use crate::request::opt_bytes_view;
use crate::request::spec_body_step;
use crate::request::spec_header_step;
use crate::request::spec_new_pending;
use crate::request::spec_segment_step;
use crate::request::HttpMethod;
use crate::request::PendingRequest;
use crate::request::PendingView;
use crate::transport::clone_client;
use crate::transport::header_name_valid;
use crate::transport::header_value_valid;
use crate::transport::json_bytes_of;
use crate::transport::new_cookie_client;

verus! {

/// The result of the terminal execute step: the response headers, the status
/// code, and the body decoded to a JSON value when it parses.
pub type ExecResult = Result<(Vec<(String, String)>, u16, Option<serde_json::Value>), ApiError>;

/// The terminal operation every executable builder state shares.
pub trait Executor: Sized {
    /// What the specification sees of the state's pending request.
    spec fn pending_view(&self) -> PendingView;

    /// Send the accumulated request. A chain that failed returns its
    /// construction error without a network call; a transport failure is the
    /// only other error; whatever the status and body, a response is a
    /// success, its body decoded to a JSON value when it parses and None
    /// otherwise.
    fn execute(self) -> (r: ExecResult)
        ensures
            self.pending_view().request matches Err(e) ==> r matches Err(a) && a
                == ApiError::Construction(e),
            self.pending_view().request is Ok ==> !(r matches Err(a) && a is Construction),
    ;
}

/// The shared entry point: the transport handle, kept behind a reference
/// count so that every chain spawned from one client shares its connection
/// pool and cookie store, and the base host URL every chain starts from.
pub struct Confluence {
    pub(crate) client: Rc<reqwest::blocking::Client>,
    pub(crate) host: String,
}

/// The initial state of a GET chain.
pub struct GetQueryBuilder {
    pub(crate) inner: PendingRequest,
}

/// The initial state of a POST chain, its payload already attached.
pub struct PostQueryBuilder {
    pub(crate) inner: PendingRequest,
}

/// The initial state of a PUT chain, its payload already attached.
pub struct PutQueryBuilder {
    pub(crate) inner: PendingRequest,
}

/// The terminal state an arbitrary endpoint path leads to; usable directly
/// with execute.
pub struct CustomQuery {
    pub(crate) inner: PendingRequest,
}

impl View for GetQueryBuilder {
    type V = PendingView;

    closed spec fn view(&self) -> PendingView {
        self.inner@
    }
}

impl View for PostQueryBuilder {
    type V = PendingView;

    closed spec fn view(&self) -> PendingView {
        self.inner@
    }
}

impl View for PutQueryBuilder {
    type V = PendingView;

    closed spec fn view(&self) -> PendingView {
        self.inner@
    }
}

impl View for CustomQuery {
    type V = PendingView;

    closed spec fn view(&self) -> PendingView {
        self.inner@
    }
}

impl Confluence {
    /// The base host URL the client was opened with.
    pub closed spec fn spec_host(&self) -> Seq<char> {
        self.host@
    }

    /// The transport handle the client carries.
    pub closed spec fn spec_client(&self) -> Rc<reqwest::blocking::Client> {
        self.client
    }

    /// Open a client against `host` with a fresh transport handle whose
    /// cookie store is enabled; None when the transport cannot be
    /// initialised.
    pub fn new(host: &str) -> (r: Option<Confluence>)
        ensures
            r matches Some(c) ==> c.spec_host() == host@,
    {
        match new_cookie_client() {
            Some(client) => Some(Confluence { client, host: host.to_owned() }),
            None => None,
        }
    }

    /// Open a client against `host` around a caller-supplied transport
    /// handle, so that several clients can share one cookie store.
    pub fn with_client(client: Rc<reqwest::blocking::Client>, host: &str) -> (r: Confluence)
        ensures
            r.spec_host() == host@,
            r.spec_client() == client,
    {
        Confluence { client, host: host.to_owned() }
    }

    /// Open a GET chain: a fresh pending request against the host with the
    /// default headers and no payload.
    pub fn get(&self) -> (r: GetQueryBuilder)
        ensures
            r@.request == spec_new_pending(HttpMethod::Get, self.spec_host()),
            r@.parameter is None,
    {
        GetQueryBuilder {
            inner: PendingRequest::new(clone_client(&self.client), HttpMethod::Get, self.host.as_str()),
        }
    }

    /// Open a POST chain: a fresh pending request against the host whose
    /// payload is the JSON encoding of `body`. The chain starts in the
    /// serialization-failed error state when the body's serializer reports an
    /// error, and carries some JSON payload otherwise.
    pub fn post<B: serde::Serialize>(&self, body: B) -> (r: PostQueryBuilder)
        ensures
            r@.parameter is None,
            ({
                let init = spec_new_pending(HttpMethod::Post, self.spec_host());
                r@.request == spec_body_step(init, None) || (exists|b: Seq<u8>|
                    r@.request == spec_body_step(init, Some(b)))
            }),
    {
        let pending = PendingRequest::new(clone_client(&self.client), HttpMethod::Post, self.host.as_str());
        let bytes = json_bytes_of(&body);
        let ghost bv = opt_bytes_view(bytes);
        let r = PostQueryBuilder { inner: pending.with_json_body(bytes) };
        proof {
            let init = spec_new_pending(HttpMethod::Post, self.spec_host());
            if bv is Some {
                assert(r@.request == spec_body_step(init, Some(bv->0)));
            }
        }
        r
    }

    /// Open a PUT chain: a fresh pending request against the host whose
    /// payload is the JSON encoding of `body`, as for `post`.
    pub fn put<B: serde::Serialize>(&self, body: B) -> (r: PutQueryBuilder)
        ensures
            r@.parameter is None,
            ({
                let init = spec_new_pending(HttpMethod::Put, self.spec_host());
                r@.request == spec_body_step(init, None) || (exists|b: Seq<u8>|
                    r@.request == spec_body_step(init, Some(b)))
            }),
    {
        let pending = PendingRequest::new(clone_client(&self.client), HttpMethod::Put, self.host.as_str());
        let bytes = json_bytes_of(&body);
        let ghost bv = opt_bytes_view(bytes);
        let r = PutQueryBuilder { inner: pending.with_json_body(bytes) };
        proof {
            let init = spec_new_pending(HttpMethod::Put, self.spec_host());
            if bv is Some {
                assert(r@.request == spec_body_step(init, Some(bv->0)));
            }
        }
        r
    }
}

impl Clone for Confluence {
    /// A clone shares the transport handle and keeps the host.
    fn clone(&self) -> (r: Self)
        ensures
            r.spec_host() == self.spec_host(),
            r.spec_client() == self.spec_client(),
    {
        Confluence { client: clone_client(&self.client), host: self.host.clone() }
    }
}

impl GetQueryBuilder {
    /// Cross to the content endpoint: append the `content` path segment.
    pub fn content(self) -> (r: crate::content::get::Content)
        ensures
            r@.request == spec_segment_step(self@.request, "content"@),
            r@.parameter is None,
    {
        crate::content::get::Content::from_pending(self.inner.with_segment("content"))
    }

    /// Append an arbitrary endpoint path, bypassing the rest of the grammar.
    pub fn custom_endpoint(self, endpoint_str: &str) -> (r: CustomQuery)
        ensures
            r@.request == spec_segment_step(self@.request, endpoint_str@),
            r@.parameter is None,
    {
        CustomQuery { inner: self.inner.with_segment(endpoint_str) }
    }

    /// Set one header. On a chain that already failed the inputs are ignored
    /// and the state comes back unchanged; otherwise an invalid name or value
    /// is refused here, at the call itself, and a valid pair overwrites any
    /// earlier pair of the same name.
    pub fn set_header(self, header_name: &str, accept_header: &str) -> (r: Result<
        GetQueryBuilder,
        HeaderError,
    >)
        ensures
            ({
                let valid = header_name_valid(header_name@) && header_value_valid(accept_header@);
                if self@.request is Err || valid {
                    &&& r matches Ok(b)
                    &&& b@.request == spec_header_step(self@.request, header_name@, accept_header@)
                    &&& b@.parameter == self@.parameter
                } else if !header_name_valid(header_name@) {
                    r matches Err(e) && e == HeaderError::InvalidName
                } else {
                    r matches Err(e) && e == HeaderError::InvalidValue
                }
            }),
    {
        match self.inner.set_header(header_name, accept_header) {
            Ok(p) => Ok(GetQueryBuilder { inner: p }),
            Err(e) => Err(e),
        }
    }

    /// The pending request this state carries.
    pub fn pending(&self) -> (r: &PendingRequest)
        ensures
            r@ == self@,
    {
        &self.inner
    }
}

impl PostQueryBuilder {
    /// Cross to the content endpoint: append the `content` path segment.
    pub fn content(self) -> (r: crate::content::post::Content)
        ensures
            r@.request == spec_segment_step(self@.request, "content"@),
            r@.parameter is None,
    {
        crate::content::post::Content::from_pending(self.inner.with_segment("content"))
    }

    /// Append an arbitrary endpoint path, bypassing the rest of the grammar.
    pub fn custom_endpoint(self, endpoint_str: &str) -> (r: CustomQuery)
        ensures
            r@.request == spec_segment_step(self@.request, endpoint_str@),
            r@.parameter is None,
    {
        CustomQuery { inner: self.inner.with_segment(endpoint_str) }
    }

    /// Set one header. On a chain that already failed the inputs are ignored
    /// and the state comes back unchanged; otherwise an invalid name or value
    /// is refused here, at the call itself, and a valid pair overwrites any
    /// earlier pair of the same name.
    pub fn set_header(self, header_name: &str, accept_header: &str) -> (r: Result<
        PostQueryBuilder,
        HeaderError,
    >)
        ensures
            ({
                let valid = header_name_valid(header_name@) && header_value_valid(accept_header@);
                if self@.request is Err || valid {
                    &&& r matches Ok(b)
                    &&& b@.request == spec_header_step(self@.request, header_name@, accept_header@)
                    &&& b@.parameter == self@.parameter
                } else if !header_name_valid(header_name@) {
                    r matches Err(e) && e == HeaderError::InvalidName
                } else {
                    r matches Err(e) && e == HeaderError::InvalidValue
                }
            }),
    {
        match self.inner.set_header(header_name, accept_header) {
            Ok(p) => Ok(PostQueryBuilder { inner: p }),
            Err(e) => Err(e),
        }
    }

    /// The pending request this state carries.
    pub fn pending(&self) -> (r: &PendingRequest)
        ensures
            r@ == self@,
    {
        &self.inner
    }
}

impl PutQueryBuilder {
    /// Cross to the content endpoint: append the `content` path segment.
    pub fn content(self) -> (r: crate::content::put::Content)
        ensures
            r@.request == spec_segment_step(self@.request, "content"@),
            r@.parameter is None,
    {
        crate::content::put::Content::from_pending(self.inner.with_segment("content"))
    }

    /// Append an arbitrary endpoint path, bypassing the rest of the grammar.
    pub fn custom_endpoint(self, endpoint_str: &str) -> (r: CustomQuery)
        ensures
            r@.request == spec_segment_step(self@.request, endpoint_str@),
            r@.parameter is None,
    {
        CustomQuery { inner: self.inner.with_segment(endpoint_str) }
    }

    /// Set one header. On a chain that already failed the inputs are ignored
    /// and the state comes back unchanged; otherwise an invalid name or value
    /// is refused here, at the call itself, and a valid pair overwrites any
    /// earlier pair of the same name.
    pub fn set_header(self, header_name: &str, accept_header: &str) -> (r: Result<
        PutQueryBuilder,
        HeaderError,
    >)
        ensures
            ({
                let valid = header_name_valid(header_name@) && header_value_valid(accept_header@);
                if self@.request is Err || valid {
                    &&& r matches Ok(b)
                    &&& b@.request == spec_header_step(self@.request, header_name@, accept_header@)
                    &&& b@.parameter == self@.parameter
                } else if !header_name_valid(header_name@) {
                    r matches Err(e) && e == HeaderError::InvalidName
                } else {
                    r matches Err(e) && e == HeaderError::InvalidValue
                }
            }),
    {
        match self.inner.set_header(header_name, accept_header) {
            Ok(p) => Ok(PutQueryBuilder { inner: p }),
            Err(e) => Err(e),
        }
    }

    /// The pending request this state carries.
    pub fn pending(&self) -> (r: &PendingRequest)
        ensures
            r@ == self@,
    {
        &self.inner
    }
}

impl CustomQuery {
    /// Set one header. On a chain that already failed the inputs are ignored
    /// and the state comes back unchanged; otherwise an invalid name or value
    /// is refused here, at the call itself, and a valid pair overwrites any
    /// earlier pair of the same name.
    pub fn set_header(self, header_name: &str, accept_header: &str) -> (r: Result<
        CustomQuery,
        HeaderError,
    >)
        ensures
            ({
                let valid = header_name_valid(header_name@) && header_value_valid(accept_header@);
                if self@.request is Err || valid {
                    &&& r matches Ok(b)
                    &&& b@.request == spec_header_step(self@.request, header_name@, accept_header@)
                    &&& b@.parameter == self@.parameter
                } else if !header_name_valid(header_name@) {
                    r matches Err(e) && e == HeaderError::InvalidName
                } else {
                    r matches Err(e) && e == HeaderError::InvalidValue
                }
            }),
    {
        match self.inner.set_header(header_name, accept_header) {
            Ok(p) => Ok(CustomQuery { inner: p }),
            Err(e) => Err(e),
        }
    }

    /// The pending request this state carries.
    pub fn pending(&self) -> (r: &PendingRequest)
        ensures
            r@ == self@,
    {
        &self.inner
    }
}

impl Executor for CustomQuery {
    open spec fn pending_view(&self) -> PendingView {
        self@
    }

    fn execute(self) -> (r: ExecResult) {
        self.inner.execute()
    }
}

} // verus!
