use vstd::prelude::*;
use crate::client::ExecResult;
use crate::client::Executor;
use crate::request::spec_query_step;
use crate::request::spec_segment_step;
use crate::request::PendingRequest;
use crate::request::PendingView;

verus! {

/// The `content` endpoint of a GET chain.
pub struct Content {
    pub(crate) inner: PendingRequest,
}

/// A GET chain whose URL ends with a content id.
pub struct Id {
    pub(crate) inner: PendingRequest,
}

/// The `child` endpoint under one content id.
pub struct Child {
    pub(crate) inner: PendingRequest,
}

/// The `attachment` listing under a content's children.
pub struct Attachment {
    pub(crate) inner: PendingRequest,
}

/// A GET chain whose query carries an `expand` parameter.
pub struct Expand {
    pub(crate) inner: PendingRequest,
}

/// A GET chain whose query carries a `title` parameter.
pub struct Title {
    pub(crate) inner: PendingRequest,
}

/// A GET chain whose query carries a `spaceKey` parameter.
pub struct SpaceKey {
    pub(crate) inner: PendingRequest,
}

/// A GET chain whose query carries a `filename` parameter.
pub struct Filename {
    pub(crate) inner: PendingRequest,
}

impl View for Content {
    type V = PendingView;

    closed spec fn view(&self) -> PendingView {
        self.inner@
    }
}

impl View for Id {
    type V = PendingView;

    closed spec fn view(&self) -> PendingView {
        self.inner@
    }
}

impl View for Child {
    type V = PendingView;

    closed spec fn view(&self) -> PendingView {
        self.inner@
    }
}

impl View for Attachment {
    type V = PendingView;

    closed spec fn view(&self) -> PendingView {
        self.inner@
    }
}

impl View for Expand {
    type V = PendingView;

    closed spec fn view(&self) -> PendingView {
        self.inner@
    }
}

impl View for Title {
    type V = PendingView;

    closed spec fn view(&self) -> PendingView {
        self.inner@
    }
}

impl View for SpaceKey {
    type V = PendingView;

    closed spec fn view(&self) -> PendingView {
        self.inner@
    }
}

impl View for Filename {
    type V = PendingView;

    closed spec fn view(&self) -> PendingView {
        self.inner@
    }
}

impl Content {
    pub(crate) fn from_pending(p: PendingRequest) -> (r: Content)
        ensures
            r@ == p@,
    {
        Content { inner: p }
    }

    /// The pending request this state carries.
    pub fn pending(&self) -> (r: &PendingRequest)
        ensures
            r@ == self@,
    {
        &self.inner
    }

    /// Append a content id as a path segment.
    pub fn content_id(self, content_id_str: &str) -> (r: Id)
        ensures
            r@.request == spec_segment_step(self@.request, content_id_str@),
            r@.parameter is None,
    {
        Id { inner: self.inner.with_segment(content_id_str) }
    }

    /// Append the query pair `spaceKey=<key>`.
    pub fn space_key(self, space_key_str: &str) -> (r: SpaceKey)
        ensures
            r@.request == spec_query_step(self@.request, "spaceKey"@, Some(space_key_str@)),
            r@.parameter is None,
    {
        SpaceKey { inner: self.inner.stage_value(space_key_str).resolve_query("spaceKey") }
    }
}

impl Id {
    /// The pending request this state carries.
    pub fn pending(&self) -> (r: &PendingRequest)
        ensures
            r@ == self@,
    {
        &self.inner
    }

    /// Append the `child` path segment.
    pub fn child(self) -> (r: Child)
        ensures
            r@.request == spec_segment_step(self@.request, "child"@),
            r@.parameter is None,
    {
        Child { inner: self.inner.with_segment("child") }
    }
}

impl Child {
    /// The pending request this state carries.
    pub fn pending(&self) -> (r: &PendingRequest)
        ensures
            r@ == self@,
    {
        &self.inner
    }

    /// Append the `attachment` path segment.
    pub fn attachment(self) -> (r: Attachment)
        ensures
            r@.request == spec_segment_step(self@.request, "attachment"@),
            r@.parameter is None,
    {
        Attachment { inner: self.inner.with_segment("attachment") }
    }

    /// Append the query pair `expand=<expand>`.
    pub fn expand(self, expand: &str) -> (r: Expand)
        ensures
            r@.request == spec_query_step(self@.request, "expand"@, Some(expand@)),
            r@.parameter is None,
    {
        Expand { inner: self.inner.stage_value(expand).resolve_query("expand") }
    }
}

impl Attachment {
    /// The pending request this state carries.
    pub fn pending(&self) -> (r: &PendingRequest)
        ensures
            r@ == self@,
    {
        &self.inner
    }

    /// Append the query pair `filename=<name>`.
    pub fn filename(self, filename_str: &str) -> (r: Filename)
        ensures
            r@.request == spec_query_step(self@.request, "filename"@, Some(filename_str@)),
            r@.parameter is None,
    {
        Filename { inner: self.inner.stage_value(filename_str).resolve_query("filename") }
    }
}

impl SpaceKey {
    /// The pending request this state carries.
    pub fn pending(&self) -> (r: &PendingRequest)
        ensures
            r@ == self@,
    {
        &self.inner
    }

    /// Append the query pair `title=<title>`.
    pub fn title(self, title_str: &str) -> (r: Title)
        ensures
            r@.request == spec_query_step(self@.request, "title"@, Some(title_str@)),
            r@.parameter is None,
    {
        Title { inner: self.inner.stage_value(title_str).resolve_query("title") }
    }
}

impl Title {
    /// The pending request this state carries.
    pub fn pending(&self) -> (r: &PendingRequest)
        ensures
            r@ == self@,
    {
        &self.inner
    }

    /// Append the query pair `expand=<expand>`.
    pub fn expand(self, expand: &str) -> (r: Expand)
        ensures
            r@.request == spec_query_step(self@.request, "expand"@, Some(expand@)),
            r@.parameter is None,
    {
        Expand { inner: self.inner.stage_value(expand).resolve_query("expand") }
    }
}

impl Expand {
    /// The pending request this state carries.
    pub fn pending(&self) -> (r: &PendingRequest)
        ensures
            r@ == self@,
    {
        &self.inner
    }
}

impl Filename {
    /// The pending request this state carries.
    pub fn pending(&self) -> (r: &PendingRequest)
        ensures
            r@ == self@,
    {
        &self.inner
    }
}

impl Executor for Content {
    open spec fn pending_view(&self) -> PendingView {
        self@
    }

    fn execute(self) -> (r: ExecResult) {
        self.inner.execute()
    }
}

impl Executor for Attachment {
    open spec fn pending_view(&self) -> PendingView {
        self@
    }

    fn execute(self) -> (r: ExecResult) {
        self.inner.execute()
    }
}

impl Executor for Expand {
    open spec fn pending_view(&self) -> PendingView {
        self@
    }

    fn execute(self) -> (r: ExecResult) {
        self.inner.execute()
    }
}

impl Executor for Filename {
    open spec fn pending_view(&self) -> PendingView {
        self@
    }

    fn execute(self) -> (r: ExecResult) {
        self.inner.execute()
    }
}

} // verus!
