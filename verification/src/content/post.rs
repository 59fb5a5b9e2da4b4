use vstd::prelude::*;
use crate::client::ExecResult;
use crate::client::Executor;
use crate::request::spec_multipart_step;
use crate::request::spec_segment_step;
use crate::request::PendingRequest;
use crate::request::PendingView;

verus! {

/// The `content` endpoint of a POST chain.
pub struct Content {
    pub(crate) inner: PendingRequest,
}

/// A POST chain whose URL ends with a content id.
pub struct ContentId {
    pub(crate) inner: PendingRequest,
}

/// The `child` endpoint under one content id.
pub struct Child {
    pub(crate) inner: PendingRequest,
}

/// The `attachment` endpoint, its payload now a multipart form.
pub struct Attachment {
    pub(crate) inner: PendingRequest,
}

/// A POST chain whose URL ends with an attachment id.
pub struct AttachmentId {
    pub(crate) inner: PendingRequest,
}

/// The `data` endpoint under one attachment id.
pub struct Data {
    pub(crate) inner: PendingRequest,
}

impl View for Content {
    type V = PendingView;

    closed spec fn view(&self) -> PendingView {
        self.inner@
    }
}

impl View for ContentId {
    type V = PendingView;

    closed spec fn view(&self) -> PendingView {
        self.inner@
    }
}

impl View for Child {
    type V = PendingView;

    closed spec fn view(&self) -> PendingView {
        self.inner@
    }
}

impl View for Attachment {
    type V = PendingView;

    closed spec fn view(&self) -> PendingView {
        self.inner@
    }
}

impl View for AttachmentId {
    type V = PendingView;

    closed spec fn view(&self) -> PendingView {
        self.inner@
    }
}

impl View for Data {
    type V = PendingView;

    closed spec fn view(&self) -> PendingView {
        self.inner@
    }
}

impl Content {
    pub(crate) fn from_pending(p: PendingRequest) -> (r: Content)
        ensures
            r@ == p@,
    {
        Content { inner: p }
    }

    /// The pending request this state carries.
    pub fn pending(&self) -> (r: &PendingRequest)
        ensures
            r@ == self@,
    {
        &self.inner
    }

    /// Append a content id as a path segment.
    pub fn content_id(self, content_id_str: &str) -> (r: ContentId)
        ensures
            r@.request == spec_segment_step(self@.request, content_id_str@),
            r@.parameter is None,
    {
        ContentId { inner: self.inner.with_segment(content_id_str) }
    }
}

impl ContentId {
    /// The pending request this state carries.
    pub fn pending(&self) -> (r: &PendingRequest)
        ensures
            r@ == self@,
    {
        &self.inner
    }

    /// Append the `child` path segment.
    pub fn child(self) -> (r: Child)
        ensures
            r@.request == spec_segment_step(self@.request, "child"@),
            r@.parameter is None,
    {
        Child { inner: self.inner.with_segment("child") }
    }
}

impl Child {
    /// The pending request this state carries.
    pub fn pending(&self) -> (r: &PendingRequest)
        ensures
            r@ == self@,
    {
        &self.inner
    }

    /// Attach a multipart form as the payload — the headers are replaced by
    /// the anti-CSRF header alone — and append the `attachment` path segment.
    pub fn attachment(self, form: reqwest::blocking::multipart::Form) -> (r: Attachment)
        ensures
            r@.request == spec_segment_step(spec_multipart_step(self@.request), "attachment"@),
            r@.parameter is None,
    {
        Attachment { inner: self.inner.with_multipart(form).with_segment("attachment") }
    }
}

impl Attachment {
    /// The pending request this state carries.
    pub fn pending(&self) -> (r: &PendingRequest)
        ensures
            r@ == self@,
    {
        &self.inner
    }

    /// Append an attachment id as a path segment.
    pub fn attachment_id(self, attachment_id_str: &str) -> (r: AttachmentId)
        ensures
            r@.request == spec_segment_step(self@.request, attachment_id_str@),
            r@.parameter is None,
    {
        AttachmentId { inner: self.inner.with_segment(attachment_id_str) }
    }
}

impl AttachmentId {
    /// The pending request this state carries.
    pub fn pending(&self) -> (r: &PendingRequest)
        ensures
            r@ == self@,
    {
        &self.inner
    }

    /// Append the `data` path segment.
    pub fn data(self) -> (r: Data)
        ensures
            r@.request == spec_segment_step(self@.request, "data"@),
            r@.parameter is None,
    {
        Data { inner: self.inner.with_segment("data") }
    }
}

impl Data {
    /// The pending request this state carries.
    pub fn pending(&self) -> (r: &PendingRequest)
        ensures
            r@ == self@,
    {
        &self.inner
    }
}

impl Executor for Content {
    open spec fn pending_view(&self) -> PendingView {
        self@
    }

    fn execute(self) -> (r: ExecResult) {
        self.inner.execute()
    }
}

impl Executor for Attachment {
    open spec fn pending_view(&self) -> PendingView {
        self@
    }

    fn execute(self) -> (r: ExecResult) {
        self.inner.execute()
    }
}

impl Executor for Data {
    open spec fn pending_view(&self) -> PendingView {
        self@
    }

    fn execute(self) -> (r: ExecResult) {
        self.inner.execute()
    }
}

} // verus!
