use vstd::prelude::*;
use crate::client::ExecResult;
use crate::client::Executor;
use crate::request::spec_segment_step;
use crate::request::PendingRequest;
use crate::request::PendingView;

verus! {

/// The `content` endpoint of a PUT chain.
pub struct Content {
    pub(crate) inner: PendingRequest,
}

/// A PUT chain whose URL ends with a content id.
pub struct Id {
    pub(crate) inner: PendingRequest,
}

impl View for Content {
    type V = PendingView;

    closed spec fn view(&self) -> PendingView {
        self.inner@
    }
}

impl View for Id {
    type V = PendingView;

    closed spec fn view(&self) -> PendingView {
        self.inner@
    }
}

impl Content {
    pub(crate) fn from_pending(p: PendingRequest) -> (r: Content)
        ensures
            r@ == p@,
    {
        Content { inner: p }
    }

    /// The pending request this state carries.
    pub fn pending(&self) -> (r: &PendingRequest)
        ensures
            r@ == self@,
    {
        &self.inner
    }

    /// Append a content id as a path segment.
    pub fn content_id(self, content_id_str: &str) -> (r: Id)
        ensures
            r@.request == spec_segment_step(self@.request, content_id_str@),
            r@.parameter is None,
    {
        Id { inner: self.inner.with_segment(content_id_str) }
    }
}

impl Id {
    /// The pending request this state carries.
    pub fn pending(&self) -> (r: &PendingRequest)
        ensures
            r@ == self@,
    {
        &self.inner
    }
}

impl Executor for Content {
    open spec fn pending_view(&self) -> PendingView {
        self@
    }

    fn execute(self) -> (r: ExecResult) {
        self.inner.execute()
    }
}

impl Executor for Id {
    open spec fn pending_view(&self) -> PendingView {
        self@
    }

    fn execute(self) -> (r: ExecResult) {
        self.inner.execute()
    }
}

} // verus!
