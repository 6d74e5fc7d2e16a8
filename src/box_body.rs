use vstd::prelude::*;

use crate::body::{Body, Sealed};
use crate::map_body::{data_image, trailers_image, MapBody};
use crate::poll::Poll;
use crate::status::{IntoError, Status};

verus! {

/// The object form of a body whose chunk and error types are the canonical
/// ones; every such [`Body`] has it.
pub trait DynBody: Send {
    spec fn dyn_end_of_stream(&self) -> bool;

    spec fn dyn_data_ok(&self, r: Poll<Option<Result<bytes::Bytes, Status>>>) -> bool;

    spec fn dyn_trailers_ok(&self, r: Poll<Result<Option<http::HeaderMap>, Status>>) -> bool;

    fn dyn_is_end_stream(&self) -> (r: bool)
        ensures
            r == self.dyn_end_of_stream(),
    ;

    fn dyn_poll_data(&mut self, cx: &mut std::task::Context<'_>) -> (r: Poll<
        Option<Result<bytes::Bytes, Status>>,
    >)
        ensures
            old(self).dyn_data_ok(r),
            old(self).dyn_end_of_stream() ==> final(self).dyn_end_of_stream(),
            old(self).dyn_end_of_stream() ==> r == Poll::<Option<Result<bytes::Bytes, Status>>>::Ready(None),
    ;

    fn dyn_poll_trailers(&mut self, cx: &mut std::task::Context<'_>) -> (r: Poll<
        Result<Option<http::HeaderMap>, Status>,
    >)
        ensures
            old(self).dyn_trailers_ok(r),
            old(self).dyn_end_of_stream() ==> final(self).dyn_end_of_stream(),
            old(self).dyn_end_of_stream() ==> r == Poll::<Result<Option<http::HeaderMap>, Status>>::Ready(Ok(None)),
    ;
}

impl<B: Body<Data = bytes::Bytes, Error = Status> + Send> DynBody for B {
    open spec fn dyn_end_of_stream(&self) -> bool {
        self.end_of_stream()
    }

    open spec fn dyn_data_ok(&self, r: Poll<Option<Result<bytes::Bytes, Status>>>) -> bool {
        self.data_ok(r)
    }

    open spec fn dyn_trailers_ok(&self, r: Poll<Result<Option<http::HeaderMap>, Status>>) -> bool {
        self.trailers_ok(r)
    }

    fn dyn_is_end_stream(&self) -> (r: bool) {
        self.is_end_stream()
    }

    fn dyn_poll_data(&mut self, cx: &mut std::task::Context<'_>) -> (r: Poll<
        Option<Result<bytes::Bytes, Status>>,
    >) {
        self.poll_data(cx)
    }

    fn dyn_poll_trailers(&mut self, cx: &mut std::task::Context<'_>) -> (r: Poll<
        Result<Option<http::HeaderMap>, Status>,
    >) {
        self.poll_trailers(cx)
    }
}

/// An owned, type-erased body with the canonical chunk and error types.
/// The producer lives on the heap, so it never moves once it is polled, and
/// each operation is one indirect call into it.
pub struct BoxBody {
    inner: Box<dyn DynBody>,
}

impl BoxBody {
    /// Whether the held producer has reached the end of its stream.
    pub closed spec fn ended(&self) -> bool {
        self.inner.dyn_end_of_stream()
    }

    /// The outcomes that the held body's next data poll may give.
    pub closed spec fn next_data_ok(&self, r: Poll<Option<Result<bytes::Bytes, Status>>>) -> bool {
        self.inner.dyn_data_ok(r)
    }

    /// The outcomes that the held body's next trailer poll may give.
    pub closed spec fn next_trailers_ok(&self, r: Poll<Result<Option<http::HeaderMap>, Status>>) -> bool {
        self.inner.dyn_trailers_ok(r)
    }

    /// Holds a producer whose types are already the canonical ones; its
    /// results are handed on unchanged.
    pub fn new<B: Body<Data = bytes::Bytes, Error = Status> + Send + 'static>(inner: B) -> (r: BoxBody)
        ensures
            r.ended() == inner.end_of_stream(),
            forall|x: Poll<Option<Result<bytes::Bytes, Status>>>|
                #[trigger] r.next_data_ok(x) == inner.data_ok(x),
            forall|x: Poll<Result<Option<http::HeaderMap>, Status>>|
                #[trigger] r.next_trailers_ok(x) == inner.trailers_ok(x),
    {
        BoxBody { inner: Box::new(inner) }
    }

    /// Holds any producer, each item mapped into the canonical types.
    pub fn map_from<B: Body + Send + 'static>(inner: B) -> (r: BoxBody)
        where
            bytes::Bytes: From<B::Data>,
            B::Error: IntoError,
        ensures
            r.ended() == inner.end_of_stream(),
            forall|x: Poll<Option<Result<bytes::Bytes, Status>>>|
                #[trigger] r.next_data_ok(x) == exists|p: Poll<Option<Result<B::Data, B::Error>>>|
                    inner.data_ok(p) && data_image(p, x),
            forall|x: Poll<Result<Option<http::HeaderMap>, Status>>|
                #[trigger] r.next_trailers_ok(x) == exists|p: Poll<Result<Option<http::HeaderMap>, B::Error>>|
                    inner.trailers_ok(p) && trailers_image(p, x),
    {
        BoxBody { inner: Box::new(MapBody::new(inner)) }
    }
}

impl Sealed for BoxBody {
}

impl Body for BoxBody {
    type Data = bytes::Bytes;

    type Error = Status;

    open spec fn end_of_stream(&self) -> bool {
        self.ended()
    }

    open spec fn data_ok(&self, r: Poll<Option<Result<bytes::Bytes, Status>>>) -> bool {
        self.next_data_ok(r)
    }

    open spec fn trailers_ok(&self, r: Poll<Result<Option<http::HeaderMap>, Status>>) -> bool {
        self.next_trailers_ok(r)
    }

    fn is_end_stream(&self) -> (r: bool) {
        self.inner.dyn_is_end_stream()
    }

    fn poll_data(&mut self, cx: &mut std::task::Context<'_>) -> (r: Poll<
        Option<Result<bytes::Bytes, Status>>,
    >) {
        self.inner.dyn_poll_data(cx)
    }

    fn poll_trailers(&mut self, cx: &mut std::task::Context<'_>) -> (r: Poll<
        Result<Option<http::HeaderMap>, Status>,
    >) {
        self.inner.dyn_poll_trailers(cx)
    }
}

} // verus!
