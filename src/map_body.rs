use vstd::prelude::*;

use crate::body::{Body, Sealed};
use crate::poll::Poll;
use crate::status::{status_of, IntoError, Status};

verus! {

/// The canonical form of one data poll: a chunk is converted into the buffer
/// type by its own conversion, an error goes through the generic error into
/// a status, and readiness and the end of the data are kept.
pub open spec fn data_image<D, E: IntoError>(
    p: Poll<Option<Result<D, E>>>,
    r: Poll<Option<Result<bytes::Bytes, Status>>>,
) -> bool
    where
        bytes::Bytes: From<D>,
{
    match p {
        Poll::Pending => r is Pending,
        Poll::Ready(None) => r == Poll::<Option<Result<bytes::Bytes, Status>>>::Ready(None),
        Poll::Ready(Some(Ok(c))) => r matches Poll::Ready(Some(Ok(b))) && call_ensures(
            bytes::Bytes::from,
            (c,),
            b,
        ),
        Poll::Ready(Some(Err(e))) => r matches Poll::Ready(Some(Err(s))) && s.view_pair()
            == status_of(e.error_of()),
    }
}

/// The canonical form of one trailer poll: the metadata is kept as it is, an
/// error goes through the generic error into a status.
pub open spec fn trailers_image<E: IntoError>(
    p: Poll<Result<Option<http::HeaderMap>, E>>,
    r: Poll<Result<Option<http::HeaderMap>, Status>>,
) -> bool {
    match p {
        Poll::Pending => r is Pending,
        Poll::Ready(Ok(t)) => r == Poll::<Result<Option<http::HeaderMap>, Status>>::Ready(Ok(t)),
        Poll::Ready(Err(e)) => r matches Poll::Ready(Err(s)) && s.view_pair() == status_of(
            e.error_of(),
        ),
    }
}

/// Maps one data poll of a producer to the canonical chunk and error types.
pub fn map_data<D, E: IntoError>(p: Poll<Option<Result<D, E>>>) -> (r: Poll<
    Option<Result<bytes::Bytes, Status>>,
>)
    where
        bytes::Bytes: From<D>,
    ensures
        data_image(p, r),
{
    match p {
        Poll::Pending => Poll::Pending,
        Poll::Ready(None) => Poll::Ready(None),
        Poll::Ready(Some(Ok(c))) => Poll::Ready(Some(Ok(bytes::Bytes::from(c)))),
        Poll::Ready(Some(Err(e))) => {
            let g = e.into_error();
            Poll::Ready(Some(Err(Status::map_error(g))))
        },
    }
}

/// Maps one trailer poll of a producer to the canonical error type.
pub fn map_trailers<E: IntoError>(p: Poll<Result<Option<http::HeaderMap>, E>>) -> (r: Poll<
    Result<Option<http::HeaderMap>, Status>,
>)
    ensures
        trailers_image(p, r),
{
    match p {
        Poll::Pending => Poll::Pending,
        Poll::Ready(Ok(t)) => Poll::Ready(Ok(t)),
        Poll::Ready(Err(e)) => {
            let g = e.into_error();
            Poll::Ready(Err(Status::from_error(&g)))
        },
    }
}

/// Wraps one producer and converts each item it yields into the canonical
/// chunk and error types. It remembers only where the stream stands, so that
/// the producer is not polled for data again once its data has ended or
/// failed, nor for trailers once they have been yielded.
pub struct MapBody<B> {
    pub inner: B,
    /// The producer's data has ended.
    pub data_done: bool,
    /// The producer has failed; the stream is over.
    pub failed: bool,
    /// The trailers have been yielded.
    pub trailers_done: bool,
}

impl<B> MapBody<B>
    where
        B: Body,
        bytes::Bytes: From<B::Data>,
        B::Error: IntoError,
{
    /// The outcomes that a data poll may give in this state.
    pub open spec fn data_outcome(&self, r: Poll<Option<Result<bytes::Bytes, Status>>>) -> bool {
        if self.data_done || self.failed || self.trailers_done {
            r == Poll::<Option<Result<bytes::Bytes, Status>>>::Ready(None)
        } else {
            exists|p: Poll<Option<Result<B::Data, B::Error>>>|
                self.inner.data_ok(p) && data_image(p, r)
        }
    }

    /// The outcomes that a trailer poll may give in this state.
    pub open spec fn trailers_outcome(&self, r: Poll<Result<Option<http::HeaderMap>, Status>>) -> bool {
        if self.failed || self.trailers_done {
            r == Poll::<Result<Option<http::HeaderMap>, Status>>::Ready(Ok(None))
        } else {
            exists|p: Poll<Result<Option<http::HeaderMap>, B::Error>>|
                self.inner.trailers_ok(p) && trailers_image(p, r)
        }
    }

    /// One data poll from this state to `next`, giving `r`; once the data is
    /// over the producer is left as it was.
    pub open spec fn data_step(&self, next: &Self, r: Poll<Option<Result<bytes::Bytes, Status>>>) -> bool {
        &&& self.data_outcome(r)
        &&& next.data_done == (self.data_done || r == Poll::<Option<Result<bytes::Bytes, Status>>>::Ready(None))
        &&& next.failed == (self.failed || r matches Poll::Ready(Some(Err(_))))
        &&& next.trailers_done == self.trailers_done
        &&& (self.data_done || self.failed || self.trailers_done) ==> next.inner == self.inner
    }

    /// One trailer poll from this state to `next`, giving `r`; once the
    /// trailers were yielded or the stream failed the producer is left as it was.
    pub open spec fn trailers_step(&self, next: &Self, r: Poll<Result<Option<http::HeaderMap>, Status>>) -> bool {
        &&& self.trailers_outcome(r)
        &&& next.trailers_done == (self.trailers_done || r is Ready)
        &&& next.failed == self.failed
        &&& next.data_done == self.data_done
        &&& (self.failed || self.trailers_done) ==> next.inner == self.inner
    }

    pub fn new(inner: B) -> (r: MapBody<B>)
        ensures
            r.inner == inner,
            !r.data_done,
            !r.failed,
            !r.trailers_done,
    {
        MapBody { inner, data_done: false, failed: false, trailers_done: false }
    }

    /// Polls the producer for data, unless its data is over, and maps what
    /// comes back.
    pub fn poll_mapped_data(&mut self, cx: &mut std::task::Context<'_>) -> (r: Poll<
        Option<Result<bytes::Bytes, Status>>,
    >)
        ensures
            old(self).data_step(&*final(self), r),
            old(self).inner.end_of_stream() ==> final(self).inner.end_of_stream(),
            old(self).inner.end_of_stream() ==> r == Poll::<Option<Result<bytes::Bytes, Status>>>::Ready(None),
    {
        if self.data_done || self.failed || self.trailers_done {
            self.data_done = true;
            return Poll::Ready(None);
        }
        let p = self.inner.poll_data(cx);
        let r = map_data(p);
        match &r {
            Poll::Ready(None) => {
                self.data_done = true;
            },
            Poll::Ready(Some(Err(_))) => {
                self.failed = true;
            },
            _ => {},
        }
        r
    }

    /// Polls the producer for trailers, unless they were yielded or the
    /// stream failed, and maps what comes back.
    pub fn poll_mapped_trailers(&mut self, cx: &mut std::task::Context<'_>) -> (r: Poll<
        Result<Option<http::HeaderMap>, Status>,
    >)
        ensures
            old(self).trailers_step(&*final(self), r),
            old(self).inner.end_of_stream() ==> final(self).inner.end_of_stream(),
            old(self).inner.end_of_stream() ==> r == Poll::<Result<Option<http::HeaderMap>, Status>>::Ready(Ok(None)),
    {
        if self.failed || self.trailers_done {
            self.trailers_done = true;
            return Poll::Ready(Ok(None));
        }
        let p = self.inner.poll_trailers(cx);
        let r = map_trailers(p);
        if !r.is_pending() {
            self.trailers_done = true;
        }
        r
    }
}

impl<B: Body> Sealed for MapBody<B> {
}

impl<B> Body for MapBody<B>
    where
        B: Body,
        bytes::Bytes: From<B::Data>,
        B::Error: IntoError,
{
    type Data = bytes::Bytes;

    type Error = Status;

    open spec fn end_of_stream(&self) -> bool {
        self.inner.end_of_stream()
    }

    open spec fn data_ok(&self, r: Poll<Option<Result<bytes::Bytes, Status>>>) -> bool {
        self.data_outcome(r)
    }

    open spec fn trailers_ok(&self, r: Poll<Result<Option<http::HeaderMap>, Status>>) -> bool {
        self.trailers_outcome(r)
    }

    fn is_end_stream(&self) -> (r: bool) {
        self.inner.is_end_stream()
    }

    fn poll_data(&mut self, cx: &mut std::task::Context<'_>) -> (r: Poll<
        Option<Result<bytes::Bytes, Status>>,
    >) {
        self.poll_mapped_data(cx)
    }

    fn poll_trailers(&mut self, cx: &mut std::task::Context<'_>) -> (r: Poll<
        Result<Option<http::HeaderMap>, Status>,
    >) {
        self.poll_mapped_trailers(cx)
    }
}

} // verus!
