use vstd::prelude::*;

use crate::poll::Poll;

verus! {

/// `bytes::Bytes`, the canonical chunk buffer: carried through unread.
#[verifier::external_type_specification]
#[verifier::external_body]
pub struct ExBytes(bytes::Bytes);

/// `http::HeaderMap`, the trailing metadata: carried through unread.
#[verifier::external_type_specification]
#[verifier::external_body]
#[verifier::reject_recursive_types(T)]
pub struct ExHeaderMap<T>(http::HeaderMap<T>);

/// `http::HeaderValue`, the default value type of `http::HeaderMap`.
#[verifier::external_type_specification]
#[verifier::external_body]
pub struct ExHeaderValue(http::HeaderValue);

/// `std::task::Context`, the caller's waker: handed on to the producer unread.
#[verifier::external_type_specification]
#[verifier::external_body]
pub struct ExContext<'a>(std::task::Context<'a>);

/// The marker that every body type carries before it can be a [`Body`]:
/// implementing it is a deliberate step, taken by the adapters of this
/// library and by the glue that brings in producers of other libraries.
pub trait Sealed {
}

/// A producer of data chunks followed by optional trailing metadata, polled
/// cooperatively by a single driving task.
///
/// Once a body reports the end of its stream it keeps reporting it, and
/// polling it further yields nothing.
pub trait Body: Sealed {
    type Data;

    type Error;

    /// Whether the body has reached the end of its stream.
    spec fn end_of_stream(&self) -> bool;

    /// Whether `r` is an outcome that the next data poll may give.
    spec fn data_ok(&self, r: Poll<Option<Result<Self::Data, Self::Error>>>) -> bool;

    /// Whether `r` is an outcome that the next trailer poll may give.
    spec fn trailers_ok(&self, r: Poll<Result<Option<http::HeaderMap>, Self::Error>>) -> bool;

    fn is_end_stream(&self) -> (r: bool)
        ensures
            r == self.end_of_stream(),
    ;

    /// The next chunk, the end of the data (`None`), or an error.
    fn poll_data(&mut self, cx: &mut std::task::Context<'_>) -> (r: Poll<
        Option<Result<Self::Data, Self::Error>>,
    >)
        ensures
            old(self).data_ok(r),
            old(self).end_of_stream() ==> final(self).end_of_stream(),
            old(self).end_of_stream() ==> r == Poll::<Option<Result<Self::Data, Self::Error>>>::Ready(None),
    ;

    /// The trailing metadata, if any, once the data is exhausted.
    fn poll_trailers(&mut self, cx: &mut std::task::Context<'_>) -> (r: Poll<
        Result<Option<http::HeaderMap>, Self::Error>,
    >)
        ensures
            old(self).trailers_ok(r),
            old(self).end_of_stream() ==> final(self).end_of_stream(),
            old(self).end_of_stream() ==> r == Poll::<Result<Option<http::HeaderMap>, Self::Error>>::Ready(Ok(None)),
    ;
}

} // verus!
