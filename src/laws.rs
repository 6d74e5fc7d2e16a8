use vstd::prelude::*;

use crate::body::Body;
use crate::map_body::{data_image, MapBody};
use crate::poll::Poll;
use crate::status::{status_of, IntoError, Status};

verus! {

/// A run of data polls on a mapping adapter: `outs[i]` is what the poll made
/// from `states[i]` gave, and `states[i + 1]` is the state it left.
pub open spec fn data_run<B>(
    states: Seq<MapBody<B>>,
    outs: Seq<Poll<Option<Result<bytes::Bytes, Status>>>>,
) -> bool
    where
        B: Body,
        bytes::Bytes: From<B::Data>,
        B::Error: IntoError,
{
    &&& states.len() == outs.len() + 1
    &&& forall|i: int| 0 <= i < outs.len() ==> #[trigger] states[i].data_step(&states[i + 1], outs[i])
}

/// A fresh adapter: nothing has ended, failed or been yielded yet.
pub open spec fn fresh<B>(m: MapBody<B>) -> bool {
    !m.data_done && !m.failed && !m.trailers_done
}

/// The producer held in `states[i]` can yield only the chunk `chunks[i]`,
/// for each `i` before `chunks.len()`.
pub open spec fn yields_chunks<B: Body>(states: Seq<MapBody<B>>, chunks: Seq<B::Data>) -> bool {
    forall|i: int, p: Poll<Option<Result<B::Data, B::Error>>>|
        0 <= i < chunks.len() && #[trigger] states[i].inner.data_ok(p) ==> p == Poll::<
            Option<Result<B::Data, B::Error>>,
        >::Ready(Some(Ok(chunks[i])))
}

proof fn lemma_open_while_chunks<B>(
    chunks: Seq<B::Data>,
    states: Seq<MapBody<B>>,
    outs: Seq<Poll<Option<Result<bytes::Bytes, Status>>>>,
    k: int,
)
    where
        B: Body,
        bytes::Bytes: From<B::Data>,
        B::Error: IntoError,
    requires
        data_run(states, outs),
        fresh(states[0]),
        yields_chunks(states, chunks),
        0 <= k <= chunks.len(),
        chunks.len() <= outs.len(),
    ensures
        fresh(states[k]),
        forall|i: int|
            0 <= i < k ==> (#[trigger] outs[i] matches Poll::Ready(Some(Ok(b))) && call_ensures(
                bytes::Bytes::from,
                (chunks[i],),
                b,
            )),
    decreases k,
{
    if k > 0 {
        lemma_open_while_chunks(chunks, states, outs, k - 1);
        let j = k - 1;
        assert(states[j].data_step(&states[j + 1], outs[j]));
        let p = choose|p: Poll<Option<Result<B::Data, B::Error>>>|
            states[j].inner.data_ok(p) && data_image(p, outs[j]);
        assert(p == Poll::<Option<Result<B::Data, B::Error>>>::Ready(Some(Ok(chunks[j]))));
    }
}

/// Draining a mapping adapter over a producer that yields the chunks
/// `c1..cn` and then ends gives `Some(Ok(..))` for each chunk, in order, each
/// the chunk's own conversion into the buffer type, and then `None`.
pub proof fn lemma_chunks_pass_through<B>(
    chunks: Seq<B::Data>,
    states: Seq<MapBody<B>>,
    outs: Seq<Poll<Option<Result<bytes::Bytes, Status>>>>,
)
    where
        B: Body,
        bytes::Bytes: From<B::Data>,
        B::Error: IntoError,
    requires
        outs.len() == chunks.len() + 1,
        data_run(states, outs),
        fresh(states[0]),
        yields_chunks(states, chunks),
        forall|p: Poll<Option<Result<B::Data, B::Error>>>|
            #[trigger] states[chunks.len() as int].inner.data_ok(p) ==> p == Poll::<
                Option<Result<B::Data, B::Error>>,
            >::Ready(None),
    ensures
        forall|i: int|
            0 <= i < chunks.len() ==> (#[trigger] outs[i] matches Poll::Ready(Some(Ok(b)))
                && call_ensures(bytes::Bytes::from, (chunks[i],), b)),
        outs[chunks.len() as int] == Poll::<Option<Result<bytes::Bytes, Status>>>::Ready(None),
{
    let n = chunks.len() as int;
    lemma_open_while_chunks(chunks, states, outs, n);
    assert(states[n].data_step(&states[n + 1], outs[n]));
    let p = choose|p: Poll<Option<Result<B::Data, B::Error>>>|
        states[n].inner.data_ok(p) && data_image(p, outs[n]);
    assert(p == Poll::<Option<Result<B::Data, B::Error>>>::Ready(None));
}

proof fn lemma_stays_failed<B>(
    states: Seq<MapBody<B>>,
    outs: Seq<Poll<Option<Result<bytes::Bytes, Status>>>>,
    from: int,
    k: int,
)
    where
        B: Body,
        bytes::Bytes: From<B::Data>,
        B::Error: IntoError,
    requires
        data_run(states, outs),
        0 <= from <= k < states.len(),
        states[from].failed,
    ensures
        states[k].failed,
        states[k].inner == states[from].inner,
        forall|j: int| from <= j < k ==> #[trigger] outs[j] == Poll::<
            Option<Result<bytes::Bytes, Status>>,
        >::Ready(None),
    decreases k - from,
{
    if k > from {
        lemma_stays_failed(states, outs, from, k - 1);
        let j = k - 1;
        assert(states[j].data_step(&states[j + 1], outs[j]));
    }
}

/// A producer whose data poll fails at position `k`, after `k` chunks, gives
/// through the mapping adapter the `k` chunks, then exactly one
/// `Some(Err(..))` holding the status of the converted error, and from then
/// on only `None`: the producer is not polled for data again.
pub proof fn lemma_error_surfaces_once<B>(
    chunks: Seq<B::Data>,
    e: B::Error,
    states: Seq<MapBody<B>>,
    outs: Seq<Poll<Option<Result<bytes::Bytes, Status>>>>,
)
    where
        B: Body,
        bytes::Bytes: From<B::Data>,
        B::Error: IntoError,
    requires
        outs.len() > chunks.len(),
        data_run(states, outs),
        fresh(states[0]),
        yields_chunks(states, chunks),
        forall|p: Poll<Option<Result<B::Data, B::Error>>>|
            #[trigger] states[chunks.len() as int].inner.data_ok(p) ==> p == Poll::<
                Option<Result<B::Data, B::Error>>,
            >::Ready(Some(Err(e))),
    ensures
        forall|i: int|
            0 <= i < chunks.len() ==> (#[trigger] outs[i] matches Poll::Ready(Some(Ok(b)))
                && call_ensures(bytes::Bytes::from, (chunks[i],), b)),
        outs[chunks.len() as int] matches Poll::Ready(Some(Err(s))) && s.view_pair() == status_of(
            e.error_of(),
        ),
        forall|j: int| chunks.len() < j < outs.len() ==> #[trigger] outs[j] == Poll::<
            Option<Result<bytes::Bytes, Status>>,
        >::Ready(None),
        forall|j: int|
            chunks.len() < j < states.len() ==> #[trigger] states[j].inner == states[chunks.len()
                + 1int].inner,
{
    let n = chunks.len() as int;
    lemma_open_while_chunks(chunks, states, outs, n);
    assert(states[n].data_step(&states[n + 1], outs[n]));
    let p = choose|p: Poll<Option<Result<B::Data, B::Error>>>|
        states[n].inner.data_ok(p) && data_image(p, outs[n]);
    assert(p == Poll::<Option<Result<B::Data, B::Error>>>::Ready(Some(Err(e))));
    lemma_stays_failed(states, outs, n + 1, outs.len() as int);
    assert forall|j: int| n < j < states.len() implies #[trigger] states[j].inner == states[n
        + 1].inner by {
        lemma_stays_failed(states, outs, n + 1, j);
    }
}

/// Trailing metadata that the producer yields once its data is exhausted
/// comes out of the mapping adapter unchanged, and only once: a later
/// trailer poll gives `Ok(None)`.
pub proof fn lemma_trailers_pass_through_once<B>(
    trailers: Option<http::HeaderMap>,
    first: MapBody<B>,
    second: MapBody<B>,
    third: MapBody<B>,
    r1: Poll<Result<Option<http::HeaderMap>, Status>>,
    r2: Poll<Result<Option<http::HeaderMap>, Status>>,
)
    where
        B: Body,
        bytes::Bytes: From<B::Data>,
        B::Error: IntoError,
    requires
        !first.failed,
        !first.trailers_done,
        forall|p: Poll<Result<Option<http::HeaderMap>, B::Error>>|
            #[trigger] first.inner.trailers_ok(p) ==> p == Poll::<
                Result<Option<http::HeaderMap>, B::Error>,
            >::Ready(Ok(trailers)),
        first.trailers_step(&second, r1),
        second.trailers_step(&third, r2),
    ensures
        r1 == Poll::<Result<Option<http::HeaderMap>, Status>>::Ready(Ok(trailers)),
        r2 == Poll::<Result<Option<http::HeaderMap>, Status>>::Ready(Ok(None)),
{
    let p = choose|p: Poll<Result<Option<http::HeaderMap>, B::Error>>|
        first.inner.trailers_ok(p) && crate::map_body::trailers_image(p, r1);
    assert(p == Poll::<Result<Option<http::HeaderMap>, B::Error>>::Ready(Ok(trailers)));
}

} // verus!
