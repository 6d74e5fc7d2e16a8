use std::collections::VecDeque;
use std::task::{Context, Waker};

use bytes::Bytes;
use futures_util::task::noop_waker_ref;
use rpc_body::body::{Body, Sealed};
use rpc_body::box_body::BoxBody;
use rpc_body::map_body::{map_data, map_trailers, MapBody};
use rpc_body::poll::Poll;
use rpc_body::status::{Code, Error, IntoError, Status};

type DataPoll<D, E> = Poll<Option<Result<D, E>>>;

/// A producer that replays a fixed list of data polls, then trailers.
struct Scripted<D, E> {
    data: VecDeque<DataPoll<D, E>>,
    trailers: Option<Result<Option<http::HeaderMap>, E>>,
    ended: bool,
}

impl<D, E> Scripted<D, E> {
    fn new(data: Vec<DataPoll<D, E>>, trailers: Result<Option<http::HeaderMap>, E>) -> Self {
        Scripted { data: data.into_iter().collect(), trailers: Some(trailers), ended: false }
    }
}

impl<D, E> Sealed for Scripted<D, E> {}

impl<D, E> Body for Scripted<D, E> {
    type Data = D;
    type Error = E;

    fn end_of_stream(&self) -> bool {
        self.ended
    }

    fn data_ok(&self, _r: DataPoll<D, E>) -> bool {
        true
    }

    fn trailers_ok(&self, _r: Poll<Result<Option<http::HeaderMap>, E>>) -> bool {
        true
    }

    fn is_end_stream(&self) -> bool {
        self.ended
    }

    fn poll_data(&mut self, _cx: &mut Context<'_>) -> DataPoll<D, E> {
        if self.ended {
            return Poll::Ready(None);
        }
        match self.data.pop_front() {
            Some(p) => p,
            None => Poll::Ready(None),
        }
    }

    fn poll_trailers(&mut self, _cx: &mut Context<'_>) -> Poll<Result<Option<http::HeaderMap>, E>> {
        if self.ended {
            return Poll::Ready(Ok(None));
        }
        self.ended = true;
        Poll::Ready(self.trailers.take().unwrap_or(Ok(None)))
    }
}

/// A producer that is never ready; it keeps the last waker it was handed.
struct NeverReady {
    registrations: usize,
    waker: Option<Waker>,
}

impl Sealed for NeverReady {}

impl Body for NeverReady {
    type Data = Bytes;
    type Error = Status;

    fn end_of_stream(&self) -> bool {
        false
    }

    fn data_ok(&self, r: DataPoll<Bytes, Status>) -> bool {
        r.is_pending()
    }

    fn trailers_ok(&self, r: Poll<Result<Option<http::HeaderMap>, Status>>) -> bool {
        r.is_pending()
    }

    fn is_end_stream(&self) -> bool {
        false
    }

    fn poll_data(&mut self, cx: &mut Context<'_>) -> DataPoll<Bytes, Status> {
        self.registrations += 1;
        self.waker = Some(cx.waker().clone());
        Poll::Pending
    }

    fn poll_trailers(&mut self, cx: &mut Context<'_>) -> Poll<Result<Option<http::HeaderMap>, Status>> {
        self.registrations += 1;
        self.waker = Some(cx.waker().clone());
        Poll::Pending
    }
}

fn cx() -> Context<'static> {
    Context::from_waker(noop_waker_ref())
}

fn chunk(p: DataPoll<Bytes, Status>) -> Bytes {
    match p {
        Poll::Ready(Some(Ok(b))) => b,
        _ => panic!("expected a chunk"),
    }
}

#[test]
fn scenario_two_chunks_then_end() {
    let producer: Scripted<Bytes, Status> = Scripted::new(
        vec![
            Poll::Ready(Some(Ok(Bytes::from_static(b"ab")))),
            Poll::Ready(Some(Ok(Bytes::from_static(b"cd")))),
        ],
        Ok(None),
    );
    let mut body = BoxBody::new(producer);
    let mut cx = cx();
    assert_eq!(chunk(body.poll_data(&mut cx)), Bytes::from_static(b"ab"));
    assert_eq!(chunk(body.poll_data(&mut cx)), Bytes::from_static(b"cd"));
    assert!(matches!(body.poll_data(&mut cx), Poll::Ready(None)));
    assert!(matches!(body.poll_trailers(&mut cx), Poll::Ready(Ok(None))));
}

#[test]
fn scenario_two_chunks_mapped_from_vec() {
    let producer: Scripted<Vec<u8>, Error> = Scripted::new(
        vec![Poll::Ready(Some(Ok(b"ab".to_vec()))), Poll::Ready(Some(Ok(b"cd".to_vec())))],
        Ok(None),
    );
    let mut body = BoxBody::map_from(producer);
    let mut cx = cx();
    assert_eq!(&chunk(body.poll_data(&mut cx))[..], b"ab");
    assert_eq!(&chunk(body.poll_data(&mut cx))[..], b"cd");
    assert!(matches!(body.poll_data(&mut cx), Poll::Ready(None)));
    assert!(matches!(body.poll_trailers(&mut cx), Poll::Ready(Ok(None))));
}

#[test]
fn scenario_error_boom_on_first_poll() {
    let producer: Scripted<Bytes, Error> =
        Scripted::new(vec![Poll::Ready(Some(Err(Error::Other("boom".to_string()))))], Ok(None));
    let mut body = BoxBody::map_from(producer);
    let mut cx = cx();
    match body.poll_data(&mut cx) {
        Poll::Ready(Some(Err(status))) => {
            assert!(status.message().contains("boom"));
            assert_eq!(status.code(), Code::Unknown);
        }
        _ => panic!("expected an error"),
    }
}

#[test]
fn scenario_never_ready_stays_pending() {
    let producer = NeverReady { registrations: 0, waker: None };
    let mut body = BoxBody::new(producer);
    let mut cx = cx();
    for _ in 0..5 {
        assert!(body.poll_data(&mut cx).is_pending());
        assert!(!body.is_end_stream());
    }
    assert!(body.poll_trailers(&mut cx).is_pending());
}

#[test]
fn never_ready_registers_once_per_poll() {
    let mut producer = NeverReady { registrations: 0, waker: None };
    let mut cx = cx();
    for n in 1..4usize {
        let mut mapped = MapBody::new(producer);
        assert!(mapped.poll_data(&mut cx).is_pending());
        producer = mapped.inner;
        assert_eq!(producer.registrations, n);
        assert!(producer.waker.is_some());
    }
}

#[test]
fn trailers_pass_through_unchanged() {
    let mut map = http::HeaderMap::new();
    map.insert("grpc-status", http::HeaderValue::from_static("0"));
    let producer: Scripted<Bytes, Error> =
        Scripted::new(vec![Poll::Ready(Some(Ok(Bytes::from_static(b"x"))))], Ok(Some(map.clone())));
    let mut body = BoxBody::map_from(producer);
    let mut cx = cx();
    assert_eq!(chunk(body.poll_data(&mut cx)), Bytes::from_static(b"x"));
    assert!(matches!(body.poll_data(&mut cx), Poll::Ready(None)));
    match body.poll_trailers(&mut cx) {
        Poll::Ready(Ok(Some(t))) => assert_eq!(t, map),
        _ => panic!("expected trailers"),
    }
}

#[test]
fn trailer_error_becomes_status() {
    let producer: Scripted<Bytes, Error> = Scripted::new(vec![], Err(Error::Other("bad trailer".to_string())));
    let mut body = BoxBody::map_from(producer);
    let mut cx = cx();
    assert!(matches!(body.poll_data(&mut cx), Poll::Ready(None)));
    match body.poll_trailers(&mut cx) {
        Poll::Ready(Err(s)) => {
            assert_eq!(s.code(), Code::Unknown);
            assert_eq!(s.message(), "bad trailer");
        }
        _ => panic!("expected an error"),
    }
}

#[test]
fn error_at_position_two_surfaces_once() {
    let producer: Scripted<Bytes, Error> = Scripted::new(
        vec![
            Poll::Ready(Some(Ok(Bytes::from_static(b"a")))),
            Poll::Ready(Some(Ok(Bytes::from_static(b"b")))),
            Poll::Ready(Some(Err(Error::Status(Status::new(Code::DataLoss, "lost".to_string()))))),
        ],
        Ok(None),
    );
    let mut body = BoxBody::map_from(producer);
    let mut cx = cx();
    assert_eq!(chunk(body.poll_data(&mut cx)), Bytes::from_static(b"a"));
    assert_eq!(chunk(body.poll_data(&mut cx)), Bytes::from_static(b"b"));
    match body.poll_data(&mut cx) {
        Poll::Ready(Some(Err(s))) => {
            assert_eq!(s.code(), Code::DataLoss);
            assert_eq!(s.message(), "lost");
        }
        _ => panic!("expected an error"),
    }
}

#[test]
fn end_of_stream_is_monotone() {
    let producer: Scripted<Bytes, Status> = Scripted::new(vec![], Ok(None));
    let mut body = BoxBody::new(producer);
    let mut cx = cx();
    assert!(!body.is_end_stream());
    assert!(matches!(body.poll_data(&mut cx), Poll::Ready(None)));
    assert!(matches!(body.poll_trailers(&mut cx), Poll::Ready(Ok(None))));
    assert!(body.is_end_stream());
    for _ in 0..3 {
        assert!(matches!(body.poll_data(&mut cx), Poll::Ready(None)));
        assert!(matches!(body.poll_trailers(&mut cx), Poll::Ready(Ok(None))));
        assert!(body.is_end_stream());
    }
}

#[test]
fn map_data_keeps_pending_and_end() {
    let p: DataPoll<Bytes, Status> = Poll::Pending;
    assert!(map_data(p).is_pending());
    let p: DataPoll<Bytes, Status> = Poll::Ready(None);
    assert!(matches!(map_data(p), Poll::Ready(None)));
}

#[test]
fn map_data_converts_chunk_and_status() {
    let p: DataPoll<Vec<u8>, Status> = Poll::Ready(Some(Ok(vec![1, 2, 3])));
    assert_eq!(chunk(map_data(p)), Bytes::from(vec![1u8, 2, 3]));
    let p: DataPoll<Vec<u8>, Status> =
        Poll::Ready(Some(Err(Status::new(Code::NotFound, "gone".to_string()))));
    match map_data(p) {
        Poll::Ready(Some(Err(s))) => {
            assert_eq!(s.code(), Code::NotFound);
            assert_eq!(s.message(), "gone");
        }
        _ => panic!("expected an error"),
    }
}

#[test]
fn map_trailers_keeps_pending_and_metadata() {
    let p: Poll<Result<Option<http::HeaderMap>, Status>> = Poll::Pending;
    assert!(map_trailers(p).is_pending());
    let p: Poll<Result<Option<http::HeaderMap>, Status>> = Poll::Ready(Ok(None));
    assert!(matches!(map_trailers(p), Poll::Ready(Ok(None))));
}

#[test]
fn status_from_error_is_total() {
    let other = Error::Other("disk on fire".to_string());
    let s = Status::from_error(&other);
    assert_eq!(s.code(), Code::Unknown);
    assert_eq!(s.message(), "disk on fire");
    let inner = Error::Status(Status::new(Code::Unavailable, "later".to_string()));
    let s = Status::from_error(&inner);
    assert_eq!(s.code(), Code::Unavailable);
    assert_eq!(s.message(), "later");
}

#[test]
fn status_map_error_keeps_status() {
    let s = Status::map_error(Error::from(Status::new(Code::Aborted, "stop".to_string())));
    assert_eq!(s.code(), Code::Aborted);
    assert_eq!(s.message(), "stop");
    let s = Status::map_error(Error::Other(String::new()));
    assert_eq!(s.code(), Code::Unknown);
    assert_eq!(s.message(), "");
}

/// A producer that counts its polls and keeps yielding after an error.
struct Counting {
    data_polls: usize,
    trailer_polls: usize,
}

impl Sealed for Counting {}

impl Body for Counting {
    type Data = Bytes;
    type Error = Error;

    fn end_of_stream(&self) -> bool {
        false
    }

    fn data_ok(&self, _r: DataPoll<Bytes, Error>) -> bool {
        true
    }

    fn trailers_ok(&self, _r: Poll<Result<Option<http::HeaderMap>, Error>>) -> bool {
        true
    }

    fn is_end_stream(&self) -> bool {
        false
    }

    fn poll_data(&mut self, _cx: &mut Context<'_>) -> DataPoll<Bytes, Error> {
        self.data_polls += 1;
        if self.data_polls == 1 {
            Poll::Ready(Some(Err(Error::Other("first".to_string()))))
        } else {
            Poll::Ready(Some(Ok(Bytes::from_static(b"late"))))
        }
    }

    fn poll_trailers(&mut self, _cx: &mut Context<'_>) -> Poll<Result<Option<http::HeaderMap>, Error>> {
        self.trailer_polls += 1;
        Poll::Ready(Ok(Some(http::HeaderMap::new())))
    }
}

#[test]
fn nothing_follows_an_error() {
    let mut mapped = MapBody::new(Counting { data_polls: 0, trailer_polls: 0 });
    let mut cx = cx();
    assert!(matches!(mapped.poll_data(&mut cx), Poll::Ready(Some(Err(_)))));
    assert!(!mapped.is_end_stream());
    for _ in 0..3 {
        assert!(matches!(mapped.poll_data(&mut cx), Poll::Ready(None)));
        assert!(matches!(mapped.poll_trailers(&mut cx), Poll::Ready(Ok(None))));
    }
    assert_eq!(mapped.inner.data_polls, 1);
    assert_eq!(mapped.inner.trailer_polls, 0);
}

#[test]
fn trailers_are_yielded_once() {
    let mut mapped = MapBody::new(Counting { data_polls: 1, trailer_polls: 0 });
    let mut cx = cx();
    assert!(matches!(mapped.poll_trailers(&mut cx), Poll::Ready(Ok(Some(_)))));
    assert!(!mapped.is_end_stream());
    assert!(matches!(mapped.poll_trailers(&mut cx), Poll::Ready(Ok(None))));
    assert!(matches!(mapped.poll_data(&mut cx), Poll::Ready(None)));
    assert_eq!(mapped.inner.trailer_polls, 1);
    assert_eq!(mapped.inner.data_polls, 1);
}

#[test]
fn data_end_is_not_polled_again() {
    let producer: Scripted<Bytes, Error> = Scripted::new(vec![Poll::Ready(None)], Ok(None));
    let mut mapped = MapBody::new(producer);
    let mut cx = cx();
    assert!(matches!(mapped.poll_data(&mut cx), Poll::Ready(None)));
    assert!(mapped.data_done);
    assert!(matches!(mapped.poll_data(&mut cx), Poll::Ready(None)));
    assert!(mapped.inner.data.is_empty());
}

#[test]
fn into_error_keeps_message() {
    match Error::Other("boom".to_string()).into_error() {
        Error::Other(m) => assert_eq!(m, "boom"),
        Error::Status(_) => panic!("expected the same error"),
    }
    match Status::new(Code::Internal, "x".to_string()).into_error() {
        Error::Status(s) => assert_eq!(s.code(), Code::Internal),
        Error::Other(_) => panic!("expected a status"),
    }
}

#[test]
fn end_flag_passes_through_mapping() {
    let producer: Scripted<Bytes, Error> = Scripted::new(vec![], Ok(None));
    let mut mapped = MapBody::new(producer);
    let mut cx = cx();
    assert!(!mapped.is_end_stream());
    assert!(matches!(mapped.poll_data(&mut cx), Poll::Ready(None)));
    assert!(!mapped.is_end_stream());
    assert!(matches!(mapped.poll_trailers(&mut cx), Poll::Ready(Ok(None))));
    assert_eq!(mapped.is_end_stream(), mapped.inner.is_end_stream());
    assert!(mapped.is_end_stream());
}
