use std::convert::Infallible;

use h2_server::http2::Cause;
use h2_server::http2::Completion;
use h2_server::http2::Http2;
use h2_server::http2::Http2Step;
use h2_server::http2::IoKind;
use h2_server::http2::Served;
use h2_server::pool::AdmissionPool;
use h2_server::progress::Progress;
use hyper::body::Incoming;
use hyper::server::conn::http2::Builder;
use hyper::service::service_fn;
use hyper::Request;
use hyper::Response;
use hyper_util::rt::TokioExecutor;
use hyper_util::rt::TokioIo;
use tokio::io::AsyncWriteExt;

async fn hello(_request: Request<Incoming>) -> Result<Response<String>, Infallible> {
    Ok(Response::new(String::from("hello")))
}

// Serves one connection over an in-memory transport whose other end sends
// `sent` and then closes its sending side, as a peer does that goes away.
fn serve_peer_that_sends(sent: &'static [u8]) -> Result<(), hyper::Error> {
    let runtime = tokio::runtime::Builder::new_current_thread().enable_all().build().unwrap();
    runtime.block_on(async move {
        let (mut peer, transport) = tokio::io::duplex(4096);
        let builder = Builder::new(TokioExecutor::new());
        let conn = builder.serve_connection(TokioIo::new(transport), service_fn(hello));
        peer.write_all(sent).await.unwrap();
        peer.shutdown().await.unwrap();
        let served = conn.await;
        drop(peer);
        served
    })
}

fn serving(pool: &AdmissionPool) -> Http2 {
    Http2::new(pool.try_acquire().unwrap())
}

fn end_of(step: Http2Step) -> Option<Completion> {
    match step {
        Http2Step::Pending(_) => None,
        Http2Step::Done(end, _) => Some(end),
    }
}

#[test]
fn pending_connection_goes_on_and_keeps_its_permit() {
    let pool = AdmissionPool::new(1);
    let step = serving(&pool).poll(false, Progress::Pending);
    assert!(matches!(step, Http2Step::Pending(_)));
    assert_eq!(pool.available(), 0);
    drop(step);
    assert_eq!(pool.available(), 1);
}

#[test]
fn clean_end_is_finished() {
    let pool = AdmissionPool::new(1);
    let step = serving(&pool).poll(false, Progress::Ready(Served::Clean));
    assert_eq!(end_of(step), Some(Completion::Finished));
}

#[test]
fn abrupt_close_by_the_peer_is_an_ordinary_end() {
    let pool = AdmissionPool::new(1);
    let failed = Progress::Ready(Served::Failed(Cause::PeerClosed));
    let end = end_of(serving(&pool).poll(false, failed)).unwrap();
    assert_eq!(end, Completion::PeerClosed);
    assert!(!end.is_fault());
}

#[test]
fn other_failure_is_a_fault() {
    let pool = AdmissionPool::new(1);
    let failed = Progress::Ready(Served::Failed(Cause::Other));
    let end = end_of(serving(&pool).poll(false, failed)).unwrap();
    assert_eq!(end, Completion::Failed);
    assert!(end.is_fault());
}

#[test]
fn shutdown_interrupts_whatever_the_connection_reports() {
    let pool = AdmissionPool::new(1);
    let reports = [
        Progress::Pending,
        Progress::Ready(Served::Clean),
        Progress::Ready(Served::Failed(Cause::PeerClosed)),
        Progress::Ready(Served::Failed(Cause::Other)),
    ];
    for report in reports {
        let step = serving(&pool).poll(true, report);
        assert_eq!(end_of(step), Some(Completion::Interrupted));
        assert_eq!(pool.available(), 1);
    }
}

#[test]
fn every_end_gives_the_permit_back() {
    let pool = AdmissionPool::new(2);
    let reports = [
        (true, Progress::Pending),
        (false, Progress::Ready(Served::Clean)),
        (false, Progress::Ready(Served::Failed(Cause::PeerClosed))),
        (false, Progress::Ready(Served::Failed(Cause::Other))),
    ];
    for (shutdown_ready, report) in reports {
        let http2 = serving(&pool);
        assert_eq!(pool.stats().curr_conns, 1);
        let step = http2.poll(shutdown_ready, report);
        assert_eq!(pool.stats().curr_conns, 0);
        assert!(matches!(step, Http2Step::Done(_, _)));
    }
}

#[test]
fn pending_connection_can_be_polled_again() {
    let pool = AdmissionPool::new(1);
    let mut http2 = serving(&pool);
    for _ in 0..3 {
        http2 = match http2.poll(false, Progress::Pending) {
            Http2Step::Pending(same) => same,
            Http2Step::Done(end, _) => panic!("ended: {:?}", end),
        };
        assert_eq!(pool.available(), 0);
    }
    let step = http2.poll(false, Progress::Ready(Served::Clean));
    assert_eq!(end_of(step), Some(Completion::Finished));
    assert_eq!(pool.available(), 1);
}

#[test]
fn only_a_failure_is_a_fault() {
    assert!(Completion::Failed.is_fault());
    assert!(!Completion::Finished.is_fault());
    assert!(!Completion::PeerClosed.is_fault());
    assert!(!Completion::Interrupted.is_fault());
}

#[test]
fn cause_goes_by_the_kind_of_the_transport_error() {
    assert_eq!(Cause::from_transport(Some(IoKind::UnexpectedEof)), Cause::PeerClosed);
    assert_eq!(Cause::from_transport(Some(IoKind::Other)), Cause::Other);
    assert_eq!(Cause::from_transport(None), Cause::Other);
}

#[test]
fn peer_that_closes_at_once_is_seen_as_closed() {
    let error = serve_peer_that_sends(b"").unwrap_err();
    assert_eq!(Cause::of(&error), Cause::PeerClosed);
}

#[test]
fn peer_that_closes_inside_the_preface_is_seen_as_closed() {
    let error = serve_peer_that_sends(b"PRI * HTTP/2.0\r\n").unwrap_err();
    assert_eq!(Cause::of(&error), Cause::PeerClosed);
}

#[test]
fn peer_that_speaks_another_protocol_is_a_failure() {
    let error = serve_peer_that_sends(b"GET / HTTP/1.1\r\nHost: example.org\r\n\r\n").unwrap_err();
    assert_eq!(Cause::of(&error), Cause::Other);
}

#[test]
fn abrupt_close_ends_the_connection_without_a_fault() {
    let pool = AdmissionPool::new(1);
    let error = serve_peer_that_sends(b"").unwrap_err();
    let report = Progress::Ready(Served::Failed(Cause::of(&error)));
    let end = end_of(serving(&pool).poll(false, report)).unwrap();
    assert_eq!(end, Completion::PeerClosed);
    assert!(!end.is_fault());
    assert_eq!(pool.available(), 1);
}
