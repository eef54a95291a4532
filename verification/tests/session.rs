use h2_server::http2::Completion;
use h2_server::http2::Http2Step;
use h2_server::http2::Served;
use h2_server::pool::AdmissionPool;
use h2_server::progress::Progress;
use h2_server::http2::Cause;
use h2_server::tcp_session::Ending;
use h2_server::tcp_session::Readiness;
use h2_server::tcp_session::SessionStep;
use h2_server::tcp_session::TcpSession;
use h2_server::tls::tls_accept;
use h2_server::tls::Handshake;
use h2_server::tls::SessionInfo;
use h2_server::tls::TlsAccept;
use h2_server::tls::TlsOutcome;

fn session(pool: &AdmissionPool, secure: bool) -> TcpSession {
    TcpSession::new(pool.try_acquire().unwrap(), secure)
}

fn negotiated() -> SessionInfo {
    SessionInfo::from_parts(Some("example.org".to_string()), Some("TLSv1_3".to_string()), None)
}

#[test]
fn plain_session_is_served_at_once() {
    let pool = AdmissionPool::new(1);
    let session = session(&pool, false);
    assert!(!session.is_secure());
    let step = session.run();
    assert!(matches!(step, SessionStep::Serve(_)));
    assert_eq!(pool.available(), 0);
}

#[test]
fn secure_session_starts_with_the_handshake() {
    let pool = AdmissionPool::new(1);
    let session = session(&pool, true);
    assert!(session.is_secure());
    match session.run() {
        SessionStep::Handshake(waiting) => assert!(waiting.is_secure()),
        _ => panic!("no handshake"),
    }
    assert_eq!(pool.available(), 1);
}

#[test]
fn secured_session_is_served_and_keeps_its_permit() {
    let pool = AdmissionPool::new(1);
    let next = session(&pool, true).secured(Some(negotiated()));
    assert!(next.is_ok());
    assert_eq!(pool.available(), 0);
    drop(next);
    assert_eq!(pool.available(), 1);
}

#[test]
fn session_without_a_secured_transport_ends_and_frees_its_slot() {
    let pool = AdmissionPool::new(1);
    let next = session(&pool, true).secured(None);
    assert!(next.is_err());
    assert_eq!(pool.available(), 1);
    assert!(pool.try_acquire().is_some());
}

#[test]
fn timed_out_handshake_serves_nothing_and_frees_the_slot() {
    let pool = AdmissionPool::new(1);
    let waiting = match session(&pool, true).run() {
        SessionStep::Handshake(waiting) => waiting,
        _ => panic!("no handshake"),
    };
    assert_eq!(pool.stats().curr_conns, 1);
    let outcome = TlsAccept::new().poll(false, true, Progress::Pending).ready().unwrap();
    assert_eq!(outcome, TlsOutcome::TimedOut);
    assert!(outcome.is_fault());
    assert!(waiting.secured(tls_accept(outcome)).is_err());
    assert_eq!(pool.stats().curr_conns, 0);
}

#[test]
fn slow_handshake_does_not_keep_others_from_being_served() {
    let pool = AdmissionPool::new(2);
    let slow = match session(&pool, true).run() {
        SessionStep::Handshake(waiting) => waiting,
        _ => panic!("no handshake"),
    };
    assert!(TlsAccept::new().poll(false, false, Progress::Pending).is_pending());
    let other = session(&pool, true);
    let done = Progress::Ready(Handshake::Completed(negotiated()));
    let outcome = TlsAccept::new().poll(false, false, done).ready().unwrap();
    let serving = other.secured(tls_accept(outcome));
    assert!(serving.is_ok());
    assert_eq!(pool.stats().curr_conns, 2);
    let late = TlsAccept::new().poll(false, true, Progress::Pending).ready().unwrap();
    assert!(slow.secured(tls_accept(late)).is_err());
    assert_eq!(pool.stats().curr_conns, 1);
}

#[test]
fn failed_handshake_and_shutdown_free_the_slot_too() {
    let pool = AdmissionPool::new(1);
    for (shutdown_ready, handshake) in [
        (false, Progress::Ready(Handshake::Failed)),
        (true, Progress::Pending),
        (true, Progress::Ready(Handshake::Completed(negotiated()))),
    ] {
        let waiting = session(&pool, true);
        let outcome = TlsAccept::new().poll(shutdown_ready, false, handshake).ready().unwrap();
        assert!(waiting.secured(tls_accept(outcome)).is_err());
        assert_eq!(pool.available(), 1);
    }
}

#[test]
fn session_holds_its_slot_from_start_to_end() {
    let pool = AdmissionPool::new(1);
    let http2 = match session(&pool, false).run() {
        SessionStep::Serve(http2) => http2,
        _ => panic!("not served"),
    };
    assert!(pool.try_acquire().is_none());
    let http2 = match http2.poll(false, Progress::Pending) {
        Http2Step::Pending(http2) => http2,
        Http2Step::Done(_, _) => panic!("ended while pending"),
    };
    assert!(pool.try_acquire().is_none());
    match http2.poll(false, Progress::Ready(Served::Clean)) {
        Http2Step::Done(end, _) => assert_eq!(end, Completion::Finished),
        Http2Step::Pending(_) => panic!("pending after the end"),
    }
    assert!(pool.try_acquire().is_some());
}

fn seen(
    shutdown_ready: bool,
    timed_out: bool,
    handshake: Progress<Handshake>,
    conn: Progress<Served>,
) -> Readiness {
    Readiness { shutdown_ready, timed_out, handshake, conn }
}

fn nothing_ready() -> Readiness {
    seen(false, false, Progress::Pending, Progress::Pending)
}

fn ending(step: &SessionStep) -> Option<Ending> {
    match step {
        SessionStep::Closed(ending, _) => Some(ending.clone()),
        _ => None,
    }
}

#[test]
fn closing_a_session_frees_its_slot() {
    let pool = AdmissionPool::new(1);
    let waiting = session(&pool, true);
    assert_eq!(pool.available(), 0);
    waiting.close();
    assert_eq!(pool.available(), 1);
}

#[test]
fn poll_with_nothing_ready_changes_nothing() {
    let pool = AdmissionPool::new(2);
    let handshaking = session(&pool, true).run().poll(nothing_ready());
    assert!(matches!(handshaking, SessionStep::Handshake(_)));
    let serving = session(&pool, false).run().poll(nothing_ready());
    assert!(matches!(serving, SessionStep::Serve(_)));
    assert_eq!(pool.stats().curr_conns, 2);
}

#[test]
fn poll_moves_a_secured_handshake_on_to_serving() {
    let pool = AdmissionPool::new(1);
    let done = Progress::Ready(Handshake::Completed(negotiated()));
    let step = session(&pool, true).run().poll(seen(false, false, done, Progress::Pending));
    assert!(matches!(step, SessionStep::Serve(_)));
    assert_eq!(pool.stats().curr_conns, 1);
    let step = step.poll(seen(false, false, Progress::Pending, Progress::Ready(Served::Clean)));
    assert_eq!(ending(&step), Some(Ending::Served(Completion::Finished)));
    assert_eq!(pool.stats().curr_conns, 0);
}

#[test]
fn poll_closes_a_handshake_that_failed_or_ran_out_of_time() {
    let pool = AdmissionPool::new(1);
    let failed = seen(false, false, Progress::Ready(Handshake::Failed), Progress::Pending);
    let step = session(&pool, true).run().poll(failed);
    assert_eq!(ending(&step), Some(Ending::NotSecured(TlsOutcome::Failed)));
    assert_eq!(pool.available(), 1);
    let late = seen(false, true, Progress::Pending, Progress::Pending);
    let step = session(&pool, true).run().poll(late);
    assert_eq!(ending(&step), Some(Ending::NotSecured(TlsOutcome::TimedOut)));
    assert_eq!(pool.available(), 1);
    let late_and_done =
        seen(false, true, Progress::Ready(Handshake::Completed(negotiated())), Progress::Pending);
    let step = session(&pool, true).run().poll(late_and_done);
    assert_eq!(ending(&step), Some(Ending::NotSecured(TlsOutcome::TimedOut)));
    assert_eq!(pool.available(), 1);
}

#[test]
fn poll_after_shutdown_closes_the_connection_in_either_stage() {
    let pool = AdmissionPool::new(1);
    let everything = seen(
        true,
        true,
        Progress::Ready(Handshake::Completed(negotiated())),
        Progress::Ready(Served::Clean),
    );
    let step = session(&pool, true).run().poll(everything);
    assert_eq!(ending(&step), Some(Ending::NotSecured(TlsOutcome::Shutdown)));
    assert_eq!(pool.available(), 1);
    let everything = seen(
        true,
        true,
        Progress::Ready(Handshake::Completed(negotiated())),
        Progress::Ready(Served::Clean),
    );
    let step = session(&pool, false).run().poll(everything);
    assert_eq!(ending(&step), Some(Ending::Served(Completion::Interrupted)));
    assert_eq!(pool.available(), 1);
}

#[test]
fn poll_ends_a_served_connection_as_the_engine_ended() {
    let pool = AdmissionPool::new(1);
    for (served, expected) in [
        (Served::Clean, Completion::Finished),
        (Served::Failed(Cause::PeerClosed), Completion::PeerClosed),
        (Served::Failed(Cause::Other), Completion::Failed),
    ] {
        let report = seen(false, false, Progress::Pending, Progress::Ready(served));
        let step = session(&pool, false).run().poll(report);
        assert_eq!(ending(&step), Some(Ending::Served(expected)));
        assert_eq!(pool.available(), 1);
    }
}

#[test]
fn serving_stage_takes_no_notice_of_the_handshake_timeout() {
    let pool = AdmissionPool::new(1);
    let late = seen(false, true, Progress::Ready(Handshake::Failed), Progress::Pending);
    let step = session(&pool, false).run().poll(late);
    assert!(matches!(step, SessionStep::Serve(_)));
    assert_eq!(pool.available(), 0);
}

#[test]
fn closed_connection_stays_closed() {
    let pool = AdmissionPool::new(1);
    let report = seen(false, false, Progress::Pending, Progress::Ready(Served::Clean));
    let closed = session(&pool, false).run().poll(report);
    let again = closed.poll(seen(
        false,
        false,
        Progress::Ready(Handshake::Completed(negotiated())),
        Progress::Ready(Served::Failed(Cause::Other)),
    ));
    assert_eq!(ending(&again), Some(Ending::Served(Completion::Finished)));
    assert_eq!(pool.available(), 1);
}
