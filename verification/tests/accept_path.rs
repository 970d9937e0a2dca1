use rustls_listener::acceptor::{
    take_candidate, AcceptError, Accepted, ConfigEvent, RustlsAcceptor,
};
use rustls_listener::config::{ServerContext, TlsConfig};
use rustls_listener::handshake::{DriveEvent, OpReport, TlsHandshake};
use rustls_listener::listener::{RustlsListener, TcpListener};

fn conn(stream: &'static str, local: u32, remote: u32) -> Accepted<&'static str, u32> {
    Accepted {
        stream,
        local_addr: local,
        remote_addr: remote,
    }
}

#[test]
fn cold_start_no_config() {
    let acceptor = RustlsAcceptor::<u8, u8>::new(0, 0);
    let result =
        acceptor.accept_outcome::<&'static str, u32, &'static str>(Ok(conn("l1", 1, 2)));
    match result {
        Err(err) => {
            assert!(matches!(err, AcceptError::MissingConfig));
            assert!(err.message().contains("no valid tls config"));
        }
        Ok(_) => panic!("accept must fail without a configuration"),
    }
}

#[test]
fn warm_start() {
    let mut acceptor = RustlsAcceptor::<u8, u8>::new(0, 0);
    let candidate = take_candidate(vec![TlsConfig { id: 0 }]);
    assert_eq!(candidate, Some(TlsConfig { id: 0 }));
    let event = acceptor
        .apply_update::<&'static str>(Ok(ServerContext { id: 0 }))
        .expect("a successful build installs");
    assert_eq!(event, ConfigEvent::Loaded);
    let accepted = acceptor
        .accept_outcome::<&'static str, u32, &'static str>(Ok(conn("l1", 7, 9)))
        .expect("a configured acceptor wraps the connection");
    assert_eq!(accepted.local_addr, 7);
    assert_eq!(accepted.remote_addr, 9);
    match &accepted.stream {
        TlsHandshake::Handshaking { inner, context } => {
            assert_eq!(*inner, "l1");
            assert_eq!(*context, ServerContext { id: 0 });
        }
        _ => panic!("a fresh connection is handshaking"),
    }
    let (driven, report) = accepted.stream.drive::<&'static str>(DriveEvent::Completed);
    assert_eq!(report, OpReport::PassThrough);
    assert_eq!(driven.context(), Some(ServerContext { id: 0 }));
}

#[test]
fn hot_swap_keeps_inflight_handshake() {
    let mut acceptor = RustlsAcceptor::<u8, u8>::new(0, 0);
    acceptor
        .apply_update::<&'static str>(Ok(ServerContext { id: 0 }))
        .expect("first install");
    let first = acceptor
        .accept_outcome::<&'static str, u32, &'static str>(Ok(conn("l1", 1, 2)))
        .expect("first accept");
    let event = acceptor
        .apply_update::<&'static str>(Ok(ServerContext { id: 1 }))
        .expect("replacement install");
    assert_eq!(event, ConfigEvent::Changed);
    let second = acceptor
        .accept_outcome::<&'static str, u32, &'static str>(Ok(conn("l2", 1, 3)))
        .expect("second accept");
    assert_eq!(second.stream.context(), Some(ServerContext { id: 1 }));
    // The handshake already handed out keeps the context it was born with.
    let (driven, report) = first.stream.drive::<&'static str>(DriveEvent::NotReady);
    assert_eq!(report, OpReport::Pending);
    let (done, report) = driven.drive::<&'static str>(DriveEvent::Completed);
    assert_eq!(report, OpReport::PassThrough);
    assert_eq!(done.context(), Some(ServerContext { id: 0 }));
}

#[test]
fn coalescing_builds_only_the_last_delivery() {
    let mut acceptor = RustlsAcceptor::<u8, u8>::new(0, 0);
    let candidate = take_candidate(vec![TlsConfig { id: 0 }, TlsConfig { id: 1 }]);
    assert_eq!(candidate, Some(TlsConfig { id: 1 }));
    let event = acceptor
        .apply_update::<&'static str>(Ok(ServerContext { id: 1 }))
        .expect("the single build installs");
    assert_eq!(event, ConfigEvent::Loaded);
    let accepted = acceptor
        .accept_outcome::<&'static str, u32, &'static str>(Ok(conn("l1", 4, 5)))
        .expect("accept");
    assert_eq!(accepted.stream.context(), Some(ServerContext { id: 1 }));
}

#[test]
fn empty_drain_leaves_no_candidate() {
    assert_eq!(take_candidate(vec![]), None);
}

#[test]
fn build_failure_cold_leaves_slot_empty() {
    let mut acceptor = RustlsAcceptor::<u8, u8>::new(0, 0);
    let result = acceptor.apply_update::<&'static str>(Err("bad certificate"));
    assert_eq!(result, Err("bad certificate"));
    assert_eq!(acceptor.active_context, None);
    // The round fails; the next accept still reports the missing config.
    let outcome =
        acceptor.accept_outcome::<&'static str, u32, &'static str>(Ok(conn("l1", 1, 2)));
    assert!(matches!(outcome, Err(AcceptError::MissingConfig)));
}

#[test]
fn build_failure_warm_keeps_previous_context() {
    let mut acceptor = RustlsAcceptor::<u8, u8>::new(0, 0);
    acceptor
        .apply_update::<&'static str>(Ok(ServerContext { id: 0 }))
        .expect("first install");
    let result = acceptor.apply_update::<&'static str>(Err("bad key"));
    assert_eq!(result, Err("bad key"));
    assert_eq!(acceptor.active_context, Some(ServerContext { id: 0 }));
    let accepted = acceptor
        .accept_outcome::<&'static str, u32, &'static str>(Ok(conn("l1", 1, 2)))
        .expect("the previous context still serves");
    assert_eq!(accepted.stream.context(), Some(ServerContext { id: 0 }));
}

#[test]
fn inner_error_passes_through_verbatim() {
    let mut acceptor = RustlsAcceptor::<u8, u8>::new(0, 0);
    acceptor
        .apply_update::<&'static str>(Ok(ServerContext { id: 0 }))
        .expect("install");
    let outcome = acceptor.accept_outcome::<&'static str, u32, &'static str>(Err("connection reset"));
    assert_eq!(outcome.err(), Some(AcceptError::Inner("connection reset")));
}

#[test]
fn handshake_failure_reports_once_then_broken_pipe() {
    let handshake = TlsHandshake::new("l1", ServerContext { id: 3 });
    let (pending, report) = handshake.drive::<&'static str>(DriveEvent::NotReady);
    assert_eq!(report, OpReport::Pending);
    let (failed, report) = pending.drive::<&'static str>(DriveEvent::Failed("bad record"));
    assert_eq!(report, OpReport::Failed("bad record"));
    assert_eq!(failed.context(), None);
    let (still_failed, report) = failed.drive::<&'static str>(DriveEvent::NotReady);
    assert_eq!(report, OpReport::BrokenPipe);
    assert!(matches!(still_failed, TlsHandshake::Failed));
}

#[test]
fn established_session_keeps_passing_through() {
    let handshake = TlsHandshake::new("l1", ServerContext { id: 5 });
    let (established, _) = handshake.drive::<&'static str>(DriveEvent::Completed);
    let (still, report) = established.drive::<&'static str>(DriveEvent::NotReady);
    assert_eq!(report, OpReport::PassThrough);
    assert_eq!(still.context(), Some(ServerContext { id: 5 }));
}

#[test]
fn missing_config_message_text() {
    let err = AcceptError::<u8>::MissingConfig;
    assert_eq!(err.message(), "no valid tls config.");
}

#[test]
fn listener_new_pairs_parts() {
    let listener = RustlsListener::new(11u8, 22u8);
    assert_eq!(listener.config_stream, 11);
    assert_eq!(listener.inner, 22);
}

#[test]
fn listener_bind_defers_binding() {
    let listener = RustlsListener::<u8, TcpListener<&'static str>>::bind(11u8, "localhost:7878");
    assert_eq!(listener.config_stream, 11);
    assert_eq!(listener.inner.addr, "localhost:7878");
}

#[test]
fn into_acceptor_starts_without_context() {
    let listener = RustlsListener::new(11u8, 22u8);
    let acceptor = listener.into_acceptor(33u8);
    assert_eq!(acceptor.config_stream, 11);
    assert_eq!(acceptor.inner, 33);
    assert_eq!(acceptor.active_context, None);
}

#[test]
fn acceptor_new_starts_without_context() {
    let acceptor = RustlsAcceptor::new(1u8, 2u8);
    assert_eq!(acceptor.config_stream, 1);
    assert_eq!(acceptor.inner, 2);
    assert_eq!(acceptor.active_context, None);
}
