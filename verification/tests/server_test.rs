// What a connection and the listener decide, step by step.

use haproxy_grpc_agent::checker::{
    BackendChannelKey, CheckError, GrpcHealthChecker, HealthCheckResponse_grpc, ProbeReport,
    ProbeStep, RpcOutcome,
};
use haproxy_grpc_agent::config::{AgentConfig, LogLevel};
use haproxy_grpc_agent::protocol::{
    parse_request, HealthCheckRequest, HealthCheckResponse, HealthStatus, ParseError, SslFlag,
};
use haproxy_grpc_agent::server::{
    handle_connection, AgentServer, ConnectionAction, ConnectionEvent, ConnectionState,
    ListenerAction, ListenerEvent, Notice, Transition,
};
use tonic::transport::{Channel, Endpoint};

fn runtime() -> tokio::runtime::Runtime {
    tokio::runtime::Builder::new_current_thread().enable_all().build().unwrap()
}

fn lazy_channel(uri: &str) -> Channel {
    Endpoint::from_shared(uri.to_string()).unwrap().connect_lazy()
}

fn report(status: HealthStatus, failure: Option<CheckError>) -> ProbeReport {
    ProbeReport { response: HealthCheckResponse::new(status), failure }
}

fn written(next: &Transition) -> String {
    match &next.action {
        ConnectionAction::Write(text) => text.clone(),
        _ => panic!("expected a write"),
    }
}

fn probed(next: &Transition) -> HealthCheckRequest {
    match &next.action {
        ConnectionAction::Probe(request) => request.clone(),
        _ => panic!("expected a probe"),
    }
}

// Serves one line as the backend answers `status`, the channel dialled where none is kept.
fn serve(checker: &mut GrpcHealthChecker, line: &str, dial: Result<(), &str>, status: i32) -> String {
    let next = handle_connection(ConnectionState::Reading, ConnectionEvent::Line(line.to_string()));
    if next.state == ConnectionState::Responding {
        return written(&next);
    }
    assert_eq!(next.state, ConnectionState::Parsed);
    let request = probed(&next);
    let mut step = checker.check_backend(&request);
    if let ProbeStep::Dial { key, plan, .. } = step {
        let outcome = match dial {
            Ok(()) => Ok(lazy_channel(&plan.endpoint)),
            Err(cause) => Err(cause.to_string()),
        };
        step = checker.dial_finished(&key, outcome);
    }
    let report = match step {
        ProbeStep::Call { .. } => {
            checker.call_finished(RpcOutcome::Response(HealthCheckResponse_grpc { status }))
        }
        ProbeStep::Done(report) => report,
        ProbeStep::Dial { .. } => panic!("a dial cannot follow a dial"),
    };
    let next = handle_connection(next.state, ConnectionEvent::Probed { request, report });
    assert_eq!(next.state, ConnectionState::Responding);
    let text = written(&next);
    let next = handle_connection(next.state, ConnectionEvent::Written);
    assert_eq!(next.state, ConnectionState::Reading);
    assert!(matches!(next.action, ConnectionAction::ReadLine));
    text
}

#[test]
fn a_connection_begins_by_reading() {
    let first = Transition::initial();
    assert_eq!(first.state, ConnectionState::Reading);
    assert!(matches!(first.action, ConnectionAction::ReadLine));
    assert!(first.notices.is_empty());
}

#[test]
fn a_request_line_starts_a_probe() {
    let next = handle_connection(
        ConnectionState::Reading,
        ConnectionEvent::Line("localhost 50051 no-ssl localhost\n".to_string()),
    );
    assert_eq!(next.state, ConnectionState::Parsed);
    assert_eq!(probed(&next), parse_request("localhost 50051 no-ssl localhost").unwrap());
    assert_eq!(
        next.notices,
        vec![Notice::Processing { backend: "localhost:50051".to_string(), ssl_flag: SslFlag::NoSsl }]
    );
}

#[test]
fn a_malformed_line_is_answered_down_and_the_connection_goes_on() {
    let next = handle_connection(
        ConnectionState::Reading,
        ConnectionEvent::Line("invalid request\n".to_string()),
    );
    assert_eq!(next.state, ConnectionState::Responding);
    assert_eq!(written(&next), "down\n");
    assert_eq!(
        next.notices,
        vec![Notice::ProtocolViolation {
            error: ParseError::InvalidFieldCount(2),
            input: "invalid request\n".to_string(),
        }]
    );
    assert_eq!(next.notices[0].level(), LogLevel::Warn);
    assert_eq!(next.notices[0].message(), "Protocol violation");
    let next = handle_connection(next.state, ConnectionEvent::Written);
    assert_eq!(next.state, ConnectionState::Reading);
    assert!(matches!(next.action, ConnectionAction::ReadLine));
    assert!(next.notices.is_empty());
}

#[test]
fn garbage_then_a_valid_line_gets_down_then_the_verdict() {
    let rt = runtime();
    let _guard = rt.enter();
    let mut checker = GrpcHealthChecker::new(AgentConfig::default());
    assert_eq!(serve(&mut checker, "garbage\n", Ok(()), 1), "down\n");
    assert_eq!(serve(&mut checker, "localhost 50051 no-ssl localhost\n", Ok(()), 1), "up\n");
}

#[test]
fn serving_backend_is_up() {
    let rt = runtime();
    let _guard = rt.enter();
    let mut checker = GrpcHealthChecker::new(AgentConfig::default());
    assert_eq!(serve(&mut checker, "localhost 50051 no-ssl localhost\n", Ok(()), 1), "up\n");
}

#[test]
fn not_serving_backend_is_down() {
    let rt = runtime();
    let _guard = rt.enter();
    let mut checker = GrpcHealthChecker::new(AgentConfig::default());
    assert_eq!(serve(&mut checker, "localhost 50051 no-ssl localhost\n", Ok(()), 2), "down\n");
}

#[test]
fn unreachable_backend_is_down() {
    let mut checker = GrpcHealthChecker::new(AgentConfig::default());
    let line = "nonexistent.example.com 9999 no-ssl nonexistent.example.com\n";
    assert_eq!(serve(&mut checker, line, Err("dns error"), 1), "down\n");
    assert_eq!(checker.get_active_channel_count(), 0);
}

#[test]
fn tls_backend_that_is_not_there_is_down() {
    let mut checker = GrpcHealthChecker::new(AgentConfig::default());
    let line = "localhost 50052 ssl localhost\n";
    assert_eq!(serve(&mut checker, line, Err("connection refused"), 1), "down\n");
}

#[test]
fn three_requests_on_one_connection_dial_once() {
    let rt = runtime();
    let _guard = rt.enter();
    let mut checker = GrpcHealthChecker::new(AgentConfig::default());
    let line = "localhost 50051 no-ssl localhost\n";
    assert_eq!(serve(&mut checker, line, Ok(()), 1), "up\n");
    let key = BackendChannelKey::from(&parse_request(line).unwrap());
    assert!(checker.cached_channel(&key).is_some());
    // A second dial would fail here, and the answer would be `down`.
    assert_eq!(serve(&mut checker, line, Err("no second dial"), 1), "up\n");
    assert_eq!(serve(&mut checker, line, Err("no third dial"), 1), "up\n");
    assert_eq!(checker.get_active_channel_count(), 1);
}

#[test]
fn the_end_of_a_probe_is_answered_with_its_verdict() {
    let request = parse_request("h 1 ssl p").unwrap();
    let up = handle_connection(
        ConnectionState::Parsed,
        ConnectionEvent::Probed { request: request.clone(), report: report(HealthStatus::Up, None) },
    );
    assert_eq!(up.state, ConnectionState::Responding);
    assert_eq!(written(&up), "up\n");
    assert_eq!(
        up.notices,
        vec![Notice::Completed { backend: "h:1".to_string(), status: HealthStatus::Up }]
    );
    let failure = CheckError::RpcTimeout { timeout_ms: 1500 };
    let down = handle_connection(
        ConnectionState::Parsed,
        ConnectionEvent::Probed {
            request,
            report: report(HealthStatus::Down, Some(failure.clone())),
        },
    );
    assert_eq!(down.state, ConnectionState::Responding);
    assert_eq!(written(&down), "down\n");
    assert_eq!(
        down.notices,
        vec![
            Notice::CheckFailed { backend: "h:1".to_string(), error: failure },
            Notice::Completed { backend: "h:1".to_string(), status: HealthStatus::Down },
        ]
    );
    assert_eq!(down.notices[0].level(), LogLevel::Error);
    assert_eq!(down.notices[0].message(), "Health check failed");
    assert_eq!(down.notices[1].level(), LogLevel::Info);
}

#[test]
fn peer_close_ends_the_connection_quietly() {
    let last = handle_connection(ConnectionState::Reading, ConnectionEvent::Eof);
    assert_eq!(last.state, ConnectionState::Closed);
    assert!(matches!(last.action, ConnectionAction::Close));
    assert_eq!(last.notices, vec![Notice::PeerClosed]);
    assert_eq!(last.notices[0].level(), LogLevel::Debug);
    assert_eq!(last.notices[0].message(), "Connection closed by peer (EOF)");
}

#[test]
fn failed_read_and_failed_write_close_the_connection() {
    let last = handle_connection(
        ConnectionState::Reading,
        ConnectionEvent::ReadFailed("reset".to_string()),
    );
    assert_eq!(last.state, ConnectionState::Closed);
    assert!(matches!(last.action, ConnectionAction::Close));
    assert_eq!(last.notices, vec![Notice::ReadFailed { error: "reset".to_string() }]);
    assert_eq!(last.notices[0].level(), LogLevel::Debug);
    let last = handle_connection(
        ConnectionState::Responding,
        ConnectionEvent::WriteFailed("broken pipe".to_string()),
    );
    assert_eq!(last.state, ConnectionState::Closed);
    assert!(matches!(last.action, ConnectionAction::Close));
    assert_eq!(last.notices, vec![Notice::WriteFailed { error: "broken pipe".to_string() }]);
    assert_eq!(last.notices[0].level(), LogLevel::Warn);
}

#[test]
fn an_event_that_is_not_awaited_closes_the_connection() {
    let request = parse_request("h 1 ssl p").unwrap();
    let cases = [
        (ConnectionState::Reading, ConnectionEvent::Written),
        (ConnectionState::Reading, ConnectionEvent::WriteFailed("x".to_string())),
        (
            ConnectionState::Reading,
            ConnectionEvent::Probed { request, report: report(HealthStatus::Up, None) },
        ),
        (ConnectionState::Parsed, ConnectionEvent::Line("h 1 ssl p".to_string())),
        (ConnectionState::Parsed, ConnectionEvent::Eof),
        (ConnectionState::Responding, ConnectionEvent::Eof),
        (ConnectionState::Responding, ConnectionEvent::Line("h 1 ssl p".to_string())),
        (ConnectionState::Closed, ConnectionEvent::Line("h 1 ssl p".to_string())),
        (ConnectionState::Closed, ConnectionEvent::Written),
        (ConnectionState::Closed, ConnectionEvent::Eof),
    ];
    for (state, event) in cases {
        let last = handle_connection(state, event);
        assert_eq!(last.state, ConnectionState::Closed);
        assert!(matches!(last.action, ConnectionAction::Close));
        assert!(last.notices.is_empty());
    }
}

#[test]
fn notice_levels_and_messages() {
    let cases = [
        (Notice::Listening { address: "a".to_string() }, LogLevel::Info, "Agent Text Protocol server listening"),
        (
            Notice::BindFailed { address: "a".to_string(), error: "e".to_string() },
            LogLevel::Error,
            "Failed to bind",
        ),
        (Notice::ConnectionEstablished, LogLevel::Info, "HAProxy connection established"),
        (Notice::AcceptFailed { error: "e".to_string() }, LogLevel::Error, "Failed to accept connection"),
        (Notice::ReadFailed { error: "e".to_string() }, LogLevel::Debug, "Failed to read from TCP stream"),
        (Notice::WriteFailed { error: "e".to_string() }, LogLevel::Warn, "Failed to write response"),
        (Notice::ConnectionClosed, LogLevel::Info, "HAProxy connection closed"),
    ];
    for (notice, level, message) in cases {
        assert_eq!(notice.level(), level);
        assert_eq!(notice.message(), message);
    }
}

#[test]
fn the_listener_survives_a_failed_accept_but_no_failed_bind() {
    let mut config = AgentConfig::default();
    config.server_bind_address = "127.0.0.1".to_string();
    config.server_port = 15555;
    let server = AgentServer::new(config);
    assert_eq!(server.bind_address(), "127.0.0.1:15555");

    let step = server.listener_step(ListenerEvent::Bound);
    assert_eq!(step.action, ListenerAction::Accept);
    assert_eq!(step.notice, Notice::Listening { address: "127.0.0.1:15555".to_string() });

    let step = server.listener_step(ListenerEvent::Accepted);
    assert_eq!(step.action, ListenerAction::Serve);
    assert_eq!(step.notice, Notice::ConnectionEstablished);

    let step = server.listener_step(ListenerEvent::AcceptFailed("too many files".to_string()));
    assert_eq!(step.action, ListenerAction::Accept);
    assert_eq!(step.notice, Notice::AcceptFailed { error: "too many files".to_string() });

    let step = server.listener_step(ListenerEvent::BindFailed("in use".to_string()));
    assert_eq!(step.action, ListenerAction::Exit);
    assert_eq!(
        step.notice,
        Notice::BindFailed { address: "127.0.0.1:15555".to_string(), error: "in use".to_string() }
    );
    assert_eq!(step.notice.level(), LogLevel::Error);
}

#[test]
fn the_server_owns_a_fresh_checker_with_its_settings() {
    let rt = runtime();
    let _guard = rt.enter();
    let mut config = AgentConfig::default();
    config.grpc_rpc_timeout_ms = 99;
    let mut server = AgentServer::new(config);
    assert_eq!(server.health_checker().get_active_channel_count(), 0);
    assert_eq!(
        server.health_checker().call_finished(RpcOutcome::TimedOut).failure,
        Some(CheckError::RpcTimeout { timeout_ms: 99 })
    );
    let key = BackendChannelKey::from(&parse_request("h 1 no-ssl p").unwrap());
    let step = server.health_checker_mut().dial_finished(&key, Ok(lazy_channel("http://h:1")));
    assert!(matches!(step, ProbeStep::Call { timeout_ms: 99, .. }));
    assert_eq!(server.health_checker().get_active_channel_count(), 1);
    assert_eq!(server.bind_address(), "0.0.0.0:5555");
}
