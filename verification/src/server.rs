//! The agent's TCP side as decisions: what a connection does on each thing
//! that happens to it, what the listener does, and what is logged.

use vstd::prelude::*;
use vstd::string::*;
use crate::checker::{
    address_of, backend_address, CheckError, CheckErrorView, GrpcHealthChecker, ProbeReport,
    ReportView,
};
use crate::config::{AgentConfig, ConfigView, LogLevel};
use crate::protocol::{
    parse_line, parse_request, HealthCheckRequest, HealthStatus, ParseError, ParseErrorView,
    RequestView, SslFlag,
};

verus! {

/// Something worth a log event.
#[derive(Debug, Clone, PartialEq, Eq)]
pub enum Notice {
    /// The listener is bound to `address`.
    Listening { address: String },
    /// The listener could not be bound to `address`.
    BindFailed { address: String, error: String },
    /// A connection was accepted.
    ConnectionEstablished,
    /// No connection could be accepted.
    AcceptFailed { error: String },
    /// The peer closed the connection.
    PeerClosed,
    /// Reading from the connection failed.
    ReadFailed { error: String },
    /// A request was read and its probe begins.
    Processing { backend: String, ssl_flag: SslFlag },
    /// The probe gave `down` for a reason other than the backend's answer.
    CheckFailed { backend: String, error: CheckError },
    /// The probe is over.
    Completed { backend: String, status: HealthStatus },
    /// A line was no request.
    ProtocolViolation { error: ParseError, input: String },
    /// Writing the response failed.
    WriteFailed { error: String },
    /// The connection is closed.
    ConnectionClosed,
}

/// What a `Notice` holds, as plain values.
pub enum NoticeView {
    Listening { address: Seq<char> },
    BindFailed { address: Seq<char>, error: Seq<char> },
    ConnectionEstablished,
    AcceptFailed { error: Seq<char> },
    PeerClosed,
    ReadFailed { error: Seq<char> },
    Processing { backend: Seq<char>, ssl_flag: SslFlag },
    CheckFailed { backend: Seq<char>, error: CheckErrorView },
    Completed { backend: Seq<char>, status: HealthStatus },
    ProtocolViolation { error: ParseErrorView, input: Seq<char> },
    WriteFailed { error: Seq<char> },
    ConnectionClosed,
}

impl NoticeView {
    /// The level at which the notice is logged.
    pub open spec fn level(self) -> LogLevel {
        match self {
            NoticeView::Listening { .. } => LogLevel::Info,
            NoticeView::BindFailed { .. } => LogLevel::Error,
            NoticeView::ConnectionEstablished => LogLevel::Info,
            NoticeView::AcceptFailed { .. } => LogLevel::Error,
            NoticeView::PeerClosed => LogLevel::Debug,
            NoticeView::ReadFailed { .. } => LogLevel::Debug,
            NoticeView::Processing { .. } => LogLevel::Info,
            NoticeView::CheckFailed { .. } => LogLevel::Error,
            NoticeView::Completed { .. } => LogLevel::Info,
            NoticeView::ProtocolViolation { .. } => LogLevel::Warn,
            NoticeView::WriteFailed { .. } => LogLevel::Warn,
            NoticeView::ConnectionClosed => LogLevel::Info,
        }
    }

    /// The message of the log event.
    pub open spec fn message(self) -> Seq<char> {
        match self {
            NoticeView::Listening { .. } => "Agent Text Protocol server listening"@,
            NoticeView::BindFailed { .. } => "Failed to bind"@,
            NoticeView::ConnectionEstablished => "HAProxy connection established"@,
            NoticeView::AcceptFailed { .. } => "Failed to accept connection"@,
            NoticeView::PeerClosed => "Connection closed by peer (EOF)"@,
            NoticeView::ReadFailed { .. } => "Failed to read from TCP stream"@,
            NoticeView::Processing { .. } => "Processing health check request"@,
            NoticeView::CheckFailed { .. } => "Health check failed"@,
            NoticeView::Completed { .. } => "Health check completed"@,
            NoticeView::ProtocolViolation { .. } => "Protocol violation"@,
            NoticeView::WriteFailed { .. } => "Failed to write response"@,
            NoticeView::ConnectionClosed => "HAProxy connection closed"@,
        }
    }
}

impl View for Notice {
    type V = NoticeView;

    open spec fn view(&self) -> NoticeView {
        match self {
            Notice::Listening { address } => NoticeView::Listening { address: address@ },
            Notice::BindFailed { address, error } => NoticeView::BindFailed {
                address: address@,
                error: error@,
            },
            Notice::ConnectionEstablished => NoticeView::ConnectionEstablished,
            Notice::AcceptFailed { error } => NoticeView::AcceptFailed { error: error@ },
            Notice::PeerClosed => NoticeView::PeerClosed,
            Notice::ReadFailed { error } => NoticeView::ReadFailed { error: error@ },
            Notice::Processing { backend, ssl_flag } => NoticeView::Processing {
                backend: backend@,
                ssl_flag: *ssl_flag,
            },
            Notice::CheckFailed { backend, error } => NoticeView::CheckFailed {
                backend: backend@,
                error: error@,
            },
            Notice::Completed { backend, status } => NoticeView::Completed {
                backend: backend@,
                status: *status,
            },
            Notice::ProtocolViolation { error, input } => NoticeView::ProtocolViolation {
                error: error@,
                input: input@,
            },
            Notice::WriteFailed { error } => NoticeView::WriteFailed { error: error@ },
            Notice::ConnectionClosed => NoticeView::ConnectionClosed,
        }
    }
}

impl Notice {
    /// The level at which the notice is logged.
    pub fn level(&self) -> (level: LogLevel)
        ensures
            level == self@.level(),
    {
        match self {
            Notice::Listening { .. } => LogLevel::Info,
            Notice::BindFailed { .. } => LogLevel::Error,
            Notice::ConnectionEstablished => LogLevel::Info,
            Notice::AcceptFailed { .. } => LogLevel::Error,
            Notice::PeerClosed => LogLevel::Debug,
            Notice::ReadFailed { .. } => LogLevel::Debug,
            Notice::Processing { .. } => LogLevel::Info,
            Notice::CheckFailed { .. } => LogLevel::Error,
            Notice::Completed { .. } => LogLevel::Info,
            Notice::ProtocolViolation { .. } => LogLevel::Warn,
            Notice::WriteFailed { .. } => LogLevel::Warn,
            Notice::ConnectionClosed => LogLevel::Info,
        }
    }

    /// The message of the log event.
    pub fn message(&self) -> (text: &'static str)
        ensures
            text@ == self@.message(),
    {
        match self {
            Notice::Listening { .. } => "Agent Text Protocol server listening",
            Notice::BindFailed { .. } => "Failed to bind",
            Notice::ConnectionEstablished => "HAProxy connection established",
            Notice::AcceptFailed { .. } => "Failed to accept connection",
            Notice::PeerClosed => "Connection closed by peer (EOF)",
            Notice::ReadFailed { .. } => "Failed to read from TCP stream",
            Notice::Processing { .. } => "Processing health check request",
            Notice::CheckFailed { .. } => "Health check failed",
            Notice::Completed { .. } => "Health check completed",
            Notice::ProtocolViolation { .. } => "Protocol violation",
            Notice::WriteFailed { .. } => "Failed to write response",
            Notice::ConnectionClosed => "HAProxy connection closed",
        }
    }
}

/// The notices of a list, each by its view.
pub open spec fn notice_views(notices: Seq<Notice>) -> Seq<NoticeView> {
    Seq::new(notices.len(), |i: int| notices[i]@)
}

/// Where a connection stands.
#[derive(Debug, Clone, Copy, PartialEq, Eq, Structural)]
pub enum ConnectionState {
    /// Waiting for the next line.
    Reading,
    /// A request was read; waiting for its probe to end.
    Parsed,
    /// A response is being written.
    Responding,
    /// Over: nothing is read or written any more.
    Closed,
}

/// What happened on a connection.
#[derive(Debug, Clone)]
pub enum ConnectionEvent {
    /// A line was read.
    Line(String),
    /// The peer closed the connection: a read gave no bytes.
    Eof,
    /// A read failed.
    ReadFailed(String),
    /// The probe of `request` ended.
    Probed { request: HealthCheckRequest, report: ProbeReport },
    /// The response was written and flushed.
    Written,
    /// Writing or flushing the response failed.
    WriteFailed(String),
}

/// What a `ConnectionEvent` holds, as plain values.
pub enum EventView {
    Line(Seq<char>),
    Eof,
    ReadFailed(Seq<char>),
    Probed { request: RequestView, report: ReportView },
    Written,
    WriteFailed(Seq<char>),
}

impl View for ConnectionEvent {
    type V = EventView;

    open spec fn view(&self) -> EventView {
        match self {
            ConnectionEvent::Line(line) => EventView::Line(line@),
            ConnectionEvent::Eof => EventView::Eof,
            ConnectionEvent::ReadFailed(error) => EventView::ReadFailed(error@),
            ConnectionEvent::Probed { request, report } => EventView::Probed {
                request: request@,
                report: report@,
            },
            ConnectionEvent::Written => EventView::Written,
            ConnectionEvent::WriteFailed(error) => EventView::WriteFailed(error@),
        }
    }
}

/// What is to be done next on a connection.
#[derive(Debug, Clone)]
pub enum ConnectionAction {
    /// Read one line.
    ReadLine,
    /// Probe the backend of the request.
    Probe(HealthCheckRequest),
    /// Write the text and flush.
    Write(String),
    /// Drop the connection.
    Close,
}

/// What a `ConnectionAction` holds, as plain values.
pub enum ActionView {
    ReadLine,
    Probe(RequestView),
    Write(Seq<char>),
    Close,
}

impl View for ConnectionAction {
    type V = ActionView;

    open spec fn view(&self) -> ActionView {
        match self {
            ConnectionAction::ReadLine => ActionView::ReadLine,
            ConnectionAction::Probe(request) => ActionView::Probe(request@),
            ConnectionAction::Write(text) => ActionView::Write(text@),
            ConnectionAction::Close => ActionView::Close,
        }
    }
}

/// One step of a connection: where it stands afterwards, what is to be done
/// next, and what is to be logged, in order.
#[derive(Debug)]
pub struct Transition {
    pub state: ConnectionState,
    pub action: ConnectionAction,
    pub notices: Vec<Notice>,
}

/// What a `Transition` holds, as plain values.
pub struct TransitionView {
    pub state: ConnectionState,
    pub action: ActionView,
    pub notices: Seq<NoticeView>,
}

impl View for Transition {
    type V = TransitionView;

    open spec fn view(&self) -> TransitionView {
        TransitionView {
            state: self.state,
            action: self.action@,
            notices: notice_views(self.notices@),
        }
    }
}

/// The step that ends a connection without a word.
pub open spec fn closing() -> TransitionView {
    TransitionView { state: ConnectionState::Closed, action: ActionView::Close, notices: seq![] }
}

/// What a connection in `state` does on `event`.
///
/// While reading: a line that is a request starts its probe; any other line
/// is answered `down` at once; the end of the stream or a failed read closes
/// the connection. The end of a probe is answered with its verdict. After a
/// response is written the next line is read; a failed write closes the
/// connection. An event that the state does not wait for closes it too.
pub open spec fn transition(state: ConnectionState, event: EventView) -> TransitionView {
    match (state, event) {
        (ConnectionState::Reading, EventView::Line(line)) => match parse_line(line) {
            Ok(request) => TransitionView {
                state: ConnectionState::Parsed,
                action: ActionView::Probe(request),
                notices: seq![
                    NoticeView::Processing {
                        backend: address_of(request.backend_server, request.backend_port),
                        ssl_flag: request.ssl_flag,
                    },
                ],
            },
            Err(error) => TransitionView {
                state: ConnectionState::Responding,
                action: ActionView::Write(HealthStatus::Down.wire()),
                notices: seq![NoticeView::ProtocolViolation { error, input: line }],
            },
        },
        (ConnectionState::Reading, EventView::Eof) => TransitionView {
            state: ConnectionState::Closed,
            action: ActionView::Close,
            notices: seq![NoticeView::PeerClosed],
        },
        (ConnectionState::Reading, EventView::ReadFailed(error)) => TransitionView {
            state: ConnectionState::Closed,
            action: ActionView::Close,
            notices: seq![NoticeView::ReadFailed { error }],
        },
        (ConnectionState::Parsed, EventView::Probed { request, report }) => {
            let backend = address_of(request.backend_server, request.backend_port);
            let completed = NoticeView::Completed { backend, status: report.status };
            TransitionView {
                state: ConnectionState::Responding,
                action: ActionView::Write(report.status.wire()),
                notices: match report.failure {
                    Some(error) => seq![NoticeView::CheckFailed { backend, error }, completed],
                    None => seq![completed],
                },
            }
        },
        (ConnectionState::Responding, EventView::Written) => TransitionView {
            state: ConnectionState::Reading,
            action: ActionView::ReadLine,
            notices: seq![],
        },
        (ConnectionState::Responding, EventView::WriteFailed(error)) => TransitionView {
            state: ConnectionState::Closed,
            action: ActionView::Close,
            notices: seq![NoticeView::WriteFailed { error }],
        },
        _ => closing(),
    }
}

impl Transition {
    /// How a connection begins: it reads its first line.
    pub fn initial() -> (first: Transition)
        ensures
            first.state == ConnectionState::Reading,
            first.action@ == ActionView::ReadLine,
            first.notices@.len() == 0,
    {
        Transition {
            state: ConnectionState::Reading,
            action: ConnectionAction::ReadLine,
            notices: Vec::new(),
        }
    }

    fn close(notices: Vec<Notice>) -> (last: Transition)
        ensures
            last.state == ConnectionState::Closed,
            last.action@ == ActionView::Close,
            last.notices == notices,
    {
        Transition { state: ConnectionState::Closed, action: ConnectionAction::Close, notices }
    }
}

/// Decides what a connection in `state` does on `event`.
pub fn handle_connection(state: ConnectionState, event: ConnectionEvent) -> (next: Transition)
    ensures
        next@ == transition(state, event@),
{
    match state {
        ConnectionState::Reading => match event {
            ConnectionEvent::Line(line) => on_line(line),
            ConnectionEvent::Eof => {
                let notices = vec![Notice::PeerClosed];
                let next = Transition::close(notices);
                assert(next@.notices =~= seq![NoticeView::PeerClosed]);
                next
            },
            ConnectionEvent::ReadFailed(error) => {
                let notices = vec![Notice::ReadFailed { error }];
                let next = Transition::close(notices);
                assert(next@.notices =~= seq![NoticeView::ReadFailed { error: error@ }]);
                next
            },
            _ => quiet_close(),
        },
        ConnectionState::Parsed => match event {
            ConnectionEvent::Probed { request, report } => on_probed(&request, report),
            _ => quiet_close(),
        },
        ConnectionState::Responding => match event {
            ConnectionEvent::Written => {
                let next = Transition {
                    state: ConnectionState::Reading,
                    action: ConnectionAction::ReadLine,
                    notices: Vec::new(),
                };
                assert(next@.notices =~= seq![]);
                next
            },
            ConnectionEvent::WriteFailed(error) => {
                let notices = vec![Notice::WriteFailed { error }];
                let next = Transition::close(notices);
                assert(next@.notices =~= seq![NoticeView::WriteFailed { error: error@ }]);
                next
            },
            _ => quiet_close(),
        },
        ConnectionState::Closed => quiet_close(),
    }
}

fn quiet_close() -> (next: Transition)
    ensures
        next@ == closing(),
{
    let next = Transition::close(Vec::new());
    assert(next@.notices =~= seq![]);
    next
}

fn on_line(line: String) -> (next: Transition)
    ensures
        next@ == transition(ConnectionState::Reading, EventView::Line(line@)),
{
    match parse_request(line.as_str()) {
        Ok(request) => {
            let backend = backend_address(request.backend_server.as_str(), request.backend_port);
            let notices = vec![Notice::Processing { backend, ssl_flag: request.ssl_flag }];
            let next = Transition {
                state: ConnectionState::Parsed,
                action: ConnectionAction::Probe(request),
                notices,
            };
            assert(next@.notices =~= seq![
                NoticeView::Processing {
                    backend: address_of(request@.backend_server, request@.backend_port),
                    ssl_flag: request@.ssl_flag,
                },
            ]);
            next
        },
        Err(error) => {
            let notices = vec![Notice::ProtocolViolation { error, input: line }];
            let next = Transition {
                state: ConnectionState::Responding,
                action: ConnectionAction::Write(HealthStatus::Down.to_protocol_string()),
                notices,
            };
            assert(next@.notices =~= seq![
                NoticeView::ProtocolViolation { error: error@, input: line@ },
            ]);
            next
        },
    }
}

fn on_probed(request: &HealthCheckRequest, report: ProbeReport) -> (next: Transition)
    ensures
        next@ == transition(
            ConnectionState::Parsed,
            (EventView::Probed { request: request@, report: report@ }),
        ),
{
    let status = report.response.status;
    let text = report.response.to_string();
    let completed = Notice::Completed {
        backend: backend_address(request.backend_server.as_str(), request.backend_port),
        status,
    };
    let ghost backend = address_of(request@.backend_server, request@.backend_port);
    let notices = match report.failure {
        Some(error) => {
            let failed = Notice::CheckFailed {
                backend: backend_address(request.backend_server.as_str(), request.backend_port),
                error,
            };
            let notices = vec![failed, completed];
            assert(notice_views(notices@) =~= seq![
                NoticeView::CheckFailed { backend, error: error@ },
                NoticeView::Completed { backend, status },
            ]);
            notices
        },
        None => {
            let notices = vec![completed];
            assert(notice_views(notices@) =~= seq![NoticeView::Completed { backend, status }]);
            notices
        },
    };
    Transition { state: ConnectionState::Responding, action: ConnectionAction::Write(text), notices }
}

/// Every response is one of the two verdict lines.
pub proof fn lemma_responses_are_verdict_lines(state: ConnectionState, event: EventView)
    ensures
        match transition(state, event).action {
            ActionView::Write(text) => text == HealthStatus::Up.wire() || text
                == HealthStatus::Down.wire(),
            _ => true,
        },
{
    match (state, event) {
        (ConnectionState::Parsed, EventView::Probed { request, report }) => {
            match report.status {
                HealthStatus::Up => {},
                HealthStatus::Down => {},
            }
        },
        _ => {},
    }
}

/// A response is written exactly where a connection starts responding, and
/// it starts responding only on a line that is no request or at the end of
/// the probe of one that is. A probe begins only on a line that is a request,
/// and the next line is read only after a response was written. So each line
/// read is answered once before the next is read.
pub proof fn lemma_one_response_per_line(state: ConnectionState, event: EventView)
    ensures
        ({
            let next = transition(state, event);
            &&& next.action is Write <==> next.state == ConnectionState::Responding
            &&& next.action is Probe <==> next.state == ConnectionState::Parsed
            &&& next.action is ReadLine <==> next.state == ConnectionState::Reading
            &&& next.action is Close <==> next.state == ConnectionState::Closed
            &&& next.state == ConnectionState::Responding ==> (state == ConnectionState::Reading
                && event is Line && parse_line(event->Line_0) is Err) || (state
                == ConnectionState::Parsed && event is Probed)
            &&& next.state == ConnectionState::Parsed ==> state == ConnectionState::Reading
                && event is Line && parse_line(event->Line_0) is Ok
            &&& next.state == ConnectionState::Reading ==> state == ConnectionState::Responding
                && event is Written
        }),
{
}

/// Only requests that meet the constraints on their fields are probed.
pub proof fn lemma_probed_requests_are_valid(state: ConnectionState, event: EventView)
    ensures
        match transition(state, event).action {
            ActionView::Probe(request) => request.is_valid(),
            _ => true,
        },
{
}

/// A line that is no request does not end the connection: it is answered
/// `down`, and once that is written the next line is read.
pub proof fn lemma_rejected_line_keeps_connection(line: Seq<char>)
    requires
        parse_line(line) is Err,
    ensures
        transition(ConnectionState::Reading, EventView::Line(line)).state
            == ConnectionState::Responding,
        transition(ConnectionState::Reading, EventView::Line(line)).action == ActionView::Write(
            "down\n"@,
        ),
        transition(ConnectionState::Responding, EventView::Written).state
            == ConnectionState::Reading,
        transition(ConnectionState::Responding, EventView::Written).action == ActionView::ReadLine,
{
}

/// Whatever a probe reports, the connection answers with the report's
/// verdict and goes on: no failure of a probe closes the connection.
pub proof fn lemma_probe_failure_keeps_connection(request: RequestView, report: ReportView)
    ensures
        transition(ConnectionState::Parsed, (EventView::Probed { request, report })).state
            == ConnectionState::Responding,
        transition(ConnectionState::Parsed, (EventView::Probed { request, report })).action
            == ActionView::Write(report.status.wire()),
{
}

/// A peer that closes the connection ends it quietly: nothing is logged
/// above the level `Info`.
pub proof fn lemma_peer_close_is_quiet()
    ensures
        ({
            let last = transition(ConnectionState::Reading, EventView::Eof);
            &&& last.state == ConnectionState::Closed
            &&& last.action == ActionView::Close
            &&& forall|i: int|
                0 <= i < last.notices.len() ==> (#[trigger] last.notices[i]).level().severity()
                    <= LogLevel::Info.severity()
        }),
{
}

/// What happened at the listener.
#[derive(Debug, Clone)]
pub enum ListenerEvent {
    /// The listener is bound.
    Bound,
    /// Binding failed.
    BindFailed(String),
    /// A connection was accepted.
    Accepted,
    /// Accepting failed.
    AcceptFailed(String),
}

/// What the listener does next.
#[derive(Debug, Clone, Copy, PartialEq, Eq, Structural)]
pub enum ListenerAction {
    /// Wait for the next connection.
    Accept,
    /// Serve the accepted connection beside the others, and wait for the next.
    Serve,
    /// Give up: the agent cannot run.
    Exit,
}

/// One step of the listener: what it does next and what is logged.
#[derive(Debug)]
pub struct ListenerStep {
    pub action: ListenerAction,
    pub notice: Notice,
}

/// The agent: its settings and its checker.
pub struct AgentServer {
    config: AgentConfig,
    health_checker: GrpcHealthChecker,
}

impl AgentServer {
    /// The settings the agent was made with.
    pub closed spec fn settings(&self) -> ConfigView {
        self.config@
    }

    /// The agent's checker.
    pub closed spec fn checker(&self) -> GrpcHealthChecker {
        self.health_checker
    }

    /// An agent whose checker has reached no backend yet.
    pub fn new(config: AgentConfig) -> (server: Self)
        ensures
            server.settings() == config@,
            server.checker().settings() == config@,
            server.checker().channels() =~= Map::empty(),
    {
        let health_checker = GrpcHealthChecker::new(config.duplicate());
        AgentServer { config, health_checker }
    }

    /// The address to listen on: bind address, colon, port.
    pub fn bind_address(&self) -> (address: String)
        ensures
            address@ == address_of(self.settings().server_bind_address, self.settings().server_port),
    {
        backend_address(self.config.server_bind_address.as_str(), self.config.server_port)
    }

    /// Decides what the listener does on `event`: a failed bind ends the
    /// agent, a failed accept does not.
    pub fn listener_step(&self, event: ListenerEvent) -> (step: ListenerStep)
        ensures
            match event {
                ListenerEvent::Bound => step.action == ListenerAction::Accept && step.notice@ == (
                NoticeView::Listening {
                    address: address_of(
                        self.settings().server_bind_address,
                        self.settings().server_port,
                    ),
                }),
                ListenerEvent::BindFailed(error) => step.action == ListenerAction::Exit
                    && step.notice@ == (NoticeView::BindFailed {
                    address: address_of(
                        self.settings().server_bind_address,
                        self.settings().server_port,
                    ),
                    error: error@,
                }),
                ListenerEvent::Accepted => step.action == ListenerAction::Serve && step.notice@
                    == NoticeView::ConnectionEstablished,
                ListenerEvent::AcceptFailed(error) => step.action == ListenerAction::Accept
                    && step.notice@ == (NoticeView::AcceptFailed { error: error@ }),
            },
    {
        match event {
            ListenerEvent::Bound => ListenerStep {
                action: ListenerAction::Accept,
                notice: Notice::Listening { address: self.bind_address() },
            },
            ListenerEvent::BindFailed(error) => ListenerStep {
                action: ListenerAction::Exit,
                notice: Notice::BindFailed { address: self.bind_address(), error },
            },
            ListenerEvent::Accepted => ListenerStep {
                action: ListenerAction::Serve,
                notice: Notice::ConnectionEstablished,
            },
            ListenerEvent::AcceptFailed(error) => ListenerStep {
                action: ListenerAction::Accept,
                notice: Notice::AcceptFailed { error },
            },
        }
    }

    /// The checker, to begin probes and to conclude calls.
    pub fn health_checker(&self) -> (checker: &GrpcHealthChecker)
        ensures
            *checker == self.checker(),
    {
        &self.health_checker
    }

    /// The checker, to take the outcomes of dials.
    pub fn health_checker_mut(&mut self) -> (checker: &mut GrpcHealthChecker)
        ensures
            *checker == old(self).checker(),
            final(self).checker() == *final(checker),
            final(self).settings() == old(self).settings(),
    {
        &mut self.health_checker
    }
}

} // verus!
