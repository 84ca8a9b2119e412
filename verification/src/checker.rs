//! Health probes of backends over gRPC: the cache of channels, how a backend
//! is dialled, and what each outcome of a probe means.

use vstd::prelude::*;
use vstd::string::*;
use vstd::std_specs::convert::FromSpecImpl;
use std::time::Duration;
use dashmap::DashMap;
use http::uri::InvalidUri;
use http::Uri;
use tonic::transport::{Channel, ClientTlsConfig, Endpoint};
use crate::config::{AgentConfig, ConfigView};
use crate::protocol::{HealthCheckRequest, HealthCheckResponse, HealthStatus, SslFlag};
use crate::text::{decimal_digits, decimal_string};

verus! {

/// What names a cached channel: the backend's address and whether TLS is
/// spoken. The host name presented to the backend is no part of it.
#[derive(Debug, Clone, PartialEq, Eq, Hash)]
pub struct BackendChannelKey {
    pub server: String,
    pub port: u16,
    pub ssl_flag: SslFlag,
}

/// What a `BackendChannelKey` holds, as plain values.
pub struct ChannelKeyView {
    pub server: Seq<char>,
    pub port: u16,
    pub ssl_flag: SslFlag,
}

impl View for BackendChannelKey {
    type V = ChannelKeyView;

    open spec fn view(&self) -> ChannelKeyView {
        ChannelKeyView { server: self.server@, port: self.port, ssl_flag: self.ssl_flag }
    }
}

impl FromSpecImpl<&HealthCheckRequest> for BackendChannelKey {
    open spec fn obeys_from_spec() -> bool {
        true
    }

    open spec fn from_spec(req: &HealthCheckRequest) -> Self {
        BackendChannelKey {
            server: req.backend_server,
            port: req.backend_port,
            ssl_flag: req.ssl_flag,
        }
    }
}

impl From<&HealthCheckRequest> for BackendChannelKey {
    fn from(req: &HealthCheckRequest) -> (key: Self) {
        BackendChannelKey {
            server: req.backend_server.clone(),
            port: req.backend_port,
            ssl_flag: req.ssl_flag,
        }
    }
}

/// The key under which the channel for a request is kept.
pub open spec fn key_of(request: HealthCheckRequest) -> ChannelKeyView {
    ChannelKeyView {
        server: request.backend_server@,
        port: request.backend_port,
        ssl_flag: request.ssl_flag,
    }
}

/// `dashmap::DashMap`. Nothing is seen of its inside; what it holds is
/// spoken of as `cache_entries`.
#[verifier::external_type_specification]
#[verifier::external_body]
#[verifier::reject_recursive_types(K)]
#[verifier::reject_recursive_types(V)]
#[verifier::reject_recursive_types(S)]
pub struct ExDashMap<K, V, S>(DashMap<K, V, S>);

/// `tonic::transport::Channel`: a handle to a connection, carried and never
/// looked into.
#[verifier::external_type_specification]
#[verifier::external_body]
pub struct ExChannel(Channel);

/// The entries of a channel map: for each key that it holds, by the key's
/// fields, the channel kept under it. Keys are told apart by the `Eq` and
/// `Hash` that `BackendChannelKey` derives, which go by the three fields.
pub uninterp spec fn cache_entries(cache: DashMap<BackendChannelKey, Channel>) -> Map<
    ChannelKeyView,
    Channel,
>;

/// `DashMap::new`: a map without entries.
#[verifier::external_body]
fn cache_new() -> (cache: DashMap<BackendChannelKey, Channel>)
    ensures
        cache_entries(cache) =~= Map::empty(),
{
    DashMap::new()
}

/// `DashMap::get`, followed by a clone of the channel found: a handle to the
/// channel kept under a key with the fields of `key`, if there is one.
#[verifier::external_body]
fn cache_get(cache: &DashMap<BackendChannelKey, Channel>, key: &BackendChannelKey) -> (found:
    Option<Channel>)
    ensures
        found == if cache_entries(*cache).contains_key(key@) {
            Some(cache_entries(*cache)[key@])
        } else {
            None
        },
{
    match cache.get(key) {
        Some(entry) => Some(entry.value().clone()),
        None => None,
    }
}

/// `DashMap::insert`, with a copy of the key and a handle to the channel:
/// afterwards the map holds `channel` under `key`, in place of what it may
/// have held there, and every other entry as before.
#[verifier::external_body]
fn cache_insert(
    cache: &mut DashMap<BackendChannelKey, Channel>,
    key: &BackendChannelKey,
    channel: &Channel,
)
    ensures
        cache_entries(*final(cache)) == cache_entries(*old(cache)).insert(key@, *channel),
{
    cache.insert(key.clone(), channel.clone());
}

/// `DashMap::len`: the number of entries.
#[verifier::external_body]
fn cache_len(cache: &DashMap<BackendChannelKey, Channel>) -> (count: usize)
    ensures
        count == cache_entries(*cache).len(),
{
    cache.len()
}

/// `tonic::transport::Endpoint`: what a dial needs, carried and never looked
/// into.
#[verifier::external_type_specification]
#[verifier::external_body]
pub struct ExEndpoint(Endpoint);

/// `tonic::transport::Error`, of which only the text is taken.
#[verifier::external_type_specification]
#[verifier::external_body]
pub struct ExTransportError(tonic::transport::Error);

/// `http::Uri`, carried from where it is read to the endpoint.
#[verifier::external_type_specification]
#[verifier::external_body]
pub struct ExUri(Uri);

/// `http::uri::InvalidUri`, of which only the text is taken.
#[verifier::external_type_specification]
#[verifier::external_body]
pub struct ExInvalidUri(InvalidUri);

/// Whether `Channel::from_shared` makes an endpoint of a text.
pub uninterp spec fn endpoint_accepted(uri: Seq<char>) -> bool;

/// Whether `Endpoint::tls_config` sets up TLS for a server name.
pub uninterp spec fn tls_name_accepted(domain: Seq<char>) -> bool;

/// Whether `Uri::from_maybe_shared` reads a text as a URI.
pub uninterp spec fn uri_accepted(text: Seq<char>) -> bool;

/// `Channel::from_shared`: an endpoint for the URI that `uri` writes, or the
/// reason why `uri` writes none. Which of the two depends on the text alone.
#[verifier::external_body]
fn endpoint_from_shared(uri: String) -> (parsed: Result<Endpoint, InvalidUri>)
    ensures
        parsed is Ok <==> endpoint_accepted(uri@),
{
    Channel::from_shared(uri)
}

/// `Endpoint::connect_timeout`: the endpoint with a limit on the time a dial
/// may take.
#[verifier::external_body]
fn endpoint_connect_timeout(endpoint: Endpoint, milliseconds: u64) -> Endpoint {
    endpoint.connect_timeout(Duration::from_millis(milliseconds))
}

/// `Endpoint::tls_config` with a `ClientTlsConfig` that names `domain` and
/// nothing else: the endpoint set up for TLS with that server name, or the
/// reason why it cannot be. With no certificate and no identity to load, it
/// fails exactly where the name is neither a DNS name nor an IP address,
/// whatever the endpoint.
#[verifier::external_body]
fn endpoint_tls_domain(endpoint: Endpoint, domain: &str) -> (secured: Result<
    Endpoint,
    tonic::transport::Error,
>)
    ensures
        secured is Ok <==> tls_name_accepted(domain@),
{
    endpoint.tls_config(ClientTlsConfig::new().domain_name(domain))
}

/// `Uri::from_maybe_shared`: the URI that `text` writes, or the reason why it
/// writes none. Which of the two depends on the text alone.
#[verifier::external_body]
fn uri_from_text(text: String) -> (parsed: Result<Uri, InvalidUri>)
    ensures
        parsed is Ok <==> uri_accepted(text@),
{
    Uri::from_maybe_shared(text)
}

/// `Endpoint::origin`: the endpoint with scheme and authority of its requests
/// taken from `origin`.
#[verifier::external_body]
fn endpoint_origin(endpoint: Endpoint, origin: Uri) -> Endpoint {
    endpoint.origin(origin)
}

/// The text of an `InvalidUri`, as its `Display` writes it.
#[verifier::external_body]
fn invalid_uri_text(error: &InvalidUri) -> String {
    error.to_string()
}

/// The text of a transport error, as its `Display` writes it.
#[verifier::external_body]
fn transport_error_text(error: &tonic::transport::Error) -> String {
    error.to_string()
}

/// The request message of `grpc.health.v1.Health/Check`.
#[allow(non_camel_case_types)]
#[derive(Debug, Clone, PartialEq, Eq)]
pub struct HealthCheckRequest_grpc {
    /// The service asked about; empty for the server as a whole.
    pub service: String,
}

/// The response message of `grpc.health.v1.Health/Check`.
#[allow(non_camel_case_types)]
#[derive(Debug, Clone, Copy, PartialEq, Eq)]
pub struct HealthCheckResponse_grpc {
    /// A `ServingStatus` by its number.
    pub status: i32,
}

/// What a backend says of itself.
#[derive(Debug, Clone, Copy, PartialEq, Eq, Hash, Structural)]
pub enum ServingStatus {
    Unknown,
    Serving,
    NotServing,
    ServiceUnknown,
}

impl ServingStatus {
    /// The number that stands for the status on the wire.
    pub open spec fn number(self) -> i32 {
        match self {
            ServingStatus::Unknown => 0,
            ServingStatus::Serving => 1,
            ServingStatus::NotServing => 2,
            ServingStatus::ServiceUnknown => 3,
        }
    }

    /// The status that `code` stands for.
    pub open spec fn numbered(code: i32) -> Option<ServingStatus> {
        if code == 0 {
            Some(ServingStatus::Unknown)
        } else if code == 1 {
            Some(ServingStatus::Serving)
        } else if code == 2 {
            Some(ServingStatus::NotServing)
        } else if code == 3 {
            Some(ServingStatus::ServiceUnknown)
        } else {
            None
        }
    }

    /// The number that stands for the status on the wire.
    pub fn as_i32(self) -> (code: i32)
        ensures
            code == self.number(),
    {
        match self {
            ServingStatus::Unknown => 0,
            ServingStatus::Serving => 1,
            ServingStatus::NotServing => 2,
            ServingStatus::ServiceUnknown => 3,
        }
    }

    /// The status that `code` stands for, if it stands for one.
    pub fn from_i32(code: i32) -> (status: Option<ServingStatus>)
        ensures
            status == Self::numbered(code),
    {
        if code == 0 {
            Some(ServingStatus::Unknown)
        } else if code == 1 {
            Some(ServingStatus::Serving)
        } else if code == 2 {
            Some(ServingStatus::NotServing)
        } else if code == 3 {
            Some(ServingStatus::ServiceUnknown)
        } else {
            None
        }
    }
}

/// The verdict on a backend that answered with `code`: up where the code is
/// that of `Serving`, down for every other number.
pub open spec fn verdict_of(code: i32) -> HealthStatus {
    if ServingStatus::numbered(code) == Some(ServingStatus::Serving) {
        HealthStatus::Up
    } else {
        HealthStatus::Down
    }
}

/// A backend is up exactly where it answers `Serving`, whose number is 1:
/// `Unknown`, `NotServing`, `ServiceUnknown` and every number that stands for
/// no status are down.
pub proof fn lemma_only_serving_is_up(code: i32)
    ensures
        verdict_of(code) == HealthStatus::Up <==> code == 1,
        verdict_of(ServingStatus::Serving.number()) == HealthStatus::Up,
        verdict_of(ServingStatus::NotServing.number()) == HealthStatus::Down,
        verdict_of(ServingStatus::Unknown.number()) == HealthStatus::Down,
        verdict_of(ServingStatus::ServiceUnknown.number()) == HealthStatus::Down,
{
}

/// The verdict on a backend that answered with `code`.
pub fn health_status_of(code: i32) -> (status: HealthStatus)
    ensures
        status == verdict_of(code),
{
    match ServingStatus::from_i32(code) {
        Some(ServingStatus::Serving) => HealthStatus::Up,
        _ => HealthStatus::Down,
    }
}

/// The largest response that is decoded: there is no limit.
pub const MAX_DECODING_MESSAGE_SIZE: usize = usize::MAX;

/// The path of the method that a probe calls.
pub const HEALTH_CHECK_PATH: &'static str = "/grpc.health.v1.Health/Check";

/// Why a probe did not reach a verdict of the backend's own.
#[derive(Debug, Clone, PartialEq, Eq)]
pub enum CheckError {
    /// The backend's address, or the host name to present, makes no URI.
    InvalidEndpoint { endpoint: String, cause: String },
    /// TLS could not be set up for the host name to present.
    TlsConfig { cause: String },
    /// The dial failed or ran out of time.
    Connect { endpoint: String, cause: String },
    /// The call took longer than the milliseconds in the payload.
    RpcTimeout { timeout_ms: u64 },
    /// The call ended with a status other than OK.
    RpcFailed { cause: String },
}

/// What a `CheckError` holds, as plain values.
pub enum CheckErrorView {
    InvalidEndpoint { endpoint: Seq<char>, cause: Seq<char> },
    TlsConfig { cause: Seq<char> },
    Connect { endpoint: Seq<char>, cause: Seq<char> },
    RpcTimeout { timeout_ms: u64 },
    RpcFailed { cause: Seq<char> },
}

impl CheckErrorView {
    /// The sentence that describes the error.
    pub open spec fn message(self) -> Seq<char> {
        match self {
            CheckErrorView::InvalidEndpoint { endpoint, cause } => "Invalid endpoint "@ + endpoint
                + ": "@ + cause,
            CheckErrorView::TlsConfig { cause } => "TLS configuration failed: "@ + cause,
            CheckErrorView::Connect { endpoint, cause } => "Connection failed to "@ + endpoint
                + ": "@ + cause,
            CheckErrorView::RpcTimeout { timeout_ms } => "Health check RPC timeout after "@
                + decimal_digits(timeout_ms as nat) + "ms"@,
            CheckErrorView::RpcFailed { cause } => "Health check RPC failed: "@ + cause,
        }
    }
}

impl View for CheckError {
    type V = CheckErrorView;

    open spec fn view(&self) -> CheckErrorView {
        match self {
            CheckError::InvalidEndpoint { endpoint, cause } => CheckErrorView::InvalidEndpoint {
                endpoint: endpoint@,
                cause: cause@,
            },
            CheckError::TlsConfig { cause } => CheckErrorView::TlsConfig { cause: cause@ },
            CheckError::Connect { endpoint, cause } => CheckErrorView::Connect {
                endpoint: endpoint@,
                cause: cause@,
            },
            CheckError::RpcTimeout { timeout_ms } => CheckErrorView::RpcTimeout {
                timeout_ms: *timeout_ms,
            },
            CheckError::RpcFailed { cause } => CheckErrorView::RpcFailed { cause: cause@ },
        }
    }
}

impl CheckError {
    /// The sentence that describes the error.
    pub fn message(&self) -> (text: String)
        ensures
            text@ == self@.message(),
    {
        match self {
            CheckError::InvalidEndpoint { endpoint, cause } => {
                let mut text = String::from_str("Invalid endpoint ");
                text.append(endpoint.as_str());
                text.append(": ");
                text.append(cause.as_str());
                text
            },
            CheckError::TlsConfig { cause } => {
                let mut text = String::from_str("TLS configuration failed: ");
                text.append(cause.as_str());
                text
            },
            CheckError::Connect { endpoint, cause } => {
                let mut text = String::from_str("Connection failed to ");
                text.append(endpoint.as_str());
                text.append(": ");
                text.append(cause.as_str());
                text
            },
            CheckError::RpcTimeout { timeout_ms } => {
                let number = decimal_string(*timeout_ms as u128);
                let mut text = String::from_str("Health check RPC timeout after ");
                text.append(number.as_str());
                text.append("ms");
                text
            },
            CheckError::RpcFailed { cause } => {
                let mut text = String::from_str("Health check RPC failed: ");
                text.append(cause.as_str());
                text
            },
        }
    }
}

/// A backend's address as `server:port`.
pub open spec fn address_of(server: Seq<char>, port: u16) -> Seq<char> {
    server + ":"@ + decimal_digits(port as nat)
}

/// The URI that is dialled for a key: `https` with TLS, `http` without,
/// then the backend's address.
pub open spec fn endpoint_uri(key: ChannelKeyView) -> Seq<char> {
    match key.ssl_flag {
        SslFlag::Ssl => "https://"@ + address_of(key.server, key.port),
        SslFlag::NoSsl => "http://"@ + address_of(key.server, key.port),
    }
}

/// A backend's address as `server:port`.
pub fn backend_address(server: &str, port: u16) -> (address: String)
    ensures
        address@ == address_of(server@, port),
{
    let number = decimal_string(port as u128);
    let mut address = String::from_str(server);
    address.append(":");
    address.append(number.as_str());
    address
}

impl BackendChannelKey {
    /// The URI that is dialled for this key.
    pub fn endpoint_uri(&self) -> (uri: String)
        ensures
            uri@ == endpoint_uri(self@),
    {
        let address = backend_address(self.server.as_str(), self.port);
        let mut uri = match self.ssl_flag {
            SslFlag::Ssl => String::from_str("https://"),
            SslFlag::NoSsl => String::from_str("http://"),
        };
        uri.append(address.as_str());
        proof {
            assert(uri@ =~= endpoint_uri(self@));
        }
        uri
    }
}

/// How a backend is dialled.
#[derive(Debug, Clone, PartialEq, Eq)]
pub struct DialPlan {
    /// The URI to dial.
    pub endpoint: String,
    /// The time the dial may take, in milliseconds.
    pub connect_timeout_ms: u64,
    /// With TLS, the server name to ask for and to verify.
    pub tls_server_name: Option<String>,
    /// Without TLS, the origin whose authority the requests carry.
    pub origin: Option<String>,
}

/// What a `DialPlan` holds, as plain values.
pub struct DialPlanView {
    pub endpoint: Seq<char>,
    pub connect_timeout_ms: u64,
    pub tls_server_name: Option<Seq<char>>,
    pub origin: Option<Seq<char>>,
}

impl View for DialPlan {
    type V = DialPlanView;

    open spec fn view(&self) -> DialPlanView {
        DialPlanView {
            endpoint: self.endpoint@,
            connect_timeout_ms: self.connect_timeout_ms,
            tls_server_name: crate::config::text_of(self.tls_server_name),
            origin: crate::config::text_of(self.origin),
        }
    }
}

/// How the backend of `key` is dialled so that it sees `proxy_host` as the
/// authority: with TLS as the server name, without TLS as the origin
/// `http://<proxy_host>`.
pub open spec fn planned(key: ChannelKeyView, proxy_host: Seq<char>, connect_timeout_ms: u64) -> DialPlanView {
    DialPlanView {
        endpoint: endpoint_uri(key),
        connect_timeout_ms,
        tls_server_name: match key.ssl_flag {
            SslFlag::Ssl => Some(proxy_host),
            SslFlag::NoSsl => None,
        },
        origin: match key.ssl_flag {
            SslFlag::Ssl => None,
            SslFlag::NoSsl => Some("http://"@ + proxy_host),
        },
    }
}

/// Plans the dial of the backend of `key`.
pub fn dial_plan(key: &BackendChannelKey, proxy_host: &str, connect_timeout_ms: u64) -> (plan:
    DialPlan)
    ensures
        plan@ == planned(key@, proxy_host@, connect_timeout_ms),
{
    let endpoint = key.endpoint_uri();
    match key.ssl_flag {
        SslFlag::Ssl => DialPlan {
            endpoint,
            connect_timeout_ms,
            tls_server_name: Some(String::from_str(proxy_host)),
            origin: None,
        },
        SslFlag::NoSsl => {
            let mut origin = String::from_str("http://");
            origin.append(proxy_host);
            DialPlan { endpoint, connect_timeout_ms, tls_server_name: None, origin: Some(origin) }
        },
    }
}

/// What the transport refuses of a plan.
pub enum Refusal {
    /// The text in the payload, which is the endpoint or the origin, is no URI.
    Uri(Seq<char>),
    /// TLS cannot be set up for the server name.
    Tls,
}

/// The first thing that the transport refuses of a plan, if it refuses any:
/// the endpoint, then the server name, then the origin.
pub open spec fn refusal_of(plan: DialPlanView) -> Option<Refusal> {
    if !endpoint_accepted(plan.endpoint) {
        Some(Refusal::Uri(plan.endpoint))
    } else if plan.tls_server_name is Some && !tls_name_accepted(plan.tls_server_name->0) {
        Some(Refusal::Tls)
    } else if plan.origin is Some && !uri_accepted(plan.origin->0) {
        Some(Refusal::Uri(plan.origin->0))
    } else {
        None
    }
}

/// Whether `error` reports `refusal`. The cause that the error quotes is the
/// transport's own wording.
pub open spec fn reports(error: CheckErrorView, refusal: Refusal) -> bool {
    match refusal {
        Refusal::Uri(text) => error is InvalidEndpoint && error->InvalidEndpoint_endpoint == text,
        Refusal::Tls => error is TlsConfig,
    }
}

/// Builds the endpoint that `plan` describes: the URI, the connect timeout,
/// and the server name or the origin. Fails with the first thing that the
/// transport refuses.
pub fn build_endpoint(plan: &DialPlan) -> (result: Result<Endpoint, CheckError>)
    ensures
        match result {
            Ok(_) => refusal_of(plan@) is None,
            Err(error) => refusal_of(plan@) is Some && reports(error@, refusal_of(plan@)->0),
        },
{
    let endpoint = match endpoint_from_shared(plan.endpoint.clone()) {
        Ok(endpoint) => endpoint,
        Err(error) => {
            return Err(
                CheckError::InvalidEndpoint {
                    endpoint: plan.endpoint.clone(),
                    cause: invalid_uri_text(&error),
                },
            );
        },
    };
    let endpoint = endpoint_connect_timeout(endpoint, plan.connect_timeout_ms);
    let endpoint = match &plan.tls_server_name {
        Some(domain) => match endpoint_tls_domain(endpoint, domain.as_str()) {
            Ok(endpoint) => endpoint,
            Err(error) => {
                return Err(CheckError::TlsConfig { cause: transport_error_text(&error) });
            },
        },
        None => endpoint,
    };
    match &plan.origin {
        Some(origin) => match uri_from_text(origin.clone()) {
            Ok(uri) => Ok(endpoint_origin(endpoint, uri)),
            Err(error) => Err(
                CheckError::InvalidEndpoint {
                    endpoint: origin.clone(),
                    cause: invalid_uri_text(&error),
                },
            ),
        },
        None => Ok(endpoint),
    }
}

/// How a call of `Health/Check` ended.
#[derive(Debug, Clone, PartialEq, Eq)]
pub enum RpcOutcome {
    /// The backend answered.
    Response(HealthCheckResponse_grpc),
    /// The time for the call ran out.
    TimedOut,
    /// The call ended with a status other than OK, or the transport failed;
    /// the payload says how.
    Failed(String),
}

/// How a probe ended: the answer for the load balancer and, where the backend
/// gave no verdict of its own, the reason.
#[derive(Debug, Clone)]
pub struct ProbeReport {
    pub response: HealthCheckResponse,
    pub failure: Option<CheckError>,
}

/// What a `ProbeReport` holds, as plain values.
pub struct ReportView {
    pub status: HealthStatus,
    pub failure: Option<CheckErrorView>,
}

impl View for ProbeReport {
    type V = ReportView;

    open spec fn view(&self) -> ReportView {
        ReportView {
            status: self.response.status,
            failure: match self.failure {
                Some(error) => Some(error@),
                None => None,
            },
        }
    }
}

/// What is to be done next for a probe.
pub enum ProbeStep {
    /// Dial the endpoint, which was built as `plan` says, then hand the outcome
    /// to `dial_finished` with this key.
    Dial { key: BackendChannelKey, plan: DialPlan, endpoint: Endpoint },
    /// Send `request` to `Health/Check` on `channel`, wait `timeout_ms`
    /// milliseconds at most, then hand the outcome to `call_finished`.
    Call { channel: Channel, request: HealthCheckRequest_grpc, timeout_ms: u64 },
    /// The probe is over.
    Done(ProbeReport),
}

impl ProbeStep {
    /// Whether the step is a call on `channel`, about the server as a whole,
    /// limited to `timeout_ms` milliseconds.
    pub open spec fn is_call_on(self, channel: Channel, timeout_ms: u64) -> bool {
        match self {
            ProbeStep::Call { channel: used, request, timeout_ms: limit } => {
                &&& used == channel
                &&& request.service@.len() == 0
                &&& limit == timeout_ms
            },
            _ => false,
        }
    }

    /// Whether the step is the dial for `key` as `plan` says.
    pub open spec fn is_dial_for(self, key: ChannelKeyView, plan: DialPlanView) -> bool {
        match self {
            ProbeStep::Dial { key: stored, plan: used, endpoint } => stored@ == key && used@
                == plan,
            _ => false,
        }
    }

    /// Whether the step ends the probe with `down` because of `refusal`.
    pub open spec fn is_refused(self, refusal: Refusal) -> bool {
        match self {
            ProbeStep::Done(report) => {
                &&& report.response.status == HealthStatus::Down
                &&& report.failure is Some
                &&& reports(report.failure->0@, refusal)
            },
            _ => false,
        }
    }

    /// Whether the step ends the probe with `down` for the reason `error`.
    pub open spec fn is_failure(self, error: CheckErrorView) -> bool {
        match self {
            ProbeStep::Done(report) => report.is_failure(error),
            _ => false,
        }
    }
}

impl ProbeReport {
    /// Whether the report says `down` for the reason `error`.
    pub open spec fn is_failure(self, error: CheckErrorView) -> bool {
        &&& self.response.status == HealthStatus::Down
        &&& self.failure is Some
        &&& self.failure->0@ == error
    }

    /// Whether the report carries the backend's own verdict `status`.
    pub open spec fn is_verdict(self, status: HealthStatus) -> bool {
        &&& self.response.status == status
        &&& self.failure is None
    }
}

/// The channel that a cache holds for a key.
pub open spec fn lookup(cache: Map<ChannelKeyView, Channel>, key: ChannelKeyView) -> Option<
    Channel,
> {
    if cache.contains_key(key) {
        Some(cache[key])
    } else {
        None
    }
}

/// The cache after a dial for `key`: with the new channel under the key where
/// the dial succeeded, unchanged where it failed.
pub open spec fn after_dial(
    cache: Map<ChannelKeyView, Channel>,
    key: ChannelKeyView,
    outcome: Result<Channel, String>,
) -> Map<ChannelKeyView, Channel> {
    match outcome {
        Ok(channel) => cache.insert(key, channel),
        Err(_) => cache,
    }
}

/// Once a dial for a key has succeeded, a lookup of that key finds the
/// channel dialled, so that the next probe of the backend, whatever host
/// name it presents, calls on that channel and dials nothing.
pub proof fn lemma_hit_after_successful_dial(
    cache: Map<ChannelKeyView, Channel>,
    key: ChannelKeyView,
    channel: Channel,
)
    ensures
        lookup(after_dial(cache, key, Ok(channel)), key) == Some(channel),
{
}

/// A failed dial leaves the cache as it was.
pub proof fn lemma_failed_dial_keeps_cache(
    cache: Map<ChannelKeyView, Channel>,
    key: ChannelKeyView,
    cause: String,
)
    ensures
        after_dial(cache, key, Err(cause)) == cache,
{
}

/// Two probes that both miss and both dial the same backend leave exactly one
/// entry for it, the channel stored last: the cache gains one key and no more.
pub proof fn lemma_two_dials_leave_one_entry(
    cache: Map<ChannelKeyView, Channel>,
    key: ChannelKeyView,
    first: Channel,
    second: Channel,
)
    requires
        cache.dom().finite(),
        !cache.contains_key(key),
    ensures
        ({
            let both = after_dial(after_dial(cache, key, Ok(first)), key, Ok(second));
            &&& both.dom() == cache.dom().insert(key)
            &&& both.len() == cache.len() + 1
            &&& lookup(both, key) == Some(second)
            &&& forall|other: ChannelKeyView| other != key ==> lookup(both, other) == lookup(cache, other)
        }),
{
    let both = after_dial(after_dial(cache, key, Ok(first)), key, Ok(second));
    assert(both.dom() =~= cache.dom().insert(key));
}

/// A cache holds at most one channel for a key: storing under a key that is
/// present replaces the channel and adds no entry.
pub proof fn lemma_one_entry_per_key(
    cache: Map<ChannelKeyView, Channel>,
    key: ChannelKeyView,
    channel: Channel,
)
    requires
        cache.dom().finite(),
        cache.contains_key(key),
    ensures
        after_dial(cache, key, Ok(channel)).len() == cache.len(),
{
    assert(after_dial(cache, key, Ok(channel)).dom() =~= cache.dom());
}

/// Probes backends, and keeps one channel for each backend it has reached.
pub struct GrpcHealthChecker {
    channel_cache: DashMap<BackendChannelKey, Channel>,
    config: AgentConfig,
}

impl GrpcHealthChecker {
    /// The channels kept, each under the fields of its key.
    pub closed spec fn channels(&self) -> Map<ChannelKeyView, Channel> {
        cache_entries(self.channel_cache)
    }

    /// The settings the checker was made with.
    pub closed spec fn settings(&self) -> ConfigView {
        self.config@
    }

    /// A checker that has reached no backend yet.
    pub fn new(config: AgentConfig) -> (checker: Self)
        ensures
            checker.channels() =~= Map::empty(),
            checker.settings() == config@,
    {
        GrpcHealthChecker { channel_cache: cache_new(), config }
    }

    /// The channel kept for `key`, if one is.
    pub fn cached_channel(&self, key: &BackendChannelKey) -> (found: Option<Channel>)
        ensures
            found == if self.channels().contains_key(key@) {
                Some(self.channels()[key@])
            } else {
                None
            },
    {
        cache_get(&self.channel_cache, key)
    }

    /// Begins a probe. Where a channel for the backend is kept, the next step
    /// is the call on it. Where none is, the next step is the dial planned for
    /// the request, unless the transport refuses the plan: then the probe is
    /// over, and the answer is `down`.
    pub fn check_backend(&self, request: &HealthCheckRequest) -> (step: ProbeStep)
        ensures
            match lookup(self.channels(), key_of(*request)) {
                Some(cached) => step.is_call_on(cached, self.settings().grpc_rpc_timeout_ms),
                None => {
                    let plan = planned(
                        key_of(*request),
                        request.proxy_host_name@,
                        self.settings().grpc_connect_timeout_ms,
                    );
                    match refusal_of(plan) {
                        None => step.is_dial_for(key_of(*request), plan),
                        Some(refusal) => step.is_refused(refusal),
                    }
                },
            },
    {
        let key = BackendChannelKey::from(request);
        match self.cached_channel(&key) {
            Some(channel) => self.call_on(channel),
            None => {
                let plan = dial_plan(
                    &key,
                    request.proxy_host_name.as_str(),
                    self.config.grpc_connect_timeout_ms,
                );
                match build_endpoint(&plan) {
                    Ok(endpoint) => ProbeStep::Dial { key, plan, endpoint },
                    Err(error) => ProbeStep::Done(
                        ProbeReport {
                            response: HealthCheckResponse::new(HealthStatus::Down),
                            failure: Some(error),
                        },
                    ),
                }
            },
        }
    }

    /// The call that asks a backend for its health as a whole.
    fn call_on(&self, channel: Channel) -> (step: ProbeStep)
        ensures
            step.is_call_on(channel, self.settings().grpc_rpc_timeout_ms),
    {
        ProbeStep::Call {
            channel,
            request: HealthCheckRequest_grpc { service: String::new() },
            timeout_ms: self.config.grpc_rpc_timeout_ms,
        }
    }

    /// Takes the outcome of the dial for `key`. A channel is stored under the
    /// key, and the next step is the call on it. A failure, whose payload says
    /// what went wrong, stores nothing and ends the probe with `down`.
    pub fn dial_finished(&mut self, key: &BackendChannelKey, outcome: Result<Channel, String>) -> (step:
        ProbeStep)
        ensures
            final(self).channels() == after_dial(old(self).channels(), key@, outcome),
            final(self).settings() == old(self).settings(),
            match outcome {
                Ok(channel) => step.is_call_on(channel, old(self).settings().grpc_rpc_timeout_ms),
                Err(cause) => step.is_failure(
                    (CheckErrorView::Connect { endpoint: endpoint_uri(key@), cause: cause@ }),
                ),
            },
    {
        match outcome {
            Ok(channel) => {
                cache_insert(&mut self.channel_cache, key, &channel);
                self.call_on(channel)
            },
            Err(cause) => ProbeStep::Done(
                ProbeReport {
                    response: HealthCheckResponse::new(HealthStatus::Down),
                    failure: Some(CheckError::Connect { endpoint: key.endpoint_uri(), cause }),
                },
            ),
        }
    }

    /// Takes the outcome of the call and ends the probe: the backend's answer
    /// gives the verdict, up where it is `Serving` and down otherwise; a call
    /// that failed or ran out of time gives `down`.
    pub fn call_finished(&self, outcome: RpcOutcome) -> (report: ProbeReport)
        ensures
            match outcome {
                RpcOutcome::Response(answer) => report.is_verdict(verdict_of(answer.status)),
                RpcOutcome::TimedOut => report.is_failure(
                    (CheckErrorView::RpcTimeout {
                        timeout_ms: self.settings().grpc_rpc_timeout_ms,
                    }),
                ),
                RpcOutcome::Failed(cause) => report.is_failure(
                    (CheckErrorView::RpcFailed { cause: cause@ }),
                ),
            },
    {
        match outcome {
            RpcOutcome::Response(answer) => ProbeReport {
                response: HealthCheckResponse::new(health_status_of(answer.status)),
                failure: None,
            },
            RpcOutcome::TimedOut => ProbeReport {
                response: HealthCheckResponse::new(HealthStatus::Down),
                failure: Some(
                    CheckError::RpcTimeout { timeout_ms: self.config.grpc_rpc_timeout_ms },
                ),
            },
            RpcOutcome::Failed(cause) => ProbeReport {
                response: HealthCheckResponse::new(HealthStatus::Down),
                failure: Some(CheckError::RpcFailed { cause }),
            },
        }
    }

    /// The number of backends for which a channel is kept.
    pub fn get_active_channel_count(&self) -> (count: usize)
        ensures
            count == self.channels().len(),
    {
        cache_len(&self.channel_cache)
    }
}

} // verus!
