//! The agent text protocol: request lines in, `up` / `down` lines out.

use vstd::prelude::*;
use vstd::string::*;
use crate::text::{
    bounded_decimal, chars_of, decimal_digits, decimal_string, field_marked, field_ranges, fields,
    joined, lemma_decimal_round_trip,
    lemma_fields_are_words, lemma_fields_of_joined, parse_unsigned, same_text, well_spaced,
};

verus! {

/// Whether the backend is to be probed over TLS.
#[derive(Debug, Clone, Copy, PartialEq, Eq, Hash, Structural)]
pub enum SslFlag {
    Ssl,
    NoSsl,
}

/// One request of the load balancer: which backend to probe, and under which
/// host name.
#[derive(Debug, Clone, PartialEq, Eq)]
pub struct HealthCheckRequest {
    pub backend_server: String,
    pub backend_port: u16,
    pub ssl_flag: SslFlag,
    pub proxy_host_name: String,
}

/// What a `HealthCheckRequest` holds, as plain values.
pub struct RequestView {
    pub backend_server: Seq<char>,
    pub backend_port: u16,
    pub ssl_flag: SslFlag,
    pub proxy_host_name: Seq<char>,
}

impl RequestView {
    /// The constraints on a request's fields: both names are non-empty and the
    /// port is not zero.
    pub open spec fn is_valid(self) -> bool {
        &&& self.backend_server.len() > 0
        &&& self.backend_port >= 1
        &&& self.proxy_host_name.len() > 0
    }
}

impl View for HealthCheckRequest {
    type V = RequestView;

    open spec fn view(&self) -> RequestView {
        RequestView {
            backend_server: self.backend_server@,
            backend_port: self.backend_port,
            ssl_flag: self.ssl_flag,
            proxy_host_name: self.proxy_host_name@,
        }
    }
}

/// The verdict reported to the load balancer.
#[derive(Debug, Clone, Copy, PartialEq, Eq, Structural)]
pub enum HealthStatus {
    Up,
    Down,
}

impl HealthStatus {
    /// The line that reports this verdict.
    pub open spec fn wire(self) -> Seq<char> {
        match self {
            HealthStatus::Up => "up\n"@,
            HealthStatus::Down => "down\n"@,
        }
    }

    /// The response line for this verdict, ended by a newline.
    pub fn to_protocol_string(&self) -> (line: String)
        ensures
            line@ == self.wire(),
    {
        match self {
            HealthStatus::Up => String::from_str("up\n"),
            HealthStatus::Down => String::from_str("down\n"),
        }
    }
}

/// The answer to one request.
#[derive(Debug, Clone)]
pub struct HealthCheckResponse {
    pub status: HealthStatus,
}

impl HealthCheckResponse {
    pub fn new(status: HealthStatus) -> (response: Self)
        ensures
            response.status == status,
    {
        HealthCheckResponse { status }
    }

    /// The line that carries this answer.
    pub fn to_string(&self) -> (line: String)
        ensures
            line@ == self.status.wire(),
    {
        self.status.to_protocol_string()
    }
}

/// Why a request line was rejected.
#[derive(Debug, Clone, PartialEq, Eq)]
pub enum ParseError {
    /// The line does not hold four fields; the payload is the number found.
    InvalidFieldCount(usize),
    /// The port field is no decimal number between 1 and 65535; the payload is the field.
    InvalidPort(String),
    /// The TLS field is neither `ssl` nor `no-ssl`; the payload is the field.
    InvalidSslFlag(String),
    /// A name is empty; the payload says which.
    EmptyField(String),
}

/// What a `ParseError` holds, as plain values.
pub enum ParseErrorView {
    InvalidFieldCount(nat),
    InvalidPort(Seq<char>),
    InvalidSslFlag(Seq<char>),
    EmptyField(Seq<char>),
}

impl ParseErrorView {
    /// The sentence that describes the error.
    pub open spec fn message(self) -> Seq<char> {
        match self {
            ParseErrorView::InvalidFieldCount(n) => "Invalid field count: expected 4, got "@
                + decimal_digits(n),
            ParseErrorView::InvalidPort(raw) => "Invalid port: "@ + raw,
            ParseErrorView::InvalidSslFlag(raw) => "Invalid SSL flag: "@ + raw
                + " (expected 'ssl' or 'no-ssl')"@,
            ParseErrorView::EmptyField(name) => "Empty field: "@ + name,
        }
    }
}

impl View for ParseError {
    type V = ParseErrorView;

    open spec fn view(&self) -> ParseErrorView {
        match self {
            ParseError::InvalidFieldCount(n) => ParseErrorView::InvalidFieldCount(*n as nat),
            ParseError::InvalidPort(raw) => ParseErrorView::InvalidPort(raw@),
            ParseError::InvalidSslFlag(raw) => ParseErrorView::InvalidSslFlag(raw@),
            ParseError::EmptyField(name) => ParseErrorView::EmptyField(name@),
        }
    }
}

impl ParseError {
    /// The sentence that describes the error.
    pub fn message(&self) -> (text: String)
        ensures
            text@ == self@.message(),
    {
        match self {
            ParseError::InvalidFieldCount(n) => {
                let mut text = String::from_str("Invalid field count: expected 4, got ");
                let count = decimal_string(*n as u128);
                text.append(count.as_str());
                text
            },
            ParseError::InvalidPort(raw) => {
                let mut text = String::from_str("Invalid port: ");
                text.append(raw.as_str());
                text
            },
            ParseError::InvalidSslFlag(raw) => {
                let mut text = String::from_str("Invalid SSL flag: ");
                text.append(raw.as_str());
                text.append(" (expected 'ssl' or 'no-ssl')");
                text
            },
            ParseError::EmptyField(name) => {
                let mut text = String::from_str("Empty field: ");
                text.append(name.as_str());
                text
            },
        }
    }
}

/// The port that `field` writes: a decimal number between 1 and 65535.
pub open spec fn port_of(field: Seq<char>) -> Option<u16> {
    match bounded_decimal(field, 65535) {
        Some(v) if v >= 1 => Some(v as u16),
        _ => None,
    }
}

/// A port written in base ten reads back as itself.
pub proof fn lemma_port_round_trip(port: u16)
    requires
        port >= 1,
    ensures
        port_of(decimal_digits(port as nat)) == Some(port),
{
    lemma_decimal_round_trip(port as nat);
}

/// The TLS choice that `field` writes: exactly `ssl` or `no-ssl`.
pub open spec fn ssl_flag_of(field: Seq<char>) -> Option<SslFlag> {
    if field == "ssl"@ {
        Some(SslFlag::Ssl)
    } else if field == "no-ssl"@ {
        Some(SslFlag::NoSsl)
    } else {
        None
    }
}

/// The request that four fields make, or the first thing wrong with them:
/// an empty server name, a bad port, a bad TLS field, an empty host name.
pub open spec fn request_of(
    server: Seq<char>,
    port: Seq<char>,
    flag: Seq<char>,
    proxy_host: Seq<char>,
) -> Result<RequestView, ParseErrorView> {
    if server.len() == 0 {
        Err(ParseErrorView::EmptyField("backend_server"@))
    } else if port_of(port) is None {
        Err(ParseErrorView::InvalidPort(port))
    } else if ssl_flag_of(flag) is None {
        Err(ParseErrorView::InvalidSslFlag(flag))
    } else if proxy_host.len() == 0 {
        Err(ParseErrorView::EmptyField("proxy_host_name"@))
    } else {
        Ok(
            RequestView {
                backend_server: server,
                backend_port: port_of(port)->0,
                ssl_flag: ssl_flag_of(flag)->0,
                proxy_host_name: proxy_host,
            },
        )
    }
}

/// What a request line means: its four whitespace-separated fields as a
/// request, or the reason why it is none.
pub open spec fn parse_line(line: Seq<char>) -> Result<RequestView, ParseErrorView> {
    let f = fields(line);
    if f.len() != 4 {
        Err(ParseErrorView::InvalidFieldCount(f.len()))
    } else {
        request_of(f[0], f[1], f[2], f[3])
    }
}

/// A line of four words means what its four words mean, whatever whitespace
/// stands before, between and after them.
pub proof fn lemma_parse_of_four_words(words: Seq<Seq<char>>, gaps: Seq<Seq<char>>)
    requires
        well_spaced(words, gaps),
        words.len() == 4,
    ensures
        parse_line(joined(words, gaps)) == request_of(words[0], words[1], words[2], words[3]),
{
    lemma_fields_of_joined(words, gaps);
}

/// A well-formed line gives a request whose fields are exactly its tokens:
/// four words, the second a port between 1 and 65535, the third `ssl` or
/// `no-ssl`.
pub proof fn lemma_parse_well_formed(words: Seq<Seq<char>>, gaps: Seq<Seq<char>>)
    requires
        well_spaced(words, gaps),
        words.len() == 4,
        port_of(words[1]) is Some,
        ssl_flag_of(words[2]) is Some,
    ensures
        parse_line(joined(words, gaps)) == Ok::<RequestView, ParseErrorView>(
            (RequestView {
                backend_server: words[0],
                backend_port: port_of(words[1])->0,
                ssl_flag: ssl_flag_of(words[2])->0,
                proxy_host_name: words[3],
            }),
        ),
{
    lemma_fields_of_joined(words, gaps);
    assert(crate::text::is_word(words[0]));
    assert(crate::text::is_word(words[3]));
}

/// A line that holds another number of words than four is rejected with
/// that number.
pub proof fn lemma_parse_wrong_count(words: Seq<Seq<char>>, gaps: Seq<Seq<char>>)
    requires
        well_spaced(words, gaps),
        words.len() != 4,
    ensures
        parse_line(joined(words, gaps)) == Err::<RequestView, ParseErrorView>(
            ParseErrorView::InvalidFieldCount(words.len()),
        ),
{
    lemma_fields_of_joined(words, gaps);
}

/// Whitespace does not alter the result: the same words parse alike under
/// any two spacings.
pub proof fn lemma_parse_ignores_spacing(
    words: Seq<Seq<char>>,
    gaps: Seq<Seq<char>>,
    other_gaps: Seq<Seq<char>>,
)
    requires
        well_spaced(words, gaps),
        well_spaced(words, other_gaps),
    ensures
        parse_line(joined(words, gaps)) == parse_line(joined(words, other_gaps)),
{
    lemma_fields_of_joined(words, gaps);
    lemma_fields_of_joined(words, other_gaps);
}

/// No line is rejected for an empty name: the fields of a line are never empty.
pub proof fn lemma_parse_finds_no_empty_field(line: Seq<char>)
    ensures
        !(parse_line(line) matches Err(ParseErrorView::EmptyField(_))),
{
    lemma_fields_are_words(line);
    let f = fields(line);
    if f.len() == 4 {
        assert(crate::text::is_word(f[0]));
        assert(crate::text::is_word(f[3]));
    }
}

/// A request that a line gives meets the constraints on its fields.
pub proof fn lemma_parsed_request_is_valid(line: Seq<char>)
    ensures
        parse_line(line) is Ok ==> parse_line(line)->Ok_0.is_valid(),
{
}

/// Whether `result` is `expected`, each side taken by its view.
pub open spec fn agrees(
    result: Result<HealthCheckRequest, ParseError>,
    expected: Result<RequestView, ParseErrorView>,
) -> bool {
    match result {
        Ok(request) => expected == Ok::<RequestView, ParseErrorView>(request@),
        Err(error) => expected == Err::<RequestView, ParseErrorView>(error@),
    }
}

/// Reads the port field.
pub fn parse_port(field: &str) -> (port: Option<u16>)
    ensures
        port == port_of(field@),
{
    match parse_unsigned(field, 65535) {
        Some(v) => if v >= 1 {
            Some(v as u16)
        } else {
            None
        },
        None => None,
    }
}

/// Reads the TLS field.
pub fn parse_ssl_flag(field: &str) -> (flag: Option<SslFlag>)
    ensures
        flag == ssl_flag_of(field@),
{
    if same_text(field, "ssl") {
        Some(SslFlag::Ssl)
    } else if same_text(field, "no-ssl") {
        Some(SslFlag::NoSsl)
    } else {
        None
    }
}

/// Builds a request from its four fields, already split.
pub fn request_from_fields(server: &str, port: &str, flag: &str, proxy_host: &str) -> (result:
    Result<HealthCheckRequest, ParseError>)
    ensures
        agrees(result, request_of(server@, port@, flag@, proxy_host@)),
        result is Ok ==> result->Ok_0@.is_valid(),
{
    if server.unicode_len() == 0 {
        return Err(ParseError::EmptyField(String::from_str("backend_server")));
    }
    let backend_port = match parse_port(port) {
        Some(p) => p,
        None => {
            return Err(ParseError::InvalidPort(String::from_str(port)));
        },
    };
    let ssl_flag = match parse_ssl_flag(flag) {
        Some(f) => f,
        None => {
            return Err(ParseError::InvalidSslFlag(String::from_str(flag)));
        },
    };
    if proxy_host.unicode_len() == 0 {
        return Err(ParseError::EmptyField(String::from_str("proxy_host_name")));
    }
    Ok(
        HealthCheckRequest {
            backend_server: String::from_str(server),
            backend_port,
            ssl_flag,
            proxy_host_name: String::from_str(proxy_host),
        },
    )
}

/// Parses one request line: `<server> <port> <ssl|no-ssl> <proxy_host_name>`,
/// the fields separated by whitespace, with any whitespace around them.
pub fn parse_request(line: &str) -> (result: Result<HealthCheckRequest, ParseError>)
    ensures
        agrees(result, parse_line(line@)),
        result is Ok ==> result->Ok_0@.is_valid(),
        result is Err ==> !(result->Err_0 is EmptyField),
{
    proof {
        lemma_parse_finds_no_empty_field(line@);
    }
    let chars = chars_of(line);
    let ranges = field_ranges(&chars);
    if ranges.len() != 4 {
        return Err(ParseError::InvalidFieldCount(ranges.len()));
    }
    proof {
        assert(field_marked(chars@, ranges@, 0));
        assert(field_marked(chars@, ranges@, 1));
        assert(field_marked(chars@, ranges@, 2));
        assert(field_marked(chars@, ranges@, 3));
    }
    let server = line.substring_char(ranges[0].0, ranges[0].1);
    let port = line.substring_char(ranges[1].0, ranges[1].1);
    let flag = line.substring_char(ranges[2].0, ranges[2].1);
    let proxy_host = line.substring_char(ranges[3].0, ranges[3].1);
    request_from_fields(server, port, flag, proxy_host)
}

} // verus!
