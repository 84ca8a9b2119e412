// Request lines and response lines of the agent text protocol.

use haproxy_grpc_agent::protocol::{
    parse_port, parse_request, parse_ssl_flag, request_from_fields, HealthCheckResponse,
    HealthStatus, ParseError, SslFlag,
};

// Unit test for parse_request with valid input
#[test]
fn test_parse_request_valid() {
    let input = "backend.example.com 50051 no-ssl backend.example.com";
    let result = parse_request(input);

    assert!(result.is_ok());
    let request = result.unwrap();
    assert_eq!(request.backend_server, "backend.example.com");
    assert_eq!(request.backend_port, 50051);
    assert_eq!(request.ssl_flag, SslFlag::NoSsl);
    assert_eq!(request.proxy_host_name, "backend.example.com");
}

#[test]
fn test_parse_request_valid_ssl() {
    let input = "secure.example.com 443 ssl secure.example.com";
    let result = parse_request(input);

    assert!(result.is_ok());
    let request = result.unwrap();
    assert_eq!(request.backend_server, "secure.example.com");
    assert_eq!(request.backend_port, 443);
    assert_eq!(request.ssl_flag, SslFlag::Ssl);
    assert_eq!(request.proxy_host_name, "secure.example.com");
}

#[test]
fn test_parse_request_valid_ip_address() {
    let input = "192.168.1.100 9090 no-ssl api.internal";
    let result = parse_request(input);

    assert!(result.is_ok());
    let request = result.unwrap();
    assert_eq!(request.backend_server, "192.168.1.100");
    assert_eq!(request.backend_port, 9090);
    assert_eq!(request.ssl_flag, SslFlag::NoSsl);
    assert_eq!(request.proxy_host_name, "api.internal");
}

// Unit test for parse_request with invalid field count
#[test]
fn test_parse_request_invalid_field_count_too_few() {
    let input = "backend.example.com 50051";
    let result = parse_request(input);

    assert!(result.is_err());
    match result.unwrap_err() {
        ParseError::InvalidFieldCount(count) => assert_eq!(count, 2),
        _ => panic!("Expected InvalidFieldCount error"),
    }
}

#[test]
fn test_parse_request_invalid_field_count_too_many() {
    let input = "backend.example.com 50051 no-ssl proxy.host extra field";
    let result = parse_request(input);

    assert!(result.is_err());
    match result.unwrap_err() {
        ParseError::InvalidFieldCount(count) => assert_eq!(count, 6),
        _ => panic!("Expected InvalidFieldCount error"),
    }
}

#[test]
fn test_parse_request_empty_input() {
    let input = "";
    let result = parse_request(input);

    assert!(result.is_err());
    match result.unwrap_err() {
        ParseError::InvalidFieldCount(count) => assert_eq!(count, 0),
        _ => panic!("Expected InvalidFieldCount error"),
    }
}

// Unit test for parse_request with invalid port
#[test]
fn test_parse_request_invalid_port_not_number() {
    let input = "backend.example.com invalid no-ssl proxy.host";
    let result = parse_request(input);

    assert!(result.is_err());
    match result.unwrap_err() {
        ParseError::InvalidPort(_) => {}
        _ => panic!("Expected InvalidPort error"),
    }
}

#[test]
fn test_parse_request_invalid_port_zero() {
    let input = "backend.example.com 0 no-ssl proxy.host";
    let result = parse_request(input);

    assert!(result.is_err());
    match result.unwrap_err() {
        ParseError::InvalidPort(_) => {}
        _ => panic!("Expected InvalidPort error"),
    }
}

#[test]
fn test_parse_request_invalid_port_too_large() {
    let input = "backend.example.com 65536 no-ssl proxy.host";
    let result = parse_request(input);

    assert!(result.is_err());
    match result.unwrap_err() {
        ParseError::InvalidPort(_) => {}
        _ => panic!("Expected InvalidPort error"),
    }
}

// Unit test for parse_request with invalid ssl_flag
#[test]
fn test_parse_request_invalid_ssl_flag() {
    let input = "backend.example.com 50051 invalid-ssl proxy.host";
    let result = parse_request(input);

    assert!(result.is_err());
    match result.unwrap_err() {
        ParseError::InvalidSslFlag(flag) => assert_eq!(flag, "invalid-ssl"),
        _ => panic!("Expected InvalidSslFlag error"),
    }
}

#[test]
fn test_parse_request_invalid_ssl_flag_typo() {
    let input = "backend.example.com 50051 no_ssl proxy.host";
    let result = parse_request(input);

    assert!(result.is_err());
    match result.unwrap_err() {
        ParseError::InvalidSslFlag(_) => {}
        _ => panic!("Expected InvalidSslFlag error"),
    }
}

#[test]
fn test_parse_request_with_whitespace() {
    let input = "  backend.example.com   50051   no-ssl   proxy.host  ";
    let result = parse_request(input);

    assert!(result.is_ok());
    let request = result.unwrap();
    assert_eq!(request.backend_server, "backend.example.com");
    assert_eq!(request.backend_port, 50051);
}

#[test]
fn test_health_status_to_string() {
    assert_eq!(HealthStatus::Up.to_protocol_string(), "up\n");
    assert_eq!(HealthStatus::Down.to_protocol_string(), "down\n");
}

#[test]
fn test_health_check_response() {
    let response = HealthCheckResponse::new(HealthStatus::Up);
    assert_eq!(response.to_string(), "up\n");
}

#[test]
fn response_lines_are_byte_exact() {
    assert_eq!(HealthCheckResponse::new(HealthStatus::Up).to_string().as_bytes(), b"up\n");
    assert_eq!(HealthCheckResponse::new(HealthStatus::Down).to_string().as_bytes(), b"down\n");
}

#[test]
fn parse_keeps_the_four_tokens() {
    let request = parse_request("10.0.0.7 1 ssl mesh.internal").unwrap();
    assert_eq!(request.backend_server, "10.0.0.7");
    assert_eq!(request.backend_port, 1);
    assert_eq!(request.ssl_flag, SslFlag::Ssl);
    assert_eq!(request.proxy_host_name, "mesh.internal");
    let request = parse_request("h 65535 no-ssl p\n").unwrap();
    assert_eq!(request.backend_server, "h");
    assert_eq!(request.backend_port, 65535);
    assert_eq!(request.ssl_flag, SslFlag::NoSsl);
    assert_eq!(request.proxy_host_name, "p");
}

#[test]
fn field_count_is_reported() {
    for (line, count) in [
        ("", 0usize),
        ("   \t \n", 0),
        ("one", 1),
        ("a b c", 3),
        ("a 1 ssl d e", 5),
        ("invalid request\n", 2),
    ] {
        assert_eq!(parse_request(line), Err(ParseError::InvalidFieldCount(count)));
    }
}

#[test]
fn bad_ports_are_rejected_with_the_field() {
    for port in ["0", "65536", "abc", "-1", "+", "80a", "8 0".split(' ').next().unwrap_or(""), "99999999999999999999999", "00"] {
        if port == "8" {
            continue;
        }
        let line = format!("host {} no-ssl proxy", port);
        assert_eq!(parse_request(&line), Err(ParseError::InvalidPort(port.to_string())));
    }
    assert_eq!(parse_port(""), None);
    assert_eq!(
        request_from_fields("host", "", "ssl", "proxy"),
        Err(ParseError::InvalidPort(String::new()))
    );
}

#[test]
fn ports_may_carry_a_plus_or_leading_zeros() {
    assert_eq!(parse_port("+80"), Some(80));
    assert_eq!(parse_port("000443"), Some(443));
    assert_eq!(parse_port("65535"), Some(65535));
    assert_eq!(parse_port("1"), Some(1));
    assert_eq!(parse_request("h 0000000000000000000000080 ssl p").unwrap().backend_port, 80);
}

#[test]
fn bad_ssl_flags_are_rejected_with_the_field() {
    for flag in ["no_ssl", "SSL", "Ssl", "nossl", "ssl-", "no-ssl2"] {
        let line = format!("host 80 {} proxy", flag);
        assert_eq!(parse_request(&line), Err(ParseError::InvalidSslFlag(flag.to_string())));
    }
    assert_eq!(parse_ssl_flag(""), None);
    assert_eq!(
        request_from_fields("host", "80", "", "proxy"),
        Err(ParseError::InvalidSslFlag(String::new()))
    );
    assert_eq!(parse_ssl_flag("ssl"), Some(SslFlag::Ssl));
    assert_eq!(parse_ssl_flag("no-ssl"), Some(SslFlag::NoSsl));
}

#[test]
fn empty_names_are_rejected() {
    assert_eq!(
        request_from_fields("", "80", "ssl", "proxy"),
        Err(ParseError::EmptyField("backend_server".to_string()))
    );
    assert_eq!(
        request_from_fields("host", "80", "ssl", ""),
        Err(ParseError::EmptyField("proxy_host_name".to_string()))
    );
    assert_eq!(
        request_from_fields("", "x", "y", ""),
        Err(ParseError::EmptyField("backend_server".to_string()))
    );
}

#[test]
fn the_first_fault_in_field_order_is_reported() {
    assert_eq!(
        parse_request("host port flag proxy"),
        Err(ParseError::InvalidPort("port".to_string()))
    );
    assert_eq!(
        parse_request("host 80 flag proxy"),
        Err(ParseError::InvalidSslFlag("flag".to_string()))
    );
}

#[test]
fn whitespace_around_and_between_fields_is_ignored() {
    let plain = parse_request("host 80 ssl proxy");
    assert!(plain.is_ok());
    for line in [
        " host 80 ssl proxy",
        "host 80 ssl proxy \n",
        "\t\thost\t80 \t ssl\r\nproxy\r\n",
        "host\u{b}80\u{c}ssl   proxy",
    ] {
        assert_eq!(parse_request(line), plain);
    }
}

#[test]
fn characters_outside_ascii_stay_inside_fields() {
    let request = parse_request("h\u{e9}te 80 ssl pr\u{a0}xy").unwrap();
    assert_eq!(request.backend_server, "h\u{e9}te");
    assert_eq!(request.proxy_host_name, "pr\u{a0}xy");
}

#[test]
fn error_messages_name_the_fault() {
    assert_eq!(
        ParseError::InvalidFieldCount(6).message(),
        "Invalid field count: expected 4, got 6"
    );
    assert_eq!(
        ParseError::InvalidFieldCount(1234567890).message(),
        "Invalid field count: expected 4, got 1234567890"
    );
    assert_eq!(ParseError::InvalidFieldCount(0).message(), "Invalid field count: expected 4, got 0");
    assert_eq!(ParseError::InvalidPort("abc".to_string()).message(), "Invalid port: abc");
    assert_eq!(
        ParseError::InvalidSslFlag("no_ssl".to_string()).message(),
        "Invalid SSL flag: no_ssl (expected 'ssl' or 'no-ssl')"
    );
    assert_eq!(
        ParseError::EmptyField("backend_server".to_string()).message(),
        "Empty field: backend_server"
    );
}
