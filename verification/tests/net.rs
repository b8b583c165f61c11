use quickwit_core::net::is_valid_hostname;
use quickwit_core::net::parse_port;
use quickwit_core::net::split_once;
use quickwit_core::net::Host;
use quickwit_core::net::HostAddr;
use quickwit_core::net::IpAddr;
use quickwit_core::net::ParseError;

#[test]
fn test_is_valid_hostname() {
    for hostname in &[
        "VaLiD-HoStNaMe",
        "50-name",
        "235235",
        "example.com",
        "VaLid.HoStNaMe",
        "123.456",
    ] {
        assert!(
            is_valid_hostname(hostname),
            "Hostname `{hostname}` is valid.",
        );
    }

    for hostname in &[
        "-invalid-name",
        "also-invalid-",
        "asdf@fasd",
        "@asdfl",
        "asd f@",
        ".invalid",
        "invalid.name.",
        "foo.label-is-way-to-longgggggggggggggggggggggggggggggggggggggggggggg.org",
        "invalid.-starting.char",
        "invalid.ending-.char",
        "empty..label",
    ] {
        assert!(
            !is_valid_hostname(hostname),
            "Hostname `{hostname}` is invalid."
        );
    }
}

const LOCALHOST: IpAddr = IpAddr::V4(0x7f00_0001);
const DOCUMENTATION_V6: IpAddr = IpAddr::V6(0x2001_0db8_85a3_0000_0000_8a2e_0370_7334);

/// The address that `text` spells, for the IP literals that the tests use.
fn ip_bits(text: &str) -> Option<IpAddr> {
    match text {
        "127.0.0.1" => Some(LOCALHOST),
        "::1" => Some(IpAddr::V6(1)),
        "2001:0db8:85a3:0000:0000:8a2e:0370:7334" => Some(DOCUMENTATION_V6),
        _ => None,
    }
}

/// The address and port that `text` spells, for the literals that the tests
/// use.
fn socket_bits(text: &str) -> Option<(IpAddr, u16)> {
    match text {
        "127.0.0.1:100" => Some((LOCALHOST, 100)),
        "[2001:0db8:85a3:0000:0000:8a2e:0370:7334]:1000" => Some((DOCUMENTATION_V6, 1000)),
        _ => None,
    }
}

fn parse_host(text: &str) -> Result<Host, ParseError> {
    Host::parse(text, ip_bits(text))
}

fn parse_addr(text: &str, default_port: u16) -> Result<HostAddr, ParseError> {
    HostAddr::parse_with_default_port(text, default_port, socket_bits(text), ip_bits(text))
}

#[test]
fn test_parse_host() {
    assert_eq!(
        parse_host("127.0.0.1").unwrap(),
        Host::IpAddr(LOCALHOST)
    );
    assert_eq!(parse_host("::1").unwrap(), Host::IpAddr(IpAddr::V6(1)));
    assert_eq!(
        parse_host("localhost").unwrap(),
        Host::Hostname("localhost".to_string())
    );
}

#[test]
fn parse_host_refuses_what_is_neither_address_nor_hostname() {
    assert_eq!(parse_host("not a host"), Err(ParseError::InvalidHost));
    assert_eq!(parse_host(""), Err(ParseError::InvalidHost));
    assert_eq!(parse_host("127.0..1"), Err(ParseError::InvalidHost));
    assert_eq!(parse_host("host:80"), Err(ParseError::InvalidHost));
    // An address that the platform recognised stands, whatever the text.
    assert_eq!(
        Host::parse("not a host", Some(IpAddr::V4(1))),
        Ok(Host::IpAddr(IpAddr::V4(1)))
    );
}

fn expect_addr(text: &str, host: Host, port: u16) {
    let addr = parse_addr(text, 1337).unwrap();
    assert_eq!(addr.host(), &host, "host of `{}`", text);
    assert_eq!(addr.port(), port, "port of `{}`", text);
    assert_eq!(addr, host.with_port(port));
}

#[test]
fn parse_addr_with_ips_and_hostnames() {
    let localhost = Host::IpAddr(LOCALHOST);
    expect_addr("127.0.0.1", localhost.clone(), 1337);
    expect_addr("127.0.0.1:100", localhost, 100);
    // Not an address, so a hostname with a port: its label between the two
    // dots is empty.
    assert_eq!(parse_addr("127.0..1:100", 1337), Err(ParseError::InvalidHostname));

    let v6 = Host::IpAddr(DOCUMENTATION_V6);
    expect_addr("2001:0db8:85a3:0000:0000:8a2e:0370:7334", v6.clone(), 1337);
    expect_addr("[2001:0db8:85a3:0000:0000:8a2e:0370:7334]:1000", v6, 1000);
    // Without brackets the first colon splits: what follows is no port.
    assert_eq!(
        parse_addr("2001:0db8:85a3:0000:0000:8a2e:0370:7334:1000", 1337),
        Err(ParseError::InvalidPort)
    );
    assert_eq!(parse_addr("[2001:0db8:1000", 1337), Err(ParseError::InvalidPort));
    assert_eq!(
        parse_addr("2001:0db8:85a3:0000:0000:8a2e:0370:7334]:1000", 1337),
        Err(ParseError::InvalidPort)
    );

    expect_addr("google.com", Host::Hostname("google.com".to_string()), 1337);
    expect_addr("google.com:1000", Host::Hostname("google.com".to_string()), 1000);
}

#[test]
fn parse_addr_reads_the_port_before_the_hostname() {
    assert_eq!(parse_addr("bad host:x", 1), Err(ParseError::InvalidPort));
    assert_eq!(parse_addr("bad host:80", 1), Err(ParseError::InvalidHostname));
    assert_eq!(parse_addr("bad host", 1), Err(ParseError::InvalidHostname));
    assert_eq!(parse_addr("host:", 1), Err(ParseError::InvalidPort));
    assert_eq!(parse_addr(":80", 1), Err(ParseError::InvalidHostname));
    assert_eq!(parse_addr("", 1), Err(ParseError::InvalidHostname));
    assert_eq!(parse_addr("host:80:90", 1), Err(ParseError::InvalidPort));
    assert_eq!(parse_addr("host:65536", 1), Err(ParseError::InvalidPort));
    expect_addr("host:65535", Host::Hostname("host".to_string()), 65535);
    expect_addr("host:+80", Host::Hostname("host".to_string()), 80);
    expect_addr("host:0", Host::Hostname("host".to_string()), 0);
}

#[test]
fn parse_addr_prefers_what_the_platform_recognised() {
    let addr = HostAddr::parse_with_default_port(
        "anything",
        7,
        Some((IpAddr::V4(1), 2)),
        Some(IpAddr::V4(3)),
    )
    .unwrap();
    assert_eq!(addr.host(), &Host::IpAddr(IpAddr::V4(1)));
    assert_eq!(addr.port(), 2);
    let addr =
        HostAddr::parse_with_default_port("anything", 7, None, Some(IpAddr::V4(3))).unwrap();
    assert_eq!(addr.host(), &Host::IpAddr(IpAddr::V4(3)));
    assert_eq!(addr.port(), 7);
}

#[test]
fn parse_port_reads_decimal_numbers() {
    assert_eq!(parse_port("80"), Some(80));
    assert_eq!(parse_port("0"), Some(0));
    assert_eq!(parse_port("65535"), Some(65535));
    assert_eq!(parse_port("65536"), None);
    assert_eq!(parse_port("99999999999999999999999999"), None);
    assert_eq!(parse_port("00080"), Some(80));
    assert_eq!(parse_port("000000000000000000000000080"), Some(80));
    assert_eq!(parse_port("+80"), Some(80));
    assert_eq!(parse_port("+"), None);
    assert_eq!(parse_port(""), None);
    assert_eq!(parse_port("-1"), None);
    assert_eq!(parse_port("++1"), None);
    assert_eq!(parse_port(" 80"), None);
    assert_eq!(parse_port("80 "), None);
    assert_eq!(parse_port("8_0"), None);
    assert_eq!(parse_port("0x50"), None);
    assert_eq!(parse_port("８０"), None);
}

#[test]
fn parse_port_agrees_with_the_platform() {
    for text in [
        "80", "0", "65535", "65536", "00080", "+80", "+", "", "-1", "-0", "++1", " 80", "1e3",
        "٣", "12a", "+065535", "655350",
    ] {
        assert_eq!(parse_port(text), text.parse::<u16>().ok(), "`{}`", text);
    }
}

#[test]
fn split_once_splits_at_the_first_delimiter() {
    assert_eq!(split_once("host:80", ':'), Some(("host", "80")));
    assert_eq!(split_once("a:b:c", ':'), Some(("a", "b:c")));
    assert_eq!(split_once(":80", ':'), Some(("", "80")));
    assert_eq!(split_once("host:", ':'), Some(("host", "")));
    assert_eq!(split_once(":", ':'), Some(("", "")));
    assert_eq!(split_once("host", ':'), None);
    assert_eq!(split_once("", ':'), None);
    assert_eq!(split_once("héé:ü", ':'), Some(("héé", "ü")));
    for text in ["host:80", "a:b:c", ":", "", "héé:ü", "no colon"] {
        assert_eq!(split_once(text, ':'), text.split_once(':'), "`{}`", text);
    }
}

#[test]
fn hostname_length_limits() {
    let label63 = "a".repeat(63);
    let label64 = "a".repeat(64);
    assert!(is_valid_hostname(&label63));
    assert!(!is_valid_hostname(&label64));
    assert!(is_valid_hostname(&format!("{}.{}", label63, label63)));
    assert!(!is_valid_hostname(&format!("{}.{}", label63, label64)));
    // 253 characters: three labels of 63, one of 61, and three dots.
    let longest = format!("{0}.{0}.{0}.{1}", label63, "a".repeat(61));
    assert_eq!(longest.len(), 253);
    assert!(is_valid_hostname(&longest));
    let too_long = format!("{0}.{0}.{0}.{1}", label63, "a".repeat(62));
    assert_eq!(too_long.len(), 254);
    assert!(!is_valid_hostname(&too_long));
    assert!(!is_valid_hostname(""));
    assert!(!is_valid_hostname("."));
    assert!(!is_valid_hostname("-"));
    assert!(is_valid_hostname("a"));
    assert!(is_valid_hostname("a-b"));
    assert!(!is_valid_hostname("a_b"));
    assert!(!is_valid_hostname("hôte"));
}

#[test]
fn unspecified_hosts() {
    assert!(Host::IpAddr(IpAddr::V4(0)).is_unspecified());
    assert!(Host::IpAddr(IpAddr::V6(0)).is_unspecified());
    assert!(!Host::IpAddr(IpAddr::V4(0x7f00_0001)).is_unspecified());
    assert!(!Host::IpAddr(IpAddr::V6(1)).is_unspecified());
    assert!(!Host::Hostname("0.0.0.0.example".to_string()).is_unspecified());
    assert!(IpAddr::V4(0).is_unspecified());
    assert!(!IpAddr::V6(u128::MAX).is_unspecified());
}

#[test]
fn with_port_keeps_the_host() {
    let host = Host::Hostname("localhost".to_string());
    let addr = host.with_port(7280);
    assert_eq!(addr.host(), &host);
    assert_eq!(addr.port(), 7280);
    assert_eq!(addr.clone(), addr);
}

#[test]
fn parse_errors_say_what_was_refused() {
    assert_eq!(
        ParseError::InvalidHost.message("a b"),
        "Failed to parse host: `a b`."
    );
    assert_eq!(
        ParseError::InvalidPort.message("host:x"),
        "Failed to parse address `host:x`: port is invalid."
    );
    assert_eq!(
        ParseError::InvalidHostname.message("-host:1"),
        "Failed to parse address `-host:1`: hostname is invalid."
    );
}

#[test]
fn host_from_ip_addr() {
    assert_eq!(Host::from(IpAddr::V4(1)), Host::IpAddr(IpAddr::V4(1)));
    assert_eq!(Host::from(IpAddr::V6(0)), Host::IpAddr(IpAddr::V6(0)));
    let host: Host = LOCALHOST.into();
    assert_eq!(host, Host::IpAddr(LOCALHOST));
}
