//! Host addressing: hosts, `host:port` addresses and hostname validity.
//!
//! Recognising an IP literal is left to the platform. The functions here take
//! its answer as plain values and decide the rest: which form an input has,
//! which port it carries and whether its hostname is well formed.

use vstd::prelude::*;
use vstd::string::*;

verus! {

broadcast use vstd::string::group_string_axioms;

/// An IP address, held as the integer that its bytes spell in network order.
#[derive(Clone, Copy, Debug, PartialEq, Eq, Structural)]
pub enum IpAddr {
    V4(u32),
    V6(u128),
}

impl IpAddr {
    /// Whether this is the unspecified address (`0.0.0.0` or `::`).
    pub open spec fn unspecified(&self) -> bool {
        match *self {
            IpAddr::V4(bits) => bits == 0,
            IpAddr::V6(bits) => bits == 0,
        }
    }

    pub fn is_unspecified(&self) -> (unspecified: bool)
        ensures
            unspecified == self.unspecified(),
    {
        match *self {
            IpAddr::V4(bits) => bits == 0,
            IpAddr::V6(bits) => bits == 0,
        }
    }
}

/// A character that a hostname may hold: an ASCII letter or digit, `-` or `.`.
pub open spec fn hostname_char(c: char) -> bool {
    ('a' <= c <= 'z') || ('A' <= c <= 'Z') || ('0' <= c <= '9') || c == '-' || c == '.'
}

/// `[start, end)` is a label of `s`: a run without dots that a dot or an end
/// of `s` bounds on either side.
pub open spec fn is_label(s: Seq<char>, start: int, end: int) -> bool {
    &&& 0 <= start <= end <= s.len()
    &&& (start == 0 || s[start - 1] == '.')
    &&& (end == s.len() || s[end] == '.')
    &&& forall|k: int| start <= k < end ==> s[k] != '.'
}

/// The label `[start, end)` has 1 to 63 characters and neither starts nor
/// ends with a hyphen.
pub open spec fn valid_label(s: Seq<char>, start: int, end: int) -> bool {
    &&& 1 <= end - start <= 63
    &&& s[start] != '-'
    &&& s[end - 1] != '-'
}

/// A hostname is valid when it has 1 to 253 characters, all of them letters,
/// digits, hyphens or dots, and each of its labels is valid.
pub open spec fn valid_hostname(s: Seq<char>) -> bool {
    &&& 1 <= s.len() <= 253
    &&& forall|i: int| 0 <= i < s.len() ==> hostname_char(#[trigger] s[i])
    &&& forall|start: int, end: int| #[trigger]
        is_label(s, start, end) ==> valid_label(s, start, end)
}

fn is_hostname_char(c: char) -> (allowed: bool)
    ensures
        allowed == hostname_char(c),
{
    ('a' <= c && c <= 'z') || ('A' <= c && c <= 'Z') || ('0' <= c && c <= '9') || c == '-' || c
        == '.'
}

/// Returns whether a hostname is valid.
pub fn is_valid_hostname(hostname: &str) -> (valid: bool)
    ensures
        valid == valid_hostname(hostname@),
{
    let ghost s = hostname@;
    let mut count: usize = 0;
    let mut label_start: usize = 0;
    let mut first_is_hyphen = false;
    let mut last_is_hyphen = false;
    for c in it: hostname.chars()
        invariant
            it.seq() == s,
            s == hostname@,
            count == it.index(),
            count <= 253,
            label_start <= count,
            forall|i: int| 0 <= i < count ==> hostname_char(#[trigger] s[i]),
            label_start == 0 || s[label_start - 1] == '.',
            forall|k: int| label_start <= k < count ==> s[k] != '.',
            label_start < count ==> first_is_hyphen == (s[label_start as int] == '-'),
            label_start < count ==> last_is_hyphen == (s[count - 1] == '-'),
            forall|start: int, end: int| #[trigger]
                is_label(s, start, end) && end < count ==> valid_label(s, start, end),
    {
        if count >= 253 {
            return false;
        }
        if !is_hostname_char(c) {
            return false;
        }
        if c == '.' {
            assert(is_label(s, label_start as int, count as int));
            if count == label_start || count - label_start > 63 || first_is_hyphen
                || last_is_hyphen {
                return false;
            }
            assert forall|start: int, end: int| #[trigger]
                is_label(s, start, end) && end < count + 1 implies valid_label(s, start, end) by {
                // The label that this dot ends can only be the current one.
                assert(end == count ==> start == label_start);
            }
            label_start = count + 1;
        } else {
            if count == label_start {
                first_is_hyphen = c == '-';
            }
            last_is_hyphen = c == '-';
        }
        count = count + 1;
    }
    if count == 0 {
        return false;
    }
    assert(is_label(s, label_start as int, count as int));
    if count == label_start || count - label_start > 63 || first_is_hyphen || last_is_hyphen {
        return false;
    }
    assert forall|start: int, end: int| #[trigger] is_label(s, start, end) implies valid_label(
        s,
        start,
        end,
    ) by {
        // The label that ends with the text can only be the current one.
        assert(end == count ==> start == label_start);
    }
    true
}

/// `at` is where `c` first occurs in `s`.
pub open spec fn first_at(s: Seq<char>, c: char, at: int) -> bool {
    &&& 0 <= at < s.len()
    &&& s[at] == c
    &&& forall|k: int| 0 <= k < at ==> s[k] != c
}

/// What stands before and after the first occurrence of `c` in `s`, if `c`
/// occurs in it.
pub open spec fn split_at_first(s: Seq<char>, c: char) -> Option<(Seq<char>, Seq<char>)> {
    if exists|at: int| first_at(s, c, at) {
        let at = choose|at: int| first_at(s, c, at);
        Some((s.subrange(0, at), s.subrange(at + 1, s.len() as int)))
    } else {
        None
    }
}

/// Splits `text` on the first occurrence of `delimiter`.
pub fn split_once(text: &str, delimiter: char) -> (parts: Option<(&str, &str)>)
    ensures
        parts is Some <==> split_at_first(text@, delimiter) is Some,
        parts matches Some((head, tail)) ==> split_at_first(text@, delimiter) == Some(
            (head@, tail@),
        ),
{
    let ghost s = text@;
    let length = text.unicode_len();
    let mut count: usize = 0;
    let mut found: Option<usize> = None;
    for c in it: text.chars()
        invariant
            it.seq() == s,
            s == text@,
            s.len() == length,
            found is None ==> count == it.index(),
            found is None ==> forall|k: int| 0 <= k < count ==> s[k] != delimiter,
            found matches Some(at) ==> first_at(s, delimiter, at as int),
    {
        if found.is_none() {
            if c == delimiter {
                found = Some(count);
            } else {
                count = count + 1;
            }
        }
    }
    match found {
        Some(at) => {
            let head = text.substring_char(0, at);
            let tail = text.substring_char(at + 1, length);
            Some((head, tail))
        },
        None => None,
    }
}

/// The number that the decimal digits spell. Meant for digits only.
pub open spec fn decimal_value(digits: Seq<char>) -> nat
    decreases digits.len(),
{
    if digits.len() == 0 {
        0
    } else {
        (10 * decimal_value(digits.drop_last()) + (digits.last() as nat - '0' as nat)) as nat
    }
}

/// One or more ASCII digits.
pub open spec fn is_decimal(digits: Seq<char>) -> bool {
    &&& digits.len() > 0
    &&& forall|i: int| 0 <= i < digits.len() ==> '0' <= #[trigger] digits[i] <= '9'
}

/// `text` without the plus sign that may lead it.
pub open spec fn unsigned_part(text: Seq<char>) -> Seq<char> {
    if text.len() > 0 && text[0] == '+' {
        text.subrange(1, text.len() as int)
    } else {
        text
    }
}

/// The port that `text` spells: an optional plus sign, then decimal digits
/// whose value fits in 16 bits. Leading zeros are accepted.
pub open spec fn parsed_port(text: Seq<char>) -> Option<u16> {
    let digits = unsigned_part(text);
    if is_decimal(digits) && decimal_value(digits) <= u16::MAX {
        Some(decimal_value(digits) as u16)
    } else {
        None
    }
}

fn digit_value(c: char) -> (value: Option<u32>)
    ensures
        value is Some <==> '0' <= c <= '9',
        value matches Some(v) ==> v == c as nat - '0' as nat,
{
    if '0' <= c && c <= '9' {
        Some(c as u32 - '0' as u32)
    } else {
        None
    }
}

/// Reads a port number.
pub fn parse_port(text: &str) -> (port: Option<u16>)
    ensures
        port == parsed_port(text@),
{
    let length = text.unicode_len();
    let digits = if length > 0 && text.get_char(0) == '+' {
        text.substring_char(1, length)
    } else {
        text
    };
    let ghost d = digits@;
    let mut value: u32 = 0;
    let mut too_large = false;
    let mut any = false;
    let ghost mut seen: int = 0;
    for c in it: digits.chars()
        invariant
            it.seq() == d,
            d == unsigned_part(text@),
            seen == it.index(),
            any == (seen > 0),
            forall|i: int| 0 <= i < seen ==> '0' <= #[trigger] d[i] <= '9',
            too_large == (decimal_value(d.take(seen)) > u16::MAX),
            !too_large ==> value == decimal_value(d.take(seen)),
            value <= u16::MAX,
    {
        assert(d.take(seen + 1).drop_last() == d.take(seen));
        match digit_value(c) {
            None => {
                return None;
            },
            Some(digit) => {
                if !too_large {
                    let next: u32 = value * 10 + digit;
                    if next > 65535 {
                        too_large = true;
                    } else {
                        value = next;
                    }
                }
            },
        }
        any = true;
        proof {
            seen = seen + 1;
        }
    }
    assert(d.take(seen) == d);
    if !any || too_large {
        None
    } else {
        Some(value as u16)
    }
}

/// Why a text is no host or no address.
#[derive(Clone, Copy, Debug, PartialEq, Eq, Structural)]
pub enum ParseError {
    /// The text is neither an IP address nor a valid hostname.
    InvalidHost,
    /// What follows the colon is no port number.
    InvalidPort,
    /// The host part of an address is no valid hostname.
    InvalidHostname,
}

impl ParseError {
    /// The text of the error for the `input` that was refused.
    pub open spec fn message_of(self, input: Seq<char>) -> Seq<char> {
        match self {
            ParseError::InvalidHost => "Failed to parse host: `"@ + input + "`."@,
            ParseError::InvalidPort => "Failed to parse address `"@ + input
                + "`: port is invalid."@,
            ParseError::InvalidHostname => "Failed to parse address `"@ + input
                + "`: hostname is invalid."@,
        }
    }

    pub fn message(&self, input: &str) -> (message: String)
        ensures
            message@ == self.message_of(input@),
    {
        match self {
            ParseError::InvalidHost => {
                let mut message = "Failed to parse host: `".to_owned();
                message.append(input);
                message.append("`.");
                message
            },
            ParseError::InvalidPort => {
                let mut message = "Failed to parse address `".to_owned();
                message.append(input);
                message.append("`: port is invalid.");
                message
            },
            ParseError::InvalidHostname => {
                let mut message = "Failed to parse address `".to_owned();
                message.append(input);
                message.append("`: hostname is invalid.");
                message
            },
        }
    }
}

/// A host: a hostname (`localhost`) or an IP address (`127.0.0.1`).
#[derive(Debug, PartialEq, Eq)]
pub enum Host {
    Hostname(String),
    IpAddr(IpAddr),
}

impl Clone for Host {
    fn clone(&self) -> (copy: Self)
        ensures
            copy == *self,
    {
        match self {
            Host::Hostname(name) => Host::Hostname(name.clone()),
            Host::IpAddr(ip_addr) => Host::IpAddr(*ip_addr),
        }
    }
}

impl From<IpAddr> for Host {
    fn from(ip_addr: IpAddr) -> (host: Host) {
        Host::IpAddr(ip_addr)
    }
}

impl vstd::std_specs::convert::FromSpecImpl<IpAddr> for Host {
    open spec fn obeys_from_spec() -> bool {
        true
    }

    open spec fn from_spec(ip_addr: IpAddr) -> Host {
        Host::IpAddr(ip_addr)
    }
}

/// What a [`Host`] stands for.
pub enum HostView {
    Hostname(Seq<char>),
    IpAddr(IpAddr),
}

impl View for Host {
    type V = HostView;

    open spec fn view(&self) -> HostView {
        match *self {
            Host::Hostname(name) => HostView::Hostname(name@),
            Host::IpAddr(ip_addr) => HostView::IpAddr(ip_addr),
        }
    }
}

/// The host that `text` denotes, where `ip_addr` is the address that `text`
/// spells if it is an IP literal.
pub open spec fn parsed_host(text: Seq<char>, ip_addr: Option<IpAddr>) -> Result<
    HostView,
    ParseError,
> {
    match ip_addr {
        Some(ip_addr) => Ok(HostView::IpAddr(ip_addr)),
        None => if valid_hostname(text) {
            Ok(HostView::Hostname(text))
        } else {
            Err(ParseError::InvalidHost)
        },
    }
}

impl Host {
    /// Reads a host. `ip_addr` is the address that `host` spells if it is an
    /// IP literal, and `None` if it is none.
    pub fn parse(host: &str, ip_addr: Option<IpAddr>) -> (parsed: Result<Host, ParseError>)
        ensures
            parsed matches Ok(h) ==> parsed_host(host@, ip_addr) == Ok::<HostView, ParseError>(
                h@,
            ),
            parsed matches Err(e) ==> parsed_host(host@, ip_addr) == Err::<HostView, ParseError>(
                e,
            ),
    {
        if let Some(ip_addr) = ip_addr {
            return Ok(Host::IpAddr(ip_addr));
        }
        if is_valid_hostname(host) {
            return Ok(Host::Hostname(host.to_owned()));
        }
        Err(ParseError::InvalidHost)
    }

    /// Whether the host is the unspecified IP address. A hostname never is.
    pub fn is_unspecified(&self) -> (unspecified: bool)
        ensures
            unspecified == (self@ matches HostView::IpAddr(ip_addr) && ip_addr.unspecified()),
    {
        match self {
            Host::Hostname(_) => false,
            Host::IpAddr(ip_addr) => ip_addr.is_unspecified(),
        }
    }

    /// The address of `port` on this host.
    pub fn with_port(&self, port: u16) -> (addr: HostAddr)
        ensures
            addr@ == (HostAddrView { host: self@, port }),
    {
        HostAddr { host: self.clone(), port }
    }
}

/// An address `<host>:<port>`, where the host is an IP address or a hostname.
#[derive(Debug, PartialEq, Eq)]
pub struct HostAddr {
    host: Host,
    port: u16,
}

impl Clone for HostAddr {
    fn clone(&self) -> (copy: Self)
        ensures
            copy == *self,
    {
        HostAddr { host: self.host.clone(), port: self.port }
    }
}

/// What a [`HostAddr`] stands for.
pub struct HostAddrView {
    pub host: HostView,
    pub port: u16,
}

impl View for HostAddr {
    type V = HostAddrView;

    closed spec fn view(&self) -> HostAddrView {
        HostAddrView { host: self.host@, port: self.port }
    }
}

/// The address that `text` denotes, given what the platform made of it:
/// `socket_addr` if `text` as a whole is an IP address with a port,
/// `ip_addr` if it is an IP address alone.
///
/// An IP address with a port stands for itself. A bare IP address takes the
/// default port. Anything else is a hostname, followed by a colon and a port
/// or taking the default port; the port is read first.
pub open spec fn parsed_host_addr(
    text: Seq<char>,
    default_port: u16,
    socket_addr: Option<(IpAddr, u16)>,
    ip_addr: Option<IpAddr>,
) -> Result<HostAddrView, ParseError> {
    if let Some((ip, port)) = socket_addr {
        Ok(HostAddrView { host: HostView::IpAddr(ip), port })
    } else if let Some(ip) = ip_addr {
        Ok(HostAddrView { host: HostView::IpAddr(ip), port: default_port })
    } else {
        let (name, port) = match split_at_first(text, ':') {
            Some((name, port_text)) => (name, parsed_port(port_text)),
            None => (text, Some(default_port)),
        };
        match port {
            None => Err(ParseError::InvalidPort),
            Some(port) => if valid_hostname(name) {
                Ok(HostAddrView { host: HostView::Hostname(name), port })
            } else {
                Err(ParseError::InvalidHostname)
            },
        }
    }
}

impl HostAddr {
    /// Reads an address, taking `default_port` where `host_addr` names none.
    ///
    /// The supported forms are an IPv4 or IPv6 address, either of them with a
    /// port (the IPv6 address then stands in brackets), a hostname, and a
    /// hostname with a port. `socket_addr` and `ip_addr` are what `host_addr`
    /// spells as an IP address with a port and as a bare IP address, or `None`.
    pub fn parse_with_default_port(
        host_addr: &str,
        default_port: u16,
        socket_addr: Option<(IpAddr, u16)>,
        ip_addr: Option<IpAddr>,
    ) -> (parsed: Result<HostAddr, ParseError>)
        ensures
            parsed matches Ok(addr) ==> parsed_host_addr(
                host_addr@,
                default_port,
                socket_addr,
                ip_addr,
            ) == Ok::<HostAddrView, ParseError>(addr@),
            parsed matches Err(e) ==> parsed_host_addr(
                host_addr@,
                default_port,
                socket_addr,
                ip_addr,
            ) == Err::<HostAddrView, ParseError>(e),
    {
        if let Some((ip, port)) = socket_addr {
            return Ok(HostAddr { host: Host::IpAddr(ip), port });
        }
        if let Some(ip) = ip_addr {
            return Ok(HostAddr { host: Host::IpAddr(ip), port: default_port });
        }
        let (hostname, port) = match split_once(host_addr, ':') {
            Some((hostname, port_text)) => {
                match parse_port(port_text) {
                    Some(port) => (hostname, port),
                    None => {
                        return Err(ParseError::InvalidPort);
                    },
                }
            },
            None => (host_addr, default_port),
        };
        if !is_valid_hostname(hostname) {
            return Err(ParseError::InvalidHostname);
        }
        Ok(HostAddr { host: Host::Hostname(hostname.to_owned()), port })
    }

    pub fn host(&self) -> (host: &Host)
        ensures
            host@ == self@.host,
    {
        &self.host
    }

    pub fn port(&self) -> (port: u16)
        ensures
            port == self@.port,
    {
        self.port
    }
}

} // verus!
