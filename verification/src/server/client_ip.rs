//! The address of the real client of a public request.
//!
//! Behind a reverse proxy the peer of the TCP connection is the proxy, and
//! the client's address travels in a request header. Which header is read is
//! a matter of configuration, and it is believed only from a trusted peer.

use crate::server::config::{ProxyMode, ProxyModeView};
use crate::text::{
    cut, find, first_segment, is_ascii_digit, rfind, skip_leading, skip_trailing, to_chars, trim,
    trim_matches, trim_range, CharClass,
};
use crate::server::headers::{
    header_fields, header_get, header_text, header_value_text,
};
use http::HeaderMap;
use vstd::prelude::*;

verus! {

/// An IP address as a number: thirty-two bits for version 4, a hundred and
/// twenty-eight for version 6. Two addresses are the same where version and
/// number are.
#[derive(Clone, Copy, Debug, PartialEq, Eq, Structural)]
pub enum IpAddress {
    V4(u32),
    V6(u128),
}

/// The peer of a connection: its address, and the same address as text.
#[derive(Clone, Debug)]
pub struct PeerAddr {
    pub ip: IpAddress,
    pub text: String,
}

/// The client named by an `X-Forwarded-For` value: the leftmost entry of the
/// comma-separated list, without surrounding white space, unless it is empty.
pub open spec fn x_forwarded_for(value: Seq<char>) -> Option<Seq<char>> {
    let ip = trim(first_segment(value, ','));
    if ip.len() == 0 {
        None
    } else {
        Some(ip)
    }
}

/// The client named by a header that holds just an address: the value
/// without surrounding white space, unless it is empty.
pub open spec fn simple_ip(value: Seq<char>) -> Option<Seq<char>> {
    let ip = trim(value);
    if ip.len() == 0 {
        None
    } else {
        Some(ip)
    }
}

/// Whether a directive begins with `for=`, in any mix of upper and lower case.
pub open spec fn is_for_directive(d: Seq<char>) -> bool {
    &&& d.len() >= 4
    &&& (d[0] == 'f' || d[0] == 'F')
    &&& (d[1] == 'o' || d[1] == 'O')
    &&& (d[2] == 'r' || d[2] == 'R')
    &&& d[3] == '='
}

/// Whether every character is a digit or a dot.
pub open spec fn digits_and_dots(s: Seq<char>) -> bool {
    forall|i: int| 0 <= i < s.len() ==> is_ascii_digit(#[trigger] s[i]) || s[i] == '.'
}

/// The address inside the value of a `for=` directive: white space and
/// double quotes at the ends are dropped; of a bracketed IPv6 literal the
/// part between `[` and the first `]` is kept; a part before the last colon
/// that consists of digits and dots is taken for an IPv4 address with a port,
/// and the port is dropped.
pub open spec fn cleaned_ip(ip: Seq<char>) -> Seq<char> {
    let t = trim_matches(trim(ip), CharClass::Is('"'));
    if t.len() > 0 && t[0] == '[' && find(t, ']') is Some {
        t.subrange(1, find(t, ']')->0)
    } else if rfind(t, ':') is Some && digits_and_dots(t.take(rfind(t, ':')->0)) {
        t.take(rfind(t, ':')->0)
    } else {
        t
    }
}

/// The address of the first `for=` directive among the semicolon-separated
/// directives of one element of a `Forwarded` value.
pub open spec fn forwarded_for(element: Seq<char>) -> Option<Seq<char>>
    decreases element.len(),
{
    let n = crate::text::leading(element, CharClass::Not(';'));
    let directive = trim(element.take(n as int));
    if is_for_directive(directive) {
        Some(cleaned_ip(directive.skip(4)))
    } else if n < element.len() {
        forwarded_for(element.skip(n + 1 as int))
    } else {
        None
    }
}

/// The client named by a `Forwarded` value: what the first element of the
/// comma-separated list says in its first `for=` directive.
pub open spec fn forwarded(value: Seq<char>) -> Option<Seq<char>> {
    forwarded_for(first_segment(value, ','))
}

/// Reads the client address from the value of an `X-Forwarded-For` header.
pub fn parse_x_forwarded_for(value: &str) -> (ip: Option<String>)
    ensures
        ip.deep_view() == x_forwarded_for(value@),
{
    let v = to_chars(value);
    let end = skip_leading(&v, 0, v.len(), CharClass::Not(','));
    proof {
        assert(v@.subrange(0, v.len() as int) =~= v@);
        assert(v@.subrange(0, end as int) =~= first_segment(value@, ','));
    }
    let (a, b) = trim_range(&v, 0, end, CharClass::Whitespace);
    if a == b {
        None
    } else {
        Some(cut(value, &v, a, b))
    }
}

/// Reads the client address from the value of a header that holds nothing
/// else (`X-Real-IP`, `CF-Connecting-IP`, `True-Client-IP`, a custom one).
pub fn parse_simple_ip_header(value: &str) -> (ip: Option<String>)
    ensures
        ip.deep_view() == simple_ip(value@),
{
    let v = to_chars(value);
    proof {
        assert(v@.subrange(0, v.len() as int) =~= v@);
    }
    let (a, b) = trim_range(&v, 0, v.len(), CharClass::Whitespace);
    if a == b {
        None
    } else {
        Some(cut(value, &v, a, b))
    }
}

/// Whether every character of the range `from..to` of `v` is a digit or a dot.
fn all_digits_and_dots(v: &Vec<char>, from: usize, to: usize) -> (all: bool)
    requires
        from <= to <= v.len(),
    ensures
        all == digits_and_dots(v@.subrange(from as int, to as int)),
{
    let mut i: usize = from;
    while i < to
        invariant
            from <= i <= to <= v.len(),
            forall|j: int| from <= j < i ==> is_ascii_digit(#[trigger] v@[j]) || v@[j] == '.',
        decreases to - i,
    {
        let c = v[i];
        if !(('0' <= c && c <= '9') || c == '.') {
            assert(v@.subrange(from as int, to as int)[i - from] == c);
            return false;
        }
        i = i + 1;
    }
    assert forall|k: int| 0 <= k < to - from implies is_ascii_digit(
        #[trigger] v@.subrange(from as int, to as int)[k],
    ) || v@.subrange(from as int, to as int)[k] == '.' by {
        assert(v@.subrange(from as int, to as int)[k] == v@[from + k]);
    }
    true
}

/// Finds in the range `from..to` of `v` the range of the address that the
/// value of a `for=` directive holds.
fn clean_range(v: &Vec<char>, from: usize, to: usize) -> (r: (usize, usize))
    requires
        from <= to <= v.len(),
    ensures
        from <= r.0 <= r.1 <= to,
        v@.subrange(r.0 as int, r.1 as int) == cleaned_ip(v@.subrange(from as int, to as int)),
{
    let (a0, b0) = trim_range(v, from, to, CharClass::Whitespace);
    let (a, b) = trim_range(v, a0, b0, CharClass::Is('"'));
    let ghost t = v@.subrange(a as int, b as int);
    if a < b && v[a] == '[' {
        let close = skip_leading(v, a, b, CharClass::Not(']'));
        if close < b {
            proof {
                assert(t[0] == v@[a as int]);
                assert(t.subrange(1, close - a) =~= v@.subrange(a + 1, close as int));
            }
            return (a + 1, close);
        }
    }
    proof {
        if a < b {
            assert(t[0] == v@[a as int]);
        }
    }
    let after = skip_trailing(v, a, b, CharClass::Not(':'));
    if after > a {
        let colon = after - 1;
        proof {
            assert(rfind(t, ':') == Some(colon - a));
            assert(t.take(colon - a) =~= v@.subrange(a as int, colon as int));
        }
        if all_digits_and_dots(v, a, colon) {
            return (a, colon);
        }
    }
    (a, b)
}

/// Reads the address out of the value of a `for=` directive.
pub fn clean_forwarded_ip(ip: &str) -> (cleaned: String)
    ensures
        cleaned@ == cleaned_ip(ip@),
{
    let v = to_chars(ip);
    proof {
        assert(v@.subrange(0, v.len() as int) =~= v@);
    }
    let (a, b) = clean_range(&v, 0, v.len());
    cut(ip, &v, a, b)
}

/// Whether the range `from..to` of `v` begins with `for=` in any case.
fn begins_with_for(v: &Vec<char>, from: usize, to: usize) -> (yes: bool)
    requires
        from <= to <= v.len(),
    ensures
        yes == is_for_directive(v@.subrange(from as int, to as int)),
{
    let ghost d = v@.subrange(from as int, to as int);
    if to - from < 4 {
        return false;
    }
    proof {
        assert(d[0] == v@[from as int]);
        assert(d[1] == v@[from + 1]);
        assert(d[2] == v@[from + 2]);
        assert(d[3] == v@[from + 3]);
    }
    (v[from] == 'f' || v[from] == 'F') && (v[from + 1] == 'o' || v[from + 1] == 'O') && (v[from
        + 2] == 'r' || v[from + 2] == 'R') && v[from + 3] == '='
}

/// Reads the client address from the value of a `Forwarded` header.
pub fn parse_forwarded_header(value: &str) -> (ip: Option<String>)
    ensures
        ip.deep_view() == forwarded(value@),
{
    let v = to_chars(value);
    let end = skip_leading(&v, 0, v.len(), CharClass::Not(','));
    proof {
        assert(v@.subrange(0, v.len() as int) =~= v@);
        assert(v@.subrange(0, end as int) =~= first_segment(value@, ','));
    }
    let mut pos: usize = 0;
    loop
        invariant
            v@ == value@,
            pos <= end <= v.len(),
            forwarded(value@) == forwarded_for(v@.subrange(pos as int, end as int)),
        decreases end - pos,
    {
        let ghost element = v@.subrange(pos as int, end as int);
        let stop = skip_leading(&v, pos, end, CharClass::Not(';'));
        let (a, b) = trim_range(&v, pos, stop, CharClass::Whitespace);
        proof {
            assert(element.take(stop - pos) =~= v@.subrange(pos as int, stop as int));
        }
        if begins_with_for(&v, a, b) {
            proof {
                assert(v@.subrange(a as int, b as int).skip(4) =~= v@.subrange(a + 4, b as int));
            }
            let (c, d) = clean_range(&v, a + 4, b);
            return Some(cut(value, &v, c, d));
        }
        if stop >= end {
            return None;
        }
        proof {
            assert(element.skip(stop - pos + 1) =~= v@.subrange(stop + 1, end as int));
        }
        pos = stop + 1;
    }
}

impl ProxyModeView {
    /// The client that a value of the mode's header names.
    pub open spec fn client_of(self, value: Seq<char>) -> Option<Seq<char>> {
        match self {
            ProxyModeView::Forwarded => forwarded(value),
            ProxyModeView::XForwardedFor => x_forwarded_for(value),
            _ => simple_ip(value),
        }
    }
}

/// The address under which a request is passed on: the peer's own where no
/// proxy is configured, where the peer is not among the trusted proxies (if
/// any are named), where the header is missing or not plain text, or where it
/// names no client; else the client that the header names.
pub open spec fn client_ip(
    fields: Seq<(Seq<char>, Seq<u8>)>,
    peer_ip: IpAddress,
    peer_text: Seq<char>,
    mode: ProxyModeView,
    trusted: Seq<IpAddress>,
) -> Seq<char> {
    match mode.header_name() {
        None => peer_text,
        Some(name) => {
            if trusted.len() > 0 && !trusted.contains(peer_ip) {
                peer_text
            } else {
                match header_text(fields, name) {
                    None => peer_text,
                    Some(value) => match mode.client_of(value) {
                        Some(ip) => ip,
                        None => peer_text,
                    },
                }
            }
        },
    }
}

/// Whether `ip` is one of `list`.
fn contains_ip(list: &[IpAddress], ip: IpAddress) -> (found: bool)
    ensures
        found == list@.contains(ip),
{
    let mut i: usize = 0;
    while i < list.len()
        invariant
            i <= list.len(),
            forall|j: int| 0 <= j < i ==> list@[j] != ip,
        decreases list.len() - i,
    {
        if list[i] == ip {
            return true;
        }
        i = i + 1;
    }
    false
}

/// Finds the address of the real client of a request.
pub fn extract_client_ip(
    headers: &HeaderMap,
    conn_addr: &PeerAddr,
    proxy_mode: &ProxyMode,
    trusted_proxies: &[IpAddress],
) -> (ip: String)
    ensures
        ip@ == client_ip(
            header_fields(*headers),
            conn_addr.ip,
            conn_addr.text@,
            proxy_mode@,
            trusted_proxies@,
        ),
{
    let header_name = match proxy_mode.header_name() {
        Some(name) => name,
        None => {
            return conn_addr.text.clone();
        },
    };
    if trusted_proxies.len() > 0 && !contains_ip(trusted_proxies, conn_addr.ip) {
        return conn_addr.text.clone();
    }
    let header_value = match header_get(headers, header_name) {
        Some(value) => match header_value_text(value) {
            Some(text) => text,
            None => {
                return conn_addr.text.clone();
            },
        },
        None => {
            return conn_addr.text.clone();
        },
    };
    let extracted = match proxy_mode {
        ProxyMode::Forwarded => parse_forwarded_header(header_value.as_str()),
        ProxyMode::XForwardedFor => parse_x_forwarded_for(header_value.as_str()),
        _ => parse_simple_ip_header(header_value.as_str()),
    };
    match extracted {
        Some(ip) => ip,
        None => conn_addr.text.clone(),
    }
}

} // verus!
