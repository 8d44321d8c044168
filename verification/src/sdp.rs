//! SDP negotiation: finding the remote RTP endpoint in a session
//! description.
//!
//! Two lines count. `c=IN IP4 <address>` gives the address and
//! `m=audio <port> ...` the port. They are looked for independently of
//! each other and of every other line, and the last line of each kind is
//! the one that counts.

use crate::text::{
    all_digits, chars_of, cut, decimal_value, find_second_word, parse_u16, parsed_u16, pieces,
    second_word, strip_prefix, trim, trimmed, without_prefix,
};
use vstd::prelude::*;

verus! {

/// The remote RTP peer: an IPv4 address and a UDP port.
#[derive(Debug, Clone, Copy, PartialEq, Eq)]
pub struct MediaEndpoint {
    pub address: [u8; 4],
    pub port: u16,
}

/// Mathematical value of a [`MediaEndpoint`].
pub struct MediaEndpointView {
    pub address: Seq<u8>,
    pub port: u16,
}

impl View for MediaEndpoint {
    type V = MediaEndpointView;

    open spec fn view(&self) -> MediaEndpointView {
        MediaEndpointView { address: self.address@, port: self.port }
    }
}

/// The byte that `s` writes as one part of a dotted address: one to three
/// decimal digits, without a leading zero unless the part is `0` itself,
/// with a value of at most 255.
pub open spec fn parsed_octet(s: Seq<char>) -> Option<u8> {
    if 1 <= s.len() <= 3 && all_digits(s) && (s.len() == 1 || s[0] != '0') && decimal_value(s)
        <= 255 {
        Some(decimal_value(s) as u8)
    } else {
        None
    }
}

/// The IPv4 address that `s` writes in dotted decimal: exactly four parts
/// separated by dots.
pub open spec fn parsed_ipv4(s: Seq<char>) -> Option<Seq<u8>> {
    let parts = pieces(s, '.');
    if parts.len() == 4 && parsed_octet(parts[0]).is_some() && parsed_octet(parts[1]).is_some()
        && parsed_octet(parts[2]).is_some() && parsed_octet(parts[3]).is_some() {
        Some(
            seq![
                parsed_octet(parts[0]).unwrap(),
                parsed_octet(parts[1]).unwrap(),
                parsed_octet(parts[2]).unwrap(),
                parsed_octet(parts[3]).unwrap(),
            ],
        )
    } else {
        None
    }
}

/// Reads one part of a dotted address.
pub fn parse_octet(s: &[char]) -> (r: Option<u8>)
    ensures
        r == parsed_octet(s@),
{
    let n = s.len();
    if n < 1 || n > 3 {
        return None;
    }
    if n > 1 && s[0] == '0' {
        return None;
    }
    let mut acc: u32 = 0;
    let mut i: usize = 0;
    while i < n
        invariant
            i <= n,
            n == s@.len(),
            1 <= n <= 3,
            n == 1 || s@[0] != '0',
            all_digits(s@.take(i as int)),
            acc == decimal_value(s@.take(i as int)),
            i == 1 ==> acc <= 9,
            i == 2 ==> acc <= 99,
        decreases n - i,
    {
        let c = s[i];
        if !('0' <= c && c <= '9') {
            return None;
        }
        let d: u32 = (c as u32) - 48;
        assert(s@.take(i + 1).drop_last() =~= s@.take(i as int));
        acc = acc * 10 + d;
        i += 1;
    }
    assert(s@.take(n as int) =~= s@);
    if acc <= 255 {
        Some(acc as u8)
    } else {
        None
    }
}

/// Reads an IPv4 address in dotted decimal.
pub fn parse_ipv4(s: &[char]) -> (r: Option<[u8; 4]>)
    ensures
        match r {
            Some(a) => parsed_ipv4(s@) == Some(a@),
            None => parsed_ipv4(s@).is_none(),
        },
{
    proof {
        reveal_with_fuel(pieces, 5);
    }
    let (p0, r0) = cut(s, '.');
    let Some(r0) = r0 else {
        return None;
    };
    let (p1, r1) = cut(r0, '.');
    let Some(r1) = r1 else {
        return None;
    };
    let (p2, r2) = cut(r1, '.');
    let Some(r2) = r2 else {
        return None;
    };
    let (p3, r3) = cut(r2, '.');
    if r3.is_some() {
        return None;
    }
    let Some(a) = parse_octet(p0) else {
        return None;
    };
    let Some(b) = parse_octet(p1) else {
        return None;
    };
    let Some(c) = parse_octet(p2) else {
        return None;
    };
    let Some(d) = parse_octet(p3) else {
        return None;
    };
    let address = [a, b, c, d];
    Some(address)
}

/// What has been found in a session description so far.
pub struct SdpFields {
    /// The address text of the last connection line.
    pub address: Option<Seq<char>>,
    /// The port of the last audio media line that names one.
    pub port: Option<u16>,
}

/// `acc` after one line of a session description.
pub open spec fn with_sdp_line(acc: SdpFields, line: Seq<char>) -> SdpFields {
    let acc = match without_prefix(line, "c=IN IP4 "@) {
        Some(rest) => SdpFields { address: Some(trimmed(rest)), ..acc },
        None => acc,
    };
    if "m=audio "@.is_prefix_of(line) {
        match second_word(line) {
            Some(word) => SdpFields { port: parsed_u16(word), ..acc },
            None => acc,
        }
    } else {
        acc
    }
}

/// `acc` after the lines of a session description, one after the other.
pub open spec fn sdp_fields(lines: Seq<Seq<char>>, acc: SdpFields) -> SdpFields
    decreases lines.len(),
{
    if lines.len() == 0 {
        acc
    } else {
        sdp_fields(lines.drop_first(), with_sdp_line(acc, lines[0]))
    }
}

/// The media endpoint that a session description names: the address of
/// its last connection line and the port of its last audio media line.
/// There is none if either is missing or does not parse.
pub open spec fn endpoint_of(sdp: Seq<char>) -> Option<MediaEndpointView> {
    let found = sdp_fields(pieces(sdp, '\n'), SdpFields { address: None, port: None });
    match (found.address, found.port) {
        (Some(text), Some(port)) => match parsed_ipv4(text) {
            Some(address) => Some(MediaEndpointView { address, port }),
            None => None,
        },
        _ => None,
    }
}

/// The text of an optional slice.
pub open spec fn opt_chars(field: Option<&[char]>) -> Option<Seq<char>> {
    match field {
        Some(s) => Some(s@),
        None => None,
    }
}

/// Finds the negotiated RTP endpoint in an SDP body.
pub fn parse_sdp_rtp(sdp: &str) -> (r: Option<MediaEndpoint>)
    ensures
        match r {
            Some(endpoint) => endpoint_of(sdp@) == Some(endpoint@),
            None => endpoint_of(sdp@).is_none(),
        },
{
    let text = chars_of(sdp);
    let connection = chars_of("c=IN IP4 ");
    let media = chars_of("m=audio ");
    let mut address: Option<&[char]> = None;
    let mut port: Option<u16> = None;
    let mut rest: &[char] = text.as_slice();
    let mut more = true;
    let ghost start = SdpFields { address: None, port: None };
    while more
        invariant
            connection@ == "c=IN IP4 "@,
            media@ == "m=audio "@,
            more ==> sdp_fields(
                pieces(rest@, '\n'),
                SdpFields { address: opt_chars(address), port },
            ) == sdp_fields(pieces(text@, '\n'), start),
            !more ==> (SdpFields { address: opt_chars(address), port }) == sdp_fields(
                pieces(text@, '\n'),
                start,
            ),
        decreases
                (if more {
                    rest@.len() + 1
                } else {
                    0
                }),
    {
        let (line, after) = cut(rest, '\n');
        let ghost lines = pieces(rest@, '\n');
        match strip_prefix(line, connection.as_slice()) {
            Some(value) => {
                address = Some(trim(value));
            },
            None => {},
        }
        match strip_prefix(line, media.as_slice()) {
            Some(_) => {
                match find_second_word(line) {
                    Some(word) => {
                        port = parse_u16(word);
                    },
                    None => {},
                }
            },
            None => {},
        }
        match after {
            Some(t) => {
                assert(lines.drop_first() =~= pieces(t@, '\n'));
                rest = t;
            },
            None => {
                let ghost acc = SdpFields { address: opt_chars(address), port };
                assert(sdp_fields(lines.drop_first(), acc) == acc);
                more = false;
            },
        }
    }
    match (address, port) {
        (Some(text), Some(port)) => match parse_ipv4(text) {
            Some(address) => Some(MediaEndpoint { address, port }),
            None => None,
        },
        _ => None,
    }
}

} // verus!
