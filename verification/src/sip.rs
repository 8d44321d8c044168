//! SIP message codec: building REGISTER requests and reading responses.

use crate::text::{
    after_word, chars_of, cut, decimal_text, find_text, first_match, head, lowered, parse_u16,
    parsed_u16, pieces, push_decimal, same_text, second_word, strip_prefix, tail, take_word,
    text_of, to_lower, trim, trimmed, without_prefix,
};
use vstd::prelude::*;
use vstd::slice::slice_subrange;
use vstd::string::*;
use vstd::utf8::{decode_utf8, valid_utf8};

verus! {

/// The text of an optional string.
pub open spec fn opt_text(field: Option<String>) -> Option<Seq<char>> {
    match field {
        Some(s) => Some(s@),
        None => None,
    }
}

/// The parameters of a `WWW-Authenticate` digest challenge.
#[derive(Debug)]
pub struct WwwAuth {
    pub realm: Option<String>,
    pub nonce: Option<String>,
    pub opaque: Option<String>,
    pub algorithm: Option<String>,
    pub qop: Option<String>,
}

/// Mathematical value of a [`WwwAuth`].
pub struct WwwAuthView {
    pub realm: Option<Seq<char>>,
    pub nonce: Option<Seq<char>>,
    pub opaque: Option<Seq<char>>,
    pub algorithm: Option<Seq<char>>,
    pub qop: Option<Seq<char>>,
}

impl View for WwwAuth {
    type V = WwwAuthView;

    open spec fn view(&self) -> WwwAuthView {
        WwwAuthView {
            realm: opt_text(self.realm),
            nonce: opt_text(self.nonce),
            opaque: opt_text(self.opaque),
            algorithm: opt_text(self.algorithm),
            qop: opt_text(self.qop),
        }
    }
}

/// The challenge that carries no parameter.
pub open spec fn empty_challenge() -> WwwAuthView {
    WwwAuthView { realm: None, nonce: None, opaque: None, algorithm: None, qop: None }
}

impl Default for WwwAuth {
    fn default() -> (auth: WwwAuth)
        ensures
            auth@ == empty_challenge(),
    {
        WwwAuth { realm: None, nonce: None, opaque: None, algorithm: None, qop: None }
    }
}

/// The `Authorization` line of a request, or nothing where the request
/// carries no credentials.
pub open spec fn authorization_line(auth: Option<Seq<char>>) -> Seq<char> {
    match auth {
        Some(value) => "Authorization: "@ + value + "\r\n"@,
        None => Seq::empty(),
    }
}

/// The text of a REGISTER request. The contact is the fixed local
/// placeholder `0.0.0.0:5060`; the body is empty.
pub open spec fn register_text(
    username: Seq<char>,
    server: Seq<char>,
    branch: Seq<char>,
    call_id: Seq<char>,
    cseq: u32,
    auth: Option<Seq<char>>,
) -> Seq<char> {
    "REGISTER sip:"@ + server + " SIP/2.0\r\n"@
        + "Via: SIP/2.0/UDP 0.0.0.0:5060;branch="@ + branch + "\r\n"@
        + "From: <sip:"@ + username + "@"@ + server + ">;tag=1\r\n"@
        + "To: <sip:"@ + username + "@"@ + server + ">\r\n"@
        + "Call-ID: "@ + call_id + "\r\n"@
        + "CSeq: "@ + decimal_text(cseq as nat) + " REGISTER\r\n"@
        + "Contact: <sip:"@ + username + "@0.0.0.0:5060>\r\n"@
        + authorization_line(auth)
        + "Content-Length: 0\r\n\r\n"@
}

/// Builds a REGISTER request.
pub fn build_register(
    username: &str,
    server: &str,
    branch: &str,
    call_id: &str,
    cseq: u32,
    auth_header: Option<&str>,
) -> (msg: String)
    ensures
        msg@ == register_text(
            username@,
            server@,
            branch@,
            call_id@,
            cseq,
            match auth_header {
                Some(a) => Some(a@),
                None => None,
            },
        ),
{
    let mut msg = String::new();
    msg.append("REGISTER sip:");
    msg.append(server);
    msg.append(" SIP/2.0\r\n");
    msg.append("Via: SIP/2.0/UDP 0.0.0.0:5060;branch=");
    msg.append(branch);
    msg.append("\r\n");
    msg.append("From: <sip:");
    msg.append(username);
    msg.append("@");
    msg.append(server);
    msg.append(">;tag=1\r\n");
    msg.append("To: <sip:");
    msg.append(username);
    msg.append("@");
    msg.append(server);
    msg.append(">\r\n");
    msg.append("Call-ID: ");
    msg.append(call_id);
    msg.append("\r\n");
    msg.append("CSeq: ");
    push_decimal(&mut msg, cseq);
    msg.append(" REGISTER\r\n");
    msg.append("Contact: <sip:");
    msg.append(username);
    msg.append("@0.0.0.0:5060>\r\n");
    match auth_header {
        Some(auth) => {
            msg.append("Authorization: ");
            msg.append(auth);
            msg.append("\r\n");
        },
        None => {},
    }
    msg.append("Content-Length: 0\r\n\r\n");
    msg
}

/// The text that a datagram is read as: its bytes decoded as UTF-8, each
/// invalid sequence replaced by U+FFFD.
pub uninterp spec fn lossy_text(raw: Seq<u8>) -> Seq<char>;

/// `String::from_utf8_lossy` from the standard library: decodes bytes as
/// UTF-8 and replaces invalid sequences by the replacement character.
/// Valid UTF-8 comes out as the text that it encodes; how exactly invalid
/// input is cut into replaced sequences is not stated here.
#[verifier::external_body]
fn from_utf8_lossy(raw: &[u8]) -> (text: String)
    ensures
        text@ == lossy_text(raw@),
        valid_utf8(raw@) ==> text@ == decode_utf8(raw@),
{
    String::from_utf8_lossy(raw).into_owned()
}

/// Reads a received datagram as text.
pub fn datagram_text(raw: &[u8]) -> (text: String)
    ensures
        text@ == lossy_text(raw@),
        valid_utf8(raw@) ==> text@ == decode_utf8(raw@),
{
    from_utf8_lossy(raw)
}

/// One header of a response.
#[derive(Debug)]
pub struct Header {
    /// The header's name in lower case, as it stood before the colon.
    pub name: String,
    /// The header's value without surrounding white space.
    pub value: String,
}

/// A parsed SIP response.
#[derive(Debug)]
pub struct SipResponse {
    /// Status code, where the first line is a status line that carries one.
    pub code: Option<u16>,
    /// Reason phrase of the status line.
    pub reason: String,
    /// The headers in the order in which they were received.
    pub headers: Vec<Header>,
    /// What follows the blank line that ends the headers, if there is one.
    pub body: Option<String>,
}

/// Mathematical value of a [`SipResponse`]: the headers are a map from
/// lower-cased name to value, in which the last header of a name counts.
pub struct SipResponseView {
    pub code: Option<u16>,
    pub reason: Seq<char>,
    pub headers: Map<Seq<char>, Seq<char>>,
    pub body: Option<Seq<char>>,
}

/// The map that a list of headers stands for: later entries replace
/// earlier ones of the same name.
pub open spec fn entries_map(entries: Seq<Header>) -> Map<Seq<char>, Seq<char>>
    decreases entries.len(),
{
    if entries.len() == 0 {
        Map::empty()
    } else {
        entries_map(entries.drop_last()).insert(entries.last().name@, entries.last().value@)
    }
}

impl View for SipResponse {
    type V = SipResponseView;

    open spec fn view(&self) -> SipResponseView {
        SipResponseView {
            code: self.code,
            reason: self.reason@,
            headers: entries_map(self.headers@),
            body: opt_text(self.body),
        }
    }
}

/// The blank line that ends the headers of a message.
pub open spec fn blank_line() -> Seq<char> {
    "\r\n\r\n"@
}

/// The part of a message before its first blank line; all of it where
/// there is none.
pub open spec fn header_block(raw: Seq<char>) -> Seq<char> {
    raw.take(first_match(raw, blank_line()) as int)
}

/// The part of a message after its first blank line, if there is one.
pub open spec fn message_body(raw: Seq<char>) -> Option<Seq<char>> {
    let k = first_match(raw, blank_line());
    if k < raw.len() {
        Some(raw.skip((k + blank_line().len()) as int))
    } else {
        None
    }
}

/// The header that a line of the form `Name: value` holds. The name is
/// all that stands before the first colon, in lower case: white space
/// before the name or between name and colon belongs to it. The value is
/// what follows the colon, without surrounding white space. A line
/// without a colon, or with nothing before it, holds no header.
pub open spec fn header_of_line(line: Seq<char>) -> Option<(Seq<char>, Seq<char>)> {
    match tail(line, ':') {
        Some(value) => {
            let name = lowered(head(line, ':'));
            if name.len() > 0 {
                Some((name, trimmed(value)))
            } else {
                None
            }
        },
        None => None,
    }
}

/// `acc` with the headers of `lines` entered one after the other.
pub open spec fn headers_of(lines: Seq<Seq<char>>, acc: Map<Seq<char>, Seq<char>>) -> Map<
    Seq<char>,
    Seq<char>,
>
    decreases lines.len(),
{
    if lines.len() == 0 {
        acc
    } else {
        let next = match header_of_line(lines[0]) {
            Some((name, value)) => acc.insert(name, value),
            None => acc,
        };
        headers_of(lines.drop_first(), next)
    }
}

/// The status code of a first line: the second word of a line that starts
/// with `SIP/`, read as a number.
pub open spec fn status_code(line: Seq<char>) -> Option<u16> {
    if "SIP/"@.is_prefix_of(line) {
        match second_word(line) {
            Some(word) => parsed_u16(word),
            None => None,
        }
    } else {
        None
    }
}

/// The reason phrase of a first line: what follows the first two words of
/// a line that starts with `SIP/`.
pub open spec fn status_reason(line: Seq<char>) -> Seq<char> {
    if "SIP/"@.is_prefix_of(line) {
        trimmed(after_word(after_word(line)))
    } else {
        Seq::empty()
    }
}

/// What a raw response holds.
pub open spec fn response_of(raw: Seq<char>) -> SipResponseView {
    let block = header_block(raw);
    let first = head(block, '\n');
    SipResponseView {
        code: status_code(first),
        reason: status_reason(first),
        headers: headers_of(pieces(block, '\n'), Map::empty()),
        body: message_body(raw),
    }
}

fn parse_header_line(line: &[char]) -> (r: Option<Header>)
    ensures
        match r {
            Some(h) => header_of_line(line@) == Some((h.name@, h.value@)),
            None => header_of_line(line@).is_none(),
        },
{
    let (before, after) = cut(line, ':');
    match after {
        Some(value) => {
            let name = to_lower(before);
            if name.len() > 0 {
                Some(Header { name: text_of(name.as_slice()), value: text_of(trim(value)) })
            } else {
                None
            }
        },
        None => None,
    }
}

fn parse_headers(block: &[char]) -> (headers: Vec<Header>)
    ensures
        entries_map(headers@) == headers_of(pieces(block@, '\n'), Map::empty()),
{
    let mut headers: Vec<Header> = Vec::new();
    let mut rest: &[char] = block;
    let mut more = true;
    while more
        invariant
            more ==> headers_of(pieces(rest@, '\n'), entries_map(headers@)) == headers_of(
                pieces(block@, '\n'),
                Map::empty(),
            ),
            !more ==> entries_map(headers@) == headers_of(pieces(block@, '\n'), Map::empty()),
        decreases
                (if more {
                    rest@.len() + 1
                } else {
                    0
                }),
    {
        let (line, after) = cut(rest, '\n');
        let ghost lines = pieces(rest@, '\n');
        let ghost before = headers@;
        match parse_header_line(line) {
            Some(h) => {
                headers.push(h);
                assert(headers@.drop_last() =~= before);
            },
            None => {},
        }
        match after {
            Some(t) => {
                assert(lines.drop_first() =~= pieces(t@, '\n'));
                rest = t;
            },
            None => {
                assert(headers_of(lines.drop_first(), entries_map(headers@)) == entries_map(
                    headers@,
                ));
                more = false;
            },
        }
    }
    headers
}

fn parse_status(line: &[char]) -> (r: (Option<u16>, String))
    ensures
        r.0 == status_code(line@),
        r.1@ == status_reason(line@),
{
    let marker = chars_of("SIP/");
    match strip_prefix(line, marker.as_slice()) {
        Some(_) => {
            let (_, rest) = take_word(line);
            let (word, rest) = take_word(rest);
            let code = match word {
                Some(w) => parse_u16(w),
                None => None,
            };
            (code, text_of(trim(rest)))
        },
        None => (None, String::new()),
    }
}

/// Parses a raw response: status line, headers and body. Lines that are no
/// headers are skipped.
pub fn parse_response(raw: &str) -> (resp: SipResponse)
    ensures
        resp@ == response_of(raw@),
{
    let text = chars_of(raw);
    let sep = chars_of("\r\n\r\n");
    let k = find_text(text.as_slice(), sep.as_slice());
    let block = slice_subrange(text.as_slice(), 0, k);
    let body = if k < text.len() {
        Some(text_of(slice_subrange(text.as_slice(), k + sep.len(), text.len())))
    } else {
        None
    };
    let (first, _) = cut(block, '\n');
    let (code, reason) = parse_status(first);
    let headers = parse_headers(block);
    SipResponse { code, reason, headers, body }
}

/// In a map built from a list of headers, a name maps to the value of the
/// last header of that name, and only names of headers are in it.
pub proof fn lemma_entries_map(entries: Seq<Header>, name: Seq<char>)
    ensures
        entries_map(entries).contains_key(name) <==> exists|i: int|
            0 <= i < entries.len() && #[trigger] entries[i].name@ == name,
        forall|i: int|
            0 <= i < entries.len() && #[trigger] entries[i].name@ == name && (forall|j: int|
                i < j < entries.len() ==> #[trigger] entries[j].name@ != name)
                ==> entries_map(entries)[name] == entries[i].value@,
    decreases entries.len(),
{
    if entries.len() > 0 {
        let front = entries.drop_last();
        lemma_entries_map(front, name);
        if entries.last().name@ != name {
            if exists|i: int| 0 <= i < entries.len() && #[trigger] entries[i].name@ == name {
                let i = choose|i: int| 0 <= i < entries.len() && #[trigger] entries[i].name@ == name;
                assert(front[i].name@ == name);
            }
            assert forall|i: int|
                0 <= i < entries.len() && #[trigger] entries[i].name@ == name && (forall|j: int|
                    i < j < entries.len() ==> #[trigger] entries[j].name@ != name)
                    implies entries_map(entries)[name] == entries[i].value@ by {
                assert(front[i].name@ == name);
            }
        }
    }
}

impl SipResponse {
    /// Looks a header up by its lower-case name.
    fn find_header(&self, key: &[char]) -> (value: Option<&str>)
        ensures
            match value {
                Some(v) => self@.headers.contains_key(key@) && self@.headers[key@] == v@,
                None => !self@.headers.contains_key(key@),
            },
    {
        let mut i: usize = self.headers.len();
        while i > 0
            invariant
                i <= self.headers@.len(),
                forall|j: int|
                    i <= j < self.headers@.len() ==> #[trigger] self.headers@[j].name@ != key@,
            decreases i,
        {
            i -= 1;
            let candidate = chars_of(self.headers[i].name.as_str());
            if same_text(candidate.as_slice(), key) {
                proof {
                    lemma_entries_map(self.headers@, key@);
                }
                return Some(self.headers[i].value.as_str());
            }
        }
        proof {
            lemma_entries_map(self.headers@, key@);
        }
        None
    }

    /// Looks a header up by name, whatever the case of its letters.
    pub fn header(&self, name: &str) -> (value: Option<&str>)
        ensures
            match value {
                Some(v) => self@.headers.contains_key(lowered(name@)) && self@.headers[lowered(
                    name@,
                )] == v@,
                None => !self@.headers.contains_key(lowered(name@)),
            },
    {
        let wanted = chars_of(name);
        let key = to_lower(wanted.as_slice());
        self.find_header(key.as_slice())
    }
}

/// A value without the double quotes that surround it, if any.
pub open spec fn unquoted(value: Seq<char>) -> Seq<char> {
    if value.len() >= 2 && value[0] == '"' && value.last() == '"' {
        value.subrange(1, value.len() - 1)
    } else {
        value
    }
}

/// `acc` after one `key=value` item of a challenge. The key counts without
/// regard to case; the value may be quoted; white space around either is
/// dropped. An item without `=` or with an unknown key changes nothing.
pub open spec fn with_param(acc: WwwAuthView, item: Seq<char>) -> WwwAuthView {
    let item = trimmed(item);
    match tail(item, '=') {
        Some(after) => {
            let key = lowered(trimmed(head(item, '=')));
            let value = unquoted(trimmed(after));
            if key == "realm"@ {
                WwwAuthView { realm: Some(value), ..acc }
            } else if key == "nonce"@ {
                WwwAuthView { nonce: Some(value), ..acc }
            } else if key == "opaque"@ {
                WwwAuthView { opaque: Some(value), ..acc }
            } else if key == "algorithm"@ {
                WwwAuthView { algorithm: Some(value), ..acc }
            } else if key == "qop"@ {
                WwwAuthView { qop: Some(value), ..acc }
            } else {
                acc
            }
        },
        None => acc,
    }
}

/// `acc` after the items of a challenge, one after the other.
pub open spec fn params_of(items: Seq<Seq<char>>, acc: WwwAuthView) -> WwwAuthView
    decreases items.len(),
{
    if items.len() == 0 {
        acc
    } else {
        params_of(items.drop_first(), with_param(acc, items[0]))
    }
}

/// The challenge that a `WWW-Authenticate` value holds: surrounding white
/// space and a leading `Digest` are dropped, the rest is a list of items
/// separated by commas.
pub open spec fn challenge_of_value(value: Seq<char>) -> WwwAuthView {
    let value = trimmed(value);
    let list = trimmed(
        match without_prefix(value, "Digest"@) {
            Some(rest) => rest,
            None => value,
        },
    );
    params_of(pieces(list, ','), empty_challenge())
}

/// The challenge of a response, if it has a `WWW-Authenticate` header.
pub open spec fn challenge_of(resp: SipResponseView) -> Option<WwwAuthView> {
    if resp.headers.contains_key("www-authenticate"@) {
        Some(challenge_of_value(resp.headers["www-authenticate"@]))
    } else {
        None
    }
}

fn is_text(s: &[char], literal: &str) -> (r: bool)
    ensures
        r == (s@ == literal@),
{
    let wanted = chars_of(literal);
    same_text(s, wanted.as_slice())
}

fn unquote(value: &[char]) -> (r: &[char])
    ensures
        r@ == unquoted(value@),
{
    let n = value.len();
    if n >= 2 && value[0] == '"' && value[n - 1] == '"' {
        slice_subrange(value, 1, n - 1)
    } else {
        value
    }
}

fn apply_param(auth: WwwAuth, item: &[char]) -> (r: WwwAuth)
    ensures
        r@ == with_param(auth@, item@),
{
    let item = trim(item);
    let (before, after) = cut(item, '=');
    match after {
        Some(after) => {
            let key = to_lower(trim(before));
            let value = text_of(unquote(trim(after)));
            let mut auth = auth;
            if is_text(key.as_slice(), "realm") {
                auth.realm = Some(value);
            } else if is_text(key.as_slice(), "nonce") {
                auth.nonce = Some(value);
            } else if is_text(key.as_slice(), "opaque") {
                auth.opaque = Some(value);
            } else if is_text(key.as_slice(), "algorithm") {
                auth.algorithm = Some(value);
            } else if is_text(key.as_slice(), "qop") {
                auth.qop = Some(value);
            }
            auth
        },
        None => auth,
    }
}

/// Reads the challenge out of a `WWW-Authenticate` header value.
pub fn parse_challenge_value(value: &str) -> (auth: WwwAuth)
    ensures
        auth@ == challenge_of_value(value@),
{
    let text = chars_of(value);
    let scheme = chars_of("Digest");
    let value = trim(text.as_slice());
    let list = trim(
        match strip_prefix(value, scheme.as_slice()) {
            Some(rest) => rest,
            None => value,
        },
    );
    let mut auth = WwwAuth::default();
    let mut rest: &[char] = list;
    let mut more = true;
    while more
        invariant
            more ==> params_of(pieces(rest@, ','), auth@) == params_of(
                pieces(list@, ','),
                empty_challenge(),
            ),
            !more ==> auth@ == params_of(pieces(list@, ','), empty_challenge()),
        decreases
                (if more {
                    rest@.len() + 1
                } else {
                    0
                }),
    {
        let (item, after) = cut(rest, ',');
        let ghost items = pieces(rest@, ',');
        auth = apply_param(auth, item);
        match after {
            Some(t) => {
                assert(items.drop_first() =~= pieces(t@, ','));
                rest = t;
            },
            None => {
                assert(params_of(items.drop_first(), auth@) == auth@);
                more = false;
            },
        }
    }
    auth
}

/// Reads the digest challenge of a response. There is none if the response
/// has no `WWW-Authenticate` header.
pub fn parse_challenge(resp: &SipResponse) -> (r: Option<WwwAuth>)
    ensures
        match r {
            Some(auth) => challenge_of(resp@) == Some(auth@),
            None => challenge_of(resp@).is_none(),
        },
{
    let key = chars_of("www-authenticate");
    match resp.find_header(key.as_slice()) {
        Some(value) => Some(parse_challenge_value(value)),
        None => None,
    }
}

/// Reads the digest challenge out of a raw response.
pub fn parse_www_authenticate_fields(response: &str) -> (r: Option<WwwAuth>)
    ensures
        match r {
            Some(auth) => challenge_of(response_of(response@)) == Some(auth@),
            None => challenge_of(response_of(response@)).is_none(),
        },
{
    let resp = parse_response(response);
    parse_challenge(&resp)
}

} // verus!
