//! Digest authentication for SIP REGISTER.
//!
//! The response to a challenge is the three-stage chain
//! `HA1 = H(username:realm:password)`, `HA2 = H(method:uri)`,
//! `response = H(HA1:nonce:HA2)`, where `H` is MD5 written as thirty-two
//! lower-case hexadecimal digits. A realm or nonce that the challenge does
//! not carry counts as the empty string.

use crate::sip::WwwAuth;
use vstd::prelude::*;
use vstd::string::*;
use vstd::utf8::encode_utf8;

verus! {

/// The MD5 digest (RFC 1321) of a byte string.
pub uninterp spec fn md5_digest(data: Seq<u8>) -> Seq<u8>;

/// `md5::compute` of the `md5` crate: the sixteen bytes of the MD5 digest
/// of `data`. The digest is a function of the bytes alone; what it is for
/// given bytes is not stated here.
#[verifier::external_body]
fn md5_of(data: &[u8]) -> (digest: Vec<u8>)
    ensures
        digest@ == md5_digest(data@),
        digest@.len() == 16,
{
    md5::compute(data).0.to_vec()
}

/// The lower-case hexadecimal digit for a value below sixteen.
pub open spec fn hex_digit(v: int) -> char
    recommends
        0 <= v < 16,
{
    if v < 10 {
        (48 + v) as char
    } else {
        (87 + v) as char
    }
}

/// `data` in lower-case hexadecimal: two digits per byte, the high four
/// bits first.
pub open spec fn hex_lower(data: Seq<u8>) -> Seq<char> {
    Seq::new(
        2 * data.len(),
        |i: int|
            if i % 2 == 0 {
                hex_digit(data[i / 2] as int / 16)
            } else {
                hex_digit(data[i / 2] as int % 16)
            },
    )
}

/// `hex::encode` of the `hex` crate: for each byte, in order, the digit of
/// its high four bits and then the digit of its low four bits, taken from
/// `0123456789abcdef`.
#[verifier::external_body]
fn hex_encode(data: &[u8]) -> (text: String)
    ensures
        text@ == hex_lower(data@),
{
    hex::encode(data)
}

/// Writes bytes as lower-case hexadecimal text.
pub fn to_hex(data: &[u8]) -> (text: String)
    ensures
        text@ == hex_lower(data@),
{
    hex_encode(data)
}

/// Number of random bytes in a client nonce. Written with [`to_hex`] a
/// nonce has twice as many characters.
pub const CNONCE_BYTES: usize = 12;

/// MD5 of the UTF-8 bytes of `text`, in lower-case hexadecimal.
pub open spec fn md5_hex(text: Seq<char>) -> Seq<char> {
    hex_lower(md5_digest(encode_utf8(text)))
}

/// Hashes a text to its hexadecimal MD5.
pub fn hash_text(text: &str) -> (hash: String)
    ensures
        hash@ == md5_hex(text@),
        hash@.len() == 32,
{
    let digest = md5_of(text.as_bytes());
    to_hex(digest.as_slice())
}

/// `a:b:c`.
pub open spec fn joined3(a: Seq<char>, b: Seq<char>, c: Seq<char>) -> Seq<char> {
    a + seq![':'] + b + seq![':'] + c
}

/// `a:b`.
pub open spec fn joined2(a: Seq<char>, b: Seq<char>) -> Seq<char> {
    a + seq![':'] + b
}

/// The digest response for the given credentials, request and challenge
/// values.
pub open spec fn response_value(
    username: Seq<char>,
    realm: Seq<char>,
    password: Seq<char>,
    method: Seq<char>,
    uri: Seq<char>,
    nonce: Seq<char>,
) -> Seq<char> {
    let ha1 = md5_hex(joined3(username, realm, password));
    let ha2 = md5_hex(joined2(method, uri));
    md5_hex(joined3(ha1, nonce, ha2))
}

/// The digest response is a function of its inputs: the same user name,
/// realm, password, method, URI and nonce give the same response, whatever
/// else differs between two challenges.
pub proof fn lemma_response_deterministic(
    username: Seq<char>,
    password: Seq<char>,
    method: Seq<char>,
    uri: Seq<char>,
    first: crate::sip::WwwAuthView,
    second: crate::sip::WwwAuthView,
)
    requires
        text_or_empty(first.realm) == text_or_empty(second.realm),
        text_or_empty(first.nonce) == text_or_empty(second.nonce),
    ensures
        response_value(
            username,
            text_or_empty(first.realm),
            password,
            method,
            uri,
            text_or_empty(first.nonce),
        ) == response_value(
            username,
            text_or_empty(second.realm),
            password,
            method,
            uri,
            text_or_empty(second.nonce),
        ),
{
}

/// The text of an optional field, empty where the field is absent.
pub open spec fn text_or_empty(field: Option<Seq<char>>) -> Seq<char> {
    match field {
        Some(t) => t,
        None => Seq::empty(),
    }
}

fn field_or_empty(field: &Option<String>) -> (text: &str)
    ensures
        text@ == text_or_empty(crate::sip::opt_text(*field)),
{
    match field {
        Some(s) => s.as_str(),
        None => {
            proof {
                reveal_strlit("");
            }
            ""
        },
    }
}

/// Joins two texts with a colon.
pub fn join2(a: &str, b: &str) -> (text: String)
    ensures
        text@ == joined2(a@, b@),
{
    proof {
        reveal_strlit(":");
    }
    let mut text = String::new();
    text.append(a);
    text.append(":");
    text.append(b);
    text
}

/// Joins three texts with colons.
pub fn join3(a: &str, b: &str, c: &str) -> (text: String)
    ensures
        text@ == joined3(a@, b@, c@),
{
    proof {
        reveal_strlit(":");
    }
    let mut text = String::new();
    text.append(a);
    text.append(":");
    text.append(b);
    text.append(":");
    text.append(c);
    text
}

/// Computes the digest response to a challenge.
pub fn compute_response(
    username: &str,
    password: &str,
    method: &str,
    uri: &str,
    auth: &WwwAuth,
) -> (response: String)
    ensures
        response@ == response_value(
            username@,
            text_or_empty(auth@.realm),
            password@,
            method@,
            uri@,
            text_or_empty(auth@.nonce),
        ),
        response@.len() == 32,
{
    let realm = field_or_empty(&auth.realm);
    let nonce = field_or_empty(&auth.nonce);
    let ha1 = hash_text(join3(username, realm, password).as_str());
    let ha2 = hash_text(join2(method, uri).as_str());
    hash_text(join3(ha1.as_str(), nonce, ha2.as_str()).as_str())
}

/// The `Authorization` header value that carries a digest response.
pub open spec fn authorization_value(
    username: Seq<char>,
    realm: Seq<char>,
    nonce: Seq<char>,
    uri: Seq<char>,
    response: Seq<char>,
) -> Seq<char> {
    "Digest username=\""@ + username + "\", realm=\""@ + realm + "\", nonce=\""@ + nonce
        + "\", uri=\""@ + uri + "\", response=\""@ + response + "\""@
}

/// Writes the `Authorization` header value for a digest response that has
/// already been computed.
pub fn format_authorization(
    username: &str,
    realm: &str,
    nonce: &str,
    uri: &str,
    response: &str,
) -> (value: String)
    ensures
        value@ == authorization_value(username@, realm@, nonce@, uri@, response@),
{
    let mut value = String::new();
    value.append("Digest username=\"");
    value.append(username);
    value.append("\", realm=\"");
    value.append(realm);
    value.append("\", nonce=\"");
    value.append(nonce);
    value.append("\", uri=\"");
    value.append(uri);
    value.append("\", response=\"");
    value.append(response);
    value.append("\"");
    value
}

/// Answers a challenge: the `Authorization` header value for a request
/// with the given method and URI.
pub fn compute_digest(
    username: &str,
    password: &str,
    method: &str,
    uri: &str,
    auth: &WwwAuth,
) -> (value: String)
    ensures
        value@ == authorization_value(
            username@,
            text_or_empty(auth@.realm),
            text_or_empty(auth@.nonce),
            uri@,
            response_value(
                username@,
                text_or_empty(auth@.realm),
                password@,
                method@,
                uri@,
                text_or_empty(auth@.nonce),
            ),
        ),
        response_value(
            username@,
            text_or_empty(auth@.realm),
            password@,
            method@,
            uri@,
            text_or_empty(auth@.nonce),
        ).len() == 32,
{
    let response = compute_response(username, password, method, uri, auth);
    format_authorization(
        username,
        field_or_empty(&auth.realm),
        field_or_empty(&auth.nonce),
        uri,
        response.as_str(),
    )
}

} // verus!
