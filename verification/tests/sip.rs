use flow3r_sip_host::sip::{
    build_register, datagram_text, parse_challenge, parse_challenge_value, parse_response,
    parse_www_authenticate_fields, WwwAuth,
};

fn text(value: &str) -> Option<String> {
    Some(String::from(value))
}

fn assert_challenge(
    auth: &WwwAuth,
    realm: Option<&str>,
    nonce: Option<&str>,
    opaque: Option<&str>,
    algorithm: Option<&str>,
    qop: Option<&str>,
) {
    assert_eq!(auth.realm.as_deref(), realm);
    assert_eq!(auth.nonce.as_deref(), nonce);
    assert_eq!(auth.opaque.as_deref(), opaque);
    assert_eq!(auth.algorithm.as_deref(), algorithm);
    assert_eq!(auth.qop.as_deref(), qop);
}

#[test]
fn default_challenge_is_empty() {
    let auth = WwwAuth::default();
    assert_challenge(&auth, None, None, None, None, None);
}

#[test]
fn challenge_from_a_header_line() {
    let auth = parse_www_authenticate_fields(
        "WWW-Authenticate: Digest realm=\"X\", nonce=\"Y\", opaque=\"Z\"",
    )
    .unwrap();
    assert_eq!(auth.realm, text("X"));
    assert_eq!(auth.nonce, text("Y"));
    assert_eq!(auth.opaque, text("Z"));
    assert_eq!(auth.algorithm, None);
    assert_eq!(auth.qop, None);
}

#[test]
fn challenge_from_a_full_response() {
    let raw = "SIP/2.0 401 Unauthorized\r\nVia: SIP/2.0/UDP 0.0.0.0:5060;branch=z9hG4bK-1\r\nWWW-Authenticate: Digest realm=\"example.org\", nonce=\"abc123\", algorithm=MD5, qop=\"auth\"\r\nContent-Length: 0\r\n\r\n";
    let auth = parse_www_authenticate_fields(raw).unwrap();
    assert_challenge(&auth, Some("example.org"), Some("abc123"), None, Some("MD5"), Some("auth"));
}

#[test]
fn no_header_no_challenge() {
    assert!(parse_www_authenticate_fields("SIP/2.0 200 OK\r\nContent-Length: 0\r\n\r\n").is_none());
    assert!(parse_www_authenticate_fields("").is_none());
    assert!(parse_www_authenticate_fields("WWW-Authenticate Digest realm=\"X\"").is_none());
}

#[test]
fn header_name_counts_in_any_case() {
    for name in ["www-authenticate", "WWW-AUTHENTICATE", "Www-Authenticate", "wWw-aUtHeNtIcAtE"] {
        let raw = format!("SIP/2.0 401 Unauthorized\r\n{}: Digest realm=\"r\"\r\n\r\n", name);
        let auth = parse_www_authenticate_fields(&raw).unwrap();
        assert_challenge(&auth, Some("r"), None, None, None, None);
    }
}

#[test]
fn challenge_in_the_body_does_not_count() {
    let raw = "SIP/2.0 200 OK\r\nContent-Length: 40\r\n\r\nWWW-Authenticate: Digest realm=\"body\"\r\n";
    assert!(parse_www_authenticate_fields(raw).is_none());
}

#[test]
fn last_challenge_header_wins() {
    let raw = "SIP/2.0 401 Unauthorized\r\nWWW-Authenticate: Digest realm=\"first\", nonce=\"1\"\r\nWWW-Authenticate: Digest realm=\"second\"\r\n\r\n";
    let auth = parse_www_authenticate_fields(raw).unwrap();
    assert_challenge(&auth, Some("second"), None, None, None, None);
}

#[test]
fn values_may_be_quoted_or_not() {
    let auth = parse_challenge_value("Digest realm=example.org, nonce=\"abc\", qop=auth");
    assert_challenge(&auth, Some("example.org"), Some("abc"), None, None, Some("auth"));
}

#[test]
fn white_space_around_items_is_dropped() {
    let auth = parse_challenge_value("  Digest   realm = \"a b\" ,\tnonce\t=\tn1  ,  opaque=  \" o \"  ");
    assert_challenge(&auth, Some("a b"), Some("n1"), Some(" o "), None, None);
}

#[test]
fn keys_count_in_any_case() {
    let auth = parse_challenge_value("Digest REALM=\"r\", Nonce=\"n\", oPaQuE=\"o\", ALGORITHM=MD5, QOP=auth");
    assert_challenge(&auth, Some("r"), Some("n"), Some("o"), Some("MD5"), Some("auth"));
}

#[test]
fn unknown_keys_and_items_without_equals_are_ignored() {
    let auth = parse_challenge_value("Digest realm=\"r\", stale=false, domain=\"sip:x\", junk, nonce=\"n\"");
    assert_challenge(&auth, Some("r"), Some("n"), None, None, None);
}

#[test]
fn scheme_is_optional_and_case_sensitive() {
    let auth = parse_challenge_value("realm=\"r\", nonce=\"n\"");
    assert_challenge(&auth, Some("r"), Some("n"), None, None, None);
    let auth = parse_challenge_value("digest realm=\"r\", nonce=\"n\"");
    assert_challenge(&auth, None, Some("n"), None, None, None);
}

#[test]
fn later_items_replace_earlier_ones() {
    let auth = parse_challenge_value("Digest realm=\"a\", realm=\"b\"");
    assert_challenge(&auth, Some("b"), None, None, None, None);
}

#[test]
fn quotes_are_removed_only_in_pairs() {
    let auth = parse_challenge_value("Digest realm=\"open, nonce=close\", opaque=\"\", qop=\"");
    assert_challenge(&auth, Some("\"open"), Some("close\""), Some(""), None, Some("\""));
}

#[test]
fn commas_split_even_inside_quotes() {
    let auth = parse_challenge_value("Digest qop=\"auth,auth-int\", realm=\"r\"");
    assert_challenge(&auth, Some("r"), None, None, None, Some("\"auth"));
}

#[test]
fn empty_value_gives_empty_challenge() {
    assert_challenge(&parse_challenge_value(""), None, None, None, None, None);
    assert_challenge(&parse_challenge_value("Digest"), None, None, None, None, None);
    assert_challenge(&parse_challenge_value("Digest realm="), Some(""), None, None, None, None);
}

#[test]
fn register_without_credentials() {
    let msg = build_register("alice", "192.0.2.10:5060", "z9hG4bK-1", "1001@flow3r", 1, None);
    assert_eq!(
        msg,
        "REGISTER sip:192.0.2.10:5060 SIP/2.0\r\n\
         Via: SIP/2.0/UDP 0.0.0.0:5060;branch=z9hG4bK-1\r\n\
         From: <sip:alice@192.0.2.10:5060>;tag=1\r\n\
         To: <sip:alice@192.0.2.10:5060>\r\n\
         Call-ID: 1001@flow3r\r\n\
         CSeq: 1 REGISTER\r\n\
         Contact: <sip:alice@0.0.0.0:5060>\r\n\
         Content-Length: 0\r\n\r\n"
    );
}

#[test]
fn register_with_credentials() {
    let msg = build_register("bob", "sip.example.org", "br", "cid", 4294967295, Some("Digest x"));
    assert_eq!(
        msg,
        "REGISTER sip:sip.example.org SIP/2.0\r\n\
         Via: SIP/2.0/UDP 0.0.0.0:5060;branch=br\r\n\
         From: <sip:bob@sip.example.org>;tag=1\r\n\
         To: <sip:bob@sip.example.org>\r\n\
         Call-ID: cid\r\n\
         CSeq: 4294967295 REGISTER\r\n\
         Contact: <sip:bob@0.0.0.0:5060>\r\n\
         Authorization: Digest x\r\n\
         Content-Length: 0\r\n\r\n"
    );
}

#[test]
fn register_ends_with_a_blank_line_and_no_body() {
    for cseq in [0u32, 1, 2, 10, 100, 65536] {
        let msg = build_register("u", "s", "b", "c", cseq, None);
        assert!(msg.ends_with("Content-Length: 0\r\n\r\n"));
        assert!(msg.contains(&format!("\r\nCSeq: {} REGISTER\r\n", cseq)));
        let resp = parse_response(&msg);
        assert_eq!(resp.body.as_deref(), Some(""));
        assert_eq!(resp.header("content-length"), Some("0"));
    }
}

#[test]
fn response_status_line() {
    let resp = parse_response("SIP/2.0 401 Unauthorized\r\n\r\n");
    assert_eq!(resp.code, Some(401));
    assert_eq!(resp.reason, "Unauthorized");
    let resp = parse_response("SIP/2.0 200 OK");
    assert_eq!(resp.code, Some(200));
    assert_eq!(resp.reason, "OK");
    let resp = parse_response("SIP/2.0 486 Busy Here\r\nTo: x\r\n\r\n");
    assert_eq!(resp.code, Some(486));
    assert_eq!(resp.reason, "Busy Here");
}

#[test]
fn response_without_status_line() {
    let resp = parse_response("REGISTER sip:x SIP/2.0\r\nTo: y\r\n\r\n");
    assert_eq!(resp.code, None);
    assert_eq!(resp.reason, "");
    assert_eq!(resp.header("to"), Some("y"));
    let resp = parse_response("SIP/2.0\r\n\r\n");
    assert_eq!(resp.code, None);
    assert_eq!(resp.reason, "");
    let resp = parse_response("SIP/2.0 abc Strange\r\n\r\n");
    assert_eq!(resp.code, None);
    assert_eq!(resp.reason, "Strange");
    let resp = parse_response("");
    assert_eq!(resp.code, None);
    assert_eq!(resp.reason, "");
    assert!(resp.headers.is_empty());
    assert_eq!(resp.body, None);
}

#[test]
fn response_headers_are_found_in_any_case() {
    let resp = parse_response("SIP/2.0 200 OK\r\nCall-ID: 1001@flow3r\r\nCSeq: 2 REGISTER\r\n\r\n");
    assert_eq!(resp.header("Call-ID"), Some("1001@flow3r"));
    assert_eq!(resp.header("call-id"), Some("1001@flow3r"));
    assert_eq!(resp.header("CALL-ID"), Some("1001@flow3r"));
    assert_eq!(resp.header("cseq"), Some("2 REGISTER"));
    assert_eq!(resp.header("Contact"), None);
    assert_eq!(resp.headers.len(), 2);
    assert_eq!(resp.headers[0].name, "call-id");
    assert_eq!(resp.headers[1].name, "cseq");
}

#[test]
fn response_header_values_are_trimmed_and_may_hold_colons() {
    let resp = parse_response("SIP/2.0 200 OK\r\nContact:   <sip:a@b:5060>  \r\nEmpty:\r\n\r\n");
    assert_eq!(resp.header("contact"), Some("<sip:a@b:5060>"));
    assert_eq!(resp.header("empty"), Some(""));
    let resp = parse_response("SIP/2.0 200 OK\r\nTo:\u{a0}\u{2003}x\u{3000}\r\n\r\n");
    assert_eq!(resp.header("to"), Some("x"));
}

#[test]
fn response_header_names_are_not_trimmed() {
    let resp = parse_response("SIP/2.0 200 OK\r\n  Contact: a\r\nTo : b\r\nVia\t: c\r\n\r\n");
    assert_eq!(resp.headers.len(), 3);
    assert_eq!(resp.headers[0].name, "  contact");
    assert_eq!(resp.headers[1].name, "to ");
    assert_eq!(resp.headers[2].name, "via\t");
    assert_eq!(resp.header("contact"), None);
    assert_eq!(resp.header("to"), None);
    assert_eq!(resp.header("via"), None);
    assert_eq!(resp.header("To "), Some("b"));
}

#[test]
fn challenge_header_must_start_the_line_and_end_at_the_colon() {
    for line in [
        "WWW-Authenticate : Digest realm=\"a\"",
        "WWW-Authenticate\t: Digest realm=\"a\"",
        " WWW-Authenticate: Digest realm=\"a\"",
        "\u{a0}WWW-Authenticate: Digest realm=\"a\"",
        "X-WWW-Authenticate: Digest realm=\"a\"",
        "WWW-Authenticate Digest realm=\"a\"",
    ] {
        assert!(parse_www_authenticate_fields(line).is_none(), "{:?}", line);
        let raw = format!("SIP/2.0 401 Unauthorized\r\n{}\r\n\r\n", line);
        assert!(parse_www_authenticate_fields(&raw).is_none(), "{:?}", line);
    }
    for line in ["WWW-Authenticate:Digest realm=\"a\"", "www-authenticate:\u{a0}Digest realm=\"a\""] {
        let auth = parse_www_authenticate_fields(line).unwrap();
        assert_challenge(&auth, Some("a"), None, None, None, None);
    }
}

#[test]
fn challenge_header_without_parameters_is_still_a_challenge() {
    for line in ["WWW-Authenticate:", "WWW-Authenticate: Digest", "WWW-Authenticate: Basic", "www-authenticate: ,,,"] {
        let auth = parse_www_authenticate_fields(line).unwrap();
        assert_challenge(&auth, None, None, None, None, None);
    }
}

#[test]
fn challenge_items_are_trimmed_of_every_white_space() {
    let auth = parse_challenge_value("Digest\u{a0}realm=\"a\"\u{a0},\u{2003}nonce\u{3000}=\u{85}n\u{2028}");
    assert_challenge(&auth, Some("a"), Some("n"), None, None, None);
    let auth = parse_challenge_value("\u{a0}Digest realm=\"a\u{a0}\"");
    assert_challenge(&auth, Some("a\u{a0}"), None, None, None, None);
}

#[test]
fn response_skips_lines_that_are_no_headers() {
    let resp = parse_response("SIP/2.0 200 OK\r\nnot a header\r\n: no name\r\nTo: x\r\n\r\n");
    assert_eq!(resp.headers.len(), 1);
    assert_eq!(resp.header("to"), Some("x"));
}

#[test]
fn response_last_header_of_a_name_wins() {
    let resp = parse_response("SIP/2.0 200 OK\r\nVia: one\r\nTo: x\r\nvia: two\r\n\r\n");
    assert_eq!(resp.header("Via"), Some("two"));
    assert_eq!(resp.headers.len(), 3);
}

#[test]
fn response_body_is_what_follows_the_first_blank_line() {
    let resp = parse_response("SIP/2.0 200 OK\r\nTo: x\r\n\r\nv=0\r\n\r\nc=IN IP4 1.2.3.4\r\n");
    assert_eq!(resp.body.as_deref(), Some("v=0\r\n\r\nc=IN IP4 1.2.3.4\r\n"));
    assert_eq!(resp.header("c=in ip4 1.2.3.4"), None);
    let resp = parse_response("SIP/2.0 200 OK\r\nTo: x\r\n");
    assert_eq!(resp.body, None);
    assert_eq!(resp.header("to"), Some("x"));
    let resp = parse_response("\r\n\r\nbody");
    assert_eq!(resp.body.as_deref(), Some("body"));
    assert!(resp.headers.is_empty());
}

#[test]
fn response_with_bare_line_feeds_has_no_body() {
    let resp = parse_response("SIP/2.0 200 OK\nTo: x\n\nbody: text\n");
    assert_eq!(resp.body, None);
    assert_eq!(resp.header("to"), Some("x"));
    assert_eq!(resp.header("body"), Some("text"));
}

#[test]
fn challenge_of_a_parsed_response() {
    let resp = parse_response("SIP/2.0 401 Unauthorized\r\nWWW-Authenticate: Digest nonce=\"n\"\r\n\r\n");
    let auth = parse_challenge(&resp).unwrap();
    assert_challenge(&auth, None, Some("n"), None, None, None);
    let resp = parse_response("SIP/2.0 200 OK\r\n\r\n");
    assert!(parse_challenge(&resp).is_none());
}

#[test]
fn datagram_text_decodes_utf8() {
    assert_eq!(datagram_text(b"SIP/2.0 200 OK\r\n\r\n"), "SIP/2.0 200 OK\r\n\r\n");
    assert_eq!(datagram_text(&[]), "");
    assert_eq!(datagram_text(&[0xc3, 0xa9]), "\u{e9}");
}

#[test]
fn datagram_text_replaces_invalid_bytes() {
    assert_eq!(datagram_text(&[b'a', 0xff, b'b']), "a\u{fffd}b");
}
