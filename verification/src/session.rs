//! The registration session: one authenticated REGISTER exchange, driven
//! as a state machine.
//!
//! The session never touches the network. Its owner hands it events (the
//! start, each response received, a transport failure) and sends whatever
//! message the session hands back.
//!
//! `Idle -> AwaitingChallenge -> AwaitingFinal -> Registered`, with
//! `Failed` reached from either waiting state on a transport failure. A
//! first response without a challenge leads straight to `Registered`.

use crate::digest::{authorization_value, compute_digest, response_value, text_or_empty};
use crate::sdp::{endpoint_of, parse_sdp_rtp, MediaEndpoint, MediaEndpointView};
use crate::sip::{
    build_register, challenge_of, datagram_text, lossy_text, parse_challenge, parse_response,
    register_text, response_of, WwwAuthView,
};
use vstd::prelude::*;
use vstd::string::*;

verus! {

/// Where a registration stands.
#[derive(Debug, Clone, Copy, PartialEq, Eq)]
pub enum SessionState {
    /// Nothing has been sent yet.
    Idle,
    /// The first REGISTER is out; its response is awaited.
    AwaitingChallenge,
    /// The authenticated REGISTER is out; its response is awaited.
    AwaitingFinal,
    /// The registration is complete.
    Registered,
    /// The transport failed while a response was awaited.
    Failed,
}

/// What happened outside the session.
#[derive(Debug)]
pub enum SessionEvent {
    /// The owner asks the session to begin.
    Start,
    /// A response arrived, given as text.
    Response(String),
    /// Sending or receiving failed, or no response came.
    TransportFailure,
}

/// Mathematical value of a [`SessionEvent`].
pub enum SessionEventView {
    Start,
    Response(Seq<char>),
    TransportFailure,
}

impl View for SessionEvent {
    type V = SessionEventView;

    open spec fn view(&self) -> SessionEventView {
        match self {
            SessionEvent::Start => SessionEventView::Start,
            SessionEvent::Response(raw) => SessionEventView::Response(raw@),
            SessionEvent::TransportFailure => SessionEventView::TransportFailure,
        }
    }
}

/// One registration attempt of one account at one registrar.
#[derive(Debug)]
pub struct RegistrationSession {
    pub username: String,
    pub password: String,
    /// The registrar as it is written in request lines and URIs.
    pub server: String,
    /// Branch token of the `Via` header.
    pub branch: String,
    pub call_id: String,
    /// `CSeq` of the last request sent, 0 before the first.
    pub cseq: u32,
    pub state: SessionState,
    /// The negotiated RTP peer, once known.
    pub media: Option<MediaEndpoint>,
}

/// Mathematical value of a [`RegistrationSession`].
pub struct SessionView {
    pub username: Seq<char>,
    pub password: Seq<char>,
    pub server: Seq<char>,
    pub branch: Seq<char>,
    pub call_id: Seq<char>,
    pub cseq: u32,
    pub state: SessionState,
    pub media: Option<MediaEndpointView>,
}

/// The value of an optional endpoint.
pub open spec fn opt_endpoint(media: Option<MediaEndpoint>) -> Option<MediaEndpointView> {
    match media {
        Some(endpoint) => Some(endpoint@),
        None => None,
    }
}

impl View for RegistrationSession {
    type V = SessionView;

    open spec fn view(&self) -> SessionView {
        SessionView {
            username: self.username@,
            password: self.password@,
            server: self.server@,
            branch: self.branch@,
            call_id: self.call_id@,
            cseq: self.cseq,
            state: self.state,
            media: opt_endpoint(self.media),
        }
    }
}

/// A session that has not started.
pub open spec fn fresh_session(
    username: Seq<char>,
    password: Seq<char>,
    server: Seq<char>,
) -> SessionView {
    SessionView {
        username,
        password,
        server,
        branch: "z9hG4bK-1"@,
        call_id: "1001@flow3r"@,
        cseq: 0,
        state: SessionState::Idle,
        media: None,
    }
}

/// The URI that the session registers at.
pub open spec fn register_uri(s: SessionView) -> Seq<char> {
    "sip:"@ + s.server
}

/// The first, unauthenticated REGISTER, with `CSeq` 1.
pub open spec fn first_register(s: SessionView) -> Seq<char> {
    register_text(s.username, s.server, s.branch, s.call_id, 1, None)
}

/// The REGISTER that answers a challenge, with `CSeq` 2 and the digest
/// computed from the session's credentials.
pub open spec fn authenticated_register(s: SessionView, challenge: WwwAuthView) -> Seq<char> {
    let realm = text_or_empty(challenge.realm);
    let nonce = text_or_empty(challenge.nonce);
    let response = response_value(
        s.username,
        realm,
        s.password,
        "REGISTER"@,
        register_uri(s),
        nonce,
    );
    register_text(
        s.username,
        s.server,
        s.branch,
        s.call_id,
        2,
        Some(authorization_value(s.username, realm, nonce, register_uri(s), response)),
    )
}

/// The media endpoint that a final response carries in its body, if any.
pub open spec fn media_of(raw: Seq<char>) -> Option<MediaEndpointView> {
    match response_of(raw).body {
        Some(body) => endpoint_of(body),
        None => None,
    }
}

/// The session after an event, and the message to send, if any. An event
/// that does not fit the state changes nothing.
pub open spec fn next_session(s: SessionView, event: SessionEventView) -> (
    SessionView,
    Option<Seq<char>>,
) {
    match (s.state, event) {
        (SessionState::Idle, SessionEventView::Start) => (
            SessionView { state: SessionState::AwaitingChallenge, cseq: 1, ..s },
            Some(first_register(s)),
        ),
        (SessionState::AwaitingChallenge, SessionEventView::Response(raw)) => match challenge_of(
            response_of(raw),
        ) {
            Some(challenge) => (
                SessionView { state: SessionState::AwaitingFinal, cseq: 2, ..s },
                Some(authenticated_register(s, challenge)),
            ),
            None => (SessionView { state: SessionState::Registered, media: None, ..s }, None),
        },
        (SessionState::AwaitingFinal, SessionEventView::Response(raw)) => (
            SessionView { state: SessionState::Registered, media: media_of(raw), ..s },
            None,
        ),
        (SessionState::AwaitingChallenge, SessionEventView::TransportFailure) => (
            SessionView { state: SessionState::Failed, ..s },
            None,
        ),
        (SessionState::AwaitingFinal, SessionEventView::TransportFailure) => (
            SessionView { state: SessionState::Failed, ..s },
            None,
        ),
        _ => (s, None),
    }
}

/// A registration that is challenged: started, the session sends the
/// first REGISTER; a response with a challenge makes it send the REGISTER
/// that carries the digest for that challenge; after that any response
/// whatever completes the registration, with the media endpoint of that
/// response's body.
pub proof fn lemma_challenged_registration(
    username: Seq<char>,
    password: Seq<char>,
    server: Seq<char>,
    first: Seq<char>,
    second: Seq<char>,
)
    requires
        challenge_of(response_of(first)).is_some(),
    ensures
        ({
            let s0 = fresh_session(username, password, server);
            let (s1, m1) = next_session(s0, SessionEventView::Start);
            let (s2, m2) = next_session(s1, SessionEventView::Response(first));
            let (s3, m3) = next_session(s2, SessionEventView::Response(second));
            &&& m1 == Some(first_register(s0))
            &&& s1.state == SessionState::AwaitingChallenge
            &&& m2 == Some(authenticated_register(s0, challenge_of(response_of(first)).unwrap()))
            &&& s2.state == SessionState::AwaitingFinal
            &&& m3.is_none()
            &&& s3.state == SessionState::Registered
            &&& s3.media == media_of(second)
        }),
{
}

/// A registration that is accepted outright: a first response without a
/// challenge completes the registration at once, with no media endpoint
/// and nothing more to send.
pub proof fn lemma_unchallenged_registration(
    username: Seq<char>,
    password: Seq<char>,
    server: Seq<char>,
    first: Seq<char>,
)
    requires
        challenge_of(response_of(first)).is_none(),
    ensures
        ({
            let s0 = fresh_session(username, password, server);
            let (s1, m1) = next_session(s0, SessionEventView::Start);
            let (s2, m2) = next_session(s1, SessionEventView::Response(first));
            &&& m1 == Some(first_register(s0))
            &&& m2.is_none()
            &&& s2.state == SessionState::Registered
            &&& s2.media.is_none()
        }),
{
}

/// A transport failure while a response is awaited fails the session.
pub proof fn lemma_transport_failure(s: SessionView)
    requires
        s.state == SessionState::AwaitingChallenge || s.state == SessionState::AwaitingFinal,
    ensures
        next_session(s, SessionEventView::TransportFailure).0.state == SessionState::Failed,
        next_session(s, SessionEventView::TransportFailure).1.is_none(),
{
}

/// `Registered` and `Failed` are final: no event changes such a session or
/// makes it send anything.
pub proof fn lemma_finished_stays(s: SessionView, event: SessionEventView)
    requires
        s.state == SessionState::Registered || s.state == SessionState::Failed,
    ensures
        next_session(s, event) == (s, None::<Seq<char>>),
{
}

/// The text of an optional message.
pub open spec fn opt_message(msg: Option<String>) -> Option<Seq<char>> {
    match msg {
        Some(text) => Some(text@),
        None => None,
    }
}

impl RegistrationSession {
    /// A session for the given account and registrar, not yet started.
    pub fn new(username: &str, password: &str, server: &str) -> (s: RegistrationSession)
        ensures
            s@ == fresh_session(username@, password@, server@),
    {
        RegistrationSession {
            username: username.to_owned(),
            password: password.to_owned(),
            server: server.to_owned(),
            branch: "z9hG4bK-1".to_owned(),
            call_id: "1001@flow3r".to_owned(),
            cseq: 0,
            state: SessionState::Idle,
            media: None,
        }
    }

    /// Whether the session has reached `Registered` or `Failed`.
    pub fn is_finished(&self) -> (done: bool)
        ensures
            done == (self.state == SessionState::Registered || self.state == SessionState::Failed),
    {
        match self.state {
            SessionState::Registered => true,
            SessionState::Failed => true,
            _ => false,
        }
    }

    fn answer_challenge(&mut self, raw: &str) -> (msg: Option<String>)
        requires
            old(self).state == SessionState::AwaitingChallenge,
        ensures
            final(self)@ == next_session(old(self)@, SessionEventView::Response(raw@)).0,
            opt_message(msg) == next_session(old(self)@, SessionEventView::Response(raw@)).1,
    {
        let resp = parse_response(raw);
        match parse_challenge(&resp) {
            Some(auth) => {
                let mut uri = String::new();
                uri.append("sip:");
                uri.append(self.server.as_str());
                let value = compute_digest(
                    self.username.as_str(),
                    self.password.as_str(),
                    "REGISTER",
                    uri.as_str(),
                    &auth,
                );
                let msg = build_register(
                    self.username.as_str(),
                    self.server.as_str(),
                    self.branch.as_str(),
                    self.call_id.as_str(),
                    2,
                    Some(value.as_str()),
                );
                self.cseq = 2;
                self.state = SessionState::AwaitingFinal;
                Some(msg)
            },
            None => {
                self.media = None;
                self.state = SessionState::Registered;
                None
            },
        }
    }

    fn accept_final(&mut self, raw: &str)
        requires
            old(self).state == SessionState::AwaitingFinal,
        ensures
            final(self)@ == next_session(old(self)@, SessionEventView::Response(raw@)).0,
    {
        let resp = parse_response(raw);
        let media = match &resp.body {
            Some(body) => parse_sdp_rtp(body.as_str()),
            None => None,
        };
        self.media = media;
        self.state = SessionState::Registered;
    }

    /// Takes one event: moves to the next state and hands back the
    /// message that the owner is to send now, if there is one.
    pub fn step(&mut self, event: SessionEvent) -> (msg: Option<String>)
        ensures
            final(self)@ == next_session(old(self)@, event@).0,
            opt_message(msg) == next_session(old(self)@, event@).1,
    {
        match event {
            SessionEvent::Start => match self.state {
                SessionState::Idle => {
                    let msg = build_register(
                        self.username.as_str(),
                        self.server.as_str(),
                        self.branch.as_str(),
                        self.call_id.as_str(),
                        1,
                        None,
                    );
                    self.cseq = 1;
                    self.state = SessionState::AwaitingChallenge;
                    Some(msg)
                },
                _ => None,
            },
            SessionEvent::Response(raw) => match self.state {
                SessionState::AwaitingChallenge => self.answer_challenge(raw.as_str()),
                SessionState::AwaitingFinal => {
                    self.accept_final(raw.as_str());
                    None
                },
                _ => None,
            },
            SessionEvent::TransportFailure => match self.state {
                SessionState::AwaitingChallenge => {
                    self.state = SessionState::Failed;
                    None
                },
                SessionState::AwaitingFinal => {
                    self.state = SessionState::Failed;
                    None
                },
                _ => None,
            },
        }
    }

    /// Takes a received datagram as a response: the bytes are read as
    /// text, invalid sequences replaced, and handed to [`Self::step`].
    pub fn on_datagram(&mut self, raw: &[u8]) -> (msg: Option<String>)
        ensures
            final(self)@ == next_session(
                old(self)@,
                SessionEventView::Response(lossy_text(raw@)),
            ).0,
            opt_message(msg) == next_session(
                old(self)@,
                SessionEventView::Response(lossy_text(raw@)),
            ).1,
    {
        self.step(SessionEvent::Response(datagram_text(raw)))
    }
}

} // verus!
