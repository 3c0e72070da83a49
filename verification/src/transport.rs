//! The decisions of one connection attempt.
//!
//! Connecting to a relay takes three steps that only the outside world can
//! perform: resolve the host and open a TCP connection, complete the
//! WebSocket handshake, send the hello message. This module decides what
//! each step is given, what is made of its result, and which coarse state
//! the attempt ends in. The caller performs the steps and reports back;
//! nothing here retries.
//!
//! The upgrade request itself is made here, by `tungstenite`. Its making
//! is believed, not proved; that it targets the relay and carries the
//! bearer credential is proved from what is believed of each call.

use crate::codec::json_error_text;
use crate::endpoint::{option_text, parsed_url, url_host, url_port};
use crate::protocol::{hello_for, hello_json, HelloEnvelope};
use crate::text::{chars_of, concat, decimal, has_prefix, push_decimal, starts_with};
use tungstenite::client::IntoClientRequest;
use tungstenite::http::header::AUTHORIZATION;
use vstd::prelude::*;
use vstd::string::StringExecFns;
use vstd::utf8::encode_utf8;

verus! {

/// Seconds allowed for connecting, and for each read and write after.
pub const RELAY_CONNECT_TIMEOUT_SECS: u64 = 5;

/// Port assumed for a relay address that names none and whose scheme has
/// no default.
pub const FALLBACK_PORT: u16 = 80;

/// The state of an attempt that went all the way.
pub const STATE_CONNECTED: &'static str = "connected + hello sent";

/// A connection attempt that has passed the address checks.
#[derive(Debug, Clone, PartialEq, Eq)]
pub struct ConnectAttempt {
    /// The WebSocket address to upgrade to.
    pub relay_ws: String,
    /// The identity to announce.
    pub wayfair_id: String,
    /// The value of the `Authorization` header, if a token was given.
    pub authorization: Option<String>,
    /// Host and port to open the TCP connection to.
    pub socket_addr: String,
    /// Seconds allowed for connecting, reading and writing.
    pub timeout_secs: u64,
}

/// How opening the TCP connection went.
#[derive(Debug, Clone, PartialEq, Eq)]
pub enum SocketOutcome {
    /// The socket address is no host and port; the text says why.
    AddressRejected(String),
    /// The host has no address that could be found; the text says why.
    HostUnresolved(String),
    /// The connection was refused or timed out.
    ConnectFailed,
    /// The connection stands.
    Connected,
}

/// How the WebSocket handshake went.
#[derive(Debug, Clone, PartialEq, Eq)]
pub enum HandshakeOutcome {
    /// The relay did not complete the handshake; the text says why.
    Failed(String),
    /// The WebSocket stands.
    Upgraded,
}

/// How sending the hello message went.
#[derive(Debug, Clone, PartialEq, Eq)]
pub enum SendOutcome {
    /// The message could not be sent.
    Failed(String),
    /// The message is on its way.
    Sent,
}

/// Model of a [`ConnectAttempt`].
pub struct AttemptView {
    pub relay_ws: Seq<char>,
    pub wayfair_id: Seq<char>,
    pub authorization: Option<Seq<char>>,
    pub socket_addr: Seq<char>,
    pub timeout_secs: nat,
}

impl View for ConnectAttempt {
    type V = AttemptView;

    open spec fn view(&self) -> AttemptView {
        AttemptView {
            relay_ws: self.relay_ws@,
            wayfair_id: self.wayfair_id@,
            authorization: match self.authorization {
                Some(value) => Some(value@),
                None => None,
            },
            socket_addr: self.socket_addr@,
            timeout_secs: self.timeout_secs as nat,
        }
    }
}

/// `http::Request`, as `tungstenite` uses it for the upgrade request.
/// Of its inside only the target, the authorization and the number of
/// header fields are spoken of.
#[verifier::external_type_specification]
#[verifier::external_body]
#[verifier::reject_recursive_types(T)]
pub struct ExHttpRequest<T>(tungstenite::http::Request<T>);

/// `http::HeaderValue`, a checked header value. It is only passed on.
#[verifier::external_type_specification]
#[verifier::external_body]
pub struct ExHeaderValue(tungstenite::http::HeaderValue);

/// A number of header fields that a request takes one more beyond without
/// fail. The header map refuses to grow only at several thousand fields.
pub const HEADER_FIELDS_WITH_ROOM: usize = 1024;

/// Why no upgrade request can be made for the address `relay_ws`, in the
/// words of `tungstenite`; `None` where one can be made.
pub uninterp spec fn upgrade_request_refusal(relay_ws: Seq<char>) -> Option<Seq<char>>;

/// The number of header fields of a request.
pub uninterp spec fn header_count(request: tungstenite::http::Request<()>) -> nat;

/// The target of a request: its URI, as text.
pub uninterp spec fn request_target(request: tungstenite::http::Request<()>) -> Seq<char>;

/// The URI that the address `relay_ws` is read as, as text.
pub uninterp spec fn address_target(relay_ws: Seq<char>) -> Seq<char>;

/// The bytes of the `Authorization` field of a request, or `None` where
/// it has no such field.
pub uninterp spec fn authorization_of(request: tungstenite::http::Request<()>) -> Option<Seq<u8>>;

/// The bytes of a header value.
pub uninterp spec fn header_bytes(value: tungstenite::http::HeaderValue) -> Seq<u8>;

/// A byte that may stand in a header value: anything from the space on
/// but DEL, and the tab.
pub open spec fn is_header_byte(byte: u8) -> bool {
    (byte >= 32 && byte != 127) || byte == 9
}

/// `text` can be a header value: every byte of its UTF-8 form may stand
/// in one.
pub open spec fn is_header_text(text: Seq<char>) -> bool {
    forall|i: int|
        0 <= i < encode_utf8(text).len() ==> is_header_byte(#[trigger] encode_utf8(text)[i])
}

/// What is said of text that can be no header value.
pub open spec fn header_failure() -> Seq<char> {
    "failed to parse header value"@
}

/// `tungstenite`'s `IntoClientRequest::into_client_request` on an address.
/// Whether a request can be made, and what is said where none can, is a
/// function of the address. A request that was made targets the URI the
/// address was read as, and holds five header fields, none of them the
/// authorization. A refusal is handed back as the message it displays.
#[verifier::external_body]
fn make_upgrade_request(relay_ws: &str) -> (r: Result<tungstenite::http::Request<()>, String>)
    ensures
        match r {
            Ok(request) => {
                &&& upgrade_request_refusal(relay_ws@) is None
                &&& request_target(request) == address_target(relay_ws@)
                &&& authorization_of(request) is None
                &&& header_count(request) == 5
            },
            Err(message) => upgrade_request_refusal(relay_ws@) == Some(message@),
        },
{
    match relay_ws.into_client_request() {
        Ok(request) => Ok(request),
        Err(err) => Err(err.to_string()),
    }
}

/// `http::HeaderValue::from_str`. The text is taken exactly when each of
/// its bytes may stand in a header value, and the value then holds the
/// bytes of the text. A refusal is handed back as the message it
/// displays, which is always the same.
#[verifier::external_body]
fn header_value(text: &str) -> (r: Result<tungstenite::http::HeaderValue, String>)
    ensures
        r is Ok <==> is_header_text(text@),
        r matches Ok(value) ==> header_bytes(value) == encode_utf8(text@),
        r matches Err(message) ==> message@ == header_failure(),
{
    match tungstenite::http::HeaderValue::from_str(text) {
        Ok(value) => Ok(value),
        Err(err) => Err(err.to_string()),
    }
}

/// `HeaderMap::insert` of the `Authorization` field into the header fields
/// of a request. The field then holds the value and nothing else, the
/// target is as before, and at most one field was added. It panics only
/// where the map cannot grow any more, which a map with room never comes
/// to.
#[verifier::external_body]
fn set_authorization(
    request: &mut tungstenite::http::Request<()>,
    value: tungstenite::http::HeaderValue,
)
    requires
        header_count(*old(request)) < HEADER_FIELDS_WITH_ROOM,
    ensures
        authorization_of(*final(request)) == Some(header_bytes(value)),
        request_target(*final(request)) == request_target(*old(request)),
        header_count(*final(request)) <= header_count(*old(request)) + 1,
{
    request.headers_mut().insert(AUTHORIZATION, value);
}

/// The `Authorization` header value that carries `token`.
pub open spec fn bearer(token: Seq<char>) -> Seq<char> {
    "Bearer "@ + token
}

/// The socket address of the URL with the serialization `url`: its host
/// and its port, the scheme's default port or the fallback where none is
/// written. `None` for a URL without a host.
pub open spec fn socket_address(url: Seq<char>) -> Option<Seq<char>> {
    match url_host(url) {
        None => None,
        Some(host) => Some(
            host + seq![':'] + decimal(
                match url_port(url) {
                    Some(port) => port as nat,
                    None => FALLBACK_PORT as nat,
                },
            ),
        ),
    }
}

/// What an attempt on `relay_ws` starts with: the plan, or the state it
/// ends in at once because the address is unusable.
pub open spec fn connect_plan(
    relay_ws: Seq<char>,
    wayfair_id: Seq<char>,
    auth_token: Option<Seq<char>>,
) -> Result<AttemptView, Seq<char>> {
    match parsed_url(relay_ws) {
        None => Err("invalid relay URL"@),
        Some(url) => match socket_address(url) {
            None => Err("relay URL missing host"@),
            Some(socket_addr) => Ok(
                AttemptView {
                    relay_ws,
                    wayfair_id,
                    authorization: match auth_token {
                        Some(token) => Some(bearer(token)),
                        None => None,
                    },
                    socket_addr,
                    timeout_secs: RELAY_CONNECT_TIMEOUT_SECS as nat,
                },
            ),
        },
    }
}

/// The outcome of planning, as a model value.
pub open spec fn plan_view(r: Result<ConnectAttempt, String>) -> Result<AttemptView, Seq<char>> {
    match r {
        Ok(attempt) => Ok(attempt@),
        Err(state) => Err(state@),
    }
}

/// The authorization that the upgrade request of an attempt carries: the
/// bytes of the attempt's authorization, or none.
pub open spec fn carried_authorization(attempt: AttemptView) -> Option<Seq<u8>> {
    match attempt.authorization {
        Some(authorization) => Some(encode_utf8(authorization)),
        None => None,
    }
}

/// `request` is the upgrade request of `attempt`: it targets the relay's
/// address and carries the attempt's authorization, or none where the
/// attempt has none.
pub open spec fn is_upgrade_request_of(
    request: tungstenite::http::Request<()>,
    attempt: AttemptView,
) -> bool {
    &&& request_target(request) == address_target(attempt.relay_ws)
    &&& authorization_of(request) == carried_authorization(attempt)
}

/// The state an attempt ends in when its TCP connection does not come
/// about, or `None` when it does.
pub open spec fn socket_failure(attempt: AttemptView, outcome: SocketOutcome) -> Option<Seq<char>> {
    match outcome {
        SocketOutcome::AddressRejected(reason) => Some("invalid socket address: "@ + reason@),
        SocketOutcome::HostUnresolved(reason) => Some(
            "host resolution failed for "@ + attempt.socket_addr + ": "@ + reason@,
        ),
        SocketOutcome::ConnectFailed => Some(
            "tcp connection timeout/failure to "@ + attempt.socket_addr,
        ),
        SocketOutcome::Connected => None,
    }
}

/// The state an attempt ends in when no upgrade request can be made for
/// it, or `None` when one can: the address must make a request, and the
/// authorization, if there is one, a header value.
pub open spec fn request_failure(attempt: AttemptView) -> Option<Seq<char>> {
    match upgrade_request_refusal(attempt.relay_ws) {
        Some(reason) => Some("invalid websocket request: "@ + reason),
        None => match attempt.authorization {
            Some(authorization) => if is_header_text(authorization) {
                None
            } else {
                Some("invalid auth token header: "@ + header_failure())
            },
            None => None,
        },
    }
}

/// The state an attempt ends in before the handshake, or `None` when the
/// handshake is to be tried: the TCP connection must stand, and the
/// upgrade request must be made.
pub open spec fn early_failure(attempt: AttemptView, outcome: SocketOutcome) -> Option<Seq<char>> {
    match socket_failure(attempt, outcome) {
        Some(state) => Some(state),
        None => request_failure(attempt),
    }
}

/// The state an attempt ends in when the handshake does not come about,
/// or `None` when it does.
pub open spec fn handshake_failure(outcome: HandshakeOutcome) -> Option<Seq<char>> {
    match outcome {
        HandshakeOutcome::Failed(reason) => Some("websocket handshake failed: "@ + reason@),
        HandshakeOutcome::Upgraded => None,
    }
}

/// The state an attempt ends in after the hello message was handed to the
/// socket.
pub open spec fn final_state(outcome: SendOutcome) -> Seq<char> {
    match outcome {
        SendOutcome::Failed(reason) => "connected; hello send failed: "@ + reason@,
        SendOutcome::Sent => STATE_CONNECTED@,
    }
}

/// Whether a final state reports an attempt that went all the way.
pub open spec fn is_connected_state(state: Seq<char>) -> bool {
    has_prefix(state, STATE_CONNECTED@)
}

/// Plans a connection attempt on the relay at `relay_ws` that announces
/// `wayfair_id` and presents `auth_token`, if there is one, as a bearer
/// credential. Returns the attempt, or as an error the state in which
/// an attempt on an unusable address ends at once.
pub fn connect_to_relay_with_auth(relay_ws: &str, wayfair_id: &str, auth_token: Option<&str>) -> (r:
    Result<ConnectAttempt, String>)
    ensures
        plan_view(r) == connect_plan(relay_ws@, wayfair_id@, option_text(auth_token)),
{
    let url = match url::Url::parse(relay_ws) {
        Ok(url) => url,
        Err(_) => {
            return Err("invalid relay URL".to_owned());
        },
    };
    let host = match url.host_str() {
        Some(host) => host,
        None => {
            return Err("relay URL missing host".to_owned());
        },
    };
    let port = match url.port_or_known_default() {
        Some(port) => port,
        None => FALLBACK_PORT,
    };
    let mut socket_addr = host.to_owned();
    socket_addr.push(':');
    push_decimal(&mut socket_addr, port as u64);
    assert(socket_addr@ == host@ + seq![':'] + decimal(port as nat));
    let authorization = match auth_token {
        Some(token) => Some(concat("Bearer ", token)),
        None => None,
    };
    Ok(
        ConnectAttempt {
            relay_ws: relay_ws.to_owned(),
            wayfair_id: wayfair_id.to_owned(),
            authorization,
            socket_addr,
            timeout_secs: RELAY_CONNECT_TIMEOUT_SECS,
        },
    )
}

/// Plans a connection attempt without credentials.
pub fn connect_to_relay(relay_ws: &str, wayfair_id: &str) -> (r: Result<ConnectAttempt, String>)
    ensures
        plan_view(r) == connect_plan(relay_ws@, wayfair_id@, None),
{
    connect_to_relay_with_auth(relay_ws, wayfair_id, None)
}

impl ConnectAttempt {
    /// Makes the upgrade request of this attempt: a request for the relay's
    /// address that carries the authorization, if there is one. An error is
    /// the state the attempt ends in.
    pub fn upgrade_request(&self) -> (r: Result<tungstenite::http::Request<()>, String>)
        ensures
            match r {
                Ok(request) => request_failure(self@) is None && is_upgrade_request_of(
                    request,
                    self@,
                ),
                Err(state) => request_failure(self@) == Some(state@),
            },
    {
        let mut request = match make_upgrade_request(self.relay_ws.as_str()) {
            Ok(request) => request,
            Err(reason) => {
                return Err(concat("invalid websocket request: ", reason.as_str()));
            },
        };
        match &self.authorization {
            Some(authorization) => {
                match header_value(authorization.as_str()) {
                    Ok(value) => {
                        set_authorization(&mut request, value);
                    },
                    Err(reason) => {
                        return Err(concat("invalid auth token header: ", reason.as_str()));
                    },
                }
            },
            None => {},
        }
        Ok(request)
    }

    /// Takes in how opening the TCP connection went. `Ok` carries the
    /// upgrade request to shake hands with; an error is the state the
    /// attempt ends in.
    pub fn socket_opened(&self, outcome: SocketOutcome) -> (r: Result<
        tungstenite::http::Request<()>,
        String,
    >)
        ensures
            match r {
                Ok(request) => early_failure(self@, outcome) is None && is_upgrade_request_of(
                    request,
                    self@,
                ),
                Err(state) => early_failure(self@, outcome) == Some(state@),
            },
    {
        match outcome {
            SocketOutcome::AddressRejected(reason) => Err(
                concat("invalid socket address: ", reason.as_str()),
            ),
            SocketOutcome::HostUnresolved(reason) => {
                let mut state = concat("host resolution failed for ", self.socket_addr.as_str());
                state.append(": ");
                state.append(reason.as_str());
                Err(state)
            },
            SocketOutcome::ConnectFailed => Err(
                concat("tcp connection timeout/failure to ", self.socket_addr.as_str()),
            ),
            SocketOutcome::Connected => self.upgrade_request(),
        }
    }

    /// Takes in how the handshake went. `Ok` carries the hello message to
    /// send, in its wire form; an error is the state the attempt ends in.
    pub fn upgraded(&self, outcome: HandshakeOutcome) -> (r: Result<String, String>)
        ensures
            match r {
                Ok(hello) => handshake_failure(outcome) is None && hello@ == hello_json(
                    hello_for(self@.wayfair_id),
                ),
                Err(state) => handshake_failure(outcome) == Some(state@),
            },
    {
        match outcome {
            HandshakeOutcome::Failed(reason) => Err(
                concat("websocket handshake failed: ", reason.as_str()),
            ),
            HandshakeOutcome::Upgraded => {
                let envelope = HelloEnvelope::new(self.wayfair_id.as_str());
                match envelope.to_json() {
                    Ok(hello) => Ok(hello),
                    Err(error) => {
                        let reason = json_error_text(&error);
                        Err(concat("connected; hello send failed: ", reason.as_str()))
                    },
                }
            },
        }
    }
}

/// Takes in how sending the hello message went and returns the state the
/// attempt ends in.
pub fn hello_sent(outcome: SendOutcome) -> (state: String)
    ensures
        state@ == final_state(outcome),
{
    match outcome {
        SendOutcome::Failed(reason) => concat("connected; hello send failed: ", reason.as_str()),
        SendOutcome::Sent => STATE_CONNECTED.to_owned(),
    }
}

/// Whether `state` reports an attempt that went all the way.
pub fn connection_succeeded(state: &str) -> (r: bool)
    ensures
        r == is_connected_state(state@),
{
    let chars = chars_of(state);
    let marker = chars_of(STATE_CONNECTED);
    starts_with(&chars, &marker)
}

/// Only an attempt whose hello message was sent ends in a connected
/// state; every failure ends in a state that is not.
pub proof fn lemma_only_sent_is_connected(
    attempt: AttemptView,
    socket: SocketOutcome,
    handshake: HandshakeOutcome,
    send: SendOutcome,
)
    ensures
        is_connected_state(final_state(send)) <==> send is Sent,
        early_failure(attempt, socket) matches Some(state) ==> !is_connected_state(state),
        handshake_failure(handshake) matches Some(state) ==> !is_connected_state(state),
        !is_connected_state("invalid relay URL"@),
        !is_connected_state("relay URL missing host"@),
{
    reveal_strlit("connected + hello sent");
    reveal_strlit("connected; hello send failed: ");
    reveal_strlit("invalid socket address: ");
    reveal_strlit("host resolution failed for ");
    reveal_strlit("tcp connection timeout/failure to ");
    reveal_strlit("invalid websocket request: ");
    reveal_strlit("invalid auth token header: ");
    reveal_strlit("websocket handshake failed: ");
    reveal_strlit("invalid relay URL");
    reveal_strlit("relay URL missing host");
    let marker = STATE_CONNECTED@;
    assert(marker.subrange(0, marker.len() as int) == marker);
    match send {
        SendOutcome::Failed(reason) => {
            let state = final_state(send);
            if is_connected_state(state) {
                assert(state.subrange(0, marker.len() as int)[9] == marker[9]);
            }
        },
        SendOutcome::Sent => {},
    }
    match early_failure(attempt, socket) {
        Some(state) => {
            if is_connected_state(state) {
                assert(state.subrange(0, marker.len() as int)[0] == marker[0]);
            }
        },
        None => {},
    }
    match handshake_failure(handshake) {
        Some(state) => {
            if is_connected_state(state) {
                assert(state.subrange(0, marker.len() as int)[0] == marker[0]);
            }
        },
        None => {},
    }
    if is_connected_state("invalid relay URL"@) {
        assert("invalid relay URL"@.subrange(0, marker.len() as int)[0] == marker[0]);
    }
    if is_connected_state("relay URL missing host"@) {
        assert("relay URL missing host"@.subrange(0, marker.len() as int)[0] == marker[0]);
    }
}

} // verus!
