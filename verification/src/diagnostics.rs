//! One round of relay diagnostics: what is recorded once a connection
//! attempt has ended, and how the result is put into words.

use crate::codec::{json_text, json_value_text};
use crate::dispatcher::{
    is_pending, pending_type, resolved, DispatcherView, RelayFrame, RelayRequestDispatcher,
};
use crate::session::{
    after_failure, after_success, with_relay, EndpointView, RelaySelection, RelaySessionConfig,
    RelaySessionManager,
};
use crate::text::{concat, contains, contains_text, decimal, push_decimal};
use crate::transport::{connection_succeeded, is_connected_state, STATE_CONNECTED};
use vstd::prelude::*;
use vstd::string::StringExecFns;

verus! {

/// Message type of the reply recorded for an attempt that went all the
/// way.
pub const HELLO_ACK: &'static str = "hello_ack";

/// Message type of the reply recorded for an attempt that failed.
pub const HELLO_ERROR: &'static str = "hello_error";

/// What one attempt on one relay came to.
#[derive(Debug, Clone, PartialEq, Eq)]
pub struct RelayStatus {
    pub relay_slot: usize,
    pub relay_http: String,
    pub relay_ws: String,
    /// The state the attempt ended in.
    pub state: String,
    /// What the dispatcher made of the recorded reply.
    pub dispatch: String,
}

/// The type of the reply that stands for the final state `state`.
pub open spec fn reply_type(state: Seq<char>) -> Seq<char> {
    if is_connected_state(state) {
        HELLO_ACK@
    } else {
        HELLO_ERROR@
    }
}

/// A relay after an attempt that ended in `state` at time `now`.
pub open spec fn relay_after(
    relay: EndpointView,
    config: RelaySessionConfig,
    state: Seq<char>,
    now: nat,
) -> EndpointView {
    if is_connected_state(state) {
        after_success(relay, config, now)
    } else {
        after_failure(relay, config, now)
    }
}

/// What is said of dispatching the reply to `id`: the ids and types that
/// were matched, how many requests still wait, and the reply's payload;
/// or that no request was waiting for it.
pub open spec fn dispatch_text(
    dispatcher: DispatcherView,
    id: Seq<char>,
    state: Seq<char>,
    payload: Seq<char>,
) -> Seq<char> {
    if is_pending(dispatcher, id) {
        "corr="@ + id + " req="@ + pending_type(dispatcher, id) + " resp="@ + reply_type(state)
            + " pending="@ + decimal(resolved(dispatcher, id).pending.len()) + " payload="@
            + payload
    } else {
        "dispatcher error: unknown correlation"@
    }
}

/// One line of diagnostics for a status.
pub open spec fn status_line(
    relay_http: Seq<char>,
    relay_ws: Seq<char>,
    state: Seq<char>,
    dispatch: Seq<char>,
) -> Seq<char> {
    relay_http + " -> "@ + relay_ws + " · "@ + state + " · "@ + dispatch
}

/// The type of the reply to record for an attempt that ended in `state`.
pub fn reply_type_for(state: &str) -> (r: &'static str)
    ensures
        r@ == reply_type(state@),
{
    if connection_succeeded(state) {
        HELLO_ACK
    } else {
        HELLO_ERROR
    }
}

/// Records the end of a connection attempt.
///
/// The relay that `selection` names is marked as succeeded or failed,
/// according to `state`. The reply that stands for the attempt, of type
/// `hello_ack` or `hello_error` and carrying `payload`, is dispatched
/// against the request `outbound`. The status tells both.
pub fn record_attempt(
    manager: &mut RelaySessionManager,
    dispatcher: &mut RelayRequestDispatcher,
    selection: RelaySelection,
    outbound: RelayFrame,
    state: String,
    payload: serde_json::Value,
    now_ms: u64,
) -> (status: RelayStatus)
    ensures
        selection.relay_slot < old(manager)@.relays.len() ==> final(manager)@ == with_relay(
            old(manager)@,
            selection.relay_slot as int,
            relay_after(
                old(manager)@.relays[selection.relay_slot as int],
                old(manager)@.config,
                state@,
                now_ms as nat,
            ),
        ),
        selection.relay_slot >= old(manager)@.relays.len() ==> final(manager)@ == old(manager)@,
        final(dispatcher)@ == resolved(old(dispatcher)@, outbound.correlation_id@),
        status.relay_slot == selection.relay_slot,
        status.relay_http == selection.relay_http,
        status.relay_ws == selection.relay_ws,
        status.state == state,
        status.dispatch@ == dispatch_text(
            old(dispatcher)@,
            outbound.correlation_id@,
            state@,
            json_text(payload),
        ),
{
    let connected = connection_succeeded(state.as_str());
    if connected {
        manager.mark_success(selection.relay_slot, now_ms);
    } else {
        manager.mark_failure(selection.relay_slot, now_ms);
    }
    let response = RelayFrame {
        correlation_id: outbound.correlation_id,
        message_type: reply_type_for(state.as_str()).to_owned(),
        payload,
    };
    let dispatch = match dispatcher.resolve_response(response) {
        Ok(matched) => {
            let payload_text = json_value_text(&matched.payload);
            let mut text = "corr=".to_owned();
            text.append(matched.correlation_id.as_str());
            text.append(" req=");
            text.append(matched.request_message_type.as_str());
            text.append(" resp=");
            text.append(matched.response_message_type.as_str());
            text.append(" pending=");
            push_decimal(&mut text, dispatcher.pending_count() as u64);
            text.append(" payload=");
            text.append(payload_text.as_str());
            text
        },
        Err(_) => "dispatcher error: unknown correlation".to_owned(),
    };
    RelayStatus {
        relay_slot: selection.relay_slot,
        relay_http: selection.relay_http,
        relay_ws: selection.relay_ws,
        state,
        dispatch,
    }
}

impl RelayStatus {
    /// The line of diagnostics for this status.
    pub fn line(&self) -> (text: String)
        ensures
            text@ == status_line(self.relay_http@, self.relay_ws@, self.state@, self.dispatch@),
    {
        let mut text = self.relay_http.clone();
        text.append(" -> ");
        text.append(self.relay_ws.as_str());
        text.append(" · ");
        text.append(self.state.as_str());
        text.append(" · ");
        text.append(self.dispatch.as_str());
        text
    }

    /// The status text shown for this relay: the first slot is the
    /// primary relay, every other the secondary.
    pub fn label(&self) -> (text: String)
        ensures
            text@ == (if self.relay_slot == 0 {
                "Primary relay status: "@
            } else {
                "Secondary relay status: "@
            }) + status_line(self.relay_http@, self.relay_ws@, self.state@, self.dispatch@),
    {
        let line = self.line();
        if self.relay_slot == 0 {
            concat("Primary relay status: ", line.as_str())
        } else {
            concat("Secondary relay status: ", line.as_str())
        }
    }
}

/// The connectivity shown for a line of diagnostics: online when the line
/// tells of a hello that was sent, degraded otherwise.
pub fn connectivity_label(line: &str) -> (label: &'static str)
    ensures
        label@ == if contains_text(line@, STATE_CONNECTED@) {
            "Relay connectivity: online"@
        } else {
            "Relay connectivity: degraded/offline"@
        },
{
    if contains(line, STATE_CONNECTED) {
        "Relay connectivity: online"
    } else {
        "Relay connectivity: degraded/offline"
    }
}

} // verus!
