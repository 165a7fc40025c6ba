//! The theme listener's state machine.
//!
//! The listener connects to the desktop settings bus, performs one initial
//! read of the appearance value, then watches the change-notification
//! stream. All of its decisions — what each connection outcome, read
//! outcome and notification leads to — are the `step` function here; the
//! surrounding process performs the actions it returns (applying a theme,
//! finishing with success or failure) and feeds the next event back in.

use vstd::prelude::*;

use crate::theme::decode_spec;
use crate::theme::ThemeType;

verus! {

/// Where the listener stands: establishing the connection, doing the
/// one-shot initial read, watching the stream, or done.
#[derive(Clone, Copy, Debug, PartialEq, Eq, Structural)]
pub enum ListenerState {
    Connecting,
    Syncing,
    Watching,
    Terminated,
}

/// One thing the outside world reports to the listener. A settings value is
/// handed over as the integer it coerced to, or None when it was no
/// unsigned integer.
#[derive(Clone, Debug)]
pub enum ListenerEvent {
    /// The session bus connection is up.
    Connected,
    /// The session bus could not be reached.
    ConnectFailed,
    /// The initial appearance read returned a value.
    ReadOk { value: Option<u32> },
    /// The initial appearance read failed.
    ReadFailed,
    /// A change notification arrived.
    Setting { namespace: String, key: String, value: Option<u32> },
    /// The notification stream ended cleanly.
    StreamEnded,
    /// The connection itself failed.
    ConnectionLost,
}

/// What the listener asks its surroundings to do after an event. An apply's
/// own outcome never feeds back: a failed write is swallowed and the watch
/// goes on.
#[derive(Clone, Copy, Debug, PartialEq, Eq, Structural)]
pub enum ListenerAction {
    /// Nothing; keep going.
    Proceed,
    /// Apply this theme to the profile files.
    Apply(ThemeType),
    /// The run is over; report success.
    FinishOk,
    /// The run is over; report the connection's failure.
    FinishErr,
}

/// The settings namespace whose notifications carry appearance changes.
pub open spec fn appearance_namespace() -> Seq<char> {
    "org.freedesktop.appearance"@
}

/// The settings key carrying the color-scheme value.
pub open spec fn color_scheme_key() -> Seq<char> {
    "color-scheme"@
}

/// Whether a notification is the one the listener acts on.
pub open spec fn setting_is_relevant(namespace: Seq<char>, key: Seq<char>) -> bool {
    namespace == appearance_namespace() && key == color_scheme_key()
}

/// What a settings value decodes to: the carried integer's theme, or the
/// default theme when the value was no unsigned integer.
pub open spec fn decode_setting_spec(value: Option<u32>) -> ThemeType {
    match value {
        Some(v) => decode_spec(v),
        None => ThemeType::Light,
    }
}

/// Decodes a coerced settings value, falling back to the default theme when
/// the coercion yielded nothing. Decoding never fails.
pub fn decode_setting(value: Option<u32>) -> (r: ThemeType)
    ensures
        r == decode_setting_spec(value),
{
    match value {
        Some(v) => crate::theme::decode(v),
        None => ThemeType::default(),
    }
}

/// The listener's whole behaviour, one event at a time.
pub open spec fn step_spec(state: ListenerState, event: ListenerEvent) -> (ListenerState, ListenerAction) {
    match (state, event) {
        (ListenerState::Connecting, ListenerEvent::Connected) => (
            ListenerState::Syncing,
            ListenerAction::Proceed,
        ),
        (ListenerState::Connecting, ListenerEvent::ConnectFailed) => (
            ListenerState::Terminated,
            ListenerAction::FinishErr,
        ),
        (ListenerState::Syncing, ListenerEvent::ReadOk { value }) => (
            ListenerState::Watching,
            ListenerAction::Apply(decode_setting_spec(value)),
        ),
        (ListenerState::Syncing, ListenerEvent::ReadFailed) => (
            ListenerState::Watching,
            ListenerAction::Proceed,
        ),
        (ListenerState::Watching, ListenerEvent::Setting { namespace, key, value }) => {
            if setting_is_relevant(namespace@, key@) {
                (ListenerState::Watching, ListenerAction::Apply(decode_setting_spec(value)))
            } else {
                (ListenerState::Watching, ListenerAction::Proceed)
            }
        },
        (ListenerState::Watching, ListenerEvent::StreamEnded) => (
            ListenerState::Terminated,
            ListenerAction::FinishOk,
        ),
        (_, ListenerEvent::ConnectionLost) => (ListenerState::Terminated, ListenerAction::FinishErr),
        (st, _) => (st, ListenerAction::Proceed),
    }
}

/// Compares two texts character by character.
fn str_eq(a: &str, b: &str) -> (r: bool)
    ensures
        r == (a@ == b@),
{
    let n = a.unicode_len();
    if n != b.unicode_len() {
        return false;
    }
    let mut j: usize = 0;
    while j < n
        invariant
            j <= n,
            n == a@.len(),
            n == b@.len(),
            forall|k: int| 0 <= k < j ==> a@[k] == b@[k],
        decreases n - j,
    {
        if a.get_char(j) != b.get_char(j) {
            return false;
        }
        j = j + 1;
    }
    proof {
        assert(a@ =~= b@);
    }
    true
}

/// Whether a notification's coordinates are the appearance color scheme.
pub fn setting_matches(namespace: &str, key: &str) -> (r: bool)
    ensures
        r == setting_is_relevant(namespace@, key@),
{
    str_eq(namespace, "org.freedesktop.appearance") && str_eq(key, "color-scheme")
}

/// Drives the listener one event forward: returns the next state and the
/// action the surroundings must perform. Only a relevant notification or a
/// successful initial read leads to an apply; an irrelevant notification
/// has no side effect; only the connection's own failure ends the run with
/// an error, and a plain end of the stream ends it cleanly.
pub fn step(state: ListenerState, event: ListenerEvent) -> (r: (ListenerState, ListenerAction))
    ensures
        r == step_spec(state, event),
{
    match (state, event) {
        (ListenerState::Connecting, ListenerEvent::Connected) => (
            ListenerState::Syncing,
            ListenerAction::Proceed,
        ),
        (ListenerState::Connecting, ListenerEvent::ConnectFailed) => (
            ListenerState::Terminated,
            ListenerAction::FinishErr,
        ),
        (ListenerState::Syncing, ListenerEvent::ReadOk { value }) => (
            ListenerState::Watching,
            ListenerAction::Apply(decode_setting(value)),
        ),
        (ListenerState::Syncing, ListenerEvent::ReadFailed) => (
            ListenerState::Watching,
            ListenerAction::Proceed,
        ),
        (ListenerState::Watching, ListenerEvent::Setting { namespace, key, value }) => {
            if setting_matches(namespace.as_str(), key.as_str()) {
                (ListenerState::Watching, ListenerAction::Apply(decode_setting(value)))
            } else {
                (ListenerState::Watching, ListenerAction::Proceed)
            }
        },
        (ListenerState::Watching, ListenerEvent::StreamEnded) => (
            ListenerState::Terminated,
            ListenerAction::FinishOk,
        ),
        (_, ListenerEvent::ConnectionLost) => (
            ListenerState::Terminated,
            ListenerAction::FinishErr,
        ),
        (st, _) => (st, ListenerAction::Proceed),
    }
}

} // verus!
