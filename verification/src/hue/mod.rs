//! The Philips Hue bridge: connection states, request addresses and the
//! interpretation of the bridge's answers.

pub mod types;
pub mod api;

use vstd::prelude::*;
use vstd::std_specs::cmp::PartialEqSpecImpl;
use crate::config::AppConfig;

verus! {

/// Where the application stands with its bridge.
#[derive(Debug, Clone)]
pub enum BridgeConnectionState {
    Idle,
    Searching,
    /// Waiting for the link button of the bridge at `ip`; `countdown` seconds remain.
    NeedsLink { ip: String, countdown: u32 },
    Connected { ip: String, username: String },
    Error(String),
}

impl BridgeConnectionState {
    /// The same state, as an independent value.
    pub fn duplicate(&self) -> (r: BridgeConnectionState)
        ensures
            r == *self,
    {
        match self {
            BridgeConnectionState::Idle => BridgeConnectionState::Idle,
            BridgeConnectionState::Searching => BridgeConnectionState::Searching,
            BridgeConnectionState::NeedsLink { ip, countdown } => BridgeConnectionState::NeedsLink {
                ip: ip.clone(),
                countdown: *countdown,
            },
            BridgeConnectionState::Connected { ip, username } => BridgeConnectionState::Connected {
                ip: ip.clone(),
                username: username.clone(),
            },
            BridgeConnectionState::Error(e) => BridgeConnectionState::Error(e.clone()),
        }
    }

    /// Whether the state is `Connected`.
    pub fn is_connected(&self) -> (b: bool)
        ensures
            b == (*self is Connected),
    {
        match self {
            BridgeConnectionState::Connected { .. } => true,
            _ => false,
        }
    }
}

/// Two states are equal when they are the same variant with equal fields.
pub open spec fn same_state(a: BridgeConnectionState, b: BridgeConnectionState) -> bool {
    match (a, b) {
        (BridgeConnectionState::Idle, BridgeConnectionState::Idle) => true,
        (BridgeConnectionState::Searching, BridgeConnectionState::Searching) => true,
        (
            BridgeConnectionState::NeedsLink { ip: i1, countdown: c1 },
            BridgeConnectionState::NeedsLink { ip: i2, countdown: c2 },
        ) => i1@ == i2@ && c1 == c2,
        (
            BridgeConnectionState::Connected { ip: i1, username: u1 },
            BridgeConnectionState::Connected { ip: i2, username: u2 },
        ) => i1@ == i2@ && u1@ == u2@,
        (BridgeConnectionState::Error(e1), BridgeConnectionState::Error(e2)) => e1@ == e2@,
        _ => false,
    }
}

/// Equality of connection states is an equivalence: reflexive, symmetric
/// and transitive.
pub proof fn lemma_same_state_equivalence(a: BridgeConnectionState, b: BridgeConnectionState, c: BridgeConnectionState)
    ensures
        same_state(a, a),
        same_state(a, b) ==> same_state(b, a),
        same_state(a, b) && same_state(b, c) ==> same_state(a, c),
{
}

impl PartialEq for BridgeConnectionState {
    fn eq(&self, other: &Self) -> (r: bool) {
        match (self, other) {
            (BridgeConnectionState::Idle, BridgeConnectionState::Idle) => true,
            (BridgeConnectionState::Searching, BridgeConnectionState::Searching) => true,
            (
                BridgeConnectionState::NeedsLink { ip: i1, countdown: c1 },
                BridgeConnectionState::NeedsLink { ip: i2, countdown: c2 },
            ) => *i1 == *i2 && *c1 == *c2,
            (
                BridgeConnectionState::Connected { ip: i1, username: u1 },
                BridgeConnectionState::Connected { ip: i2, username: u2 },
            ) => *i1 == *i2 && *u1 == *u2,
            (BridgeConnectionState::Error(e1), BridgeConnectionState::Error(e2)) => *e1 == *e2,
            _ => false,
        }
    }
}

impl PartialEqSpecImpl for BridgeConnectionState {
    open spec fn obeys_eq_spec() -> bool {
        true
    }

    open spec fn eq_spec(&self, other: &Self) -> bool {
        same_state(*self, *other)
    }
}

/// The state in which a configuration starts: connected when it holds both an
/// address and a key, waiting 30 seconds for the link button when it holds
/// only an address, searching otherwise.
pub open spec fn initial_connection_state(bridge_ip: Seq<char>, bridge_username: Seq<char>, s: BridgeConnectionState) -> bool {
    if bridge_ip.len() > 0 && bridge_username.len() > 0 {
        s matches BridgeConnectionState::Connected { ip, username } && ip@ == bridge_ip && username@ == bridge_username
    } else if bridge_ip.len() > 0 {
        s matches BridgeConnectionState::NeedsLink { ip, countdown } && ip@ == bridge_ip && countdown == 30
    } else {
        s is Searching
    }
}

/// The state in which the configuration `config` starts.
pub fn startup_connection_state(config: &AppConfig) -> (s: BridgeConnectionState)
    ensures
        initial_connection_state(config.bridge_ip@, config.bridge_username@, s),
{
    let has_ip = config.bridge_ip.as_str().unicode_len() > 0;
    let has_user = config.bridge_username.as_str().unicode_len() > 0;
    if has_ip && has_user {
        BridgeConnectionState::Connected {
            ip: config.bridge_ip.clone(),
            username: config.bridge_username.clone(),
        }
    } else if has_ip {
        BridgeConnectionState::NeedsLink { ip: config.bridge_ip.clone(), countdown: 30 }
    } else {
        BridgeConnectionState::Searching
    }
}

} // verus!
