//! The bridge worker as a state machine: each timer tick, message and
//! outside result moves it to its next state and yields the actions that the
//! caller performs (requests, saves, messages to the user interface).

use vstd::prelude::*;
use crate::body::{StateBody, merged, applied_light, applied_group, body_is_empty};
use crate::config::{AppConfig, Mapping};
use crate::hue::{BridgeConnectionState, initial_connection_state, startup_connection_state};
use crate::hue::types::{Light, Group, Scene};
use crate::mapping::{ColorComponent, MidiOutcome, action_kind, classify_action,
    evaluate_mapping, inversion_underflows, inversion_would_underflow, mapping_outcome, color_body,
    auto_on_field, body_of};
use crate::messages::{BgMessage, GuiMessage};
use crate::midi::MidiEvent;
use crate::strmap::StrMap;
use crate::text::{has_prefix, starts_with};

verus! {

/// Seconds that the link button is waited for.
pub const LINK_COUNTDOWN: u32 = 30;

/// Period of the pairing timer, in nanoseconds: the link-button countdown
/// counts its ticks.
pub const PAIRING_TICK_NS: u64 = 1_000_000_000;

/// Period of the device refresh timer, in nanoseconds.
pub const REFRESH_PERIOD_NS: u64 = 10_000_000_000;

/// Period of the send timer, in nanoseconds.
pub const SEND_TICK_NS: u64 = 20_000_000;

/// Least time between two commands sent to one light, in nanoseconds.
pub const LIGHT_SEND_INTERVAL_NS: u64 = 100_000_000;

/// Least time between two commands sent to one group, in nanoseconds.
pub const GROUP_SEND_INTERVAL_NS: u64 = 500_000_000;

/// Whether fetched devices came from the periodic refresh, which keeps a
/// cache whose fetch failed, or from a request, which empties it.
#[derive(Debug, Clone, Copy, PartialEq, Eq, Structural)]
pub enum FetchKind {
    Periodic,
    Requested,
}

/// What the caller of the worker does next.
#[derive(Debug, Clone)]
pub enum WorkerAction {
    /// Write the worker's configuration to disk.
    SaveConfig,
    /// Send this message to the user interface.
    Gui(GuiMessage),
    /// Send copies of the worker's light, group and scene caches to the user interface.
    BroadcastDevices,
    /// Ask the bridge at `ip` for a key, then report the outcome with `countdown`.
    Register { ip: String, countdown: u32 },
    /// Look for bridges on the network and report the addresses found.
    Discover,
    /// Fetch lights, groups and scenes, then report them with `kind`.
    FetchDevices { ip: String, username: String, kind: FetchKind },
    /// Send `body` to light `light_id`.
    SendLightState { ip: String, username: String, light_id: String, body: StateBody },
    /// Send `body` to group `group_id`.
    SendGroupAction { ip: String, username: String, group_id: String, body: StateBody },
    /// Listen to the MIDI input port of this name, then report whether it opened.
    OpenMidiPort(String),
    /// Set one colour channel of the target to `value` / 127 (inverted when
    /// `invert`), starting from its cached hue, saturation and brightness
    /// (`None`: not cached), and report the resulting colour.
    MixColor {
        target_type: String,
        target_id: String,
        component: ColorComponent,
        value: u8,
        invert: bool,
        auto_on: bool,
        current: Option<(u16, u8, u8)>,
    },
}

/// The bridge worker's state.
#[derive(Debug)]
pub struct BridgeWorker {
    pub config: AppConfig,
    pub connection_state: BridgeConnectionState,
    pub lights: StrMap<Light>,
    pub groups: StrMap<Group>,
    pub scenes: StrMap<Scene>,
    /// Commands waiting to be sent, per light.
    pub pending_lights: StrMap<StateBody>,
    /// Commands waiting to be sent, per group.
    pub pending_groups: StrMap<StateBody>,
    /// When the last command went to each light, in nanoseconds.
    pub last_light_sent: StrMap<u64>,
    /// When the last command went to each group, in nanoseconds.
    pub last_group_sent: StrMap<u64>,
}

/// The address and key of a connected state.
pub open spec fn credentials(s: BridgeConnectionState) -> Option<(String, String)> {
    match s {
        BridgeConnectionState::Connected { ip, username } => Some((ip, username)),
        _ => None,
    }
}

/// The action that tells the user interface the connection state `s`.
pub open spec fn notify(s: BridgeConnectionState) -> WorkerAction {
    WorkerAction::Gui(GuiMessage::HueConnectionState(s))
}

/// A configuration with another bridge address.
pub open spec fn with_ip(c: AppConfig, ip: String) -> AppConfig {
    AppConfig { bridge_ip: ip, ..c }
}

/// `w` with another connection state.
pub open spec fn with_state(w: BridgeWorker, s: BridgeConnectionState) -> BridgeWorker {
    BridgeWorker { connection_state: s, ..w }
}

/// Tick of the pairing timer (once a second). While the link button is
/// awaited, the countdown drops by one; every third second a registration is
/// attempted, otherwise the new countdown is shown; at zero the worker gives
/// up and goes idle. In any other state nothing happens.
pub open spec fn pairing_tick_post(old: BridgeWorker, new: BridgeWorker, actions: Seq<WorkerAction>) -> bool {
    match old.connection_state {
        BridgeConnectionState::NeedsLink { ip, countdown } => {
            if countdown == 0 {
                new == with_state(old, BridgeConnectionState::Idle) && actions =~= seq![notify(BridgeConnectionState::Idle)]
            } else if (countdown - 1) % 3 == 0 {
                new == old && actions =~= seq![WorkerAction::Register { ip, countdown: (countdown - 1) as u32 }]
            } else {
                let s = BridgeConnectionState::NeedsLink { ip, countdown: (countdown - 1) as u32 };
                new == with_state(old, s) && actions =~= seq![notify(s)]
            }
        },
        _ => new == old && actions =~= Seq::<WorkerAction>::empty(),
    }
}

/// The outcome of a registration attempt at `ip`: with a key the worker is
/// connected and stores address and key; without one it keeps waiting with
/// `countdown`; a refusal becomes an error state. The new state is shown.
pub open spec fn registration_post(
    old: BridgeWorker,
    new: BridgeWorker,
    ip: String,
    countdown: u32,
    outcome: Result<Option<String>, String>,
    actions: Seq<WorkerAction>,
) -> bool {
    match outcome {
        Ok(Some(key)) => {
            let s = BridgeConnectionState::Connected { ip, username: key };
            &&& new == BridgeWorker {
                connection_state: s,
                config: AppConfig { bridge_ip: ip, bridge_username: key, ..old.config },
                ..old
            }
            &&& actions =~= seq![WorkerAction::SaveConfig, notify(s)]
        },
        Ok(None) => {
            let s = BridgeConnectionState::NeedsLink { ip, countdown };
            new == with_state(old, s) && actions =~= seq![notify(s)]
        },
        Err(e) => {
            let s = BridgeConnectionState::Error(e);
            new == with_state(old, s) && actions =~= seq![notify(s)]
        },
    }
}

/// Discovery results: the first address found is awaited for the link
/// button and stored; with none (or on failure) the worker goes idle.
pub open spec fn discovery_post(old: BridgeWorker, new: BridgeWorker, found: Option<Seq<String>>, actions: Seq<WorkerAction>) -> bool {
    match found {
        Some(ips) if ips.len() > 0 => {
            let s = BridgeConnectionState::NeedsLink { ip: ips[0], countdown: LINK_COUNTDOWN };
            &&& new == BridgeWorker { connection_state: s, config: with_ip(old.config, ips[0]), ..old }
            &&& actions =~= seq![WorkerAction::SaveConfig, notify(s)]
        },
        _ => new == with_state(old, BridgeConnectionState::Idle) && actions =~= seq![notify(BridgeConnectionState::Idle)],
    }
}

/// A bridge address typed in: it is awaited for the link button and stored.
pub open spec fn connect_manual_post(old: BridgeWorker, new: BridgeWorker, ip: String, actions: Seq<WorkerAction>) -> bool {
    let s = BridgeConnectionState::NeedsLink { ip, countdown: LINK_COUNTDOWN };
    &&& new == BridgeWorker { connection_state: s, config: with_ip(old.config, ip), ..old }
    &&& actions =~= seq![WorkerAction::SaveConfig, notify(s)]
}

/// Forgetting the bridge: idle, no address or key, no queued command and no
/// send time.
pub open spec fn forget_post(old: BridgeWorker, new: BridgeWorker, actions: Seq<WorkerAction>) -> bool {
    &&& new.connection_state == BridgeConnectionState::Idle
    &&& new.config == AppConfig { bridge_ip: new.config.bridge_ip, bridge_username: new.config.bridge_username, ..old.config }
    &&& new.config.bridge_ip@ == Seq::<char>::empty()
    &&& new.config.bridge_username@ == Seq::<char>::empty()
    &&& new.lights == old.lights && new.groups == old.groups && new.scenes == old.scenes
    &&& new.pending_lights@ == Map::<Seq<char>, StateBody>::empty()
    &&& new.pending_groups@ == Map::<Seq<char>, StateBody>::empty()
    &&& new.last_light_sent@ == Map::<Seq<char>, u64>::empty()
    &&& new.last_group_sent@ == Map::<Seq<char>, u64>::empty()
    &&& actions =~= seq![WorkerAction::SaveConfig, notify(BridgeConnectionState::Idle)]
}

/// A fetch of the devices, when connected; nothing otherwise.
pub open spec fn fetch_post(old: BridgeWorker, kind: FetchKind, actions: Seq<WorkerAction>) -> bool {
    match credentials(old.connection_state) {
        Some((ip, username)) => actions =~= seq![WorkerAction::FetchDevices { ip, username, kind }],
        None => actions =~= Seq::<WorkerAction>::empty(),
    }
}

/// A cache after a fetch: what was fetched; when the fetch failed, the old
/// cache for a periodic refresh and an empty one for a requested refresh.
pub open spec fn refreshed<V>(old: Map<Seq<char>, V>, fetched: Option<Map<Seq<char>, V>>, kind: FetchKind) -> Map<Seq<char>, V> {
    match fetched {
        Some(m) => m,
        None => if kind == FetchKind::Periodic {
            old
        } else {
            Map::empty()
        },
    }
}

/// Fetched devices (`None`: that fetch failed) replace the caches, see
/// [`refreshed`]; nothing else changes, and the caches are shown.
pub open spec fn fetched_post(
    old: BridgeWorker,
    new: BridgeWorker,
    kind: FetchKind,
    lights: Option<Map<Seq<char>, Light>>,
    groups: Option<Map<Seq<char>, Group>>,
    scenes: Option<Map<Seq<char>, Scene>>,
    actions: Seq<WorkerAction>,
) -> bool {
    &&& new.lights@ == refreshed(old.lights@, lights, kind)
    &&& new.groups@ == refreshed(old.groups@, groups, kind)
    &&& new.scenes@ == refreshed(old.scenes@, scenes, kind)
    &&& new.config == old.config
    &&& new.connection_state == old.connection_state
    &&& new.pending_lights == old.pending_lights
    &&& new.pending_groups == old.pending_groups
    &&& new.last_light_sent == old.last_light_sent
    &&& new.last_group_sent == old.last_group_sent
    &&& actions =~= seq![WorkerAction::BroadcastDevices]
}

/// Entry `k` of a command queue is due at `now`: queued, and never sent or
/// sent at least `interval` before.
pub open spec fn due(pending: Map<Seq<char>, StateBody>, last: Map<Seq<char>, u64>, now: u64, interval: u64, k: Seq<char>) -> bool {
    pending.contains_key(k) && (!last.contains_key(k) || now - last[k] >= interval)
}

/// The due entries of a command queue.
pub open spec fn due_keys(pending: Map<Seq<char>, StateBody>, last: Map<Seq<char>, u64>, now: u64, interval: u64) -> Set<Seq<char>> {
    Set::new(|k: Seq<char>| due(pending, last, now, interval, k))
}

/// The light or group that a send action addresses.
pub open spec fn send_target(a: WorkerAction) -> Seq<char> {
    match a {
        WorkerAction::SendLightState { light_id, .. } => light_id@,
        WorkerAction::SendGroupAction { group_id, .. } => group_id@,
        _ => Seq::empty(),
    }
}

/// The body of a send action.
pub open spec fn send_body(a: WorkerAction) -> StateBody {
    match a {
        WorkerAction::SendLightState { body, .. } => body,
        WorkerAction::SendGroupAction { body, .. } => body,
        _ => StateBody { on: None, bri: None, hue: None, sat: None, ct: None, scene: None },
    }
}

/// `a` sends to a group (or to a light) of the bridge at `ip` with key `username`.
pub open spec fn is_send(a: WorkerAction, to_groups: bool, ip: String, username: String) -> bool {
    if to_groups {
        a matches WorkerAction::SendGroupAction { ip: i, username: u, .. } && i == ip && u == username
    } else {
        a matches WorkerAction::SendLightState { ip: i, username: u, .. } && i == ip && u == username
    }
}

/// A queue flushed at `now`: every due entry leaves the queue, is sent exactly
/// once with its queued body and gets `now` as its send time; the entries that
/// are not due stay queued with their send times.
pub open spec fn flushed(
    pending: Map<Seq<char>, StateBody>,
    last: Map<Seq<char>, u64>,
    now: u64,
    interval: u64,
    to_groups: bool,
    ip: String,
    username: String,
    new_pending: Map<Seq<char>, StateBody>,
    new_last: Map<Seq<char>, u64>,
    sent: Seq<WorkerAction>,
) -> bool {
    &&& new_pending == pending.remove_keys(due_keys(pending, last, now, interval))
    &&& new_last == last.union_prefer_right(Map::new(|k: Seq<char>| due(pending, last, now, interval, k), |k: Seq<char>| now))
    &&& forall|i: int| 0 <= i < sent.len() ==> {
        &&& is_send(#[trigger] sent[i], to_groups, ip, username)
        &&& due(pending, last, now, interval, send_target(sent[i]))
        &&& send_body(sent[i]) == pending[send_target(sent[i])]
    }
    &&& forall|i: int, j: int| 0 <= i < j < sent.len() ==> send_target(#[trigger] sent[i]) != send_target(#[trigger] sent[j])
    &&& forall|k: Seq<char>| due(pending, last, now, interval, k) ==> exists|i: int| 0 <= i < sent.len() && send_target(#[trigger] sent[i]) == k
}

/// Tick of the send timer at `now`: when connected, both queues are flushed,
/// lights with [`LIGHT_SEND_INTERVAL_NS`] and groups with
/// [`GROUP_SEND_INTERVAL_NS`], the light commands going first.
pub open spec fn throttle_post(old: BridgeWorker, new: BridgeWorker, now: u64, actions: Seq<WorkerAction>) -> bool {
    match credentials(old.connection_state) {
        None => new == old && actions =~= Seq::<WorkerAction>::empty(),
        Some((ip, username)) => exists|n: int| 0 <= n <= actions.len() && {
            &&& flushed(old.pending_lights@, old.last_light_sent@, now, LIGHT_SEND_INTERVAL_NS, false, ip, username,
                new.pending_lights@, new.last_light_sent@, actions.subrange(0, n))
            &&& flushed(old.pending_groups@, old.last_group_sent@, now, GROUP_SEND_INTERVAL_NS, true, ip, username,
                new.pending_groups@, new.last_group_sent@, actions.subrange(n, actions.len() as int))
            &&& new.config == old.config && new.connection_state == old.connection_state
            &&& new.lights == old.lights && new.groups == old.groups && new.scenes == old.scenes
        },
    }
}

/// The keys among the first `j` of `keys`.
pub open spec fn first_keys(keys: Seq<String>, j: int) -> Set<Seq<char>> {
    Set::new(|k: Seq<char>| exists|m: int| 0 <= m < j && #[trigger] keys[m]@ == k)
}

/// Sends the due entries of one queue at `now`; see [`flushed`].
fn flush_queue(
    pending: &mut StrMap<StateBody>,
    last: &mut StrMap<u64>,
    now: u64,
    interval: u64,
    to_groups: bool,
    ip: &String,
    username: &String,
    actions: &mut Vec<WorkerAction>,
)
    ensures
        final(actions)@.len() >= old(actions)@.len(),
        final(actions)@.subrange(0, old(actions)@.len() as int) == old(actions)@,
        flushed(old(pending)@, old(last)@, now, interval, to_groups, *ip, *username, final(pending)@,
            final(last)@, final(actions)@.subrange(old(actions)@.len() as int, final(actions)@.len() as int)),
{
    proof { use_type_invariant(&*pending); }
    let ghost p0 = pending@;
    let ghost l0 = last@;
    let ghost a0 = actions@;
    let mut keys: Vec<String> = Vec::new();
    let ghost mut pos: Seq<int> = Seq::empty();
    let n = pending.len();
    let mut i: usize = 0;
    while i < n
        invariant
            n == pending.spec_len(),
            pending@ == p0,
            last@ == l0,
            pending.wf(),
            i <= n,
            keys@.len() == pos.len(),
            forall|j: int| 0 <= j < pos.len() ==> 0 <= #[trigger] pos[j] < i && keys@[j]@ == pending.key_at(pos[j]),
            forall|j1: int, j2: int| 0 <= j1 < j2 < pos.len() ==> #[trigger] pos[j1] < #[trigger] pos[j2],
            forall|j: int| 0 <= j < keys@.len() ==> due(p0, l0, now, interval, #[trigger] keys@[j]@),
            forall|p: int| 0 <= p < i && due(p0, l0, now, interval, #[trigger] pending.key_at(p))
                ==> exists|j: int| 0 <= j < keys@.len() && #[trigger] keys@[j]@ == pending.key_at(p),
        decreases n - i,
    {
        let k = pending.key(i);
        proof { pending.lemma_entry(i as int); }
        let is_due = match last.get(k) {
            None => true,
            Some(t) => now >= *t && now - *t >= interval,
        };
        let ghost old_keys = keys@;
        assert(is_due == due(p0, l0, now, interval, pending.key_at(i as int)));
        if is_due {
            keys.push(k.clone());
            proof {
                pos = pos.push(i as int);
                assert(keys@[keys@.len() - 1]@ == pending.key_at(i as int));
            }
        }
        proof {
            assert forall|p: int| 0 <= p < i + 1 && due(p0, l0, now, interval, #[trigger] pending.key_at(p))
                implies exists|j: int| 0 <= j < keys@.len() && #[trigger] keys@[j]@ == pending.key_at(p) by {
                if p < i {
                    let j = choose|j: int| 0 <= j < old_keys.len() && #[trigger] old_keys[j]@ == pending.key_at(p);
                    assert(keys@[j] == old_keys[j]);
                } else {
                    assert(keys@[keys@.len() - 1]@ == pending.key_at(p));
                }
            }
        }
        i = i + 1;
    }
    assert forall|j1: int, j2: int| 0 <= j1 < keys@.len() && 0 <= j2 < keys@.len() && j1 != j2
        implies #[trigger] keys@[j1]@ != #[trigger] keys@[j2]@ by {
        if j1 < j2 {
            assert(pos[j1] < pos[j2]);
        } else {
            assert(pos[j2] < pos[j1]);
        }
        pending.lemma_distinct(pos[j1], pos[j2]);
    }
    assert forall|k: Seq<char>| due(p0, l0, now, interval, k) implies exists|j: int| 0 <= j < keys@.len() && #[trigger] keys@[j]@ == k by {
        pending.lemma_key(k);
        let p = choose|p: int| 0 <= p < pending.spec_len() && pending.key_at(p) == k;
        assert(due(p0, l0, now, interval, pending.key_at(p)));
    }
    let mut j: usize = 0;
    while j < keys.len()
        invariant
            j <= keys@.len(),
            forall|j1: int, j2: int| 0 <= j1 < keys@.len() && 0 <= j2 < keys@.len() && j1 != j2
                ==> #[trigger] keys@[j1]@ != #[trigger] keys@[j2]@,
            forall|m: int| 0 <= m < keys@.len() ==> due(p0, l0, now, interval, #[trigger] keys@[m]@),
            pending@ == p0.remove_keys(first_keys(keys@, j as int)),
            last@ == l0.union_prefer_right(Map::new(|k: Seq<char>| first_keys(keys@, j as int).contains(k), |k: Seq<char>| now)),
            actions@.len() == a0.len() + j,
            actions@.subrange(0, a0.len() as int) == a0,
            forall|m: int| 0 <= m < j ==> {
                &&& is_send(#[trigger] actions@[a0.len() + m], to_groups, *ip, *username)
                &&& send_target(actions@[a0.len() + m]) == keys@[m]@
                &&& send_body(actions@[a0.len() + m]) == p0[keys@[m]@]
            },
        decreases keys@.len() - j,
    {
        let k = &keys[j];
        assert(!first_keys(keys@, j as int).contains(k@));
        assert(p0.contains_key(k@));
        let body = pending.remove(k).unwrap();
        last.insert(k.clone(), now);
        let a = if to_groups {
            WorkerAction::SendGroupAction { ip: ip.clone(), username: username.clone(), group_id: k.clone(), body }
        } else {
            WorkerAction::SendLightState { ip: ip.clone(), username: username.clone(), light_id: k.clone(), body }
        };
        actions.push(a);
        proof {
            assert(first_keys(keys@, j + 1) =~= first_keys(keys@, j as int).insert(keys@[j as int]@)) by {
                assert forall|q: Seq<char>| first_keys(keys@, j + 1).contains(q) implies first_keys(keys@, j as int).insert(keys@[j as int]@).contains(q) by {
                    let m = choose|m: int| 0 <= m < j + 1 && #[trigger] keys@[m]@ == q;
                    if m < j {
                        assert(first_keys(keys@, j as int).contains(q));
                    }
                }
                assert forall|q: Seq<char>| first_keys(keys@, j as int).insert(keys@[j as int]@).contains(q) implies first_keys(keys@, j + 1).contains(q) by {
                    if q == keys@[j as int]@ {
                        assert(keys@[j as int]@ == q);
                    } else {
                        let m = choose|m: int| 0 <= m < j && #[trigger] keys@[m]@ == q;
                        assert(keys@[m]@ == q);
                    }
                }
            }
            assert(pending@ =~= p0.remove_keys(first_keys(keys@, j + 1)));
            assert(last@ =~= l0.union_prefer_right(Map::new(|k: Seq<char>| first_keys(keys@, j + 1).contains(k), |k: Seq<char>| now)));
            assert(actions@.subrange(0, a0.len() as int) =~= a0);
        }
        j = j + 1;
    }
    proof {
        let ks = first_keys(keys@, keys@.len() as int);
        assert(ks =~= due_keys(p0, l0, now, interval)) by {
            assert forall|q: Seq<char>| ks.contains(q) implies due_keys(p0, l0, now, interval).contains(q) by {
                let m = choose|m: int| 0 <= m < keys@.len() && #[trigger] keys@[m]@ == q;
            }
            assert forall|q: Seq<char>| due_keys(p0, l0, now, interval).contains(q) implies ks.contains(q) by {
                let m = choose|m: int| 0 <= m < keys@.len() && #[trigger] keys@[m]@ == q;
                assert(keys@[m]@ == q);
            }
        }
        assert(Map::new(|k: Seq<char>| ks.contains(k), |k: Seq<char>| now) =~= Map::new(|k: Seq<char>| due(p0, l0, now, interval, k), |k: Seq<char>| now));
        let sent = actions@.subrange(a0.len() as int, actions@.len() as int);
        assert forall|m: int| 0 <= m < sent.len() implies {
            &&& is_send(#[trigger] sent[m], to_groups, *ip, *username)
            &&& due(p0, l0, now, interval, send_target(sent[m]))
            &&& send_body(sent[m]) == p0[send_target(sent[m])]
        } by {
            assert(sent[m] == actions@[a0.len() + m]);
        }
        assert forall|m1: int, m2: int| 0 <= m1 < m2 < sent.len() implies send_target(#[trigger] sent[m1]) != send_target(#[trigger] sent[m2]) by {
            assert(sent[m1] == actions@[a0.len() + m1]);
            assert(sent[m2] == actions@[a0.len() + m2]);
        }
        assert forall|k: Seq<char>| due(p0, l0, now, interval, k) implies exists|m: int| 0 <= m < sent.len() && send_target(#[trigger] sent[m]) == k by {
            let m = choose|m: int| 0 <= m < keys@.len() && #[trigger] keys@[m]@ == k;
            assert(sent[m] == actions@[a0.len() + m]);
        }
    }
}

/// A light cache after a command for light `id`: the cached light, if any,
/// with the command applied.
pub open spec fn light_cache_after(c: Map<Seq<char>, Light>, id: Seq<char>, b: StateBody) -> Map<Seq<char>, Light> {
    if c.contains_key(id) {
        c.insert(id, applied_light(c[id], b))
    } else {
        c
    }
}

/// A group cache after a command for group `id`.
pub open spec fn group_cache_after(c: Map<Seq<char>, Group>, id: Seq<char>, b: StateBody) -> Map<Seq<char>, Group> {
    if c.contains_key(id) {
        c.insert(id, applied_group(c[id], b))
    } else {
        c
    }
}

/// A command queue after a command for `id`: merged into the one already
/// queued for `id`, or queued.
pub open spec fn queue_after(q: Map<Seq<char>, StateBody>, id: Seq<char>, b: StateBody) -> Map<Seq<char>, StateBody> {
    q.insert(id, if q.contains_key(id) { merged(q[id], b) } else { b })
}

/// A command for light `id` updates the light cache and is queued; nothing
/// else changes.
pub open spec fn light_queued(old: BridgeWorker, new: BridgeWorker, id: Seq<char>, b: StateBody) -> bool {
    &&& new.lights@ == light_cache_after(old.lights@, id, b)
    &&& new.pending_lights@ == queue_after(old.pending_lights@, id, b)
    &&& new.config == old.config && new.connection_state == old.connection_state
    &&& new.groups == old.groups && new.scenes == old.scenes
    &&& new.pending_groups == old.pending_groups
    &&& new.last_light_sent == old.last_light_sent && new.last_group_sent == old.last_group_sent
}

/// A command for group `id` updates the group cache and is queued; nothing
/// else changes.
pub open spec fn group_queued(old: BridgeWorker, new: BridgeWorker, id: Seq<char>, b: StateBody) -> bool {
    &&& new.groups@ == group_cache_after(old.groups@, id, b)
    &&& new.pending_groups@ == queue_after(old.pending_groups@, id, b)
    &&& new.config == old.config && new.connection_state == old.connection_state
    &&& new.lights == old.lights && new.scenes == old.scenes
    &&& new.pending_lights == old.pending_lights
    &&& new.last_light_sent == old.last_light_sent && new.last_group_sent == old.last_group_sent
}

/// A non-empty command for a light or a group is cached, queued and the
/// caches are shown; commands for other targets, and empty ones, do nothing.
pub open spec fn dispatch_post(
    old: BridgeWorker,
    new: BridgeWorker,
    target_type: Seq<char>,
    id: Seq<char>,
    b: StateBody,
    actions: Seq<WorkerAction>,
) -> bool {
    if body_is_empty(b) {
        new == old && actions =~= Seq::<WorkerAction>::empty()
    } else if target_type == "light"@ {
        light_queued(old, new, id, b) && actions =~= seq![WorkerAction::BroadcastDevices]
    } else if target_type == "group"@ {
        group_queued(old, new, id, b) && actions =~= seq![WorkerAction::BroadcastDevices]
    } else {
        new == old && actions =~= Seq::<WorkerAction>::empty()
    }
}

/// The value of an optional field, 0 when absent.
pub open spec fn or_zero_u8(v: Option<u8>) -> u8 {
    match v {
        Some(x) => x,
        None => 0,
    }
}

/// The value of an optional field, 0 when absent.
pub open spec fn or_zero_u16(v: Option<u16>) -> u16 {
    match v {
        Some(x) => x,
        None => 0,
    }
}

/// Whether the cache shows the mapping's target on: the light of that id for
/// a light target, the group of that id otherwise.
pub open spec fn target_on(w: BridgeWorker, m: Mapping) -> bool {
    if m.target_type@ == "light"@ {
        w.lights@.contains_key(m.target_id@) && w.lights@[m.target_id@].state.on == Some(true)
    } else {
        w.groups@.contains_key(m.target_id@) && w.groups@[m.target_id@].action.on == Some(true)
    }
}

/// The cached hue, saturation and brightness of the mapping's target (0 for
/// a field not reported), or `None` when the target is not cached.
pub open spec fn target_hsb(w: BridgeWorker, m: Mapping) -> Option<(u16, u8, u8)> {
    if m.target_type@ == "light"@ {
        if w.lights@.contains_key(m.target_id@) {
            let s = w.lights@[m.target_id@].state;
            Some((or_zero_u16(s.hue), or_zero_u8(s.sat), or_zero_u8(s.bri)))
        } else {
            None
        }
    } else {
        if w.groups@.contains_key(m.target_id@) {
            let s = w.groups@[m.target_id@].action;
            Some((or_zero_u16(s.hue), or_zero_u8(s.sat), or_zero_u8(s.bri)))
        } else {
            None
        }
    }
}

/// A body that recalls a scene.
pub open spec fn scene_body(scene: String) -> StateBody {
    StateBody { on: None, bri: None, hue: None, sat: None, ct: None, scene: Some(scene) }
}

/// The group a scene recall goes to: the group that the cached scene names,
/// or group `0` (all lights) when the scene is not cached or names none.
pub open spec fn recall_group(w: BridgeWorker, scene_id: Seq<char>) -> Seq<char> {
    if w.scenes@.contains_key(scene_id) {
        match w.scenes@[scene_id].group {
            Some(g) => g@,
            None => "0"@,
        }
    } else {
        "0"@
    }
}

/// A MIDI event acts on the bridge: its device maps its key, and the worker
/// is connected.
pub open spec fn event_acts(w: BridgeWorker, e: MidiEvent) -> bool {
    w.config.has_mapping(e.device_name@, e.event_key@) && credentials(w.connection_state) is Some
}

/// Handling the event would invert a scaled value below zero; see
/// [`inversion_underflows`].
pub open spec fn event_underflows(w: BridgeWorker, e: MidiEvent) -> bool {
    event_acts(w, e) && {
        let m = w.config.mapping_of(e.device_name@, e.event_key@);
        inversion_underflows(action_kind(m.action@), m.invert, e.value)
    }
}

/// What a MIDI event does: it is shown to the user interface; then, when its
/// device maps its key and the worker is connected, the mapping's outcome
/// (see [`mapping_outcome`]) is carried out: a command is dispatched (see
/// [`dispatch_post`]), the scene is recalled on its group (see
/// [`recall_group`]), or a colour channel is mixed by the caller.
pub open spec fn midi_post(old: BridgeWorker, new: BridgeWorker, e: MidiEvent, actions: Seq<WorkerAction>) -> bool {
    &&& actions.len() >= 1
    &&& actions[0] == WorkerAction::Gui(GuiMessage::MidiActivity(e))
    &&& {
        let rest = actions.drop_first();
        if event_acts(old, e) {
            let m = old.config.mapping_of(e.device_name@, e.event_key@);
            let (ip, username) = credentials(old.connection_state).unwrap();
            let is_cc = has_prefix(e.event_key@, "CC"@);
            match mapping_outcome(action_kind(m.action@), m.invert, m.auto_on, is_cc, e.value, target_on(old, m)) {
                MidiOutcome::Ignore => new == old && rest =~= Seq::<WorkerAction>::empty(),
                MidiOutcome::Dispatch(b) => dispatch_post(old, new, m.target_type@, m.target_id@, b, rest),
                MidiOutcome::RecallScene => {
                    &&& new == old
                    &&& rest.len() == 1
                    &&& rest[0] matches WorkerAction::SendGroupAction { ip: i, username: u, group_id: g, body }
                    &&& i == ip && u == username && g@ == recall_group(old, m.target_id@) && body == scene_body(m.target_id)
                },
                MidiOutcome::MixColor(c) => {
                    &&& new == old
                    &&& rest =~= seq![WorkerAction::MixColor {
                        target_type: m.target_type,
                        target_id: m.target_id,
                        component: c,
                        value: e.value,
                        invert: m.invert,
                        auto_on: m.auto_on,
                        current: target_hsb(old, m),
                    }]
                },
            }
        } else {
            new == old && rest =~= Seq::<WorkerAction>::empty()
        }
    }
}

/// A scene recall on a group, sent at once when connected.
pub open spec fn recall_post(old: BridgeWorker, group_id: String, scene_id: String, actions: Seq<WorkerAction>) -> bool {
    match credentials(old.connection_state) {
        Some((ip, username)) => actions =~= seq![WorkerAction::SendGroupAction { ip, username, group_id, body: scene_body(scene_id) }],
        None => actions =~= Seq::<WorkerAction>::empty(),
    }
}

/// The MIDI port `port` opened: it becomes the selected device, which is saved,
/// and the status shows live input.
pub open spec fn port_opened_post(old: BridgeWorker, new: BridgeWorker, port: String, actions: Seq<WorkerAction>) -> bool {
    &&& new == BridgeWorker { config: AppConfig { selected_device: port, ..old.config }, ..old }
    &&& actions.len() == 2
    &&& actions[0] == WorkerAction::SaveConfig
    &&& actions[1] matches WorkerAction::Gui(GuiMessage::MidiStatus(st)) && st@ == "Live Input: Active"@
}

/// The MIDI port could not be opened: the status shows the conflict and the
/// error is reported.
pub open spec fn port_failed_post(err: String, actions: Seq<WorkerAction>) -> bool {
    &&& actions.len() == 2
    &&& actions[0] matches WorkerAction::Gui(GuiMessage::MidiStatus(st)) && st@ == "Conflict: Device Busy"@
    &&& actions[1] == WorkerAction::Gui(GuiMessage::Error(err))
}

/// What a message from the user interface (or the MIDI listener) does.
pub open spec fn message_post(old: BridgeWorker, new: BridgeWorker, msg: BgMessage, actions: Seq<WorkerAction>) -> bool {
    match msg {
        BgMessage::ConnectManual(ip) => connect_manual_post(old, new, ip, actions),
        BgMessage::StartAutoDiscovery => new == with_state(old, BridgeConnectionState::Searching)
            && actions =~= seq![notify(BridgeConnectionState::Searching), WorkerAction::Discover],
        BgMessage::ForgetBridge => forget_post(old, new, actions),
        BgMessage::RefreshDevices => new == old && fetch_post(old, FetchKind::Requested, actions),
        BgMessage::SetLightState { light_id, state } => light_queued(old, new, light_id@, state)
            && actions =~= Seq::<WorkerAction>::empty(),
        BgMessage::SetGroupAction { group_id, action } => group_queued(old, new, group_id@, action)
            && actions =~= Seq::<WorkerAction>::empty(),
        BgMessage::RecallScene { group_id, scene_id } => new == old && recall_post(old, group_id, scene_id, actions),
        BgMessage::ChangeMidiPort(port) => new == old && actions =~= seq![WorkerAction::OpenMidiPort(port)],
        BgMessage::UpdateConfig(c) => new == BridgeWorker { config: c, ..old } && actions =~= Seq::<WorkerAction>::empty(),
        BgMessage::MidiInputReceived(e) => midi_post(old, new, e, actions),
    }
}

impl BridgeWorker {
    /// A worker for `config`, in the state that the configuration starts in,
    /// with empty caches and queues.
    pub fn new(config: AppConfig) -> (w: BridgeWorker)
        ensures
            w.config == config,
            initial_connection_state(config.bridge_ip@, config.bridge_username@, w.connection_state),
            w.lights@ == Map::<Seq<char>, Light>::empty(),
            w.groups@ == Map::<Seq<char>, Group>::empty(),
            w.scenes@ == Map::<Seq<char>, Scene>::empty(),
            w.pending_lights@ == Map::<Seq<char>, StateBody>::empty(),
            w.pending_groups@ == Map::<Seq<char>, StateBody>::empty(),
            w.last_light_sent@ == Map::<Seq<char>, u64>::empty(),
            w.last_group_sent@ == Map::<Seq<char>, u64>::empty(),
    {
        let connection_state = startup_connection_state(&config);
        BridgeWorker {
            config,
            connection_state,
            lights: StrMap::new(),
            groups: StrMap::new(),
            scenes: StrMap::new(),
            pending_lights: StrMap::new(),
            pending_groups: StrMap::new(),
            last_light_sent: StrMap::new(),
            last_group_sent: StrMap::new(),
        }
    }

    /// Address and key, when connected.
    pub fn credentials(&self) -> (r: Option<(String, String)>)
        ensures
            r == credentials(self.connection_state),
    {
        match &self.connection_state {
            BridgeConnectionState::Connected { ip, username } => Some((ip.clone(), username.clone())),
            _ => None,
        }
    }

    /// Tick of the pairing timer; see [`pairing_tick_post`].
    pub fn pairing_tick(&mut self) -> (actions: Vec<WorkerAction>)
        ensures
            pairing_tick_post(*old(self), *final(self), actions@),
    {
        let mut actions: Vec<WorkerAction> = Vec::new();
        let waiting: Option<(String, u32)> = match &self.connection_state {
            BridgeConnectionState::NeedsLink { ip, countdown } => Some((ip.clone(), *countdown)),
            _ => None,
        };
        if let Some((ip, countdown)) = waiting {
            if countdown > 0 {
                let c = countdown - 1;
                if c % 3 == 0 {
                    actions.push(WorkerAction::Register { ip, countdown: c });
                } else {
                    self.connection_state = BridgeConnectionState::NeedsLink { ip, countdown: c };
                    actions.push(WorkerAction::Gui(GuiMessage::HueConnectionState(self.connection_state.duplicate())));
                }
            } else {
                self.connection_state = BridgeConnectionState::Idle;
                actions.push(WorkerAction::Gui(GuiMessage::HueConnectionState(BridgeConnectionState::Idle)));
            }
        }
        actions
    }

    /// The outcome of a registration attempt; see [`registration_post`].
    pub fn registration_result(&mut self, ip: String, countdown: u32, outcome: Result<Option<String>, String>) -> (actions: Vec<WorkerAction>)
        ensures
            registration_post(*old(self), *final(self), ip, countdown, outcome, actions@),
    {
        let mut actions: Vec<WorkerAction> = Vec::new();
        match outcome {
            Ok(Some(key)) => {
                self.connection_state = BridgeConnectionState::Connected { ip: ip.clone(), username: key.clone() };
                self.config.bridge_ip = ip;
                self.config.bridge_username = key;
                actions.push(WorkerAction::SaveConfig);
                actions.push(WorkerAction::Gui(GuiMessage::HueConnectionState(self.connection_state.duplicate())));
            },
            Ok(None) => {
                self.connection_state = BridgeConnectionState::NeedsLink { ip, countdown };
                actions.push(WorkerAction::Gui(GuiMessage::HueConnectionState(self.connection_state.duplicate())));
            },
            Err(e) => {
                self.connection_state = BridgeConnectionState::Error(e);
                actions.push(WorkerAction::Gui(GuiMessage::HueConnectionState(self.connection_state.duplicate())));
            },
        }
        actions
    }

    /// Auto-discovery starts: the worker is searching, shows it, and asks for
    /// a discovery.
    pub fn start_discovery(&mut self) -> (actions: Vec<WorkerAction>)
        ensures
            *final(self) == with_state(*old(self), BridgeConnectionState::Searching),
            actions@ == seq![notify(BridgeConnectionState::Searching), WorkerAction::Discover],
    {
        self.connection_state = BridgeConnectionState::Searching;
        let mut actions: Vec<WorkerAction> = Vec::new();
        actions.push(WorkerAction::Gui(GuiMessage::HueConnectionState(BridgeConnectionState::Searching)));
        actions.push(WorkerAction::Discover);
        actions
    }

    /// Discovery results (`None`: the discovery failed); see [`discovery_post`].
    pub fn discovery_result(&mut self, found: Option<Vec<String>>) -> (actions: Vec<WorkerAction>)
        ensures
            discovery_post(*old(self), *final(self), match found { Some(v) => Some(v@), None => None }, actions@),
    {
        let mut actions: Vec<WorkerAction> = Vec::new();
        let first: Option<String> = match &found {
            Some(ips) => if ips.len() > 0 {
                Some(ips[0].clone())
            } else {
                None
            },
            None => None,
        };
        match first {
            Some(ip) => {
                self.connection_state = BridgeConnectionState::NeedsLink { ip: ip.clone(), countdown: LINK_COUNTDOWN };
                self.config.bridge_ip = ip;
                actions.push(WorkerAction::SaveConfig);
            },
            None => {
                self.connection_state = BridgeConnectionState::Idle;
            },
        }
        actions.push(WorkerAction::Gui(GuiMessage::HueConnectionState(self.connection_state.duplicate())));
        actions
    }

    /// A bridge address typed in; see [`connect_manual_post`].
    pub fn connect_manual(&mut self, ip: String) -> (actions: Vec<WorkerAction>)
        ensures
            connect_manual_post(*old(self), *final(self), ip, actions@),
    {
        self.connection_state = BridgeConnectionState::NeedsLink { ip: ip.clone(), countdown: LINK_COUNTDOWN };
        self.config.bridge_ip = ip;
        let mut actions: Vec<WorkerAction> = Vec::new();
        actions.push(WorkerAction::SaveConfig);
        actions.push(WorkerAction::Gui(GuiMessage::HueConnectionState(self.connection_state.duplicate())));
        actions
    }

    /// Forgets the bridge; see [`forget_post`].
    pub fn forget_bridge(&mut self) -> (actions: Vec<WorkerAction>)
        ensures
            forget_post(*old(self), *final(self), actions@),
    {
        self.connection_state = BridgeConnectionState::Idle;
        self.config.bridge_ip = String::new();
        self.config.bridge_username = String::new();
        self.pending_lights.clear();
        self.pending_groups.clear();
        self.last_light_sent.clear();
        self.last_group_sent.clear();
        let mut actions: Vec<WorkerAction> = Vec::new();
        actions.push(WorkerAction::SaveConfig);
        actions.push(WorkerAction::Gui(GuiMessage::HueConnectionState(BridgeConnectionState::Idle)));
        actions
    }

    /// A refresh of the devices (by the timer or on request); see [`fetch_post`].
    pub fn request_devices(&self, kind: FetchKind) -> (actions: Vec<WorkerAction>)
        ensures
            fetch_post(*self, kind, actions@),
    {
        let mut actions: Vec<WorkerAction> = Vec::new();
        if let Some((ip, username)) = self.credentials() {
            actions.push(WorkerAction::FetchDevices { ip, username, kind });
        }
        actions
    }

    /// Fetched devices (`None`: that fetch failed) replace the caches, see
    /// [`refreshed`], and the caches are shown.
    pub fn devices_fetched(
        &mut self,
        kind: FetchKind,
        lights: Option<StrMap<Light>>,
        groups: Option<StrMap<Group>>,
        scenes: Option<StrMap<Scene>>,
    ) -> (actions: Vec<WorkerAction>)
        ensures
            fetched_post(*old(self), *final(self), kind,
                match lights { Some(m) => Some(m@), None => None },
                match groups { Some(m) => Some(m@), None => None },
                match scenes { Some(m) => Some(m@), None => None },
                actions@),
    {
        match lights {
            Some(m) => self.lights = m,
            None => if kind == FetchKind::Requested {
                self.lights = StrMap::new();
            },
        }
        match groups {
            Some(m) => self.groups = m,
            None => if kind == FetchKind::Requested {
                self.groups = StrMap::new();
            },
        }
        match scenes {
            Some(m) => self.scenes = m,
            None => if kind == FetchKind::Requested {
                self.scenes = StrMap::new();
            },
        }
        let mut actions: Vec<WorkerAction> = Vec::new();
        actions.push(WorkerAction::BroadcastDevices);
        actions
    }

    /// Tick of the send timer at `now` (nanoseconds); see [`throttle_post`].
    pub fn throttle_tick(&mut self, now: u64) -> (actions: Vec<WorkerAction>)
        ensures
            throttle_post(*old(self), *final(self), now, actions@),
    {
        let mut actions: Vec<WorkerAction> = Vec::new();
        match self.credentials() {
            None => {},
            Some((ip, username)) => {
                flush_queue(&mut self.pending_lights, &mut self.last_light_sent, now, LIGHT_SEND_INTERVAL_NS,
                    false, &ip, &username, &mut actions);
                let ghost n = actions@.len();
                let ghost after_lights = actions@;
                flush_queue(&mut self.pending_groups, &mut self.last_group_sent, now, GROUP_SEND_INTERVAL_NS,
                    true, &ip, &username, &mut actions);
                proof {
                    assert(actions@.subrange(0, n as int) =~= after_lights);
                    assert(after_lights.subrange(0, n as int) =~= after_lights);
                }
            },
        }
        actions
    }

    fn is_text(s: &String, lit: &str) -> (b: bool)
        ensures
            b == (s@ == lit@),
    {
        *s == String::from_str(lit)
    }

    /// Updates the light cache with a command and queues it; see [`light_queued`].
    pub fn queue_light(&mut self, id: &String, body: StateBody)
        ensures
            light_queued(*old(self), *final(self), id@, body),
    {
        match self.lights.find(id) {
            Some(i) => {
                let (k, mut light) = self.lights.remove_at(i);
                light.state.apply(&body);
                self.lights.insert_at(i, k, light);
                assert(self.lights@ =~= light_cache_after(old(self).lights@, id@, body));
            },
            None => {},
        }
        match self.pending_lights.find(id) {
            Some(i) => {
                let (k, mut queued) = self.pending_lights.remove_at(i);
                queued.merge(body);
                self.pending_lights.insert_at(i, k, queued);
                assert(self.pending_lights@ =~= queue_after(old(self).pending_lights@, id@, body));
            },
            None => {
                self.pending_lights.insert(id.clone(), body);
            },
        }
    }

    /// Updates the group cache with a command and queues it; see [`group_queued`].
    pub fn queue_group(&mut self, id: &String, body: StateBody)
        ensures
            group_queued(*old(self), *final(self), id@, body),
    {
        match self.groups.find(id) {
            Some(i) => {
                let (k, mut group) = self.groups.remove_at(i);
                group.action.apply(&body);
                self.groups.insert_at(i, k, group);
                assert(self.groups@ =~= group_cache_after(old(self).groups@, id@, body));
            },
            None => {},
        }
        match self.pending_groups.find(id) {
            Some(i) => {
                let (k, mut queued) = self.pending_groups.remove_at(i);
                queued.merge(body);
                self.pending_groups.insert_at(i, k, queued);
                assert(self.pending_groups@ =~= queue_after(old(self).pending_groups@, id@, body));
            },
            None => {
                self.pending_groups.insert(id.clone(), body);
            },
        }
    }

    /// Dispatches a command to a light or group; see [`dispatch_post`].
    pub fn dispatch(&mut self, target_type: &String, id: &String, body: StateBody) -> (actions: Vec<WorkerAction>)
        ensures
            dispatch_post(*old(self), *final(self), target_type@, id@, body, actions@),
    {
        let mut actions: Vec<WorkerAction> = Vec::new();
        if body.is_empty() {
            return actions;
        }
        if Self::is_text(target_type, "light") {
            self.queue_light(id, body);
            actions.push(WorkerAction::BroadcastDevices);
        } else if Self::is_text(target_type, "group") {
            self.queue_group(id, body);
            actions.push(WorkerAction::BroadcastDevices);
        }
        actions
    }

    /// Whether the cache shows the mapping's target on; see [`target_on`].
    pub fn target_is_on(&self, m: &Mapping) -> (b: bool)
        ensures
            b == target_on(*self, *m),
    {
        if Self::is_text(&m.target_type, "light") {
            match self.lights.get(&m.target_id) {
                Some(l) => l.state.on == Some(true),
                None => false,
            }
        } else {
            match self.groups.get(&m.target_id) {
                Some(g) => g.action.on == Some(true),
                None => false,
            }
        }
    }

    /// The cached colour of the mapping's target; see [`target_hsb`].
    pub fn target_colour(&self, m: &Mapping) -> (r: Option<(u16, u8, u8)>)
        ensures
            r == target_hsb(*self, *m),
    {
        if Self::is_text(&m.target_type, "light") {
            match self.lights.get(&m.target_id) {
                Some(l) => Some((l.state.hue.unwrap_or(0), l.state.sat.unwrap_or(0), l.state.bri.unwrap_or(0))),
                None => None,
            }
        } else {
            match self.groups.get(&m.target_id) {
                Some(g) => Some((g.action.hue.unwrap_or(0), g.action.sat.unwrap_or(0), g.action.bri.unwrap_or(0))),
                None => None,
            }
        }
    }

    /// Whether handling the event would invert a scaled value below zero;
    /// see [`event_underflows`].
    pub fn event_would_underflow(&self, e: &MidiEvent) -> (b: bool)
        ensures
            b == event_underflows(*self, *e),
    {
        if !self.connection_state.is_connected() {
            return false;
        }
        match self.config.mapping_for(&e.device_name, &e.event_key) {
            None => false,
            Some(m) => inversion_would_underflow(classify_action(&m.action), m.invert, e.value),
        }
    }

    /// The group that scene `scene_id` is recalled on; see [`recall_group`].
    pub fn scene_group(&self, scene_id: &String) -> (g: String)
        ensures
            g@ == recall_group(*self, scene_id@),
    {
        match self.scenes.get(scene_id) {
            Some(sc) => match &sc.group {
                Some(g) => g.clone(),
                None => String::from_str("0"),
            },
            None => String::from_str("0"),
        }
    }

    /// A MIDI event; see [`midi_post`].
    pub fn midi_input(&mut self, e: MidiEvent) -> (actions: Vec<WorkerAction>)
        requires
            !event_underflows(*old(self), e),
        ensures
            midi_post(*old(self), *final(self), e, actions@),
    {
        let mut actions: Vec<WorkerAction> = Vec::new();
        actions.push(WorkerAction::Gui(GuiMessage::MidiActivity(e.duplicate())));
        let creds = self.credentials();
        let found = match self.config.mapping_for(&e.device_name, &e.event_key) {
            Some(m) => Some(m.duplicate()),
            None => None,
        };
        let (m, ip, username) = match (found, creds) {
            (Some(m), Some((ip, username))) => (m, ip, username),
            _ => {
                assert(actions@.drop_first() =~= Seq::<WorkerAction>::empty());
                return actions;
            },
        };
        let kind = classify_action(&m.action);
        let is_cc = starts_with(e.event_key.as_str(), "CC");
        let on = self.target_is_on(&m);
        let outcome = evaluate_mapping(kind, m.invert, m.auto_on, is_cc, e.value, on);
        match outcome {
            MidiOutcome::Ignore => {},
            MidiOutcome::Dispatch(body) => {
                let more = self.dispatch(&m.target_type, &m.target_id, body);
                let mut more = more;
                actions.append(&mut more);
            },
            MidiOutcome::RecallScene => {
                actions.push(WorkerAction::SendGroupAction {
                    ip,
                    username,
                    group_id: self.scene_group(&m.target_id),
                    body: StateBody { on: None, bri: None, hue: None, sat: None, ct: None, scene: Some(m.target_id.clone()) },
                });
            },
            MidiOutcome::MixColor(c) => {
                let current = self.target_colour(&m);
                actions.push(WorkerAction::MixColor {
                    target_type: m.target_type.clone(),
                    target_id: m.target_id.clone(),
                    component: c,
                    value: e.value,
                    invert: m.invert,
                    auto_on: m.auto_on,
                    current,
                });
            },
        }
        assert(actions@.drop_first() =~= actions@.subrange(1, actions@.len() as int));
        actions
    }

    /// The colour that the caller mixed for a [`WorkerAction::MixColor`]:
    /// hue, saturation and brightness (with `on: true` for auto-on) are
    /// dispatched to the target; see [`dispatch_post`].
    pub fn colour_mixed(&mut self, target_type: &String, target_id: &String, hue: u16, sat: u8, bri: u8, auto_on: bool) -> (actions: Vec<WorkerAction>)
        ensures
            dispatch_post(*old(self), *final(self), target_type@, target_id@,
                body_of(auto_on_field(auto_on), Some(bri), Some(hue), Some(sat), None), actions@),
    {
        let body = color_body(hue, sat, bri, auto_on);
        self.dispatch(target_type, target_id, body)
    }

    /// A scene recall; see [`recall_post`].
    pub fn recall_scene(&self, group_id: String, scene_id: String) -> (actions: Vec<WorkerAction>)
        ensures
            recall_post(*self, group_id, scene_id, actions@),
    {
        let mut actions: Vec<WorkerAction> = Vec::new();
        if let Some((ip, username)) = self.credentials() {
            actions.push(WorkerAction::SendGroupAction {
                ip,
                username,
                group_id,
                body: StateBody { on: None, bri: None, hue: None, sat: None, ct: None, scene: Some(scene_id) },
            });
        }
        actions
    }

    /// The MIDI port `port` opened; see [`port_opened_post`].
    pub fn midi_port_opened(&mut self, port: String) -> (actions: Vec<WorkerAction>)
        ensures
            port_opened_post(*old(self), *final(self), port, actions@),
    {
        self.config.selected_device = port;
        let mut actions: Vec<WorkerAction> = Vec::new();
        actions.push(WorkerAction::SaveConfig);
        actions.push(WorkerAction::Gui(GuiMessage::MidiStatus(String::from_str("Live Input: Active"))));
        actions
    }

    /// The MIDI port could not be opened; see [`port_failed_post`].
    pub fn midi_port_failed(&self, err: String) -> (actions: Vec<WorkerAction>)
        ensures
            port_failed_post(err, actions@),
    {
        let mut actions: Vec<WorkerAction> = Vec::new();
        actions.push(WorkerAction::Gui(GuiMessage::MidiStatus(String::from_str("Conflict: Device Busy"))));
        actions.push(WorkerAction::Gui(GuiMessage::Error(err)));
        actions
    }

    /// A message from the user interface or the MIDI listener; see [`message_post`].
    pub fn handle_message(&mut self, msg: BgMessage) -> (actions: Vec<WorkerAction>)
        requires
            msg matches BgMessage::MidiInputReceived(e) ==> !event_underflows(*old(self), e),
        ensures
            message_post(*old(self), *final(self), msg, actions@),
    {
        match msg {
            BgMessage::ConnectManual(ip) => self.connect_manual(ip),
            BgMessage::StartAutoDiscovery => self.start_discovery(),
            BgMessage::ForgetBridge => self.forget_bridge(),
            BgMessage::RefreshDevices => self.request_devices(FetchKind::Requested),
            BgMessage::SetLightState { light_id, state } => {
                self.queue_light(&light_id, state);
                Vec::new()
            },
            BgMessage::SetGroupAction { group_id, action } => {
                self.queue_group(&group_id, action);
                Vec::new()
            },
            BgMessage::RecallScene { group_id, scene_id } => self.recall_scene(group_id, scene_id),
            BgMessage::ChangeMidiPort(port) => {
                let mut actions: Vec<WorkerAction> = Vec::new();
                actions.push(WorkerAction::OpenMidiPort(port));
                actions
            },
            BgMessage::UpdateConfig(c) => {
                self.config = c;
                Vec::new()
            },
            BgMessage::MidiInputReceived(e) => self.midi_input(e),
        }
    }
}

} // verus!

verus! {

/// What is queued is what is sent: a command queued for a light that is due
/// (never sent, or sent at least [`LIGHT_SEND_INTERVAL_NS`] before) goes out
/// at the next tick of the send timer, once, with the queued commands merged,
/// and leaves the queue.
pub proof fn lemma_queued_light_is_sent(
    w0: BridgeWorker,
    w1: BridgeWorker,
    w2: BridgeWorker,
    id: Seq<char>,
    b: StateBody,
    now: u64,
    actions: Seq<WorkerAction>,
)
    requires
        light_queued(w0, w1, id, b),
        throttle_post(w1, w2, now, actions),
        credentials(w1.connection_state) is Some,
        !w1.last_light_sent@.contains_key(id) || now - w1.last_light_sent@[id] >= LIGHT_SEND_INTERVAL_NS,
    ensures
        exists|i: int| 0 <= i < actions.len() && {
            &&& actions[i] is SendLightState
            &&& send_target(actions[i]) == id
            &&& send_body(actions[i]) == queue_after(w0.pending_lights@, id, b)[id]
        },
        !w2.pending_lights@.contains_key(id),
        w2.last_light_sent@[id] == now,
{
    let (ip, username) = credentials(w1.connection_state).unwrap();
    let n = choose|n: int| 0 <= n <= actions.len() && {
        &&& flushed(w1.pending_lights@, w1.last_light_sent@, now, LIGHT_SEND_INTERVAL_NS, false, ip, username,
            w2.pending_lights@, w2.last_light_sent@, actions.subrange(0, n))
        &&& flushed(w1.pending_groups@, w1.last_group_sent@, now, GROUP_SEND_INTERVAL_NS, true, ip, username,
            w2.pending_groups@, w2.last_group_sent@, actions.subrange(n, actions.len() as int))
        &&& w2.config == w1.config && w2.connection_state == w1.connection_state
        &&& w2.lights == w1.lights && w2.groups == w1.groups && w2.scenes == w1.scenes
    };
    let sent = actions.subrange(0, n);
    assert(due(w1.pending_lights@, w1.last_light_sent@, now, LIGHT_SEND_INTERVAL_NS, id));
    let i = choose|i: int| 0 <= i < sent.len() && send_target(#[trigger] sent[i]) == id;
    assert(sent[i] == actions[i]);
    assert(is_send(sent[i], false, ip, username));
    assert(due_keys(w1.pending_lights@, w1.last_light_sent@, now, LIGHT_SEND_INTERVAL_NS).contains(id));
}

/// What is queued is what is sent: a command queued for a group that is due
/// (never sent, or sent at least [`GROUP_SEND_INTERVAL_NS`] before) goes out
/// at the next tick of the send timer, once, with the queued commands merged,
/// and leaves the queue.
pub proof fn lemma_queued_group_is_sent(
    w0: BridgeWorker,
    w1: BridgeWorker,
    w2: BridgeWorker,
    id: Seq<char>,
    b: StateBody,
    now: u64,
    actions: Seq<WorkerAction>,
)
    requires
        group_queued(w0, w1, id, b),
        throttle_post(w1, w2, now, actions),
        credentials(w1.connection_state) is Some,
        !w1.last_group_sent@.contains_key(id) || now - w1.last_group_sent@[id] >= GROUP_SEND_INTERVAL_NS,
    ensures
        exists|i: int| 0 <= i < actions.len() && {
            &&& actions[i] is SendGroupAction
            &&& send_target(actions[i]) == id
            &&& send_body(actions[i]) == queue_after(w0.pending_groups@, id, b)[id]
        },
        !w2.pending_groups@.contains_key(id),
        w2.last_group_sent@[id] == now,
{
    let (ip, username) = credentials(w1.connection_state).unwrap();
    let n = choose|n: int| 0 <= n <= actions.len() && {
        &&& flushed(w1.pending_lights@, w1.last_light_sent@, now, LIGHT_SEND_INTERVAL_NS, false, ip, username,
            w2.pending_lights@, w2.last_light_sent@, actions.subrange(0, n))
        &&& flushed(w1.pending_groups@, w1.last_group_sent@, now, GROUP_SEND_INTERVAL_NS, true, ip, username,
            w2.pending_groups@, w2.last_group_sent@, actions.subrange(n, actions.len() as int))
        &&& w2.config == w1.config && w2.connection_state == w1.connection_state
        &&& w2.lights == w1.lights && w2.groups == w1.groups && w2.scenes == w1.scenes
    };
    let sent = actions.subrange(n, actions.len() as int);
    assert(due(w1.pending_groups@, w1.last_group_sent@, now, GROUP_SEND_INTERVAL_NS, id));
    let i = choose|i: int| 0 <= i < sent.len() && send_target(#[trigger] sent[i]) == id;
    assert(sent[i] == actions[n + i]);
    assert(is_send(sent[i], true, ip, username));
    assert(due_keys(w1.pending_groups@, w1.last_group_sent@, now, GROUP_SEND_INTERVAL_NS).contains(id));
}

/// Commands to one light are spaced by [`LIGHT_SEND_INTERVAL_NS`] and to one
/// group by [`GROUP_SEND_INTERVAL_NS`]: each command that a tick of the send
/// timer sends goes to a device that was not sent to within its interval, and
/// records `now` as that device's send time.
pub proof fn lemma_rate_limited(w0: BridgeWorker, w1: BridgeWorker, now: u64, actions: Seq<WorkerAction>, i: int)
    requires
        throttle_post(w0, w1, now, actions),
        0 <= i < actions.len(),
    ensures
        actions[i] is SendLightState ==> {
            &&& !w0.last_light_sent@.contains_key(send_target(actions[i]))
                || now - w0.last_light_sent@[send_target(actions[i])] >= LIGHT_SEND_INTERVAL_NS
            &&& w1.last_light_sent@.contains_key(send_target(actions[i]))
            &&& w1.last_light_sent@[send_target(actions[i])] == now
        },
        actions[i] is SendGroupAction ==> {
            &&& !w0.last_group_sent@.contains_key(send_target(actions[i]))
                || now - w0.last_group_sent@[send_target(actions[i])] >= GROUP_SEND_INTERVAL_NS
            &&& w1.last_group_sent@.contains_key(send_target(actions[i]))
            &&& w1.last_group_sent@[send_target(actions[i])] == now
        },
{
    let (ip, username) = credentials(w0.connection_state).unwrap();
    let n = choose|n: int| 0 <= n <= actions.len() && {
        &&& flushed(w0.pending_lights@, w0.last_light_sent@, now, LIGHT_SEND_INTERVAL_NS, false, ip, username,
            w1.pending_lights@, w1.last_light_sent@, actions.subrange(0, n))
        &&& flushed(w0.pending_groups@, w0.last_group_sent@, now, GROUP_SEND_INTERVAL_NS, true, ip, username,
            w1.pending_groups@, w1.last_group_sent@, actions.subrange(n, actions.len() as int))
        &&& w1.config == w0.config && w1.connection_state == w0.connection_state
        &&& w1.lights == w0.lights && w1.groups == w0.groups && w1.scenes == w0.scenes
    };
    if i < n {
        let sent = actions.subrange(0, n);
        assert(sent[i] == actions[i]);
        assert(is_send(sent[i], false, ip, username));
    } else {
        let sent = actions.subrange(n, actions.len() as int);
        assert(sent[i - n] == actions[i]);
        assert(is_send(sent[i - n], true, ip, username));
    }
}

/// While the link button is not pressed, every tick of the pairing timer
/// lowers the countdown by one: either directly, or through a registration
/// attempt that reports no key.
pub proof fn lemma_pairing_counts_down(
    w0: BridgeWorker,
    w1: BridgeWorker,
    w2: BridgeWorker,
    a1: Seq<WorkerAction>,
    a2: Seq<WorkerAction>,
    ip: String,
    countdown: u32,
)
    requires
        w0.connection_state == (BridgeConnectionState::NeedsLink { ip, countdown }),
        countdown > 0,
        pairing_tick_post(w0, w1, a1),
        a1.len() > 0 && a1[0] is Register ==> registration_post(w1, w2, a1[0]->Register_ip, a1[0]->Register_countdown, Ok(None), a2),
        !(a1.len() > 0 && a1[0] is Register) ==> w2 == w1,
    ensures
        w2.connection_state == (BridgeConnectionState::NeedsLink { ip, countdown: (countdown - 1) as u32 }),
{
}

/// Once the countdown has run out, the next tick of the pairing timer gives
/// up: the worker goes idle.
pub proof fn lemma_pairing_gives_up(w0: BridgeWorker, w1: BridgeWorker, a1: Seq<WorkerAction>, ip: String)
    requires
        w0.connection_state == (BridgeConnectionState::NeedsLink { ip, countdown: 0 }),
        pairing_tick_post(w0, w1, a1),
    ensures
        w1.connection_state == BridgeConnectionState::Idle,
{
}

/// The address and key that a send action carries.
pub open spec fn send_credentials(a: WorkerAction) -> Option<(String, String)> {
    match a {
        WorkerAction::SendLightState { ip, username, .. } => Some((ip, username)),
        WorkerAction::SendGroupAction { ip, username, .. } => Some((ip, username)),
        _ => None,
    }
}

/// The operation that one step of the worker calls.
#[derive(Debug, Clone, Copy, PartialEq, Eq, Structural)]
pub enum StepKind {
    /// A tick of the pairing timer ([`BridgeWorker::pairing_tick`]).
    PairingTick,
    /// The answer to a registration attempt ([`BridgeWorker::registration_result`]).
    Registration,
    /// The result of a discovery ([`BridgeWorker::discovery_result`]).
    Discovery,
    /// A message ([`BridgeWorker::handle_message`]).
    Message,
    /// A tick of the refresh timer ([`BridgeWorker::request_devices`]).
    Refresh,
    /// Fetched devices ([`BridgeWorker::devices_fetched`]).
    Fetched,
    /// A tick of the send timer ([`BridgeWorker::throttle_tick`]).
    SendTick,
    /// A colour that the caller mixed ([`BridgeWorker::colour_mixed`]).
    ColourMixed,
    /// A MIDI port opened ([`BridgeWorker::midi_port_opened`]).
    PortOpened,
    /// A MIDI port failed to open ([`BridgeWorker::midi_port_failed`]).
    PortFailed,
}

/// One step of the worker: one call of the operation `kind`, `now` being the
/// time of the step (the time that a tick of the send timer is given).
pub open spec fn worker_step(old: BridgeWorker, new: BridgeWorker, actions: Seq<WorkerAction>, now: u64, kind: StepKind) -> bool {
    match kind {
        StepKind::PairingTick => pairing_tick_post(old, new, actions),
        StepKind::Registration => exists|ip: String, countdown: u32, outcome: Result<Option<String>, String>|
            #[trigger] registration_post(old, new, ip, countdown, outcome, actions),
        StepKind::Discovery => exists|found: Option<Seq<String>>| #[trigger] discovery_post(old, new, found, actions),
        StepKind::Message => exists|msg: BgMessage| #[trigger] message_post(old, new, msg, actions),
        StepKind::Refresh => new == old && exists|fk: FetchKind| #[trigger] fetch_post(old, fk, actions),
        StepKind::Fetched => exists|fk: FetchKind, l: Option<Map<Seq<char>, Light>>, g: Option<Map<Seq<char>, Group>>, sc: Option<Map<Seq<char>, Scene>>|
            #[trigger] fetched_post(old, new, fk, l, g, sc, actions),
        StepKind::SendTick => throttle_post(old, new, now, actions),
        StepKind::ColourMixed => exists|tt: Seq<char>, id: Seq<char>, b: StateBody| #[trigger] dispatch_post(old, new, tt, id, b, actions),
        StepKind::PortOpened => exists|port: String| #[trigger] port_opened_post(old, new, port, actions),
        StepKind::PortFailed => new == old && exists|err: String| #[trigger] port_failed_post(err, actions),
    }
}

/// A run of the worker: `ws[k + 1]` follows `ws[k]` by one step of kind
/// `kinds[k]` that yields `acts[k]` at time `times[k]`, and time does not go
/// back.
pub open spec fn worker_run(ws: Seq<BridgeWorker>, kinds: Seq<StepKind>, acts: Seq<Seq<WorkerAction>>, times: Seq<u64>) -> bool {
    &&& ws.len() == acts.len() + 1
    &&& kinds.len() == acts.len()
    &&& times.len() == acts.len()
    &&& forall|k: int| 0 <= k < acts.len() ==> worker_step(ws[k], ws[k + 1], #[trigger] acts[k], times[k], kinds[k])
    &&& forall|k1: int, k2: int| 0 <= k1 <= k2 < times.len() ==> #[trigger] times[k1] <= #[trigger] times[k2]
}

/// `prev` asked for the registration that the step from `old` to `new`
/// answers: it holds a [`WorkerAction::Register`] with the answer's address
/// and countdown.
pub open spec fn answers_register(prev: Seq<WorkerAction>, old: BridgeWorker, new: BridgeWorker, actions: Seq<WorkerAction>) -> bool {
    exists|ip: String, countdown: u32, outcome: Result<Option<String>, String>, i: int|
        #![trigger registration_post(old, new, ip, countdown, outcome, actions), prev[i]]
        0 <= i < prev.len() && prev[i] == (WorkerAction::Register { ip, countdown })
            && registration_post(old, new, ip, countdown, outcome, actions)
}

/// The run is driven as the worker's loop drives it: ticks of the pairing
/// timer are at least [`PAIRING_TICK_NS`] apart, and each registration
/// answer comes in the step right after the pairing tick that asked for it.
pub open spec fn paced_run(ws: Seq<BridgeWorker>, kinds: Seq<StepKind>, acts: Seq<Seq<WorkerAction>>, times: Seq<u64>) -> bool {
    &&& forall|k1: int, k2: int|
        0 <= k1 < k2 < kinds.len() && #[trigger] kinds[k1] == StepKind::PairingTick && #[trigger] kinds[k2] == StepKind::PairingTick
            ==> times[k2] - times[k1] >= PAIRING_TICK_NS
    &&& forall|k: int| 0 <= k < kinds.len() && #[trigger] kinds[k] == StepKind::Registration
            ==> k >= 1 && answers_register(acts[k - 1], ws[k], ws[k + 1], acts[k])
}

/// The connection states that a step other than a pairing tick or a
/// registration answer can lead to: the same state, one that is not
/// connected and not waiting, or a fresh wait for the link button.
pub open spec fn link_move(old: BridgeConnectionState, new: BridgeConnectionState) -> bool {
    match new {
        BridgeConnectionState::Connected { .. } => new == old,
        BridgeConnectionState::NeedsLink { countdown, .. } => new == old || countdown == LINK_COUNTDOWN,
        _ => true,
    }
}

/// A step that sends nothing to a light and keeps both send-time records.
pub open spec fn quiet_step(old: BridgeWorker, new: BridgeWorker, actions: Seq<WorkerAction>) -> bool {
    &&& new.last_light_sent@ == old.last_light_sent@
    &&& new.last_group_sent@ == old.last_group_sent@
    &&& forall|i: int| 0 <= i < actions.len() ==> !(#[trigger] actions[i] is SendLightState)
}

/// Each send action of a step carries the address and key of the state the
/// step starts from.
pub open spec fn sends_use_credentials(old: BridgeWorker, actions: Seq<WorkerAction>) -> bool {
    forall|i: int| 0 <= i < actions.len() && (#[trigger] actions[i] is SendLightState || actions[i] is SendGroupAction)
        ==> credentials(old.connection_state) == send_credentials(actions[i])
}

/// No action asks for a registration.
pub open spec fn no_register(actions: Seq<WorkerAction>) -> bool {
    forall|i: int| 0 <= i < actions.len() ==> !(#[trigger] actions[i] is Register)
}

/// Handling a MIDI event keeps the connection state, sends nothing to a
/// light, keeps the send times, and recalls scenes with the current address
/// and key.
proof fn lemma_midi_step(old: BridgeWorker, new: BridgeWorker, e: MidiEvent, actions: Seq<WorkerAction>)
    requires
        midi_post(old, new, e, actions),
    ensures
        quiet_step(old, new, actions),
        sends_use_credentials(old, actions),
        no_register(actions),
        new.connection_state == old.connection_state,
{
    let rest = actions.drop_first();
    assert forall|i: int| 1 <= i < actions.len() implies #[trigger] actions[i] == rest[i - 1] by {}
}

/// A message sends nothing to a light and asks for no registration; it keeps
/// the send times unless it forgets the bridge; what it sends carries the
/// current address and key.
proof fn lemma_message_step(old: BridgeWorker, new: BridgeWorker, msg: BgMessage, actions: Seq<WorkerAction>)
    requires
        message_post(old, new, msg, actions),
    ensures
        forget_post(old, new, actions) || quiet_step(old, new, actions),
        sends_use_credentials(old, actions),
        no_register(actions),
        link_move(old.connection_state, new.connection_state),
{
    match msg {
        BgMessage::MidiInputReceived(e) => lemma_midi_step(old, new, e, actions),
        _ => {},
    }
}

/// What one step can do: a tick of the send timer flushes the queues,
/// forgetting the bridge clears the send times, and any other step keeps
/// them. Only a tick of the send timer sends to a light, only a tick of the
/// pairing timer asks for a registration, and every send carries the
/// address and key of the state the step starts from.
pub proof fn lemma_step_kinds(old: BridgeWorker, new: BridgeWorker, actions: Seq<WorkerAction>, now: u64, kind: StepKind)
    requires
        worker_step(old, new, actions, now, kind),
    ensures
        kind == StepKind::SendTick || forget_post(old, new, actions) || quiet_step(old, new, actions),
        forall|i: int| 0 <= i < actions.len() && #[trigger] actions[i] is SendLightState ==> kind == StepKind::SendTick,
        forall|i: int| 0 <= i < actions.len() && #[trigger] actions[i] is Register ==> kind == StepKind::PairingTick,
        sends_use_credentials(old, actions),
        kind != StepKind::PairingTick && kind != StepKind::Registration
            ==> link_move(old.connection_state, new.connection_state),
{
    match kind {
        StepKind::SendTick => {
            if credentials(old.connection_state) is Some {
                let (ip, username) = credentials(old.connection_state).unwrap();
                let n = choose|n: int| 0 <= n <= actions.len() && {
                    &&& flushed(old.pending_lights@, old.last_light_sent@, now, LIGHT_SEND_INTERVAL_NS, false, ip, username,
                        new.pending_lights@, new.last_light_sent@, actions.subrange(0, n))
                    &&& flushed(old.pending_groups@, old.last_group_sent@, now, GROUP_SEND_INTERVAL_NS, true, ip, username,
                        new.pending_groups@, new.last_group_sent@, actions.subrange(n, actions.len() as int))
                    &&& new.config == old.config && new.connection_state == old.connection_state
                    &&& new.lights == old.lights && new.groups == old.groups && new.scenes == old.scenes
                };
                assert forall|i: int| 0 <= i < actions.len() implies {
                    &&& (actions[i] is SendLightState || actions[i] is SendGroupAction)
                    &&& credentials(old.connection_state) == send_credentials(#[trigger] actions[i])
                } by {
                    if i < n {
                        let sent = actions.subrange(0, n);
                        assert(sent[i] == actions[i]);
                        assert(is_send(sent[i], false, ip, username));
                    } else {
                        let sent = actions.subrange(n, actions.len() as int);
                        assert(sent[i - n] == actions[i]);
                        assert(is_send(sent[i - n], true, ip, username));
                    }
                }
            }
        },
        StepKind::Message => {
            let msg = choose|msg: BgMessage| #[trigger] message_post(old, new, msg, actions);
            lemma_message_step(old, new, msg, actions);
        },
        _ => {},
    }
}

/// Ticks of the pairing timer among steps `lo` up to (not including) `hi`.
pub open spec fn pairing_ticks(kinds: Seq<StepKind>, lo: int, hi: int) -> nat
    decreases hi - lo,
{
    if hi <= lo {
        0
    } else {
        pairing_ticks(kinds, lo, hi - 1) + if kinds[hi - 1] == StepKind::PairingTick { 1nat } else { 0nat }
    }
}

/// How far pairing can have come with `ticks` ticks of the pairing timer
/// since the bridge was forgotten: a wait for the link button has counted
/// down at most once per tick from [`LINK_COUNTDOWN`], and a connection
/// needs at least two ticks.
pub open spec fn link_progress(s: BridgeConnectionState, ticks: nat) -> bool {
    match s {
        BridgeConnectionState::Connected { .. } => ticks >= 2,
        BridgeConnectionState::NeedsLink { countdown, .. } => countdown <= LINK_COUNTDOWN && countdown + ticks >= LINK_COUNTDOWN,
        _ => true,
    }
}

/// After the bridge is forgotten at step `f`, every later state has come
/// only as far as the pairing ticks since then allow.
proof fn lemma_link_progress(ws: Seq<BridgeWorker>, kinds: Seq<StepKind>, acts: Seq<Seq<WorkerAction>>, times: Seq<u64>, f: int, k: int)
    requires
        worker_run(ws, kinds, acts, times),
        paced_run(ws, kinds, acts, times),
        0 <= f < k <= acts.len(),
        forget_post(ws[f], ws[f + 1], acts[f]),
    ensures
        link_progress(ws[k].connection_state, pairing_ticks(kinds, f + 1, k)),
    decreases k - f,
{
    if k > f + 1 {
        let j = k - 1;
        lemma_link_progress(ws, kinds, acts, times, f, j);
        assert(worker_step(ws[j], ws[k], acts[j], times[j], kinds[j]));
        lemma_step_kinds(ws[j], ws[k], acts[j], times[j], kinds[j]);
        let t = pairing_ticks(kinds, f + 1, j);
        assert(pairing_ticks(kinds, f + 1, k) == t + if kinds[j] == StepKind::PairingTick { 1nat } else { 0nat });
        if kinds[j] == StepKind::Registration {
            assert(j >= 1 && answers_register(acts[j - 1], ws[j], ws[k], acts[j]));
            let (ip, c, o, i) = choose|ip: String, countdown: u32, outcome: Result<Option<String>, String>, i: int|
                #![trigger registration_post(ws[j], ws[k], ip, countdown, outcome, acts[j]), acts[j - 1][i]]
                0 <= i < acts[j - 1].len() && acts[j - 1][i] == (WorkerAction::Register { ip, countdown })
                    && registration_post(ws[j], ws[k], ip, countdown, outcome, acts[j]);
            let p = j - 1;
            assert(acts[p][i] is Register);
            if p == f {
                // The forget asks for no registration.
                assert(!(acts[f][i] is Register));
            } else {
                lemma_link_progress(ws, kinds, acts, times, f, p);
                assert(worker_step(ws[p], ws[j], acts[p], times[p], kinds[p]));
                lemma_step_kinds(ws[p], ws[j], acts[p], times[p], kinds[p]);
                assert(kinds[p] == StepKind::PairingTick);
                assert(t == pairing_ticks(kinds, f + 1, p) + 1);
                match ws[p].connection_state {
                    BridgeConnectionState::NeedsLink { countdown: c0, .. } => {
                        assert(c0 <= 28) by {
                            assert(c0 <= 30 && c0 > 0 && (c0 - 1) % 3 == 0);
                        }
                    },
                    _ => {},
                }
            }
        }
    }
}

/// Two ticks of the pairing timer among steps `lo` up to `hi`, when there
/// are at least two.
proof fn lemma_two_ticks(kinds: Seq<StepKind>, lo: int, hi: int) -> (pq: (int, int))
    requires
        pairing_ticks(kinds, lo, hi) >= 2,
    ensures
        lo <= pq.0 < pq.1 < hi,
        kinds[pq.0] == StepKind::PairingTick,
        kinds[pq.1] == StepKind::PairingTick,
    decreases hi - lo,
{
    if kinds[hi - 1] == StepKind::PairingTick {
        let p = lemma_one_tick(kinds, lo, hi - 1);
        (p, hi - 1)
    } else {
        lemma_two_ticks(kinds, lo, hi - 1)
    }
}

/// A tick of the pairing timer among steps `lo` up to `hi`, when there is one.
proof fn lemma_one_tick(kinds: Seq<StepKind>, lo: int, hi: int) -> (p: int)
    requires
        pairing_ticks(kinds, lo, hi) >= 1,
    ensures
        lo <= p < hi,
        kinds[p] == StepKind::PairingTick,
    decreases hi - lo,
{
    if kinds[hi - 1] == StepKind::PairingTick {
        hi - 1
    } else {
        lemma_one_tick(kinds, lo, hi - 1)
    }
}

/// A send after the bridge was forgotten needs a new connection, and that
/// takes two ticks of the pairing timer: the send comes at least
/// [`PAIRING_TICK_NS`] after anything before the forget.
proof fn lemma_send_after_forget(ws: Seq<BridgeWorker>, kinds: Seq<StepKind>, acts: Seq<Seq<WorkerAction>>, times: Seq<u64>, k1: int, f: int, k2: int, i2: int)
    requires
        worker_run(ws, kinds, acts, times),
        paced_run(ws, kinds, acts, times),
        0 <= k1 < f < k2 < acts.len(),
        forget_post(ws[f], ws[f + 1], acts[f]),
        0 <= i2 < acts[k2].len(),
        acts[k2][i2] is SendLightState || acts[k2][i2] is SendGroupAction,
    ensures
        times[k2] - times[k1] >= PAIRING_TICK_NS,
{
    assert(worker_step(ws[k2], ws[k2 + 1], acts[k2], times[k2], kinds[k2]));
    lemma_step_kinds(ws[k2], ws[k2 + 1], acts[k2], times[k2], kinds[k2]);
    assert(credentials(ws[k2].connection_state) is Some);
    lemma_link_progress(ws, kinds, acts, times, f, k2);
    let (p, q) = lemma_two_ticks(kinds, f + 1, k2);
    assert(times[q] - times[p] >= PAIRING_TICK_NS);
    assert(times[k1] <= times[p]);
    assert(times[q] <= times[k2]);
}

/// The send times of lights (or of groups, for `to_groups`).
pub open spec fn last_sent(w: BridgeWorker, to_groups: bool) -> Map<Seq<char>, u64> {
    if to_groups {
        w.last_group_sent@
    } else {
        w.last_light_sent@
    }
}

/// Once a light (or group) was sent to at `t`, its recorded send time stays
/// at `t` or later until the bridge is forgotten.
proof fn lemma_send_time_kept(
    ws: Seq<BridgeWorker>,
    kinds: Seq<StepKind>,
    acts: Seq<Seq<WorkerAction>>,
    times: Seq<u64>,
    id: Seq<char>,
    to_groups: bool,
    k1: int,
    k: int,
)
    requires
        worker_run(ws, kinds, acts, times),
        0 <= k1 < k <= acts.len(),
        last_sent(ws[k1 + 1], to_groups).contains_key(id),
        last_sent(ws[k1 + 1], to_groups)[id] >= times[k1],
        forall|j: int| k1 < j < k ==> !forget_post(ws[j], ws[j + 1], #[trigger] acts[j]),
    ensures
        last_sent(ws[k], to_groups).contains_key(id),
        last_sent(ws[k], to_groups)[id] >= times[k1],
    decreases k - k1,
{
    if k > k1 + 1 {
        let j = k - 1;
        lemma_send_time_kept(ws, kinds, acts, times, id, to_groups, k1, j);
        assert(worker_step(ws[j], ws[j + 1], acts[j], times[j], kinds[j]));
        assert(!forget_post(ws[j], ws[j + 1], acts[j]));
        assert(times[k1] <= times[j]);
        lemma_step_kinds(ws[j], ws[j + 1], acts[j], times[j], kinds[j]);
    }
}

/// Two sends by the send timer to one light (or group) with no forget in
/// between are at least the send interval apart.
proof fn lemma_spaced_between_forgets(
    ws: Seq<BridgeWorker>,
    kinds: Seq<StepKind>,
    acts: Seq<Seq<WorkerAction>>,
    times: Seq<u64>,
    id: Seq<char>,
    to_groups: bool,
    k1: int,
    i1: int,
    k2: int,
    i2: int,
)
    requires
        worker_run(ws, kinds, acts, times),
        0 <= k1 < k2 < acts.len(),
        0 <= i1 < acts[k1].len(),
        0 <= i2 < acts[k2].len(),
        kinds[k1] == StepKind::SendTick,
        kinds[k2] == StepKind::SendTick,
        if to_groups { acts[k1][i1] is SendGroupAction } else { acts[k1][i1] is SendLightState },
        if to_groups { acts[k2][i2] is SendGroupAction } else { acts[k2][i2] is SendLightState },
        send_target(acts[k1][i1]) == id,
        send_target(acts[k2][i2]) == id,
        forall|j: int| k1 < j < k2 ==> !forget_post(ws[j], ws[j + 1], #[trigger] acts[j]),
    ensures
        times[k2] - times[k1] >= if to_groups { GROUP_SEND_INTERVAL_NS } else { LIGHT_SEND_INTERVAL_NS },
{
    assert(worker_step(ws[k1], ws[k1 + 1], acts[k1], times[k1], kinds[k1]));
    assert(worker_step(ws[k2], ws[k2 + 1], acts[k2], times[k2], kinds[k2]));
    lemma_rate_limited(ws[k1], ws[k1 + 1], times[k1], acts[k1], i1);
    lemma_send_time_kept(ws, kinds, acts, times, id, to_groups, k1, k2);
    lemma_rate_limited(ws[k2], ws[k2 + 1], times[k2], acts[k2], i2);
}

/// Over any run driven as the worker's loop drives it, two commands to one
/// light are at least [`LIGHT_SEND_INTERVAL_NS`] apart. Between two such
/// commands with a forget in between lie a new connection and so two ticks
/// of the pairing timer.
pub proof fn lemma_light_sends_spaced(
    ws: Seq<BridgeWorker>,
    kinds: Seq<StepKind>,
    acts: Seq<Seq<WorkerAction>>,
    times: Seq<u64>,
    id: Seq<char>,
    k1: int,
    i1: int,
    k2: int,
    i2: int,
)
    requires
        worker_run(ws, kinds, acts, times),
        paced_run(ws, kinds, acts, times),
        0 <= k1 < k2 < acts.len(),
        0 <= i1 < acts[k1].len(),
        0 <= i2 < acts[k2].len(),
        acts[k1][i1] is SendLightState && send_target(acts[k1][i1]) == id,
        acts[k2][i2] is SendLightState && send_target(acts[k2][i2]) == id,
    ensures
        times[k2] - times[k1] >= LIGHT_SEND_INTERVAL_NS,
{
    if exists|f: int| k1 < f < k2 && #[trigger] forget_post(ws[f], ws[f + 1], acts[f]) {
        let f = choose|f: int| k1 < f < k2 && #[trigger] forget_post(ws[f], ws[f + 1], acts[f]);
        lemma_send_after_forget(ws, kinds, acts, times, k1, f, k2, i2);
    } else {
        assert(worker_step(ws[k1], ws[k1 + 1], acts[k1], times[k1], kinds[k1]));
        assert(worker_step(ws[k2], ws[k2 + 1], acts[k2], times[k2], kinds[k2]));
        lemma_step_kinds(ws[k1], ws[k1 + 1], acts[k1], times[k1], kinds[k1]);
        lemma_step_kinds(ws[k2], ws[k2 + 1], acts[k2], times[k2], kinds[k2]);
        lemma_spaced_between_forgets(ws, kinds, acts, times, id, false, k1, i1, k2, i2);
    }
}

/// Over any run driven as the worker's loop drives it, two commands that
/// the send timer sends to one group are at least [`GROUP_SEND_INTERVAL_NS`]
/// apart. (Scene recalls go out at once and are not spaced.)
pub proof fn lemma_group_sends_spaced(
    ws: Seq<BridgeWorker>,
    kinds: Seq<StepKind>,
    acts: Seq<Seq<WorkerAction>>,
    times: Seq<u64>,
    id: Seq<char>,
    k1: int,
    i1: int,
    k2: int,
    i2: int,
)
    requires
        worker_run(ws, kinds, acts, times),
        paced_run(ws, kinds, acts, times),
        0 <= k1 < k2 < acts.len(),
        0 <= i1 < acts[k1].len(),
        0 <= i2 < acts[k2].len(),
        kinds[k1] == StepKind::SendTick,
        kinds[k2] == StepKind::SendTick,
        acts[k1][i1] is SendGroupAction && send_target(acts[k1][i1]) == id,
        acts[k2][i2] is SendGroupAction && send_target(acts[k2][i2]) == id,
    ensures
        times[k2] - times[k1] >= GROUP_SEND_INTERVAL_NS,
{
    if exists|f: int| k1 < f < k2 && #[trigger] forget_post(ws[f], ws[f + 1], acts[f]) {
        let f = choose|f: int| k1 < f < k2 && #[trigger] forget_post(ws[f], ws[f + 1], acts[f]);
        lemma_send_after_forget(ws, kinds, acts, times, k1, f, k2, i2);
    } else {
        lemma_spaced_between_forgets(ws, kinds, acts, times, id, true, k1, i1, k2, i2);
    }
}

/// Over any run, every command sent to a light or a group carries the
/// address and key of the connected state that the worker was in when it
/// sent it; while the worker is not connected nothing is sent.
pub proof fn lemma_sends_use_current_credentials(
    ws: Seq<BridgeWorker>,
    kinds: Seq<StepKind>,
    acts: Seq<Seq<WorkerAction>>,
    times: Seq<u64>,
    k: int,
    i: int,
)
    requires
        worker_run(ws, kinds, acts, times),
        0 <= k < acts.len(),
        0 <= i < acts[k].len(),
        acts[k][i] is SendLightState || acts[k][i] is SendGroupAction,
    ensures
        credentials(ws[k].connection_state) == send_credentials(acts[k][i]),
{
    assert(worker_step(ws[k], ws[k + 1], acts[k], times[k], kinds[k]));
    lemma_step_kinds(ws[k], ws[k + 1], acts[k], times[k], kinds[k]);
}

} // verus!
