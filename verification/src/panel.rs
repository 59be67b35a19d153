use vstd::prelude::*;
use vstd::string::StringExecFns;

use crate::pairing::{
    first_with_id, has_device, is_first_with_id, lemma_first_with_id, lemma_upsert_contains,
    upsert_device, upserted, PairedDevice, PairingStore,
};
use crate::pairing_service::{
    DiscoveredDevice, IncomingPairRequest, PairingEvent, DEFAULT_CONTROL_PORT, DEFAULT_VIDEO_PORT,
};
use crate::text::{decimal_digits, u32_to_decimal};

verus! {

/// How long a discovered phone stays listed without answering again, in milliseconds.
pub const DISCOVERED_TTL_MS: u64 = 15000;

/// A phone found by discovery and when it was last heard from (milliseconds on a monotonic clock).
#[derive(Debug, Clone, PartialEq, Eq)]
pub struct UiDiscoveredDevice {
    pub device: DiscoveredDevice,
    pub last_seen_ms: u64,
}

/// The status line of the control panel.
#[derive(Debug, Clone, PartialEq, Eq)]
pub enum PanelStatus {
    Idle,
    PairingServiceFailed(String),
    SaveFailed(String),
    InputListenFailed(String),
    StreamStarted(String),
    StreamFailed(String),
    QrFailed(String),
    ControlStopped,
    WaitingForPairing,
    InvalidRequestRejected,
    PairSucceeded(String),
    PairRefused,
    ServiceError(String),
    PairRequestSent,
    IncomingRejected,
    IncomingAccepted,
}

/// What the control panel asks to be done, in order.
#[derive(Debug, Clone, PartialEq, Eq)]
pub enum PanelAction<A> {
    /// Answer a pair request (answers to requests found while handling events are sent once
    /// all events are handled).
    Reply { request: IncomingPairRequest<A>, accepted: bool },
    /// Save the pairing store.
    SaveStore,
    /// Start streaming to a device, unless a stream runs.
    StartStream(PairedDevice),
    /// Show a status, after the actions before it.
    Status(PanelStatus),
}

/// What toggling control asks to be done.
#[derive(Debug, Clone, PartialEq, Eq)]
pub enum ControlToggle {
    /// Control was switched off: stop streaming and input.
    Stop,
    /// Control is being switched on: listen for input on `control_port`.
    StartInput { video_port: u16, control_port: u16 },
}

/// The state of the PC's control panel: whether control is on, the saved and discovered
/// phones, the pending pair request and the current pairing offer. `A` is the address type
/// of pair requests.
pub struct ControlPanel<A> {
    pub control_enabled: bool,
    pub streaming: bool,
    pub input_listening: bool,
    pub status: PanelStatus,
    pub store: PairingStore,
    pub selected_device_id: Option<String>,
    pub discovered: Vec<UiDiscoveredDevice>,
    pub pending_incoming: Option<IncomingPairRequest<A>>,
    pub pairing_payload: String,
    pub active_pair_token: Option<String>,
}

/// The index of the device shown as selected: the first device with the selected id, or
/// else the first device, or none when the list is empty.
pub open spec fn selected_index(devices: Seq<PairedDevice>, selected: Option<String>) -> Option<int> {
    match selected {
        Some(id) => if has_device(devices, id@) {
            Some(first_with_id(devices, id@))
        } else if devices.len() > 0 {
            Some(0)
        } else {
            None
        },
        None => if devices.len() > 0 {
            Some(0)
        } else {
            None
        },
    }
}

/// The ports control starts with: the selected device's video and control ports, with 0
/// meaning the default; the defaults when no device is selected.
pub open spec fn control_ports(device: Option<PairedDevice>) -> (u16, u16) {
    match device {
        Some(d) => (
            if d.port == 0 {
                DEFAULT_VIDEO_PORT
            } else {
                d.port
            },
            if d.control_port == 0 {
                DEFAULT_CONTROL_PORT
            } else {
                d.control_port
            },
        ),
        None => (DEFAULT_VIDEO_PORT, DEFAULT_CONTROL_PORT),
    }
}

/// Control starts on the selected device's own ports: its stored video port and its stored
/// control port, each replaced by the default only when it is 0. The control port does not
/// depend on the video port, nor the video port on the control port; without a selected
/// device the defaults are used.
pub proof fn lemma_control_ports_follow_device(d: PairedDevice, e: PairedDevice)
    ensures
        d.control_port != 0 ==> control_ports(Some(d)).1 == d.control_port,
        d.control_port == 0 ==> control_ports(Some(d)).1 == DEFAULT_CONTROL_PORT,
        d.port != 0 ==> control_ports(Some(d)).0 == d.port,
        d.port == 0 ==> control_ports(Some(d)).0 == DEFAULT_VIDEO_PORT,
        d.control_port == e.control_port ==> control_ports(Some(d)).1 == control_ports(Some(e)).1,
        d.port == e.port ==> control_ports(Some(d)).0 == control_ports(Some(e)).0,
        control_ports(None) == (DEFAULT_VIDEO_PORT, DEFAULT_CONTROL_PORT),
{
}

/// Hearing from a phone leaves an entry holding exactly the device as heard, stamped
/// `now_ms`, at the first place with its id; every entry with another id is kept in place,
/// and the list grows by one exactly when the phone was not listed. Hearing from a device
/// that is not a phone changes nothing.
pub proof fn lemma_discovered_after_records_device(
    list: Seq<UiDiscoveredDevice>,
    d: DiscoveredDevice,
    now_ms: u64,
)
    ensures
        d.from@ != "phone"@ ==> discovered_after(list, d, now_ms) == list,
        d.from@ == "phone"@ ==> ({
            let r = discovered_after(list, d, now_ms);
            &&& exists|i: int|
                is_first_discovered(r, d.device_id@, i) && r[i] == UiDiscoveredDevice {
                    device: d,
                    last_seen_ms: now_ms,
                }
            &&& r.len() == list.len() + if has_discovered(list, d.device_id@) {
                0int
            } else {
                1int
            }
            &&& forall|j: int|
                0 <= j < list.len() && list[j].device.device_id@ != d.device_id@ ==> #[trigger] r[j]
                    == list[j]
        }),
{
    let id = d.device_id@;
    let e = UiDiscoveredDevice { device: d, last_seen_ms: now_ms };
    if d.from@ == "phone"@ {
        let r = discovered_after(list, d, now_ms);
        if has_discovered(list, id) {
            let k = choose|k: int| 0 <= k < list.len() && (#[trigger] list[k]).device.device_id@ == id;
            lemma_first_discovered_exists(list, id, k);
            let f = choose|f: int| is_first_discovered(list, id, f);
            assert(r == list.update(f, e));
            assert(is_first_discovered(r, id, f)) by {
                assert forall|j: int| 0 <= j < f implies (#[trigger] r[j]).device.device_id@ != id by {
                    assert(r[j] == list[j]);
                }
            }
        } else {
            let l = list.len() as int;
            assert(r == list.push(e));
            assert(is_first_discovered(r, id, l)) by {
                assert forall|j: int| 0 <= j < l implies (#[trigger] r[j]).device.device_id@ != id by {
                    assert(r[j] == list[j]);
                }
            }
        }
    }
}

/// When some entry has the id `id`, a first one exists.
proof fn lemma_first_discovered_exists(list: Seq<UiDiscoveredDevice>, id: Seq<char>, k: int)
    requires
        0 <= k < list.len(),
        list[k].device.device_id@ == id,
    ensures
        exists|f: int| is_first_discovered(list, id, f),
    decreases k,
{
    if exists|j: int| 0 <= j < k && (#[trigger] list[j]).device.device_id@ == id {
        let j = choose|j: int| 0 <= j < k && (#[trigger] list[j]).device.device_id@ == id;
        lemma_first_discovered_exists(list, id, j);
    } else {
        assert(is_first_discovered(list, id, k));
    }
}

/// The address text a device streams to: its IP, a colon and its video port.
pub open spec fn stream_addr(d: PairedDevice) -> Seq<char> {
    d.ip@ + seq![':'] + decimal_digits(d.port as nat)
}

/// Whether a pair request carries the token of the current pairing offer.
pub open spec fn token_ok(active: Option<String>, token: Option<String>) -> bool {
    match (active, token) {
        (Some(e), Some(a)) => e@ == a@,
        _ => false,
    }
}

/// Whether an entry is still listed at time `now_ms`.
pub open spec fn still_fresh(e: UiDiscoveredDevice, now_ms: u64) -> bool {
    now_ms <= e.last_seen_ms || now_ms - e.last_seen_ms <= DISCOVERED_TTL_MS
}

/// Whether some discovered entry has the id `id`.
pub open spec fn has_discovered(list: Seq<UiDiscoveredDevice>, id: Seq<char>) -> bool {
    exists|i: int| 0 <= i < list.len() && (#[trigger] list[i]).device.device_id@ == id
}

/// Whether `i` is the first index of a discovered entry with id `id`.
pub open spec fn is_first_discovered(list: Seq<UiDiscoveredDevice>, id: Seq<char>, i: int) -> bool {
    &&& 0 <= i < list.len()
    &&& list[i].device.device_id@ == id
    &&& forall|j: int| 0 <= j < i ==> (#[trigger] list[j]).device.device_id@ != id
}

/// The discovered list after hearing from `d` at `now_ms`: a phone's first entry with its id
/// is refreshed, or a new entry is appended; devices that are not phones are not listed.
pub open spec fn discovered_after(
    list: Seq<UiDiscoveredDevice>,
    d: DiscoveredDevice,
    now_ms: u64,
) -> Seq<UiDiscoveredDevice> {
    let e = UiDiscoveredDevice { device: d, last_seen_ms: now_ms };
    if d.from@ != "phone"@ {
        list
    } else if has_discovered(list, d.device_id@) {
        list.update(choose|i: int| is_first_discovered(list, d.device_id@, i), e)
    } else {
        list.push(e)
    }
}

/// Whether no two discovered entries share an id.
pub open spec fn discovered_ids_unique(list: Seq<UiDiscoveredDevice>) -> bool {
    forall|i: int, j: int|
        0 <= i < list.len() && 0 <= j < list.len() && i != j ==> (#[trigger] list[i]).device.device_id@
            != (#[trigger] list[j]).device.device_id@
}

/// Copies a device record field by field.
pub fn clone_device(d: &PairedDevice) -> (r: PairedDevice)
    ensures
        r == *d,
{
    PairedDevice {
        name: d.name.clone(),
        ip: d.ip.clone(),
        port: d.port,
        control_port: d.control_port,
        device_id: d.device_id.clone(),
    }
}

/// Whether the active pairing token and a request's token are both present and equal.
pub fn pair_token_matches(active: &Option<String>, token: &Option<String>) -> (r: bool)
    ensures
        r == token_ok(*active, *token),
{
    match (active, token) {
        (Some(expected), Some(actual)) => *expected == *actual,
        _ => false,
    }
}

/// The address text to stream to for a device.
pub fn remote_addr(device: &PairedDevice) -> (r: String)
    ensures
        r@ == stream_addr(*device),
{
    let mut s = device.ip.clone();
    s.push(':');
    let port = u32_to_decimal(device.port as u32);
    s.append(port.as_str());
    assert(s@ =~= stream_addr(*device));
    s
}

fn clone_discovered(e: &UiDiscoveredDevice) -> (r: UiDiscoveredDevice)
    ensures
        r == *e,
{
    UiDiscoveredDevice {
        device: DiscoveredDevice {
            device_id: e.device.device_id.clone(),
            device_name: e.device.device_name.clone(),
            from: e.device.from.clone(),
            ip: e.device.ip.clone(),
            video_port: e.device.video_port,
            control_port: e.device.control_port,
        },
        last_seen_ms: e.last_seen_ms,
    }
}

/// Whether an entry last heard from at `last_seen_ms` is still listed at `now_ms`.
pub fn is_fresh(last_seen_ms: u64, now_ms: u64) -> (r: bool)
    ensures
        r == (now_ms <= last_seen_ms || now_ms - last_seen_ms <= DISCOVERED_TTL_MS),
{
    now_ms <= last_seen_ms || now_ms - last_seen_ms <= DISCOVERED_TTL_MS
}

fn first_device_with_id(devices: &Vec<PairedDevice>, id: &String) -> (r: Option<usize>)
    ensures
        r is Some <==> has_device(devices@, id@),
        r matches Some(i) ==> i == first_with_id(devices@, id@),
{
    let mut i: usize = 0;
    while i < devices.len()
        invariant
            i <= devices@.len(),
            forall|j: int| 0 <= j < i ==> (#[trigger] devices@[j]).device_id@ != id@,
        decreases devices@.len() - i,
    {
        if devices[i].device_id == *id {
            proof {
                assert(is_first_with_id(devices@, id@, i as int));
                lemma_first_with_id(devices@, id@);
                let f = first_with_id(devices@, id@);
                if f < i {
                    assert(devices@[f].device_id@ != id@);
                }
                if f > i {
                    assert(devices@[i as int].device_id@ != id@);
                }
            }
            return Some(i);
        }
        i = i + 1;
    }
    proof {
        if has_device(devices@, id@) {
            let k = choose|k: int| 0 <= k < devices@.len() && (#[trigger] devices@[k]).device_id@ == id@;
            assert(devices@[k].device_id@ != id@);
        }
    }
    None
}

impl<A> ControlPanel<A> {
    /// The panel after loading the saved store: control off, the first saved device selected,
    /// nothing discovered, pending or offered.
    pub fn new(store: PairingStore) -> (r: Self)
        ensures
            !r.control_enabled && !r.streaming && !r.input_listening,
            r.status == PanelStatus::Idle,
            r.store == store,
            r.selected_device_id == (if store.devices@.len() > 0 {
                Some(store.devices@[0].device_id)
            } else {
                None::<String>
            }),
            r.discovered@.len() == 0,
            r.pending_incoming is None,
            r.pairing_payload@.len() == 0,
            r.active_pair_token is None,
    {
        let selected = if store.devices.len() > 0 {
            Some(store.devices[0].device_id.clone())
        } else {
            None
        };
        ControlPanel {
            control_enabled: false,
            streaming: false,
            input_listening: false,
            status: PanelStatus::Idle,
            store,
            selected_device_id: selected,
            discovered: Vec::new(),
            pending_incoming: None,
            pairing_payload: String::new(),
            active_pair_token: None,
        }
    }

    /// The index of the selected device in the store, if any.
    pub fn selected_device(&self) -> (r: Option<usize>)
        ensures
            r is None <==> selected_index(self.store.devices@, self.selected_device_id) is None,
            r matches Some(i) ==> selected_index(self.store.devices@, self.selected_device_id) == Some(
                i as int,
            ),
            r matches Some(i) ==> i < self.store.devices@.len(),
            selected_index(self.store.devices@, self.selected_device_id) matches Some(i) ==> 0 <= i
                < self.store.devices@.len(),
    {
        if let Some(id) = &self.selected_device_id {
            proof {
                if has_device(self.store.devices@, id@) {
                    lemma_first_with_id(self.store.devices@, id@);
                }
            }
            if let Some(i) = first_device_with_id(&self.store.devices, id) {
                proof {
                    lemma_first_with_id(self.store.devices@, id@);
                }
                return Some(i);
            }
        }
        if self.store.devices.len() > 0 {
            Some(0)
        } else {
            None
        }
    }

    /// A copy of the selected device, if any.
    pub fn selected_device_clone(&self) -> (r: Option<PairedDevice>)
        ensures
            r == (match selected_index(self.store.devices@, self.selected_device_id) {
                Some(i) => Some(self.store.devices@[i]),
                None => None::<PairedDevice>,
            }),
    {
        let sel = self.selected_device();
        match sel {
            Some(i) => {
                Some(clone_device(&self.store.devices[i]))
            },
            None => None,
        }
    }

    /// The video and control ports control starts with.
    pub fn current_ports_for_control(&self) -> (r: (u16, u16))
        ensures
            r == control_ports(
                match selected_index(self.store.devices@, self.selected_device_id) {
                    Some(i) => Some(self.store.devices@[i]),
                    None => None::<PairedDevice>,
                },
            ),
            selected_index(self.store.devices@, self.selected_device_id) matches Some(i) ==> (r.1
                == if self.store.devices@[i].control_port != 0 {
                self.store.devices@[i].control_port
            } else {
                DEFAULT_CONTROL_PORT
            } && r.0 == if self.store.devices@[i].port != 0 {
                self.store.devices@[i].port
            } else {
                DEFAULT_VIDEO_PORT
            }),
    {
        match self.selected_device() {
            Some(i) => {
                let device = &self.store.devices[i];
                let video = if device.port == 0 {
                    DEFAULT_VIDEO_PORT
                } else {
                    device.port
                };
                let control = if device.control_port == 0 {
                    DEFAULT_CONTROL_PORT
                } else {
                    device.control_port
                };
                (video, control)
            },
            None => (DEFAULT_VIDEO_PORT, DEFAULT_CONTROL_PORT),
        }
    }
}

impl<A> ControlPanel<A> {
    /// Records hearing from a discovered device at `now_ms` (only phones are listed).
    pub fn upsert_discovered(&mut self, device: DiscoveredDevice, now_ms: u64)
        ensures
            final(self).discovered@ == discovered_after(old(self).discovered@, device, now_ms),
            final(self).store == old(self).store,
            final(self).selected_device_id == old(self).selected_device_id,
            final(self).status == old(self).status,
            final(self).pending_incoming == old(self).pending_incoming,
            final(self).active_pair_token == old(self).active_pair_token,
            final(self).control_enabled == old(self).control_enabled,
            final(self).streaming == old(self).streaming,
            final(self).input_listening == old(self).input_listening,
            final(self).pairing_payload == old(self).pairing_payload,
    {
        if !device.from.as_str().eq("phone") {
            return;
        }
        let ghost id = device.device_id@;
        let n = self.discovered.len();
        let mut i: usize = 0;
        while i < n
            invariant
                n == self.discovered@.len(),
                self.discovered@ == old(self).discovered@,
                self.store == old(self).store,
                self.selected_device_id == old(self).selected_device_id,
                self.status == old(self).status,
                self.pending_incoming == old(self).pending_incoming,
                self.active_pair_token == old(self).active_pair_token,
                self.control_enabled == old(self).control_enabled,
                self.streaming == old(self).streaming,
                self.input_listening == old(self).input_listening,
                self.pairing_payload == old(self).pairing_payload,
                i <= n,
                id == device.device_id@,
                device.from@ == "phone"@,
                forall|j: int| 0 <= j < i ==> (#[trigger] self.discovered@[j]).device.device_id@ != id,
            decreases n - i,
        {
            if self.discovered[i].device.device_id == device.device_id {
                proof {
                    assert(is_first_discovered(self.discovered@, id, i as int));
                    let f = choose|f: int| is_first_discovered(self.discovered@, id, f);
                    if f < i {
                        assert(self.discovered@[f].device.device_id@ != id);
                    }
                    if f > i {
                        assert(self.discovered@[i as int].device.device_id@ != id);
                    }
                }
                self.discovered.set(i, UiDiscoveredDevice { device, last_seen_ms: now_ms });
                return;
            }
            i = i + 1;
        }
        proof {
            if has_discovered(self.discovered@, id) {
                let k = choose|k: int|
                    0 <= k < self.discovered@.len() && (#[trigger] self.discovered@[k]).device.device_id@
                        == id;
                assert(self.discovered@[k].device.device_id@ != id);
            }
        }
        self.discovered.push(UiDiscoveredDevice { device, last_seen_ms: now_ms });
    }

    /// Drops the discovered phones not heard from within `DISCOVERED_TTL_MS` of `now_ms`.
    pub fn prune_discovered(&mut self, now_ms: u64)
        ensures
            final(self).discovered@ == old(self).discovered@.filter(
                |e: UiDiscoveredDevice| still_fresh(e, now_ms),
            ),
            final(self).store == old(self).store,
            final(self).selected_device_id == old(self).selected_device_id,
            final(self).status == old(self).status,
            final(self).pending_incoming == old(self).pending_incoming,
            final(self).active_pair_token == old(self).active_pair_token,
            final(self).control_enabled == old(self).control_enabled,
            final(self).streaming == old(self).streaming,
            final(self).input_listening == old(self).input_listening,
            final(self).pairing_payload == old(self).pairing_payload,
    {
        let ghost pred = |e: UiDiscoveredDevice| still_fresh(e, now_ms);
        let mut kept: Vec<UiDiscoveredDevice> = Vec::new();
        let n = self.discovered.len();
        let mut i: usize = 0;
        while i < n
            invariant
                n == self.discovered@.len(),
                self.discovered@ == old(self).discovered@,
                i <= n,
                pred == (|e: UiDiscoveredDevice| still_fresh(e, now_ms)),
                kept@ == self.discovered@.take(i as int).filter(pred),
            decreases n - i,
        {
            proof {
                reveal_with_fuel(Seq::<UiDiscoveredDevice>::filter, 1);
                assert(self.discovered@.take(i + 1).drop_last() =~= self.discovered@.take(i as int));
            }
            if is_fresh(self.discovered[i].last_seen_ms, now_ms) {
                kept.push(clone_discovered(&self.discovered[i]));
            }
            i = i + 1;
        }
        assert(self.discovered@.take(n as int) =~= self.discovered@);
        self.discovered = kept;
    }

    /// Records a newly paired device: it is added to the store, or replaces the first device
    /// with its id, and becomes the selected device when none was selected. Gives the device
    /// to stream to when control is on and no stream runs.
    pub fn record_paired_device(
        &mut self,
        device_id: String,
        device_name: String,
        ip: String,
        video_port: u16,
        control_port: u16,
    ) -> (r: Option<PairedDevice>)
        ensures
            ({
                let d = PairedDevice { name: device_name, ip, port: video_port, control_port, device_id };
                &&& final(self).store.devices@ == upserted(old(self).store.devices@, d)
                &&& final(self).selected_device_id == (match old(self).selected_device_id {
                    Some(id) => Some(id),
                    None => Some(device_id),
                })
                &&& r == (if old(self).control_enabled && !old(self).streaming {
                    Some(d)
                } else {
                    None::<PairedDevice>
                })
            }),
            final(self).discovered == old(self).discovered,
            final(self).status == old(self).status,
            final(self).pending_incoming == old(self).pending_incoming,
            final(self).active_pair_token == old(self).active_pair_token,
            final(self).pairing_payload == old(self).pairing_payload,
            final(self).control_enabled == old(self).control_enabled,
            final(self).streaming == old(self).streaming,
            final(self).input_listening == old(self).input_listening,
    {
        let selected = device_id.clone();
        let d = PairedDevice { name: device_name, ip, port: video_port, control_port, device_id };
        let stream_to = if self.control_enabled && !self.streaming {
            Some(clone_device(&d))
        } else {
            None
        };
        upsert_device(&mut self.store, d);
        if self.selected_device_id.is_none() {
            self.selected_device_id = Some(selected);
        }
        stream_to
    }

    /// Handles one event of the pairing service at `now_ms`; `peer_ip` is the IP text of the
    /// address the event came from. Gives the actions to perform, in order.
    pub fn handle_pairing_event(&mut self, event: PairingEvent<A>, peer_ip: String, now_ms: u64) -> (r:
        Vec<PanelAction<A>>)
        ensures
            match event {
                PairingEvent::Discovered(d) => {
                    &&& final(self).discovered@ == discovered_after(old(self).discovered@, d, now_ms)
                    &&& final(self).status == old(self).status
                    &&& final(self).pending_incoming == old(self).pending_incoming
                    &&& final(self).store == old(self).store
                    &&& r@.len() == 0
                },
                PairingEvent::IncomingRequest(req) => {
                    &&& final(self).store == old(self).store
                    &&& if token_ok(old(self).active_pair_token, req.token) {
                        &&& final(self).pending_incoming == Some(req)
                        &&& final(self).status == old(self).status
                        &&& r@.len() == 0
                    } else {
                        &&& final(self).pending_incoming == old(self).pending_incoming
                        &&& final(self).status == PanelStatus::InvalidRequestRejected
                        &&& r@ == seq![PanelAction::Reply { request: req, accepted: false }]
                    }
                },
                PairingEvent::PairResponse(resp) => if resp.accepted {
                    let d = PairedDevice {
                        name: resp.device_name,
                        ip: peer_ip,
                        port: resp.video_port,
                        control_port: resp.control_port,
                        device_id: resp.device_id,
                    };
                    &&& final(self).store.devices@ == upserted(old(self).store.devices@, d)
                    &&& final(self).selected_device_id == Some(resp.device_id)
                    &&& final(self).status == old(self).status
                    &&& r@ == if old(self).control_enabled && !old(self).streaming {
                        seq![
                            PanelAction::<A>::SaveStore,
                            PanelAction::Status(PanelStatus::PairSucceeded(resp.request_id)),
                            PanelAction::StartStream(d),
                        ]
                    } else {
                        seq![
                            PanelAction::<A>::SaveStore,
                            PanelAction::Status(PanelStatus::PairSucceeded(resp.request_id)),
                        ]
                    }
                } else {
                    &&& final(self).status == PanelStatus::PairRefused
                    &&& final(self).store == old(self).store
                    &&& r@.len() == 0
                },
                PairingEvent::Error(message) => {
                    &&& final(self).status == PanelStatus::ServiceError(message)
                    &&& final(self).store == old(self).store
                    &&& r@.len() == 0
                },
            },
            final(self).control_enabled == old(self).control_enabled,
            final(self).streaming == old(self).streaming,
            final(self).input_listening == old(self).input_listening,
            final(self).active_pair_token == old(self).active_pair_token,
            final(self).pairing_payload == old(self).pairing_payload,
            !(event is Discovered) ==> final(self).discovered == old(self).discovered,
            !(event is IncomingRequest) ==> final(self).pending_incoming == old(self).pending_incoming,
            !(event matches PairingEvent::PairResponse(resp) && resp.accepted)
                ==> final(self).selected_device_id == old(self).selected_device_id,
    {
        let mut actions: Vec<PanelAction<A>> = Vec::new();
        match event {
            PairingEvent::Discovered(device) => {
                self.upsert_discovered(device, now_ms);
            },
            PairingEvent::IncomingRequest(request) => {
                if pair_token_matches(&self.active_pair_token, &request.token) {
                    self.pending_incoming = Some(request);
                } else {
                    self.status = PanelStatus::InvalidRequestRejected;
                    actions.push(PanelAction::Reply { request, accepted: false });
                }
            },
            PairingEvent::PairResponse(response) => {
                if response.accepted {
                    let paired_id = response.device_id.clone();
                    let stream_to = self.record_paired_device(
                        response.device_id,
                        response.device_name,
                        peer_ip,
                        response.video_port,
                        response.control_port,
                    );
                    self.selected_device_id = Some(paired_id);
                    actions.push(PanelAction::SaveStore);
                    actions.push(PanelAction::Status(PanelStatus::PairSucceeded(response.request_id)));
                    if let Some(device) = stream_to {
                        actions.push(PanelAction::StartStream(device));
                    }
                } else {
                    self.status = PanelStatus::PairRefused;
                }
            },
            PairingEvent::Error(message) => {
                self.status = PanelStatus::ServiceError(message);
            },
        }
        actions
    }
}

impl<A> ControlPanel<A> {
    /// Switches control off when it is on: streaming and input stop, the pairing offer is
    /// withdrawn. Otherwise switches it on and asks to listen for input on the control port
    /// of the selected device.
    pub fn toggle_control(&mut self) -> (r: ControlToggle)
        ensures
            old(self).control_enabled ==> {
                &&& r == ControlToggle::Stop
                &&& !final(self).control_enabled
                &&& !final(self).streaming
                &&& !final(self).input_listening
                &&& final(self).pairing_payload@.len() == 0
                &&& final(self).active_pair_token is None
                &&& final(self).status == PanelStatus::ControlStopped
            },
            !old(self).control_enabled ==> {
                &&& final(self).control_enabled
                &&& final(self).streaming == old(self).streaming
                &&& final(self).input_listening == old(self).input_listening
                &&& final(self).pairing_payload == old(self).pairing_payload
                &&& final(self).active_pair_token == old(self).active_pair_token
                &&& final(self).status == old(self).status
                &&& r == (ControlToggle::StartInput {
                    video_port: control_ports(
                        match selected_index(old(self).store.devices@, old(self).selected_device_id) {
                            Some(i) => Some(old(self).store.devices@[i]),
                            None => None::<PairedDevice>,
                        },
                    ).0,
                    control_port: control_ports(
                        match selected_index(old(self).store.devices@, old(self).selected_device_id) {
                            Some(i) => Some(old(self).store.devices@[i]),
                            None => None::<PairedDevice>,
                        },
                    ).1,
                })
            },
            final(self).store == old(self).store,
            final(self).selected_device_id == old(self).selected_device_id,
            final(self).discovered == old(self).discovered,
            final(self).pending_incoming == old(self).pending_incoming,
    {
        if self.control_enabled {
            self.streaming = false;
            self.input_listening = false;
            self.control_enabled = false;
            self.pairing_payload = String::new();
            self.active_pair_token = None;
            self.status = PanelStatus::ControlStopped;
            return ControlToggle::Stop;
        }
        self.control_enabled = true;
        let (video_port, control_port) = self.current_ports_for_control();
        ControlToggle::StartInput { video_port, control_port }
    }

    /// The input listener could not be started: control stays off.
    pub fn input_listener_failed(&mut self, err: String)
        ensures
            !final(self).control_enabled,
            final(self).status == PanelStatus::InputListenFailed(err),
            final(self).streaming == old(self).streaming,
            final(self).input_listening == old(self).input_listening,
            final(self).store == old(self).store,
            final(self).selected_device_id == old(self).selected_device_id,
            final(self).pending_incoming == old(self).pending_incoming,
            final(self).active_pair_token == old(self).active_pair_token,
    {
        self.status = PanelStatus::InputListenFailed(err);
        self.control_enabled = false;
    }

    /// The input listener runs.
    pub fn input_listener_started(&mut self)
        ensures
            final(self).input_listening,
            final(self).control_enabled == old(self).control_enabled,
            final(self).streaming == old(self).streaming,
            final(self).status == old(self).status,
            final(self).store == old(self).store,
            final(self).selected_device_id == old(self).selected_device_id,
            final(self).active_pair_token == old(self).active_pair_token,
    {
        self.input_listening = true;
    }

    /// Publishes a pairing offer: its token is the one pair requests must carry, its
    /// encoded form is what the QR code shows.
    pub fn set_pairing_offer(&mut self, token: String, payload: String)
        ensures
            final(self).active_pair_token == Some(token),
            final(self).pairing_payload == payload,
            final(self).control_enabled == old(self).control_enabled,
            final(self).streaming == old(self).streaming,
            final(self).status == old(self).status,
            final(self).store == old(self).store,
            final(self).selected_device_id == old(self).selected_device_id,
    {
        self.active_pair_token = Some(token);
        self.pairing_payload = payload;
    }

    /// Once control is on and the offer published: the selected device to stream to, or
    /// none, in which case the panel waits for a pairing.
    pub fn device_to_stream_after_offer(&mut self) -> (r: Option<PairedDevice>)
        ensures
            r == (match selected_index(old(self).store.devices@, old(self).selected_device_id) {
                Some(i) => Some(old(self).store.devices@[i]),
                None => None::<PairedDevice>,
            }),
            r is None ==> final(self).status == PanelStatus::WaitingForPairing,
            r is Some ==> final(self).status == old(self).status,
            final(self).control_enabled == old(self).control_enabled,
            final(self).streaming == old(self).streaming,
            final(self).store == old(self).store,
            final(self).selected_device_id == old(self).selected_device_id,
    {
        let device = self.selected_device_clone();
        if device.is_none() {
            self.status = PanelStatus::WaitingForPairing;
        }
        device
    }

    /// The address to start streaming `device` to, or none while a stream runs.
    pub fn begin_stream(&self, device: &PairedDevice) -> (r: Option<String>)
        ensures
            self.streaming ==> r is None,
            !self.streaming ==> (r matches Some(a) && a@ == stream_addr(*device)),
    {
        if self.streaming {
            None
        } else {
            Some(remote_addr(device))
        }
    }

    /// Streaming to `remote` started.
    pub fn stream_started(&mut self, remote: String)
        ensures
            final(self).streaming,
            final(self).status == PanelStatus::StreamStarted(remote),
            final(self).control_enabled == old(self).control_enabled,
            final(self).store == old(self).store,
            final(self).selected_device_id == old(self).selected_device_id,
    {
        self.streaming = true;
        self.status = PanelStatus::StreamStarted(remote);
    }

    /// Streaming could not be started.
    pub fn stream_failed(&mut self, err: String)
        ensures
            final(self).streaming == old(self).streaming,
            final(self).status == PanelStatus::StreamFailed(err),
            final(self).control_enabled == old(self).control_enabled,
            final(self).store == old(self).store,
            final(self).selected_device_id == old(self).selected_device_id,
    {
        self.status = PanelStatus::StreamFailed(err);
    }

    /// Selects the device with id `id`.
    pub fn select_device(&mut self, id: String)
        ensures
            final(self).selected_device_id == Some(id),
            final(self).store == old(self).store,
            final(self).status == old(self).status,
    {
        self.selected_device_id = Some(id);
    }

    /// Deletes the device at `index`; when the selected id no longer names a device, the
    /// first remaining device (if any) becomes selected.
    pub fn remove_device(&mut self, index: usize)
        requires
            index < old(self).store.devices@.len(),
        ensures
            final(self).store.devices@ == old(self).store.devices@.remove(index as int),
            final(self).selected_device_id == (match old(self).selected_device_id {
                Some(id) => if has_device(final(self).store.devices@, id@) {
                    Some(id)
                } else if final(self).store.devices@.len() > 0 {
                    Some(final(self).store.devices@[0].device_id)
                } else {
                    None::<String>
                },
                None => None::<String>,
            }),
            final(self).status == old(self).status,
            final(self).control_enabled == old(self).control_enabled,
            final(self).streaming == old(self).streaming,
    {
        self.store.devices.remove(index);
        let mut reselect = false;
        if let Some(id) = &self.selected_device_id {
            if first_device_with_id(&self.store.devices, id).is_none() {
                reselect = true;
            }
        }
        if reselect {
            self.selected_device_id = if self.store.devices.len() > 0 {
                Some(self.store.devices[0].device_id.clone())
            } else {
                None
            };
        }
    }

    /// The user refused the pending pair request: gives it, to be answered with a refusal.
    pub fn reject_incoming(&mut self) -> (r: Option<IncomingPairRequest<A>>)
        ensures
            r == old(self).pending_incoming,
            final(self).pending_incoming is None,
            r is Some ==> final(self).status == PanelStatus::IncomingRejected,
            r is None ==> final(self).status == old(self).status,
            final(self).store == old(self).store,
            final(self).selected_device_id == old(self).selected_device_id,
            final(self).control_enabled == old(self).control_enabled,
            final(self).streaming == old(self).streaming,
            final(self).input_listening == old(self).input_listening,
            final(self).discovered == old(self).discovered,
            final(self).pairing_payload == old(self).pairing_payload,
            final(self).active_pair_token == old(self).active_pair_token,
    {
        let request = self.pending_incoming.take();
        if request.is_some() {
            self.status = PanelStatus::IncomingRejected;
        }
        request
    }

    /// The user accepted the pending pair request from a peer whose IP text is `peer_ip`:
    /// the phone is recorded and selected. Gives the actions, in order: accept the request,
    /// save the store, stream to the phone when control is on and no stream runs, and show
    /// that pairing succeeded.
    pub fn accept_incoming(&mut self, peer_ip: String) -> (r: Vec<PanelAction<A>>)
        ensures
            match old(self).pending_incoming {
                None => r@.len() == 0 && final(self).store == old(self).store
                    && final(self).selected_device_id == old(self).selected_device_id,
                Some(req) => {
                    let d = PairedDevice {
                        name: req.device_name,
                        ip: peer_ip,
                        port: req.video_port,
                        control_port: req.control_port,
                        device_id: req.device_id,
                    };
                    &&& final(self).store.devices@ == upserted(old(self).store.devices@, d)
                    &&& final(self).selected_device_id == Some(req.device_id)
                    &&& r@ == if old(self).control_enabled && !old(self).streaming {
                        seq![
                            PanelAction::Reply { request: req, accepted: true },
                            PanelAction::SaveStore,
                            PanelAction::StartStream(d),
                            PanelAction::Status(PanelStatus::IncomingAccepted),
                        ]
                    } else {
                        seq![
                            PanelAction::Reply { request: req, accepted: true },
                            PanelAction::SaveStore,
                            PanelAction::Status(PanelStatus::IncomingAccepted),
                        ]
                    }
                },
            },
            final(self).pending_incoming is None,
            final(self).status == old(self).status,
            final(self).control_enabled == old(self).control_enabled,
            final(self).streaming == old(self).streaming,
            final(self).input_listening == old(self).input_listening,
            final(self).discovered == old(self).discovered,
            final(self).pairing_payload == old(self).pairing_payload,
            final(self).active_pair_token == old(self).active_pair_token,
    {
        let mut actions: Vec<PanelAction<A>> = Vec::new();
        match self.pending_incoming.take() {
            None => {},
            Some(request) => {
                let stream_to = self.record_paired_device(
                    request.device_id.clone(),
                    request.device_name.clone(),
                    peer_ip,
                    request.video_port,
                    request.control_port,
                );
                self.selected_device_id = Some(request.device_id.clone());
                actions.push(PanelAction::Reply { request, accepted: true });
                actions.push(PanelAction::SaveStore);
                if let Some(device) = stream_to {
                    actions.push(PanelAction::StartStream(device));
                }
                actions.push(PanelAction::Status(PanelStatus::IncomingAccepted));
            },
        }
        actions
    }
}

/// After a device is recorded as paired, it is the device shown as selected.
pub proof fn lemma_recorded_device_is_selected(devices: Seq<PairedDevice>, d: PairedDevice)
    ensures
        selected_index(upserted(devices, d), Some(d.device_id)) matches Some(i) && upserted(devices, d)[i]
            == d,
{
    lemma_upsert_contains(devices, d);
    let r = upserted(devices, d);
    let g = first_with_id(r, d.device_id@);
    assert(has_device(r, d.device_id@)) by {
        assert(r[g].device_id@ == d.device_id@);
    }
}

/// After a deletion the selection is empty or names a device that is still listed.
pub proof fn lemma_selection_valid_after_removal(
    devices: Seq<PairedDevice>,
    selected: Option<String>,
    index: int,
)
    requires
        0 <= index < devices.len(),
        selected matches Some(id) ==> has_device(devices, id@),
    ensures
        ({
            let rest = devices.remove(index);
            let sel = match selected {
                Some(id) => if has_device(rest, id@) {
                    Some(id)
                } else if rest.len() > 0 {
                    Some(rest[0].device_id)
                } else {
                    None::<String>
                },
                None => None::<String>,
            };
            sel matches Some(id) ==> has_device(rest, id@)
        }),
{
    let rest = devices.remove(index);
    if let Some(id) = selected {
        if !has_device(rest, id@) && rest.len() > 0 {
            assert(has_device(rest, rest[0].device_id@));
        }
    }
}

/// Hearing from a phone keeps the discovered list free of duplicate ids and of devices
/// that are not phones.
pub proof fn lemma_discovered_after_keeps_invariant(
    list: Seq<UiDiscoveredDevice>,
    d: DiscoveredDevice,
    now_ms: u64,
)
    requires
        discovered_ids_unique(list),
        forall|i: int| 0 <= i < list.len() ==> (#[trigger] list[i]).device.from@ == "phone"@,
    ensures
        discovered_ids_unique(discovered_after(list, d, now_ms)),
        forall|i: int|
            0 <= i < discovered_after(list, d, now_ms).len() ==> (#[trigger] discovered_after(
                list,
                d,
                now_ms,
            )[i]).device.from@ == "phone"@,
{
    let r = discovered_after(list, d, now_ms);
    let id = d.device_id@;
    if d.from@ == "phone"@ {
        if has_discovered(list, id) {
            let k = choose|k: int| 0 <= k < list.len() && (#[trigger] list[k]).device.device_id@ == id;
            assert(is_first_discovered(list, id, k)) by {
                assert forall|j: int| 0 <= j < k implies (#[trigger] list[j]).device.device_id@ != id by {
                    assert(list[j].device.device_id@ != list[k].device.device_id@);
                }
            }
            let f = choose|f: int| is_first_discovered(list, id, f);
            assert forall|i: int, j: int|
                0 <= i < r.len() && 0 <= j < r.len() && i != j implies (#[trigger] r[i]).device.device_id@
                    != (#[trigger] r[j]).device.device_id@ by {
                if i != f && j != f {
                    assert(list[i].device.device_id@ != list[j].device.device_id@);
                } else if i == f {
                    assert(list[f].device.device_id@ != list[j].device.device_id@);
                } else {
                    assert(list[i].device.device_id@ != list[f].device.device_id@);
                }
            }
        } else {
            assert forall|i: int, j: int|
                0 <= i < r.len() && 0 <= j < r.len() && i != j implies (#[trigger] r[i]).device.device_id@
                    != (#[trigger] r[j]).device.device_id@ by {
                let l = list.len() as int;
                if i < l && j < l {
                    assert(list[i].device.device_id@ != list[j].device.device_id@);
                } else if i == l {
                    assert(list[j].device.device_id@ != id);
                } else {
                    assert(list[i].device.device_id@ != id);
                }
            }
        }
    }
}

proof fn lemma_filter_keeps_unique(list: Seq<UiDiscoveredDevice>, pred: spec_fn(UiDiscoveredDevice) -> bool)
    requires
        discovered_ids_unique(list),
    ensures
        discovered_ids_unique(list.filter(pred)),
        forall|i: int|
            0 <= i < list.filter(pred).len() ==> list.contains(#[trigger] list.filter(pred)[i]),
    decreases list.len(),
{
    reveal_with_fuel(Seq::<UiDiscoveredDevice>::filter, 1);
    if list.len() > 0 {
        let rest = list.drop_last();
        let last = list.last();
        assert(discovered_ids_unique(rest)) by {
            assert forall|i: int, j: int|
                0 <= i < rest.len() && 0 <= j < rest.len() && i != j implies (#[trigger] rest[i]).device.device_id@
                    != (#[trigger] rest[j]).device.device_id@ by {
                assert(rest[i] == list[i] && rest[j] == list[j]);
            }
        }
        lemma_filter_keeps_unique(rest, pred);
        let f = rest.filter(pred);
        assert forall|i: int| 0 <= i < f.len() implies (#[trigger] f[i]).device.device_id@
            != last.device.device_id@ && list.contains(f[i]) by {
            assert(rest.contains(f[i]));
            let k = choose|k: int| 0 <= k < rest.len() && rest[k] == f[i];
            assert(list[k] == rest[k]);
            assert(list[list.len() - 1] == last);
        }
        if pred(last) {
            let g = f.push(last);
            assert(g == list.filter(pred));
            assert forall|i: int, j: int|
                0 <= i < g.len() && 0 <= j < g.len() && i != j implies (#[trigger] g[i]).device.device_id@
                    != (#[trigger] g[j]).device.device_id@ by {
                if i < f.len() && j < f.len() {
                    assert(g[i] == f[i] && g[j] == f[j]);
                } else if i < f.len() {
                    assert(g[i] == f[i]);
                } else {
                    assert(g[j] == f[j]);
                }
            }
            assert forall|i: int| 0 <= i < g.len() implies list.contains(#[trigger] g[i]) by {
                if i < f.len() {
                    assert(g[i] == f[i]);
                } else {
                    assert(list[list.len() - 1] == g[i]);
                }
            }
        } else {
            assert(f == list.filter(pred));
        }
    }
}

/// Dropping stale phones keeps the discovered list free of duplicate ids and of devices
/// that are not phones.
pub proof fn lemma_prune_keeps_invariant(list: Seq<UiDiscoveredDevice>, now_ms: u64)
    requires
        discovered_ids_unique(list),
        forall|i: int| 0 <= i < list.len() ==> (#[trigger] list[i]).device.from@ == "phone"@,
    ensures
        ({
            let kept = list.filter(|e: UiDiscoveredDevice| still_fresh(e, now_ms));
            &&& discovered_ids_unique(kept)
            &&& forall|i: int| 0 <= i < kept.len() ==> (#[trigger] kept[i]).device.from@ == "phone"@
            &&& forall|i: int| 0 <= i < kept.len() ==> still_fresh(#[trigger] kept[i], now_ms)
        }),
{
    let pred = |e: UiDiscoveredDevice| still_fresh(e, now_ms);
    let kept = list.filter(pred);
    lemma_filter_keeps_unique(list, pred);
    assert forall|i: int| 0 <= i < kept.len() implies (#[trigger] kept[i]).device.from@ == "phone"@
        && still_fresh(kept[i], now_ms) by {
        assert(list.contains(kept[i]));
        let k = choose|k: int| 0 <= k < list.len() && list[k] == kept[i];
        list.lemma_filter_pred(pred, i);
    }
}

} // verus!
