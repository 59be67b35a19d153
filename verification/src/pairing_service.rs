use vstd::prelude::*;

use vstd::string::StringExecFns;

use crate::pairing::{generate_token, is_token};

verus! {

/// UDP port of the pairing protocol.
pub const DEFAULT_PAIR_PORT: u16 = 56000;

/// Default UDP port the phone receives video on.
pub const DEFAULT_VIDEO_PORT: u16 = 5000;

/// Default UDP port the PC receives input events on.
pub const DEFAULT_CONTROL_PORT: u16 = 5001;

/// Milliseconds between two discovery probes.
pub const DISCOVER_INTERVAL_MS: u64 = 3000;

/// A device that answered a discovery probe.
#[derive(Debug, Clone, PartialEq, Eq)]
pub struct DiscoveredDevice {
    pub device_id: String,
    pub device_name: String,
    pub from: String,
    pub ip: String,
    pub video_port: u16,
    pub control_port: u16,
}

/// A phone asks to pair; `A` is the address it was received from.
#[derive(Debug, Clone, PartialEq, Eq)]
pub struct IncomingPairRequest<A> {
    pub request_id: String,
    pub device_id: String,
    pub device_name: String,
    pub token: Option<String>,
    pub addr: A,
    pub video_port: u16,
    pub control_port: u16,
}

/// A phone answered a pair request of this PC; `A` is the address it was received from.
#[derive(Debug, Clone, PartialEq, Eq)]
pub struct PairResponseEvent<A> {
    pub request_id: String,
    pub accepted: bool,
    pub device_id: String,
    pub device_name: String,
    pub addr: A,
    pub video_port: u16,
    pub control_port: u16,
}

/// What the pairing service reports to the user interface.
#[derive(Debug, Clone, PartialEq, Eq)]
pub enum PairingEvent<A> {
    Discovered(DiscoveredDevice),
    IncomingRequest(IncomingPairRequest<A>),
    PairResponse(PairResponseEvent<A>),
    Error(String),
}

/// What the user interface asks the pairing service to do.
#[derive(Debug, Clone, PartialEq, Eq)]
pub enum PairingCommand<A> {
    SendPairRequest { target_ip: String },
    ReplyIncoming { request_id: String, accepted: bool, addr: A },
    Shutdown,
}

/// A message of the pairing protocol.
#[derive(Debug, Clone, PartialEq, Eq)]
pub enum PairingPacket {
    DiscoverProbe { from: String, device_id: String, device_name: String },
    DiscoverResponse {
        from: String,
        device_id: String,
        device_name: String,
        video_port: u16,
        control_port: u16,
    },
    PairRequest {
        request_id: String,
        from: String,
        device_id: String,
        device_name: String,
        token: Option<String>,
        video_port: Option<u16>,
        control_port: Option<u16>,
    },
    PairResponse {
        request_id: String,
        accepted: bool,
        device_id: String,
        device_name: String,
        video_port: u16,
        control_port: u16,
    },
}

/// Where a packet goes: a host given by its IP text and a port, or a peer address.
#[derive(Debug, Clone, PartialEq, Eq)]
pub enum PacketTarget<A> {
    Host { ip: String, port: u16 },
    Peer(A),
}

/// What the pairing service does with a packet it received.
#[derive(Debug, Clone, PartialEq, Eq)]
pub enum PacketReaction<A> {
    Ignore,
    Reply { to: A, packet: PairingPacket },
    Emit(PairingEvent<A>),
}

/// What the pairing service does with a command.
#[derive(Debug, Clone, PartialEq, Eq)]
pub enum CommandReaction<A> {
    Send { to: PacketTarget<A>, packet: PairingPacket },
    Stop,
}

/// Whether `p` is this PC's answer to a discovery probe.
pub open spec fn is_discover_response_of(p: PairingPacket, id: Seq<char>, name: Seq<char>) -> bool {
    p matches PairingPacket::DiscoverResponse { from, device_id, device_name, video_port, control_port }
        && from@ == "pc"@ && device_id@ == id && device_name@ == name && video_port
        == DEFAULT_VIDEO_PORT && control_port == DEFAULT_CONTROL_PORT
}

/// Whether `p` is this PC's discovery probe.
pub open spec fn is_discover_probe_of(p: PairingPacket, id: Seq<char>, name: Seq<char>) -> bool {
    p matches PairingPacket::DiscoverProbe { from, device_id, device_name } && from@ == "pc"@
        && device_id@ == id && device_name@ == name
}

/// Whether `p` is a pair request of this PC with a fresh request id.
pub open spec fn is_pair_request_of(p: PairingPacket, id: Seq<char>, name: Seq<char>) -> bool {
    p matches PairingPacket::PairRequest {
        request_id,
        from,
        device_id,
        device_name,
        token,
        video_port,
        control_port,
    } && is_token(request_id@) && from@ == "pc"@ && device_id@ == id && device_name@ == name
        && token is None && video_port == Some(DEFAULT_VIDEO_PORT) && control_port == Some(
        DEFAULT_CONTROL_PORT,
    )
}

/// Whether `p` is this PC's answer `accepted` to the pair request `request`.
pub open spec fn is_pair_response_of(
    p: PairingPacket,
    request: Seq<char>,
    accepted: bool,
    id: Seq<char>,
    name: Seq<char>,
) -> bool {
    p matches PairingPacket::PairResponse {
        request_id,
        accepted: a,
        device_id,
        device_name,
        video_port,
        control_port,
    } && request_id@ == request && a == accepted && device_id@ == id && device_name@ == name
        && video_port == DEFAULT_VIDEO_PORT && control_port == DEFAULT_CONTROL_PORT
}

/// The device id this PC announces: "pc-" followed by a fresh token.
pub fn local_device_id() -> (r: String)
    ensures
        r@.len() >= 3,
        r@.subrange(0, 3) == "pc-"@,
        is_token(r@.skip(3)),
{
    let mut id = "pc-".to_owned();
    let token = generate_token();
    id.append(token.as_str());
    proof {
        reveal_strlit("pc-");
    }
    assert(id@.subrange(0, 3) =~= "pc-"@);
    assert(id@.skip(3) =~= token@);
    id
}

/// The device name this PC announces.
pub fn local_device_name() -> (r: String)
    ensures
        r@ == "MuMu Remote PC"@,
{
    "MuMu Remote PC".to_owned()
}

/// Whether a new discovery probe is due, `elapsed_ms` after the last one.
pub fn discover_due(elapsed_ms: u64) -> (r: bool)
    ensures
        r == (elapsed_ms >= DISCOVER_INTERVAL_MS),
{
    elapsed_ms >= DISCOVER_INTERVAL_MS
}

/// The address a pair request goes to: the parsed target IP, or the loopback address when
/// the target text did not parse as an IP.
pub fn pair_target_ip<I>(parsed: Option<I>, loopback: I) -> (r: I)
    ensures
        r == (match parsed {
            Some(ip) => ip,
            None => loopback,
        }),
{
    match parsed {
        Some(ip) => ip,
        None => loopback,
    }
}

/// The discovery probe this PC broadcasts.
pub fn discover_probe(local_device_id: &str, local_device_name: &str) -> (r: PairingPacket)
    ensures
        is_discover_probe_of(r, local_device_id@, local_device_name@),
{
    PairingPacket::DiscoverProbe {
        from: "pc".to_owned(),
        device_id: local_device_id.to_owned(),
        device_name: local_device_name.to_owned(),
    }
}

/// Decides what to do with a command from the user interface: a pair request goes to the
/// pairing port of the given IP with a fresh request id; a reply goes back to the requesting
/// peer; shutdown stops the service.
pub fn handle_command<A>(
    cmd: PairingCommand<A>,
    local_device_id: &str,
    local_device_name: &str,
) -> (r: CommandReaction<A>)
    ensures
        match cmd {
            PairingCommand::SendPairRequest { target_ip } => r matches CommandReaction::Send {
                to,
                packet,
            } && to == PacketTarget::<A>::Host { ip: target_ip, port: DEFAULT_PAIR_PORT }
                && is_pair_request_of(packet, local_device_id@, local_device_name@),
            PairingCommand::ReplyIncoming { request_id, accepted, addr } => r matches CommandReaction::Send {
                to,
                packet,
            } && to == PacketTarget::Peer(addr) && is_pair_response_of(
                packet,
                request_id@,
                accepted,
                local_device_id@,
                local_device_name@,
            ),
            PairingCommand::Shutdown => r is Stop,
        },
{
    match cmd {
        PairingCommand::SendPairRequest { target_ip } => {
            let packet = PairingPacket::PairRequest {
                request_id: generate_token(),
                from: "pc".to_owned(),
                device_id: local_device_id.to_owned(),
                device_name: local_device_name.to_owned(),
                token: None,
                video_port: Some(DEFAULT_VIDEO_PORT),
                control_port: Some(DEFAULT_CONTROL_PORT),
            };
            CommandReaction::Send {
                to: PacketTarget::Host { ip: target_ip, port: DEFAULT_PAIR_PORT },
                packet,
            }
        },
        PairingCommand::ReplyIncoming { request_id, accepted, addr } => {
            let packet = PairingPacket::PairResponse {
                request_id,
                accepted,
                device_id: local_device_id.to_owned(),
                device_name: local_device_name.to_owned(),
                video_port: DEFAULT_VIDEO_PORT,
                control_port: DEFAULT_CONTROL_PORT,
            };
            CommandReaction::Send { to: PacketTarget::Peer(addr), packet }
        },
        PairingCommand::Shutdown => CommandReaction::Stop,
    }
}

/// Decides what to do with a packet received from `addr` (whose IP text is `addr_ip`):
/// a discovery probe is answered, unless it is this PC's own; a discovery response and a
/// pair response are reported; a pair request is reported unless it comes from a PC,
/// with the default ports filled in where it names none.
pub fn handle_packet<A>(
    packet: PairingPacket,
    addr: A,
    addr_ip: String,
    local_device_id: &str,
    local_device_name: &str,
) -> (r: PacketReaction<A>)
    ensures
        match packet {
            PairingPacket::DiscoverProbe { from, device_id, device_name } => if from@ == "pc"@
                && device_id@ == local_device_id@ {
                r is Ignore
            } else {
                r matches PacketReaction::Reply { to, packet: reply } && to == addr
                    && is_discover_response_of(reply, local_device_id@, local_device_name@)
            },
            PairingPacket::DiscoverResponse {
                from,
                device_id,
                device_name,
                video_port,
                control_port,
            } => r == PacketReaction::Emit(
                PairingEvent::<A>::Discovered(
                    DiscoveredDevice {
                        device_id,
                        device_name,
                        from,
                        ip: addr_ip,
                        video_port,
                        control_port,
                    },
                ),
            ),
            PairingPacket::PairRequest {
                request_id,
                from,
                device_id,
                device_name,
                token,
                video_port,
                control_port,
            } => if from@ == "pc"@ {
                r is Ignore
            } else {
                r == PacketReaction::Emit(
                    PairingEvent::IncomingRequest(
                        IncomingPairRequest {
                            request_id,
                            device_id,
                            device_name,
                            token,
                            addr,
                            video_port: match video_port {
                                Some(p) => p,
                                None => DEFAULT_VIDEO_PORT,
                            },
                            control_port: match control_port {
                                Some(p) => p,
                                None => DEFAULT_CONTROL_PORT,
                            },
                        },
                    ),
                )
            },
            PairingPacket::PairResponse {
                request_id,
                accepted,
                device_id,
                device_name,
                video_port,
                control_port,
            } => r == PacketReaction::Emit(
                PairingEvent::PairResponse(
                    PairResponseEvent {
                        request_id,
                        accepted,
                        device_id,
                        device_name,
                        addr,
                        video_port,
                        control_port,
                    },
                ),
            ),
        },
{
    match packet {
        PairingPacket::DiscoverProbe { from, device_id, .. } => {
            if from.as_str().eq("pc") && device_id.as_str().eq(local_device_id) {
                return PacketReaction::Ignore;
            }
            let response = PairingPacket::DiscoverResponse {
                from: "pc".to_owned(),
                device_id: local_device_id.to_owned(),
                device_name: local_device_name.to_owned(),
                video_port: DEFAULT_VIDEO_PORT,
                control_port: DEFAULT_CONTROL_PORT,
            };
            PacketReaction::Reply { to: addr, packet: response }
        },
        PairingPacket::DiscoverResponse { from, device_id, device_name, video_port, control_port } => {
            PacketReaction::Emit(
                PairingEvent::Discovered(
                    DiscoveredDevice {
                        device_id,
                        device_name,
                        from,
                        ip: addr_ip,
                        video_port,
                        control_port,
                    },
                ),
            )
        },
        PairingPacket::PairRequest {
            request_id,
            from,
            device_id,
            device_name,
            token,
            video_port,
            control_port,
        } => {
            if from.as_str().eq("pc") {
                return PacketReaction::Ignore;
            }
            let video_port = match video_port {
                Some(p) => p,
                None => DEFAULT_VIDEO_PORT,
            };
            let control_port = match control_port {
                Some(p) => p,
                None => DEFAULT_CONTROL_PORT,
            };
            PacketReaction::Emit(
                PairingEvent::IncomingRequest(
                    IncomingPairRequest {
                        request_id,
                        device_id,
                        device_name,
                        token,
                        addr,
                        video_port,
                        control_port,
                    },
                ),
            )
        },
        PairingPacket::PairResponse {
            request_id,
            accepted,
            device_id,
            device_name,
            video_port,
            control_port,
        } => {
            PacketReaction::Emit(
                PairingEvent::PairResponse(
                    PairResponseEvent {
                        request_id,
                        accepted,
                        device_id,
                        device_name,
                        addr,
                        video_port,
                        control_port,
                    },
                ),
            )
        },
    }
}

} // verus!
