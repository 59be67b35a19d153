use mumu_remote::pairing_service::{
    discover_due, discover_probe, handle_command, handle_packet, local_device_id,
    local_device_name, pair_target_ip, CommandReaction, DiscoveredDevice, IncomingPairRequest, PacketReaction,
    PacketTarget, PairingCommand, PairingEvent, PairingPacket, DEFAULT_CONTROL_PORT,
    DEFAULT_PAIR_PORT, DEFAULT_VIDEO_PORT,
};

type Addr = (u8, u16);

#[test]
fn own_probe_is_ignored_other_probe_is_answered() {
    let own = PairingPacket::DiscoverProbe {
        from: "pc".to_string(),
        device_id: "pc-1".to_string(),
        device_name: "x".to_string(),
    };
    let r: PacketReaction<Addr> = handle_packet(own, (1, 2), "10.0.0.2".to_string(), "pc-1", "PC");
    assert_eq!(r, PacketReaction::Ignore);

    let phone = PairingPacket::DiscoverProbe {
        from: "phone".to_string(),
        device_id: "abc".to_string(),
        device_name: "name".to_string(),
    };
    let r = handle_packet(phone, (1, 2), "10.0.0.2".to_string(), "pc-1", "PC");
    assert_eq!(
        r,
        PacketReaction::Reply {
            to: (1, 2),
            packet: PairingPacket::DiscoverResponse {
                from: "pc".to_string(),
                device_id: "pc-1".to_string(),
                device_name: "PC".to_string(),
                video_port: DEFAULT_VIDEO_PORT,
                control_port: DEFAULT_CONTROL_PORT,
            },
        }
    );
}

#[test]
fn discover_response_is_reported_with_peer_ip() {
    let packet = PairingPacket::DiscoverResponse {
        from: "phone".to_string(),
        device_id: "phone-id".to_string(),
        device_name: "phone".to_string(),
        video_port: 5000,
        control_port: 5001,
    };
    let r = handle_packet(packet, (3, 4), "192.168.0.7".to_string(), "pc-1", "PC");
    assert_eq!(
        r,
        PacketReaction::Emit(PairingEvent::Discovered(DiscoveredDevice {
            device_id: "phone-id".to_string(),
            device_name: "phone".to_string(),
            from: "phone".to_string(),
            ip: "192.168.0.7".to_string(),
            video_port: 5000,
            control_port: 5001,
        }))
    );
}

#[test]
fn pair_request_from_phone_gets_default_ports() {
    let packet = PairingPacket::PairRequest {
        request_id: "r1".to_string(),
        from: "phone".to_string(),
        device_id: "d1".to_string(),
        device_name: "device".to_string(),
        token: Some("t".to_string()),
        video_port: None,
        control_port: Some(7000),
    };
    let r = handle_packet(packet, (5, 6), "1.2.3.4".to_string(), "pc-1", "PC");
    assert_eq!(
        r,
        PacketReaction::Emit(PairingEvent::IncomingRequest(IncomingPairRequest {
            request_id: "r1".to_string(),
            device_id: "d1".to_string(),
            device_name: "device".to_string(),
            token: Some("t".to_string()),
            addr: (5, 6),
            video_port: 5000,
            control_port: 7000,
        }))
    );
    let from_pc = PairingPacket::PairRequest {
        request_id: "r2".to_string(),
        from: "pc".to_string(),
        device_id: "d2".to_string(),
        device_name: "other pc".to_string(),
        token: None,
        video_port: None,
        control_port: None,
    };
    let r: PacketReaction<Addr> = handle_packet(from_pc, (5, 6), "1.2.3.4".to_string(), "pc-1", "PC");
    assert_eq!(r, PacketReaction::Ignore);
}

#[test]
fn commands_become_packets() {
    let r: CommandReaction<Addr> = handle_command(
        PairingCommand::SendPairRequest { target_ip: "192.168.0.9".to_string() },
        "pc-1",
        "PC",
    );
    match r {
        CommandReaction::Send { to, packet } => {
            assert_eq!(
                to,
                PacketTarget::Host { ip: "192.168.0.9".to_string(), port: DEFAULT_PAIR_PORT }
            );
            match packet {
                PairingPacket::PairRequest { request_id, from, token, video_port, .. } => {
                    assert_eq!(request_id.len(), 32);
                    assert_eq!(from, "pc");
                    assert_eq!(token, None);
                    assert_eq!(video_port, Some(5000));
                }
                other => panic!("unexpected packet {other:?}"),
            }
        }
        CommandReaction::Stop => panic!("unexpected stop"),
    }
    let r = handle_command(
        PairingCommand::ReplyIncoming { request_id: "r1".to_string(), accepted: true, addr: (9, 9) },
        "pc-1",
        "PC",
    );
    assert_eq!(
        r,
        CommandReaction::Send {
            to: PacketTarget::Peer((9, 9)),
            packet: PairingPacket::PairResponse {
                request_id: "r1".to_string(),
                accepted: true,
                device_id: "pc-1".to_string(),
                device_name: "PC".to_string(),
                video_port: 5000,
                control_port: 5001,
            },
        }
    );
    let r: CommandReaction<Addr> = handle_command(PairingCommand::Shutdown, "pc-1", "PC");
    assert_eq!(r, CommandReaction::Stop);
}

#[test]
fn identity_probe_and_timer() {
    let id = local_device_id();
    assert!(id.starts_with("pc-"));
    assert_eq!(id.len(), 35);
    assert_eq!(local_device_name(), "MuMu Remote PC");
    assert_eq!(
        discover_probe("pc-1", "PC"),
        PairingPacket::DiscoverProbe {
            from: "pc".to_string(),
            device_id: "pc-1".to_string(),
            device_name: "PC".to_string(),
        }
    );
    assert!(!discover_due(2999));
    assert!(discover_due(3000));
}

#[test]
fn unparsed_target_falls_back_to_loopback() {
    assert_eq!(pair_target_ip(Some(7u32), 1u32), 7);
    assert_eq!(pair_target_ip(None, 1u32), 1);
}
