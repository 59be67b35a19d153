use mumu_remote::pairing::{PairedDevice, PairingStore};
use mumu_remote::pairing_service::{
    DiscoveredDevice, IncomingPairRequest, PairResponseEvent, PairingEvent,
};
use mumu_remote::panel::{
    pair_token_matches, ControlPanel, ControlToggle, PanelAction, PanelStatus,
};

type Addr = u32;

fn device(id: &str, port: u16, control_port: u16) -> PairedDevice {
    PairedDevice {
        name: format!("dev {id}"),
        ip: "192.168.1.5".to_string(),
        port,
        control_port,
        device_id: id.to_string(),
    }
}

fn store(devices: Vec<PairedDevice>) -> PairingStore {
    PairingStore { devices }
}

fn discovered(id: &str, from: &str) -> DiscoveredDevice {
    DiscoveredDevice {
        device_id: id.to_string(),
        device_name: "phone".to_string(),
        from: from.to_string(),
        ip: "10.0.0.3".to_string(),
        video_port: 5000,
        control_port: 5001,
    }
}

fn request(token: Option<&str>) -> IncomingPairRequest<Addr> {
    IncomingPairRequest {
        request_id: "r1".to_string(),
        device_id: "phone-1".to_string(),
        device_name: "Phone".to_string(),
        token: token.map(|t| t.to_string()),
        addr: 7,
        video_port: 5002,
        control_port: 5003,
    }
}

#[test]
fn new_panel_selects_first_device() {
    let panel: ControlPanel<Addr> = ControlPanel::new(store(vec![device("a", 0, 0), device("b", 1, 2)]));
    assert_eq!(panel.selected_device_id.as_deref(), Some("a"));
    assert_eq!(panel.selected_device(), Some(0));
    assert_eq!(panel.current_ports_for_control(), (5000, 5001));
    assert_eq!(panel.status, PanelStatus::Idle);
}

#[test]
fn selection_falls_back_to_first() {
    let mut panel: ControlPanel<Addr> = ControlPanel::new(store(vec![device("a", 1, 2), device("b", 3, 4)]));
    panel.select_device("b".to_string());
    assert_eq!(panel.selected_device(), Some(1));
    assert_eq!(panel.current_ports_for_control(), (3, 4));
    panel.select_device("zzz".to_string());
    assert_eq!(panel.selected_device(), Some(0));
    let empty: ControlPanel<Addr> = ControlPanel::new(store(vec![]));
    assert_eq!(empty.selected_device(), None);
    assert_eq!(empty.current_ports_for_control(), (5000, 5001));
}

#[test]
fn toggling_control_on_and_off() {
    let mut panel: ControlPanel<Addr> = ControlPanel::new(store(vec![device("a", 6000, 6001)]));
    assert_eq!(
        panel.toggle_control(),
        ControlToggle::StartInput { video_port: 6000, control_port: 6001 }
    );
    assert!(panel.control_enabled);
    panel.input_listener_started();
    panel.set_pairing_offer("tok".to_string(), "{}".to_string());
    let d = panel.device_to_stream_after_offer().unwrap();
    let addr = panel.begin_stream(&d).unwrap();
    assert_eq!(addr, "192.168.1.5:6000");
    panel.stream_started(addr.clone());
    assert_eq!(panel.status, PanelStatus::StreamStarted(addr));
    assert!(panel.begin_stream(&d).is_none());
    assert_eq!(panel.toggle_control(), ControlToggle::Stop);
    assert!(!panel.control_enabled && !panel.streaming && !panel.input_listening);
    assert!(panel.active_pair_token.is_none());
    assert!(panel.pairing_payload.is_empty());
    assert_eq!(panel.status, PanelStatus::ControlStopped);
}

#[test]
fn failed_input_listener_keeps_control_off() {
    let mut panel: ControlPanel<Addr> = ControlPanel::new(store(vec![]));
    panel.toggle_control();
    panel.input_listener_failed("busy".to_string());
    assert!(!panel.control_enabled);
    assert_eq!(panel.status, PanelStatus::InputListenFailed("busy".to_string()));
    panel.toggle_control();
    assert!(panel.device_to_stream_after_offer().is_none());
    assert_eq!(panel.status, PanelStatus::WaitingForPairing);
}

#[test]
fn only_phones_are_listed_and_stale_ones_dropped() {
    let mut panel: ControlPanel<Addr> = ControlPanel::new(store(vec![]));
    panel.handle_pairing_event(PairingEvent::Discovered(discovered("p1", "phone")), String::new(), 1000);
    panel.handle_pairing_event(PairingEvent::Discovered(discovered("pc9", "pc")), String::new(), 1000);
    panel.handle_pairing_event(PairingEvent::Discovered(discovered("p2", "phone")), String::new(), 2000);
    panel.handle_pairing_event(PairingEvent::Discovered(discovered("p1", "phone")), String::new(), 9000);
    assert_eq!(panel.discovered.len(), 2);
    assert_eq!(panel.discovered[0].last_seen_ms, 9000);
    panel.prune_discovered(17001);
    assert_eq!(panel.discovered.len(), 1);
    assert_eq!(panel.discovered[0].device.device_id, "p1");
}

#[test]
fn request_with_wrong_token_is_refused() {
    let mut panel: ControlPanel<Addr> = ControlPanel::new(store(vec![]));
    panel.set_pairing_offer("good".to_string(), "{}".to_string());
    let actions = panel.handle_pairing_event(PairingEvent::IncomingRequest(request(Some("bad"))), String::new(), 0);
    assert_eq!(actions, vec![PanelAction::Reply { request: request(Some("bad")), accepted: false }]);
    assert_eq!(panel.status, PanelStatus::InvalidRequestRejected);
    assert!(panel.pending_incoming.is_none());
    let actions = panel.handle_pairing_event(PairingEvent::IncomingRequest(request(None)), String::new(), 0);
    assert_eq!(actions.len(), 1);
    let actions = panel.handle_pairing_event(PairingEvent::IncomingRequest(request(Some("good"))), String::new(), 0);
    assert!(actions.is_empty());
    assert_eq!(panel.pending_incoming, Some(request(Some("good"))));
    assert!(pair_token_matches(&Some("x".to_string()), &Some("x".to_string())));
    assert!(!pair_token_matches(&None, &Some("x".to_string())));
}

#[test]
fn accepted_incoming_request_is_paired_and_streamed() {
    let mut panel: ControlPanel<Addr> = ControlPanel::new(store(vec![device("a", 1, 2)]));
    panel.toggle_control();
    panel.set_pairing_offer("good".to_string(), "{}".to_string());
    panel.handle_pairing_event(PairingEvent::IncomingRequest(request(Some("good"))), String::new(), 0);
    let actions = panel.accept_incoming("10.1.1.1".to_string());
    let paired = PairedDevice {
        name: "Phone".to_string(),
        ip: "10.1.1.1".to_string(),
        port: 5002,
        control_port: 5003,
        device_id: "phone-1".to_string(),
    };
    assert_eq!(
        actions,
        vec![
            PanelAction::Reply { request: request(Some("good")), accepted: true },
            PanelAction::SaveStore,
            PanelAction::StartStream(paired.clone()),
            PanelAction::Status(PanelStatus::IncomingAccepted),
        ]
    );
    assert_eq!(panel.store.devices.len(), 2);
    assert_eq!(panel.selected_device_clone(), Some(paired));
    assert!(panel.pending_incoming.is_none());
    assert!(panel.accept_incoming("x".to_string()).is_empty());
}

#[test]
fn rejected_incoming_request() {
    let mut panel: ControlPanel<Addr> = ControlPanel::new(store(vec![]));
    panel.set_pairing_offer("good".to_string(), "{}".to_string());
    panel.handle_pairing_event(PairingEvent::IncomingRequest(request(Some("good"))), String::new(), 0);
    assert_eq!(panel.reject_incoming(), Some(request(Some("good"))));
    assert_eq!(panel.status, PanelStatus::IncomingRejected);
    assert_eq!(panel.reject_incoming(), None);
}

#[test]
fn pair_response_updates_store() {
    let mut panel: ControlPanel<Addr> = ControlPanel::new(store(vec![device("phone-1", 1, 2)]));
    let response = PairResponseEvent {
        request_id: "q".to_string(),
        accepted: true,
        device_id: "phone-1".to_string(),
        device_name: "New name".to_string(),
        addr: 3,
        video_port: 7000,
        control_port: 7001,
    };
    let actions = panel.handle_pairing_event(PairingEvent::PairResponse(response.clone()), "10.9.9.9".to_string(), 0);
    assert_eq!(
        actions,
        vec![PanelAction::SaveStore, PanelAction::Status(PanelStatus::PairSucceeded("q".to_string()))]
    );
    assert_eq!(panel.store.devices.len(), 1);
    assert_eq!(panel.store.devices[0].name, "New name");
    assert_eq!(panel.store.devices[0].ip, "10.9.9.9");
    assert_eq!(panel.store.devices[0].port, 7000);
    let refused = PairResponseEvent { accepted: false, ..response };
    let actions = panel.handle_pairing_event(PairingEvent::PairResponse(refused), String::new(), 0);
    assert!(actions.is_empty());
    assert_eq!(panel.status, PanelStatus::PairRefused);
    panel.handle_pairing_event(PairingEvent::Error("boom".to_string()), String::new(), 0);
    assert_eq!(panel.status, PanelStatus::ServiceError("boom".to_string()));
}

#[test]
fn removing_selected_device_reselects_first() {
    let mut panel: ControlPanel<Addr> = ControlPanel::new(store(vec![device("a", 1, 1), device("b", 2, 2), device("c", 3, 3)]));
    panel.select_device("b".to_string());
    panel.remove_device(1);
    assert_eq!(panel.store.devices.len(), 2);
    assert_eq!(panel.selected_device_id.as_deref(), Some("a"));
    panel.remove_device(1);
    assert_eq!(panel.selected_device_id.as_deref(), Some("a"));
    panel.remove_device(0);
    assert_eq!(panel.selected_device_id, None);
}

#[test]
fn recording_keeps_an_existing_selection_but_callers_select_the_paired_device() {
    let mut panel: ControlPanel<Addr> = ControlPanel::new(store(vec![device("a", 1, 1)]));
    let stream_to = panel.record_paired_device(
        "b".to_string(),
        "B".to_string(),
        "10.0.0.9".to_string(),
        5000,
        5001,
    );
    assert!(stream_to.is_none());
    assert_eq!(panel.selected_device_id.as_deref(), Some("a"));
    let mut empty: ControlPanel<Addr> = ControlPanel::new(store(vec![]));
    empty.record_paired_device("c".to_string(), "C".to_string(), "1.1.1.1".to_string(), 1, 2);
    assert_eq!(empty.selected_device_id.as_deref(), Some("c"));

    let response = PairResponseEvent {
        request_id: "q".to_string(),
        accepted: true,
        device_id: "d".to_string(),
        device_name: "D".to_string(),
        addr: 3,
        video_port: 7000,
        control_port: 7001,
    };
    panel.handle_pairing_event(PairingEvent::PairResponse(response), "10.9.9.9".to_string(), 0);
    assert_eq!(panel.selected_device_id.as_deref(), Some("d"));
}
