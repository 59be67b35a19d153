use mumu_remote::input::{current_mumu_size, handle_event, map_key, InputAction, InputEvent};
use mumu_remote::runtime_config::{apply_setting, get_stream_config, StreamRuntimeConfig};

#[test]
fn map_key_back_home_recent() {
    assert_eq!(map_key("back"), "4");
    assert_eq!(map_key("home"), "3");
    assert_eq!(map_key("recent"), "187");
    assert_eq!(map_key("66"), "66");
}

#[test]
fn setting_event_updates_runtime_config() {
    let event = InputEvent::Setting {
        resolution: Some("2k".to_string()),
        fps: Some(90),
    };
    let mut last_touch = None;
    let mut shared = StreamRuntimeConfig::default();

    if let InputAction::ApplySetting { resolution, fps } = handle_event(event, &mut last_touch) {
        apply_setting(&mut shared, resolution, fps);
    }

    let cfg = get_stream_config(Some(&shared));
    assert_eq!(cfg.fps, 90);
    assert_eq!(cfg.resolution_mode, "2k");
}

fn touch(phase: &str, x: i32, y: i32) -> InputEvent {
    InputEvent::Touch {
        phase: phase.to_string(),
        x,
        y,
    }
}

#[test]
fn touch_sequence_swipes_then_taps() {
    let mut last = None;
    assert_eq!(handle_event(touch("down", 10, 20), &mut last), InputAction::Nothing);
    assert_eq!(last, Some((10, 20)));
    assert_eq!(
        handle_event(touch("move", 30, 40), &mut last),
        InputAction::Swipe { x1: 10, y1: 20, x2: 30, y2: 40, duration_ms: 8 }
    );
    assert_eq!(last, Some((30, 40)));
    assert_eq!(handle_event(touch("up", 31, 41), &mut last), InputAction::Tap { x: 31, y: 41 });
    assert_eq!(last, None);
    assert_eq!(handle_event(touch("move", 1, 2), &mut last), InputAction::Nothing);
    assert_eq!(last, Some((1, 2)));
    assert_eq!(handle_event(touch("cancel", 5, 6), &mut last), InputAction::Tap { x: 5, y: 6 });
    assert_eq!(last, Some((1, 2)));
}

#[test]
fn key_event_uses_key_code() {
    let mut last = Some((1, 1));
    let action = handle_event(InputEvent::Key { key: "home".to_string() }, &mut last);
    assert_eq!(action, InputAction::KeyEvent { code: "3".to_string() });
    assert_eq!(last, Some((1, 1)));
}

#[test]
fn mumu_size_falls_back() {
    assert_eq!(current_mumu_size(Some((800, 600))), (800, 600));
    assert_eq!(current_mumu_size(Some((0, 600))), (1280, 720));
    assert_eq!(current_mumu_size(None), (1280, 720));
}
