use mumu_remote::runtime_config::{apply_setting, get_stream_config, StreamRuntimeConfig};

#[test]
fn apply_setting_updates_fps() {
    let mut shared = StreamRuntimeConfig::default();
    apply_setting(&mut shared, Some("default".to_string()), Some(90));
    let cfg = get_stream_config(Some(&shared));
    assert_eq!(cfg.fps, 90);
}

#[test]
fn fps_is_clamped() {
    let mut shared = StreamRuntimeConfig::default();
    apply_setting(&mut shared, None, Some(999));
    let cfg = get_stream_config(Some(&shared));
    assert_eq!(cfg.fps, 120);
}

#[test]
fn low_fps_is_raised_and_absent_values_kept() {
    let mut shared = StreamRuntimeConfig::default();
    apply_setting(&mut shared, None, Some(5));
    assert_eq!(shared.fps, 30);
    assert_eq!(shared.resolution_mode, "default");
    apply_setting(&mut shared, Some("720p".to_string()), None);
    assert_eq!(shared.fps, 30);
    assert_eq!(shared.resolution_mode, "720p");
}

#[test]
fn unreadable_config_gives_defaults() {
    let cfg = get_stream_config(None);
    assert_eq!(cfg.fps, 60);
    assert_eq!(cfg.resolution_mode, "default");
}

#[test]
fn last_given_values_win() {
    let mut shared = StreamRuntimeConfig::default();
    apply_setting(&mut shared, Some("1080p".to_string()), Some(75));
    apply_setting(&mut shared, None, Some(10));
    apply_setting(&mut shared, Some("2k".to_string()), None);
    assert_eq!(shared.fps, 30);
    assert_eq!(shared.resolution_mode, "2k");
}
