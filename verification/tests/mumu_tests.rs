use mumu_remote::mumu::is_mumu_window;
use mumu_remote::mumu::is_mumu_window_title;

#[test]
fn detects_basic_mumu_title() {
    assert!(is_mumu_window_title("MuMu"));
}

#[test]
fn detects_common_mumu_window_titles() {
    assert!(is_mumu_window_title("MuMu模拟器"));
    assert!(is_mumu_window_title("MuMu Player"));
    assert!(is_mumu_window_title("mumu"));
}

#[test]
fn rejects_unrelated_titles() {
    assert!(!is_mumu_window_title("Some Other Window"));
    assert!(!is_mumu_window_title("Random App"));
}

#[test]
fn title_match_ignores_ascii_case_anywhere() {
    assert!(is_mumu_window_title("Android Device - MUMU"));
    assert!(is_mumu_window_title("xxmUmUxx"));
    assert!(!is_mumu_window_title("mum u"));
    assert!(!is_mumu_window_title("mum"));
    assert!(!is_mumu_window_title(""));
}

#[test]
fn window_must_be_visible_with_mumu_title() {
    assert!(is_mumu_window(true, Some("MuMu Player")));
    assert!(!is_mumu_window(false, Some("MuMu Player")));
    assert!(!is_mumu_window(true, None));
    assert!(!is_mumu_window(true, Some("Notepad")));
}
