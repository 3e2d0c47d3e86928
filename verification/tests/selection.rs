use wordpick::config::AppConfig;
use wordpick::position::PopupPosition;
use wordpick::selection::{
    auto_trigger, caret_center, is_blacklisted, matches_any_entry, nonblank_text, popup_pref, selection_from_clipboard_text,
    selection_from_text, DispatchAction, DispatchInput, Dispatcher, Selection, SelectionSource,
};

fn sel(text: &str) -> Selection {
    Selection { text: text.to_string(), anchor: Some((10, 20)), source: SelectionSource::Ax }
}

#[test]
fn clipboard_selection_is_trimmed() {
    let s = selection_from_clipboard_text(Some("  hello \n".into()), Some((5, 6))).unwrap();
    assert_eq!(s.text, "hello");
    assert_eq!(s.anchor, Some((5, 6)));
    assert_eq!(s.source, SelectionSource::Shortcut);
    assert!(selection_from_clipboard_text(Some(" \t\n".into()), None).is_none());
    assert!(selection_from_clipboard_text(None, None).is_none());
}

#[test]
fn copied_text_must_not_be_blank() {
    assert_eq!(nonblank_text(Some(" x ".into())), Some(" x ".into()));
    assert_eq!(nonblank_text(Some("\u{3000}".into())), None);
    assert_eq!(nonblank_text(None), None);
}

#[test]
fn platform_selection_keeps_text() {
    let s = selection_from_text(" a ".into(), None, SelectionSource::Uia).unwrap();
    assert_eq!(s.text, " a ");
    assert_eq!(s.source, SelectionSource::Uia);
    assert!(selection_from_text("\n".into(), Some((1, 1)), SelectionSource::Ax).is_none());
}

#[test]
fn caret_centres() {
    assert_eq!(caret_center(10, 20, 30, 41), Some((20, 30)));
    assert_eq!(caret_center(-3, -3, 0, 0), Some((-1, -1)));
    assert_eq!(caret_center(10, 20, 10, 40), None);
    assert_eq!(caret_center(10, 20, 30, 19), None);
}

#[test]
fn popup_side_setting() {
    assert_eq!(popup_pref("top-right"), PopupPosition::TopRight);
    assert_eq!(popup_pref("below"), PopupPosition::Below);
    assert_eq!(popup_pref("Top-Right"), PopupPosition::Below);
}

#[test]
fn blacklist_ignores_case() {
    let bl = vec!["KeePass".to_string(), "1password".to_string()];
    assert!(is_blacklisted("keepassxc", &bl));
    assert!(is_blacklisted("1Password 8", &bl));
    assert!(!is_blacklisted("Safari", &bl));
    assert!(!is_blacklisted("Safari", &vec![]));
}

#[test]
fn trigger_mode() {
    let mut cfg = AppConfig::default();
    assert!(auto_trigger(&cfg.general));
    cfg.general.trigger_mode = "shortcut".into();
    assert!(!auto_trigger(&cfg.general));
}

#[test]
fn dispatcher_debounces() {
    let general = AppConfig::default().general;
    let mut d = Dispatcher::new();
    let a = d.step(DispatchInput::Selected { selection: sel("hello"), frontmost_app: None, now_ms: 1000 }, &general);
    assert!(matches!(a, DispatchAction::Wait));
    assert!(matches!(d.step(DispatchInput::Tick { now_ms: 1100 }, &general), DispatchAction::Wait));
    match d.step(DispatchInput::Tick { now_ms: 1220 }, &general) {
        DispatchAction::ShowToolbar { selection, pref } => {
            assert_eq!(selection.text, "hello");
            assert_eq!(pref, PopupPosition::Below);
        }
        other => panic!("unexpected {other:?}"),
    }
    assert!(matches!(d.step(DispatchInput::Tick { now_ms: 5000 }, &general), DispatchAction::Wait));
}

#[test]
fn dispatcher_filters() {
    let mut general = AppConfig::default().general;
    general.max_selection_chars = 5;
    general.blacklist_apps = vec!["Terminal".into()];
    let mut d = Dispatcher::new();
    d.step(DispatchInput::Selected { selection: sel("   "), frontmost_app: None, now_ms: 0 }, &general);
    d.step(DispatchInput::Selected { selection: sel("abcdef"), frontmost_app: None, now_ms: 0 }, &general);
    d.step(DispatchInput::Selected { selection: sel("ok"), frontmost_app: Some("terminal".into()), now_ms: 0 }, &general);
    assert!(d.pending.is_none());
    assert!(matches!(d.step(DispatchInput::Tick { now_ms: 1000 }, &general), DispatchAction::Wait));
    // Trimmed length counts: five characters inside spaces pass.
    d.step(DispatchInput::Selected { selection: sel("  abcde  "), frontmost_app: None, now_ms: 0 }, &general);
    assert!(d.pending.is_some());
}

#[test]
fn dispatcher_clear_cancels() {
    let general = AppConfig::default().general;
    let mut d = Dispatcher::new();
    d.step(DispatchInput::Selected { selection: sel("x"), frontmost_app: None, now_ms: 0 }, &general);
    assert!(matches!(d.step(DispatchInput::Cleared, &general), DispatchAction::HideToolbar));
    assert!(matches!(d.step(DispatchInput::Tick { now_ms: 10_000 }, &general), DispatchAction::Wait));
}

#[test]
fn newer_selection_restarts_the_quiet_period() {
    let mut general = AppConfig::default().general;
    general.popup_position = "top-right".into();
    let mut d = Dispatcher::new();
    d.step(DispatchInput::Selected { selection: sel("a"), frontmost_app: None, now_ms: 0 }, &general);
    d.step(DispatchInput::Selected { selection: sel("ab"), frontmost_app: None, now_ms: 200 }, &general);
    assert!(matches!(d.step(DispatchInput::Tick { now_ms: 300 }, &general), DispatchAction::Wait));
    match d.step(DispatchInput::Tick { now_ms: 420 }, &general) {
        DispatchAction::ShowToolbar { selection, pref } => {
            assert_eq!(selection.text, "ab");
            assert_eq!(pref, PopupPosition::TopRight);
        }
        other => panic!("unexpected {other:?}"),
    }
}

#[test]
fn lowered_entries_match_by_substring() {
    let entries = vec!["keepass".to_string(), "bank".to_string()];
    assert!(matches_any_entry("keepassxc", &entries));
    assert!(matches_any_entry("my bank app", &entries));
    assert!(!matches_any_entry("KeePassXC", &entries));
    assert!(!matches_any_entry("safari", &entries));
    assert!(matches_any_entry("anything", &vec![String::new()]));
}
