use wordpick::config::AppConfig;
use wordpick::llm::Scenario;
use wordpick::position::PopupPosition;
use wordpick::selection::{Selection, SelectionSource};
use wordpick::state::{AppState, ToolbarOutcome};

fn sel() -> Selection {
    Selection { text: "word".into(), anchor: Some((100, 200)), source: SelectionSource::Shortcut }
}

#[test]
fn translate_button_hands_context_to_panel_once() {
    let mut st = AppState::new(AppConfig::default());
    st.remember_selection(sel());
    match st.toolbar_action("translate") {
        ToolbarOutcome::ShowPanel { anchor, pref } => {
            assert_eq!(anchor, Some((100, 200)));
            assert_eq!(pref, PopupPosition::Below);
        }
        other => panic!("unexpected {other:?}"),
    }
    let ctx = st.take_panel_context().unwrap();
    assert_eq!(ctx.scenario, Scenario::Translate);
    assert_eq!(ctx.selection.text, "word");
    assert!(st.take_panel_context().is_none());
}

#[test]
fn explain_button_uses_popup_setting() {
    let mut cfg = AppConfig::default();
    cfg.general.popup_position = "top-right".into();
    let mut st = AppState::new(cfg);
    st.remember_selection(sel());
    assert!(matches!(
        st.toolbar_action("explain"),
        ToolbarOutcome::ShowPanel { pref: PopupPosition::TopRight, .. }
    ));
    assert_eq!(st.take_panel_context().unwrap().scenario, Scenario::Explain);
}

#[test]
fn no_selection_no_panel() {
    let mut st = AppState::new(AppConfig::default());
    assert!(matches!(st.toolbar_action("translate"), ToolbarOutcome::Ignore));
    assert!(st.take_panel_context().is_none());
    st.remember_selection(sel());
    st.selection_cleared();
    assert!(matches!(st.toolbar_action("explain"), ToolbarOutcome::Ignore));
    assert!(st.pending_panel.is_none());
}

#[test]
fn settings_and_unknown_buttons() {
    let mut st = AppState::new(AppConfig::default());
    assert!(matches!(st.toolbar_action("settings"), ToolbarOutcome::OpenSettings));
    assert!(matches!(st.toolbar_action("copy"), ToolbarOutcome::Ignore));
}

#[test]
fn config_is_replaced() {
    let mut st = AppState::new(AppConfig::default());
    let mut cfg = AppConfig::default();
    cfg.general.theme = "dark".into();
    st.set_config(cfg);
    assert_eq!(st.config.general.theme, "dark");
}

#[test]
fn shortcut_selection_is_remembered_and_placed() {
    let mut cfg = AppConfig::default();
    cfg.general.popup_position = "top-right".into();
    let mut st = AppState::new(cfg);
    let (anchor, pref) = st.show_toolbar_for(sel());
    assert_eq!(anchor, Some((100, 200)));
    assert_eq!(pref, PopupPosition::TopRight);
    assert_eq!(st.last_selection.as_ref().unwrap().text, "word");
}
