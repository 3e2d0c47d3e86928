use wordpick::providers::templates;
use wordpick::tray::{tray_icon_rgba, tray_menu_action, TrayAction};
use wordpick::windows::{focus_on_show, window_recipe, window_target, WindowKind};

#[test]
fn tray_icon_is_a_rounded_blue_square() {
    let rgba = tray_icon_rgba();
    assert_eq!(rgba.len(), 32 * 32 * 4);
    let px = |x: usize, y: usize| &rgba[(y * 32 + x) * 4..(y * 32 + x) * 4 + 4];
    assert_eq!(px(0, 0), &[0, 0, 0, 0]);
    assert_eq!(px(5, 5), &[0, 0, 0, 0]);
    assert_eq!(px(31, 31), &[0, 0, 0, 0]);
    assert_eq!(px(26, 0), &[0, 0, 0, 0]);
    assert_eq!(px(6, 0), &[56, 132, 255, 255]);
    assert_eq!(px(0, 6), &[56, 132, 255, 255]);
    assert_eq!(px(16, 16), &[56, 132, 255, 255]);
    assert_eq!(px(25, 31), &[56, 132, 255, 255]);
    let opaque = rgba.chunks(4).filter(|p| p[3] == 255).count();
    assert_eq!(opaque, 32 * 32 - 4 * 36);
}

#[test]
fn tray_menu_entries() {
    assert_eq!(tray_menu_action("settings"), TrayAction::OpenSettings);
    assert_eq!(tray_menu_action("show"), TrayAction::ShowToolbar);
    assert_eq!(tray_menu_action("autostart"), TrayAction::ToggleAutostart);
    assert_eq!(tray_menu_action("quit"), TrayAction::Quit);
    assert_eq!(tray_menu_action("Quit"), TrayAction::Ignore);
}

#[test]
fn window_recipes() {
    let t = window_recipe(WindowKind::Toolbar);
    assert!(!t.decorations);
    assert_eq!(t.focused, Some(false));
    assert_eq!(t.shadow, Some(false));
    assert_eq!((t.width, t.height), (280, 44));
    let p = window_recipe(WindowKind::Panel);
    assert_eq!(p.focused, Some(true));
    assert_eq!(p.resizable, Some(true));
    assert_eq!((p.width, p.height), (420, 540));
    let s = window_recipe(WindowKind::Settings);
    assert!(s.decorations);
    assert_eq!(s.transparent, None);
    assert_eq!((s.width, s.height), (760, 600));
}

#[test]
fn only_settings_is_focused_on_show() {
    assert!(focus_on_show(WindowKind::Settings));
    assert!(!focus_on_show(WindowKind::Toolbar));
    assert!(!focus_on_show(WindowKind::Panel));
}

#[test]
fn window_labels_and_pages() {
    assert_eq!(window_target(WindowKind::Toolbar), ("toolbar", "toolbar.html"));
    assert_eq!(window_target(WindowKind::Panel), ("panel", "panel.html"));
    assert_eq!(window_target(WindowKind::Settings), ("settings", "settings.html"));
}

#[test]
fn provider_templates() {
    let t = templates();
    let names: Vec<&str> = t.iter().map(|p| p.name).collect();
    assert_eq!(names, vec!["deepseek", "moonshot", "qwen", "openai"]);
    assert_eq!(t[2].base_url, "https://dashscope.aliyuncs.com/compatible-mode/v1");
    assert_eq!(t[1].default_model, "kimi-k2.6");
    assert_eq!(t[3].docs_url, "https://platform.openai.com/");
}
