use cardwire_tray::applet::{applet_config_path, AppletConfig, AppletConfigFile, LegacyTrayToggleMode};
use cardwire_tray::mode::AppletMode;

fn pair(from: AppletMode, to: AppletMode) -> AppletConfig {
    AppletConfig { toggle_from: from, toggle_to: to }
}

#[test]
fn mode_values_follow_daemon_numbering() {
    assert_eq!(AppletMode::Integrated.value(), 0);
    assert_eq!(AppletMode::Hybrid.value(), 1);
    assert_eq!(AppletMode::Manual.value(), 2);
    assert_eq!(AppletMode::Smart.value(), 3);
    let all = AppletMode::all();
    for (i, m) in all.iter().enumerate() {
        assert_eq!(m.value() as usize, i);
    }
}

#[test]
fn mode_labels() {
    assert_eq!(AppletMode::Integrated.label(), "Integrated");
    assert_eq!(AppletMode::Hybrid.label(), "Hybrid");
    assert_eq!(AppletMode::Manual.label(), "Manual");
    assert_eq!(AppletMode::Smart.label(), "Smart");
}

#[test]
fn first_except_picks_first_other_mode() {
    assert_eq!(AppletMode::first_except(AppletMode::Integrated), AppletMode::Hybrid);
    assert_eq!(AppletMode::first_except(AppletMode::Hybrid), AppletMode::Integrated);
    assert_eq!(AppletMode::first_except(AppletMode::Manual), AppletMode::Integrated);
    assert_eq!(AppletMode::first_except(AppletMode::Smart), AppletMode::Integrated);
}

#[test]
fn default_config_toggles_integrated_and_hybrid() {
    assert_eq!(AppletConfig::default(), pair(AppletMode::Integrated, AppletMode::Hybrid));
}

#[test]
fn set_toggle_from_moves_a_clashing_target() {
    let mut c = AppletConfig::default();
    c.set_toggle_from(AppletMode::Hybrid);
    assert_eq!(c, pair(AppletMode::Hybrid, AppletMode::Integrated));
    c.set_toggle_from(AppletMode::Smart);
    assert_eq!(c, pair(AppletMode::Smart, AppletMode::Integrated));
    c.set_toggle_from(AppletMode::Integrated);
    assert_eq!(c, pair(AppletMode::Integrated, AppletMode::Hybrid));
}

#[test]
fn set_toggle_to_moves_a_clashing_source() {
    let mut c = AppletConfig::default();
    c.set_toggle_to(AppletMode::Manual);
    assert_eq!(c, pair(AppletMode::Integrated, AppletMode::Manual));
    c.set_toggle_to(AppletMode::Integrated);
    assert_eq!(c, pair(AppletMode::Hybrid, AppletMode::Integrated));
}

#[test]
fn normalized_fixes_only_equal_pairs() {
    assert_eq!(pair(AppletMode::Smart, AppletMode::Smart).normalized(), pair(AppletMode::Smart, AppletMode::Integrated));
    assert_eq!(
        pair(AppletMode::Integrated, AppletMode::Integrated).normalized(),
        pair(AppletMode::Integrated, AppletMode::Hybrid)
    );
    assert_eq!(pair(AppletMode::Manual, AppletMode::Hybrid).normalized(), pair(AppletMode::Manual, AppletMode::Hybrid));
    let once = pair(AppletMode::Hybrid, AppletMode::Hybrid).normalized();
    assert_eq!(once.normalized(), once);
}

#[test]
fn next_mode_toggles_between_the_pair() {
    let c = pair(AppletMode::Smart, AppletMode::Hybrid);
    assert_eq!(c.next_mode(3), 1);
    assert_eq!(c.next_mode(1), 3);
    assert_eq!(c.next_mode(0), 3);
    assert_eq!(c.next_mode(99), 3);
    assert_eq!(c.next_mode(c.next_mode(3)), 3);
    let d = AppletConfig::default();
    assert_eq!(d.next_mode(0), 1);
    assert_eq!(d.next_mode(2), 0);
}

#[test]
fn settings_file_with_new_keys() {
    let f = AppletConfigFile { toggle_from: Some(AppletMode::Manual), toggle_to: Some(AppletMode::Smart), left_click_toggle: Some(LegacyTrayToggleMode::SmartHybrid) };
    assert_eq!(f.into_config(), pair(AppletMode::Manual, AppletMode::Smart));
    let only_from = AppletConfigFile { toggle_from: Some(AppletMode::Hybrid), toggle_to: None, left_click_toggle: None };
    assert_eq!(only_from.into_config(), pair(AppletMode::Hybrid, AppletMode::Integrated));
    let only_to = AppletConfigFile { toggle_from: None, toggle_to: Some(AppletMode::Smart), left_click_toggle: None };
    assert_eq!(only_to.into_config(), pair(AppletMode::Integrated, AppletMode::Smart));
}

#[test]
fn settings_file_with_legacy_key() {
    let smart = AppletConfigFile { toggle_from: None, toggle_to: None, left_click_toggle: Some(LegacyTrayToggleMode::SmartHybrid) };
    assert_eq!(smart.into_config(), pair(AppletMode::Smart, AppletMode::Hybrid));
    let integrated = AppletConfigFile { toggle_from: None, toggle_to: None, left_click_toggle: Some(LegacyTrayToggleMode::IntegratedHybrid) };
    assert_eq!(integrated.into_config(), AppletConfig::default());
    let empty = AppletConfigFile { toggle_from: None, toggle_to: None, left_click_toggle: None };
    assert_eq!(empty.into_config(), AppletConfig::default());
}

#[test]
fn missing_settings_file_gives_defaults() {
    assert_eq!(AppletConfig::from_file(None), AppletConfig::default());
    let f = AppletConfigFile { toggle_from: Some(AppletMode::Smart), toggle_to: Some(AppletMode::Smart), left_click_toggle: None };
    assert_eq!(AppletConfig::from_file(Some(f)), pair(AppletMode::Smart, AppletMode::Integrated));
}

#[test]
fn settings_path_prefers_xdg_config_home() {
    let p = applet_config_path(Some("/x/conf".to_string()), Some("/home/u".to_string()));
    assert_eq!(p.as_deref(), Some("/x/conf/cardwire-tray/config.toml"));
    let p = applet_config_path(Some("/x/conf/".to_string()), None);
    assert_eq!(p.as_deref(), Some("/x/conf/cardwire-tray/config.toml"));
    let p = applet_config_path(Some(String::new()), Some("/home/u".to_string()));
    assert_eq!(p.as_deref(), Some("/home/u/.config/cardwire-tray/config.toml"));
    let p = applet_config_path(None, Some("/home/u".to_string()));
    assert_eq!(p.as_deref(), Some("/home/u/.config/cardwire-tray/config.toml"));
    assert_eq!(applet_config_path(None, Some(String::new())), None);
    assert_eq!(applet_config_path(None, None), None);
}

#[test]
fn saved_settings_read_back() {
    let c = pair(AppletMode::Manual, AppletMode::Smart);
    let f = c.to_file();
    assert_eq!(f.toggle_from, Some(AppletMode::Manual));
    assert_eq!(f.toggle_to, Some(AppletMode::Smart));
    assert_eq!(f.left_click_toggle, None);
    assert_eq!(f.into_config(), c);
    let same = pair(AppletMode::Hybrid, AppletMode::Hybrid);
    assert_eq!(same.to_file().into_config(), same.normalized());
}
