use cardwire_tray::daemon::GpuInfo;
use cardwire_tray::tray::{
    activation_actions, dev_icon_path, fallback_icon_name, latest_release_request, mode_choice_action,
    mode_icon_base, pick_icon, toggle_target, tooltip_text, tooltip_title, tray_id, tray_menu, tray_title,
    MenuEntry, PowerWatch, TrayAction, TrayState,
};

fn gpu(id: u32, name: &str, is_default: bool, blocked: bool) -> GpuInfo {
    GpuInfo::from_device(
        id,
        (name.to_string(), String::new(), 128, 0, is_default, false, String::new()),
        Some(blocked),
        Some("D0".to_string()),
        None,
    )
}

#[test]
fn tray_texts() {
    assert_eq!(tray_id(), "me.edyan.cardwiretray");
    assert_eq!(tray_title(), "Cardwire");
    assert_eq!(tooltip_title(), "Cardwire GPUs");
}

#[test]
fn tray_icons() {
    assert_eq!(mode_icon_base(0), Some("integrated"));
    assert_eq!(mode_icon_base(1), Some("hybrid"));
    assert_eq!(mode_icon_base(2), Some("manual"));
    assert_eq!(mode_icon_base(3), None);
    assert_eq!(fallback_icon_name(), "preferences-system-windows");
    assert_eq!(dev_icon_path("/src/tray", "hybrid"), "/src/tray/icons/hybrid.svg");
    assert_eq!(dev_icon_path("", "gpu"), "icons/gpu.svg");
    assert_eq!(pick_icon("manual", "/p/icons/manual.svg".to_string(), true), "/p/icons/manual.svg");
    assert_eq!(pick_icon("manual", "/p/icons/manual.svg".to_string(), false), "me.edyan.cardwiretray-manual");
}

#[test]
fn left_click_switches_integrated_and_hybrid() {
    assert_eq!(toggle_target(0), 1);
    assert_eq!(toggle_target(1), 0);
    assert_eq!(toggle_target(3), 0);
    assert_eq!(toggle_target(toggle_target(0)), 0);
    let actions = activation_actions(0, "icon-h".to_string());
    assert_eq!(actions.len(), 2);
    assert!(matches!(&actions[0], TrayAction::Notify(t, i) if t == "Switched to Hybrid mode" && i == "icon-h"));
    assert!(matches!(actions[1], TrayAction::SetMode(1)));
    let actions = activation_actions(2, "icon-i".to_string());
    assert!(matches!(&actions[0], TrayAction::Notify(t, _) if t == "Switched to Integrated mode"));
    assert!(matches!(actions[1], TrayAction::SetMode(0)));
}

#[test]
fn tooltip_lists_each_gpu() {
    let gpus = vec![gpu(0, "Intel", true, false), gpu(1, "NVIDIA", false, true)];
    assert_eq!(
        tooltip_text(&gpus),
        "Name | Power state | Default | Blocked\nIntel | D0 | ✅ | ❌\nNVIDIA | D0 | ❌ | ✅"
    );
    assert_eq!(tooltip_text(&Vec::new()), "Name | Power state | Default | Blocked");
}

#[test]
fn menu_in_manual_mode_lists_disabled_gpus() {
    let gpus = vec![gpu(0, "Intel", true, false), gpu(1, "NVIDIA", false, true), gpu(2, "AMD", false, false)];
    let menu = tray_menu(2, &gpus);
    assert_eq!(menu.len(), 5);
    match &menu[0] {
        MenuEntry::ModeRadio { selected, options } => {
            assert_eq!(*selected, 2);
            let labels: Vec<&str> = options.iter().map(|o| o.label.as_str()).collect();
            assert_eq!(labels, vec!["Integrated Mode", "Hybrid Mode", "Manual Mode"]);
            let icons: Vec<&str> = options.iter().map(|o| o.icon_base.as_str()).collect();
            assert_eq!(icons, vec!["integrated", "hybrid", "manual"]);
        }
        _ => panic!("first entry is the mode group"),
    }
    assert!(matches!(menu[1], MenuEntry::Separator));
    match &menu[2] {
        MenuEntry::GpuSubmenu { label, icon_base, entries } => {
            assert_eq!(label, "Disabled GPUs");
            assert_eq!(icon_base, "gpu");
            assert_eq!(entries.len(), 2);
            assert_eq!((entries[0].gpu_id, entries[0].label.as_str(), entries[0].checked), (1, "NVIDIA", false));
            assert_eq!((entries[1].gpu_id, entries[1].label.as_str(), entries[1].checked), (2, "AMD", true));
            assert!(matches!(entries[1].action(), TrayAction::ToggleGpuBlock(2, true)));
            assert!(matches!(entries[0].action(), TrayAction::ToggleGpuBlock(1, false)));
        }
        _ => panic!("third entry is the GPU submenu"),
    }
    assert!(matches!(menu[3], MenuEntry::Separator));
    assert!(matches!(&menu[4], MenuEntry::Quit { label, icon_name } if label == "Quit" && icon_name == "application-exit"));
}

#[test]
fn menu_outside_manual_mode() {
    let gpus = vec![gpu(0, "Intel", true, false), gpu(1, "NVIDIA", false, true)];
    let menu = tray_menu(1, &gpus);
    assert_eq!(menu.len(), 3);
    assert!(matches!(menu[0], MenuEntry::ModeRadio { selected: 1, .. }));
    assert!(matches!(menu[1], MenuEntry::Separator));
    let smart = tray_menu(3, &gpus);
    assert!(matches!(smart[0], MenuEntry::ModeRadio { selected: 0, .. }));
    let only_default = tray_menu(2, &vec![gpu(0, "Intel", true, false)]);
    assert_eq!(only_default.len(), 3);
    assert!(matches!(mode_choice_action(2), TrayAction::SetMode(2)));
}

#[test]
fn tray_state_updates_first_matching_gpu() {
    let gpus = vec![gpu(0, "Intel", true, false), gpu(1, "NVIDIA", false, false)];
    let mut t = TrayState::new(None, gpus, "0.4.1", None);
    assert_eq!(t.mode, 0);
    assert_eq!(t.current_version, "v0.4.1");
    t.set_gpu_blocked(1, true);
    assert!(t.gpus[1].blocked && !t.gpus[0].blocked);
    t.set_gpu_blocked(7, true);
    assert!(!t.gpus[0].blocked);
    t.apply_block_outcome(0, true, false);
    assert!(!t.gpus[0].blocked);
    t.apply_block_outcome(0, true, true);
    assert!(t.gpus[0].blocked);
    t.apply_block_outcome(0, false, true);
    assert!(!t.gpus[0].blocked);
    t.set_gpu_power_state(0, "D3cold".to_string());
    assert_eq!(t.gpus[0].power_state, "D3cold");
    assert_eq!(t.gpus[1].power_state, "D0");
    t.note_latest_version(Some("v0.5.0".to_string()));
    t.note_latest_version(None);
    assert_eq!(t.latest_version.as_deref(), Some("v0.5.0"));
    let s = TrayState::new(Some(2), Vec::new(), "1.0.0", None);
    assert_eq!(s.mode, 2);
}

#[test]
fn power_watch_starts_each_listener_once() {
    let mut w = PowerWatch::new();
    assert_eq!(w.watch_new(&vec![0, 1, 1, 2]), vec![0, 1, 2]);
    assert_eq!(w.watch_new(&vec![2, 3, 0, 3]), vec![3]);
    assert_eq!(w.watch_new(&vec![]), Vec::<u32>::new());
    assert_eq!(w.watch_new(&vec![1, 2, 3]), Vec::<u32>::new());
}

#[test]
fn release_request() {
    let r = latest_release_request();
    assert_eq!(r.url, "https://api.github.com/repos/JuanDelPueblo/cardwire-tray/releases/latest");
    assert_eq!(r.headers.len(), 3);
    assert_eq!(r.headers[0], ("Accept".to_string(), "application/vnd.github+json".to_string()));
    assert_eq!(r.headers[2], ("User-Agent".to_string(), "my-rust-app".to_string()));
}
