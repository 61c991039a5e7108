use cardwire_tray::applet::AppletConfig;
use cardwire_tray::daemon::{CardwireConfigState, ConfigKey, GpuInfo};
use cardwire_tray::gui::{
    failure_message, ConfigBody, EntryControl, GpuPage, GuiMessage, GuiOperation, GuiSnapshot, GuiState, GuiTask, Page,
    SidebarBody,
};
use cardwire_tray::mode::AppletMode;
use cardwire_tray::view::{
    daemon_settings, empty_or_value, gpu_info_rows, gpu_title, lsof_section, mode_choices, process_text, yes_no,
    LsofSection,
};

fn gpu(id: u32, name: &str, is_default: bool, blocked: bool) -> GpuInfo {
    GpuInfo::from_device(
        id,
        (name.to_string(), "0000:01:00.0".to_string(), 129, 1, is_default, true, String::new()),
        Some(blocked),
        Some("D0".to_string()),
        None,
    )
}

fn snapshot(mode: u32, gpus: Vec<GpuInfo>) -> GuiSnapshot {
    GuiSnapshot::assemble(true, Some(mode), None, gpus)
}

#[test]
fn yes_no_and_empty_or_value() {
    assert_eq!(yes_no(true), "Yes");
    assert_eq!(yes_no(false), "No");
    assert_eq!(empty_or_value(""), "Not reported");
    assert_eq!(empty_or_value("D0"), "D0");
}

#[test]
fn gpu_details_rows() {
    let g = gpu(1, "RTX 4060", false, true);
    assert_eq!(gpu_title(&g), "GPU 1: RTX 4060");
    let rows = gpu_info_rows(&g);
    let want = [
        ("Name", "RTX 4060"),
        ("PCI address", "0000:01:00.0"),
        ("Render node", "minor 129 (/dev/dri/renderD129)"),
        ("Card node", "minor 1 (/dev/dri/card1)"),
        ("Default display GPU", "No"),
        ("NVIDIA device", "Yes"),
        ("NVIDIA minor", "Not reported"),
        ("Power state", "D0"),
        ("Blocked", "Yes"),
    ];
    assert_eq!(rows.len(), want.len());
    for (r, w) in rows.iter().zip(want.iter()) {
        assert_eq!((r.0.as_str(), r.1.as_str()), *w);
    }
}

#[test]
fn lsof_table_is_sorted() {
    assert!(matches!(lsof_section(&Vec::new()), LsofSection::Notice(t) if t == "No applications currently reported by lsof."));
    let lsof = vec![
        ("/dev/dri/renderD129".to_string(), vec!["steam".to_string(), "firefox".to_string()]),
        ("/dev/dri/card1".to_string(), vec![]),
        ("/dev/nvidia0".to_string(), vec!["Xorg".to_string()]),
    ];
    match lsof_section(&lsof) {
        LsofSection::Table(rows) => {
            let got: Vec<(&str, &str)> = rows.iter().map(|r| (r.0.as_str(), r.1.as_str())).collect();
            assert_eq!(
                got,
                vec![
                    ("Device node", "Applications"),
                    ("/dev/dri/card1", "No process names reported"),
                    ("/dev/dri/renderD129", "firefox, steam"),
                    ("/dev/nvidia0", "Xorg"),
                ]
            );
        }
        LsofSection::Notice(_) => panic!("files are open"),
    }
    assert_eq!(process_text(&vec!["b".to_string(), "a".to_string()]), "a, b");
}

#[test]
fn mode_choices_and_settings() {
    let c = mode_choices();
    let got: Vec<(u32, &str)> = c.iter().map(|(v, l)| (*v, l.as_str())).collect();
    assert_eq!(got, vec![(0, "Integrated"), (1, "Hybrid"), (2, "Manual"), (3, "Smart")]);
    let s = daemon_settings(CardwireConfigState { auto_apply_gpu_state: true, battery_auto_switch: false, experimental_nvidia_block: true });
    assert_eq!(s.len(), 3);
    assert!(s[0].key == ConfigKey::AutoApplyGpuState && s[0].enabled && s[0].label == "Auto-apply saved GPU block states");
    assert!(s[1].key == ConfigKey::BatteryAutoSwitch && !s[1].enabled && s[1].label == "Automatically switch modes on battery power");
    assert!(s[2].key == ConfigKey::ExperimentalNvidiaBlock && s[2].enabled && s[2].label == "Use experimental NVIDIA blocking");
}

#[test]
fn failure_messages() {
    assert_eq!(failure_message(GuiOperation::SetMode, "denied"), "Could not set mode: denied");
    assert_eq!(failure_message(GuiOperation::UpdateDaemonConfig, "x"), "Could not update daemon config: x");
    assert_eq!(failure_message(GuiOperation::UpdateGpuBlock, "y"), "Could not update GPU block state: y");
    assert_eq!(failure_message(GuiOperation::SaveAppletSettings, "z"), "Could not save tray applet settings: z");
}

#[test]
fn snapshot_defaults_for_failed_reads() {
    let s = GuiSnapshot::assemble(false, None, None, Vec::new());
    assert!(!s.daemon_online);
    assert_eq!(s.mode, 0);
    assert_eq!(s.config, CardwireConfigState::default());
}

#[test]
fn window_opens_loads_and_refreshes() {
    let mut s = GuiState::new(AppletConfig::default());
    assert_eq!(s.update(GuiMessage::OpenPoll(false, 0)), GuiTask::Nothing);
    assert_eq!(s.update(GuiMessage::RefreshTick), GuiTask::Nothing);
    assert_eq!(s.update(GuiMessage::OpenPoll(true, 7)), GuiTask::OpenAndLoad(7));
    assert!(s.loading);
    assert_eq!(s.window, Some(7));
    assert_eq!(s.update(GuiMessage::WindowOpened(7)), GuiTask::Nothing);
    assert_eq!(s.update(GuiMessage::RefreshTick), GuiTask::Nothing);
    assert_eq!(s.update(GuiMessage::SnapshotLoaded(Ok(snapshot(1, Vec::new())))), GuiTask::Nothing);
    assert!(!s.loading);
    assert_eq!(s.update(GuiMessage::RefreshTick), GuiTask::Load);
    assert_eq!(s.update(GuiMessage::SnapshotLoaded(Err("boom".to_string()))), GuiTask::Nothing);
    assert_eq!(s.error.as_deref(), Some("boom"));
    assert!(s.snapshot.is_some());
    assert_eq!(s.error_text().as_deref(), Some("Error: boom"));
    assert_eq!(s.update(GuiMessage::ClearError), GuiTask::Nothing);
    assert_eq!(s.error_text(), None);
    assert_eq!(s.update(GuiMessage::OpenPoll(true, 9)), GuiTask::FocusAndLoad(7));
    s.update(GuiMessage::SnapshotLoaded(Ok(snapshot(1, Vec::new()))));
    assert_eq!(s.update(GuiMessage::WindowClosed(8)), GuiTask::Nothing);
    assert_eq!(s.window, Some(7));
    assert_eq!(s.update(GuiMessage::WindowClosed(7)), GuiTask::Nothing);
    assert_eq!(s.window, None);
    assert_eq!(s.update(GuiMessage::RefreshTick), GuiTask::Nothing);
}

#[test]
fn window_requests_daemon_work() {
    let mut s = GuiState::new(AppletConfig::default());
    assert_eq!(s.update(GuiMessage::ModeSelected(2)), GuiTask::SetModeAndLoad(2));
    assert!(s.loading);
    assert_eq!(
        s.update(GuiMessage::DaemonConfigToggled(ConfigKey::BatteryAutoSwitch, true)),
        GuiTask::SetConfigAndLoad(ConfigKey::BatteryAutoSwitch, true)
    );
    assert_eq!(s.update(GuiMessage::GpuBlockToggled(1, false)), GuiTask::SetGpuBlockAndLoad(1, false));
    assert_eq!(s.update(GuiMessage::SelectPage(Page::Gpu(1))), GuiTask::Nothing);
    assert_eq!(s.page, Page::Gpu(1));
}

#[test]
fn window_edits_toggle_pair() {
    let mut s = GuiState::new(AppletConfig::default());
    assert_eq!(s.update(GuiMessage::ToggleFromChanged(AppletMode::Hybrid)), GuiTask::SaveToggleFrom(AppletMode::Hybrid));
    assert_eq!(s.applet_config, AppletConfig { toggle_from: AppletMode::Hybrid, toggle_to: AppletMode::Integrated });
    assert_eq!(s.update(GuiMessage::ToggleToChanged(AppletMode::Smart)), GuiTask::SaveToggleTo(AppletMode::Smart));
    assert_eq!(s.applet_config, AppletConfig { toggle_from: AppletMode::Hybrid, toggle_to: AppletMode::Smart });
    s.update(GuiMessage::AppletSaveFailed(failure_message(GuiOperation::SaveAppletSettings, "read-only")));
    assert_eq!(s.error.as_deref(), Some("Could not save tray applet settings: read-only"));
}

#[test]
fn sidebar_and_pages() {
    let mut s = GuiState::new(AppletConfig::default());
    assert!(matches!(s.sidebar(), SidebarBody::Notice(t) if t == "No daemon snapshot"));
    assert_eq!(s.status_text(), "Checking");
    assert!(matches!(s.config_body(), ConfigBody::Waiting(t) if t == "Waiting for daemon data..."));
    assert!(matches!(s.gpu_page(0), GpuPage::Notice(t) if t == "Waiting for daemon data..."));
    s.update(GuiMessage::OpenPoll(true, 0));
    assert!(matches!(s.sidebar(), SidebarBody::Notice(t) if t == "Loading GPUs..."));
    s.update(GuiMessage::SnapshotLoaded(Ok(snapshot(2, Vec::new()))));
    assert!(matches!(s.sidebar(), SidebarBody::Notice(t) if t == "No GPUs reported"));
    let gpus = vec![gpu(0, "Intel", true, false), gpu(1, "NVIDIA", false, true)];
    s.update(GuiMessage::SnapshotLoaded(Ok(snapshot(2, gpus))));
    s.update(GuiMessage::SelectPage(Page::Gpu(1)));
    assert_eq!(s.status_text(), "Running");
    match s.sidebar() {
        SidebarBody::Gpus(entries) => {
            assert_eq!(entries.len(), 2);
            assert_eq!(entries[0].label, "GPU 0: Intel");
            assert!(!entries[0].selected && entries[1].selected);
            assert_eq!(entries[0].control, EntryControl::Spacer);
            assert_eq!(entries[1].control, EntryControl::BlockCheckbox(true));
        }
        SidebarBody::Notice(_) => panic!("GPUs are known"),
    }
    match s.config_body() {
        ConfigBody::Daemon { mode, settings } => {
            assert_eq!(mode, 2);
            assert_eq!(settings.len(), 3);
        }
        ConfigBody::Waiting(_) => panic!("snapshot is loaded"),
    }
    assert!(matches!(s.gpu_page(5), GpuPage::Notice(t) if t == "This GPU is no longer reported by Cardwire."));
    match s.gpu_page(1) {
        GpuPage::Details { title, info, lsof } => {
            assert_eq!(title, "GPU 1: NVIDIA");
            assert_eq!(info.len(), 9);
            assert!(matches!(lsof, LsofSection::Notice(_)));
        }
        GpuPage::Notice(_) => panic!("GPU 1 is reported"),
    }
    let offline = GuiSnapshot::assemble(false, Some(0), None, vec![gpu(3, "AMD", false, false)]);
    s.update(GuiMessage::SnapshotLoaded(Ok(offline)));
    assert_eq!(s.status_text(), "Unavailable");
    match s.sidebar() {
        SidebarBody::Gpus(entries) => assert_eq!(entries[0].control, EntryControl::Nothing),
        SidebarBody::Notice(_) => panic!("GPUs are known"),
    }
}
