use cardwire_tray::daemon::{
    collect_gpus, GpuProbe,
    gpu_id_from_path, gpu_id_of_object, gpu_ids, gpu_object_path, gpu_position, has_gpu_interface,
    sort_gpus_by_id, BusFailure, BusPrompt, CardwireConfigState, ConfigKey, GpuInfo, CARDWIRE_GPU_INTERFACE,
    CARDWIRE_PATH, CARDWIRE_SERVICE,
};

fn device(name: &str, is_default: bool) -> (String, String, u32, u32, bool, bool, String) {
    (name.to_string(), "0000:01:00.0".to_string(), 128, 1, is_default, false, String::new())
}

fn gpu(id: u32, name: &str) -> GpuInfo {
    GpuInfo::from_device(id, device(name, false), None, None, None)
}

#[test]
fn bus_names() {
    assert_eq!(CARDWIRE_SERVICE, "com.github.opengamingcollective.cardwire");
    assert_eq!(CARDWIRE_PATH, "/com/github/opengamingcollective/cardwire");
    assert_eq!(CARDWIRE_GPU_INTERFACE, "com.github.opengamingcollective.cardwire.Gpu");
}

#[test]
fn gpu_object_paths() {
    assert_eq!(gpu_object_path(3), "/com/github/opengamingcollective/cardwire/Gpu/3");
    assert_eq!(gpu_object_path(12), "/com/github/opengamingcollective/cardwire/Gpu/12");
    for id in [0u32, 1, 77, u32::MAX] {
        assert_eq!(gpu_id_from_path(&gpu_object_path(id)), Some(id));
    }
}

#[test]
fn gpu_ids_from_paths() {
    assert_eq!(gpu_id_from_path("/com/github/opengamingcollective/cardwire/Gpu/+5"), Some(5));
    assert_eq!(gpu_id_from_path("/com/github/opengamingcollective/cardwire/Gpu/"), None);
    assert_eq!(gpu_id_from_path("/com/github/opengamingcollective/cardwire/Gpu/x"), None);
    assert_eq!(gpu_id_from_path("/com/github/opengamingcollective/cardwire"), None);
    assert_eq!(gpu_id_from_path("/org/other/Gpu/1"), None);
}

#[test]
fn only_gpu_objects_count() {
    let gpu_if = vec!["org.freedesktop.DBus.Properties".to_string(), CARDWIRE_GPU_INTERFACE.to_string()];
    let other_if = vec!["com.github.opengamingcollective.cardwire.Manager".to_string()];
    assert!(has_gpu_interface(&gpu_if));
    assert!(!has_gpu_interface(&other_if));
    let path = "/com/github/opengamingcollective/cardwire/Gpu/2";
    assert_eq!(gpu_id_of_object(path, &gpu_if), Some(2));
    assert_eq!(gpu_id_of_object(path, &other_if), None);
    assert_eq!(gpu_id_of_object("/com/github/opengamingcollective/cardwire", &gpu_if), None);
}

#[test]
fn config_property_names() {
    assert_eq!(ConfigKey::AutoApplyGpuState.property_name(), "AutoApplyGpuState");
    assert_eq!(ConfigKey::BatteryAutoSwitch.property_name(), "BatteryAutoSwitch");
    assert_eq!(ConfigKey::ExperimentalNvidiaBlock.property_name(), "ExperimentalNvidiaBlock");
    let c = CardwireConfigState::default();
    assert!(!c.auto_apply_gpu_state && !c.battery_auto_switch && !c.experimental_nvidia_block);
}

#[test]
fn gpu_record_from_device_answer() {
    let g = GpuInfo::from_device(4, ("RTX".to_string(), "pci".to_string(), 129, 2, false, true, "0".to_string()), None, None, None);
    assert_eq!(g.id, 4);
    assert_eq!(g.name, "RTX");
    assert_eq!(g.pci, "pci");
    assert_eq!((g.render, g.card), (129, 2));
    assert!(!g.is_default && g.is_nvidia);
    assert_eq!(g.nvidia_minor, "0");
    assert!(!g.blocked);
    assert_eq!(g.power_state, "Unknown");
    assert!(g.lsof.is_empty());
    let lsof = vec![("/dev/dri/card1".to_string(), vec!["Xorg".to_string()])];
    let h = GpuInfo::from_device(5, device("iGPU", true), Some(true), Some("D3cold".to_string()), Some(lsof));
    assert!(h.blocked);
    assert_eq!(h.power_state, "D3cold");
    assert_eq!(h.lsof.len(), 1);
}

#[test]
fn gpus_sorted_by_id() {
    let gpus = vec![gpu(3, "c"), gpu(1, "a"), gpu(2, "b"), gpu(0, "z")];
    let sorted = sort_gpus_by_id(gpus);
    let ids: Vec<u32> = sorted.iter().map(|g| g.id).collect();
    assert_eq!(ids, vec![0, 1, 2, 3]);
    assert_eq!(sorted[0].name, "z");
    assert_eq!(gpu_ids(&sorted), vec![0, 1, 2, 3]);
    assert_eq!(gpu_position(&sorted, 2), Some(2));
    assert_eq!(gpu_position(&sorted, 9), None);
}

#[test]
fn gpus_of_equal_id_keep_their_order() {
    let gpus = vec![gpu(2, "b1"), gpu(1, "a"), gpu(2, "b2"), gpu(0, "z"), gpu(2, "b3")];
    let sorted = sort_gpus_by_id(gpus);
    let names: Vec<&str> = sorted.iter().map(|g| g.name.as_str()).collect();
    assert_eq!(names, vec!["z", "a", "b1", "b2", "b3"]);
}

#[test]
fn bus_prompts() {
    let p = BusPrompt::for_failure(BusFailure::SystemBus);
    assert_eq!(p.title, "Cardwire DBus Connection");
    assert_eq!(p.description, "Failed to connect to the DBus system bus.");
    let q = BusPrompt::for_failure(BusFailure::Service);
    assert_eq!(q.title, "Cardwire DBus Service");
    assert_eq!(q.description, "Could not access the cardwire DBus service. Is it running?");
    assert_eq!((q.retry_label.as_str(), q.quit_label.as_str()), ("Retry", "Quit"));
    assert!(q.answer_quits(Some("Quit")));
    assert!(!q.answer_quits(Some("Retry")));
    assert!(!q.answer_quits(None));
}

fn probe(id: u32, name: Option<&str>) -> GpuProbe {
    GpuProbe {
        id,
        device: name.map(|n| device(n, false)),
        blocked: Some(true),
        power_state: None,
        lsof: None,
    }
}

#[test]
fn collected_gpus_one_per_answered_probe() {
    let probes = vec![probe(3, Some("c")), probe(1, None), probe(0, Some("z")), probe(3, Some("c2")), probe(2, Some("b"))];
    let gpus = collect_gpus(probes);
    let got: Vec<(u32, &str)> = gpus.iter().map(|g| (g.id, g.name.as_str())).collect();
    assert_eq!(got, vec![(0, "z"), (2, "b"), (3, "c"), (3, "c2")]);
    assert!(gpus.iter().all(|g| g.blocked && g.power_state == "Unknown" && g.lsof.is_empty()));
    assert!(collect_gpus(vec![probe(4, None)]).is_empty());
    assert!(collect_gpus(Vec::new()).is_empty());
}
