use overlay_backend::key::mk_key;
use overlay_backend::monitors::{list_monitors, MonitorInfo, RawMonitor};
use std::collections::HashMap;

fn raw(x: i32, y: i32, width: u32, height: u32, scale_centi: u32) -> RawMonitor {
    RawMonitor { name: None, x, y, width, height, scale_centi }
}

#[test]
fn key_of_primary_monitor() {
    assert_eq!(mk_key(0, 0, 1920, 1080, 100), "0:0:1920x1080@1.00");
}

#[test]
fn key_of_scaled_monitor() {
    assert_eq!(mk_key(1920, 0, 2560, 1440, 125), "1920:0:2560x1440@1.25");
}

#[test]
fn key_of_negative_position() {
    assert_eq!(mk_key(-1920, -50, 800, 600, 150), "-1920:-50:800x600@1.50");
}

#[test]
fn key_of_fractional_scale_below_one() {
    assert_eq!(mk_key(0, 0, 1, 1, 50), "0:0:1x1@0.50");
}

#[test]
fn two_monitor_enumeration() {
    let raws = vec![raw(0, 0, 1920, 1080, 100), raw(1920, 0, 2560, 1440, 125)];
    let friendly: HashMap<usize, String> = HashMap::new();
    let infos = list_monitors(&raws, Some((0, 0)), &friendly);
    assert_eq!(infos.len(), 2);
    assert_eq!(infos[0].id, 0);
    assert_eq!(infos[0].key, "0:0:1920x1080@1.00");
    assert!(infos[0].primary);
    assert_eq!(infos[1].id, 1);
    assert_eq!(infos[1].key, "1920:0:2560x1440@1.25");
    assert!(!infos[1].primary);
}

#[test]
fn keys_deterministic_across_enumerations() {
    let raws = vec![raw(-100, 20, 1024, 768, 100), raw(924, 20, 3840, 2160, 200)];
    let mut friendly_first: HashMap<usize, String> = HashMap::new();
    friendly_first.insert(0, String::from("Dell U3824DW"));
    let friendly_second: HashMap<usize, String> = HashMap::new();
    let first = list_monitors(&raws, Some((-100, 20)), &friendly_first);
    let second = list_monitors(&raws, None, &friendly_second);
    let keys_first: Vec<String> = first.iter().map(|m: &MonitorInfo| m.key.clone()).collect();
    let keys_second: Vec<String> = second.iter().map(|m: &MonitorInfo| m.key.clone()).collect();
    assert_eq!(keys_first, keys_second);
}

#[test]
fn friendly_names_attach_by_ordinal() {
    let raws = vec![raw(0, 0, 1920, 1080, 100), raw(1920, 0, 2560, 1440, 125)];
    let mut friendly: HashMap<usize, String> = HashMap::new();
    friendly.insert(1, String::from("LG UltraWide"));
    let infos = list_monitors(&raws, Some((0, 0)), &friendly);
    assert_eq!(infos[0].friendly, None);
    assert_eq!(infos[1].friendly, Some(String::from("LG UltraWide")));
}

#[test]
fn device_name_carried_through() {
    let mut m = raw(0, 0, 640, 480, 100);
    m.name = Some(String::from("\\\\.\\DISPLAY1"));
    let infos = list_monitors(&vec![m], None, &HashMap::new());
    assert_eq!(infos[0].name, Some(String::from("\\\\.\\DISPLAY1")));
    assert!(!infos[0].primary);
}

#[test]
fn primary_by_position_equality_not_index() {
    let raws = vec![raw(100, 100, 1920, 1080, 100), raw(0, 0, 1280, 720, 100)];
    let infos = list_monitors(&raws, Some((0, 0)), &HashMap::new());
    assert!(!infos[0].primary);
    assert!(infos[1].primary);
}
