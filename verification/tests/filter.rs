use cyme::profiler::filter::{contains_bytes, Filter};
use cyme::profiler::types::{Bus, Device, LocationId};

fn device(name: &str, ports: &[u8], devices: Option<Vec<Device>>) -> Device {
    Device {
        name: name.to_string(),
        vendor_id: Some(0x1d6b),
        product_id: Some(ports.len() as u16),
        location_id: LocationId { bus: 1, number: ports.len() as u8 + 1, tree_positions: ports.to_vec() },
        serial_num: None,
        class: None,
        extra: None,
        hidden: false,
        devices,
    }
}

fn named(name: &str) -> Filter {
    Filter { name: Some(name.to_string()), ..Filter::new() }
}

/// A root hub with a hub and a mouse; the hub has a keyboard and an empty hub.
fn three_levels() -> Vec<Device> {
    vec![device(
        "root",
        &[1],
        Some(vec![
            device(
                "hub",
                &[1, 1],
                Some(vec![device("keyboard", &[1, 1, 1], None), device("spare", &[1, 1, 2], Some(vec![]))]),
            ),
            device("mouse", &[1, 2], None),
        ]),
    )]
}

#[test]
fn retain_keeps_the_way_to_the_only_match() {
    let left = named("keyboard").retain_devices(three_levels());
    assert_eq!(
        left,
        vec![device(
            "root",
            &[1],
            Some(vec![device("hub", &[1, 1], Some(vec![device("keyboard", &[1, 1, 1], None)]))])
        )]
    );
}

#[test]
fn retain_cuts_what_hangs_below_a_match_without_matching() {
    let left = named("hub").retain_devices(three_levels());
    assert_eq!(left, vec![device("root", &[1], Some(vec![device("hub", &[1, 1], Some(vec![]))]))]);
}

#[test]
fn retain_without_match_leaves_nothing() {
    assert_eq!(named("camera").retain_devices(three_levels()), vec![]);
    let mut devices = three_levels();
    named("camera").retain_branch(&mut devices);
    assert!(devices.is_empty());
}

#[test]
fn retain_with_a_filter_that_asks_for_nothing_keeps_all() {
    let mut devices = three_levels();
    Filter::new().retain_branch(&mut devices);
    assert_eq!(devices, three_levels());
    assert_eq!(Filter::new().keep(device("x", &[1], None)), Some(device("x", &[1], None)));
    assert_eq!(named("y").keep(device("x", &[1], None)), None);
}

#[test]
fn retain_buses_keeps_every_bus() {
    let mut first = Bus::new(1);
    first.devices = Some(three_levels());
    let mut second = Bus::new(2);
    second.devices = Some(vec![device("camera", &[1], None)]);
    let mut buses = vec![first, second, Bus::new(3)];
    named("mouse").retain_buses(&mut buses);
    assert_eq!(buses.len(), 3);
    assert_eq!(
        buses[0].devices,
        Some(vec![device("root", &[1], Some(vec![device("mouse", &[1, 2], None)]))])
    );
    assert_eq!(buses[1].devices, Some(vec![]));
    assert_eq!(buses[2].devices, None);
}

#[test]
fn hide_marks_and_removes_nothing() {
    let mut devices = three_levels();
    named("keyboard").hide_devices(&mut devices);
    let root = &devices[0];
    let hub = &root.devices.as_ref().unwrap()[0];
    let mouse = &root.devices.as_ref().unwrap()[1];
    let keyboard = &hub.devices.as_ref().unwrap()[0];
    let spare = &hub.devices.as_ref().unwrap()[1];
    assert_eq!(
        (root.hidden, hub.hidden, keyboard.hidden, spare.hidden, mouse.hidden),
        (false, false, false, true, true)
    );
    // A second filter marks anew.
    named("mouse").hide_devices(&mut devices);
    let root = &devices[0];
    assert!(!root.hidden);
    assert!(root.devices.as_ref().unwrap()[0].hidden);
    assert!(!root.devices.as_ref().unwrap()[1].hidden);
    let mut bus = Bus::new(1);
    bus.devices = Some(three_levels());
    let mut buses = vec![bus];
    named("camera").hide_buses(&mut buses);
    assert!(buses[0].devices.as_ref().unwrap()[0].hidden);
    assert_eq!(buses[0].devices.as_ref().unwrap()[0].devices.as_ref().unwrap().len(), 2);
}

#[test]
fn what_is_hidden_is_what_retain_removes() {
    for name in ["root", "hub", "keyboard", "spare", "mouse", "o", "camera", ""] {
        let filter = named(name);
        let mut marked = three_levels();
        filter.hide_devices(&mut marked);
        fn visible(devices: &[Device]) -> Vec<Device> {
            devices
                .iter()
                .filter(|d| !d.hidden)
                .map(|d| Device {
                    name: d.name.clone(),
                    vendor_id: d.vendor_id,
                    product_id: d.product_id,
                    location_id: d.location_id.clone(),
                    serial_num: d.serial_num.clone(),
                    class: d.class,
                    extra: d.extra.clone(),
                    hidden: false,
                    devices: d.devices.as_ref().map(|c| visible(c)),
                })
                .collect()
        }
        assert_eq!(visible(&marked), filter.retain_devices(three_levels()), "{}", name);
    }
}

#[test]
fn filter_fields() {
    let mut mouse = device("Optical Mouse", &[1, 2], None);
    mouse.serial_num = Some("SN-0042".to_string());
    assert!(Filter::new().is_match(&mouse));
    assert!(Filter { vid: Some(0x1d6b), ..Filter::new() }.is_match(&mouse));
    assert!(!Filter { vid: Some(0x1d6c), ..Filter::new() }.is_match(&mouse));
    assert!(Filter { pid: Some(2), ..Filter::new() }.is_match(&mouse));
    assert!(!Filter { pid: Some(3), ..Filter::new() }.is_match(&mouse));
    assert!(Filter { bus: Some(1), ..Filter::new() }.is_match(&mouse));
    assert!(!Filter { bus: Some(2), ..Filter::new() }.is_match(&mouse));
    assert!(Filter { number: Some(3), ..Filter::new() }.is_match(&mouse));
    assert!(!Filter { number: Some(4), ..Filter::new() }.is_match(&mouse));
    assert!(named("Mouse").is_match(&mouse));
    assert!(named("").is_match(&mouse));
    assert!(!named("mouse").is_match(&mouse));
    assert!(Filter { serial: Some("0042".to_string()), ..Filter::new() }.is_match(&mouse));
    assert!(!Filter { serial: Some("0043".to_string()), ..Filter::new() }.is_match(&mouse));
    assert!(!Filter { serial: Some("".to_string()), ..Filter::new() }
        .is_match(&device("no serial", &[1], None)));
    let mut no_ids = device("bare", &[1], None);
    no_ids.vendor_id = None;
    no_ids.product_id = None;
    assert!(!Filter { vid: Some(0x1d6b), ..Filter::new() }.is_match(&no_ids));
    assert!(!Filter { pid: Some(1), ..Filter::new() }.is_match(&no_ids));
    assert!(Filter { vid: Some(0x1d6b), pid: Some(2), bus: Some(1), ..named("Opt") }.is_match(&mouse));
    assert!(!Filter { vid: Some(0x1d6b), pid: Some(2), bus: Some(2), ..named("Opt") }.is_match(&mouse));
}

#[test]
fn exists_in_tree_looks_below() {
    let devices = three_levels();
    assert!(named("keyboard").exists_in_tree(&devices[0]));
    assert!(named("root").exists_in_tree(&devices[0]));
    assert!(!named("camera").exists_in_tree(&devices[0]));
    assert!(named("spare").exists_in_any(&devices));
    assert!(!named("camera").exists_in_any(&devices));
    assert!(!named("x").exists_in_any(&vec![]));
}

#[test]
fn bytes_within_bytes() {
    assert!(contains_bytes(b"keyboard", b"board"));
    assert!(contains_bytes(b"keyboard", b"key"));
    assert!(contains_bytes(b"keyboard", b"keyboard"));
    assert!(contains_bytes(b"keyboard", b""));
    assert!(contains_bytes(b"", b""));
    assert!(!contains_bytes(b"keyboard", b"keyboards"));
    assert!(!contains_bytes(b"keyboard", b"bored"));
    assert!(!contains_bytes(b"", b"a"));
    assert!(contains_bytes(b"aaab", b"aab"));
}
