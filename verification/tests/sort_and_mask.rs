use cyme::profiler::mask::{to_capital, MaskSerial};
use cyme::profiler::sort::{sort_by_branch_key, sort_by_number_key, Sort};
use cyme::profiler::types::{Bus, Device, LocationId};
use cyme::profiler::{sort_by_bus, sort_by_bus_number};

fn device(bus: u8, number: u8, ports: &[u8], devices: Option<Vec<Device>>) -> Device {
    Device {
        name: format!("{}:{}", bus, number),
        vendor_id: None,
        product_id: None,
        location_id: LocationId { bus, number, tree_positions: ports.to_vec() },
        serial_num: Some(format!("SN{}x{}", bus, number)),
        class: None,
        extra: None,
        hidden: false,
        devices,
    }
}

fn names(devices: &[Device]) -> Vec<&str> {
    devices.iter().map(|d| d.name.as_str()).collect()
}

#[test]
fn sort_by_bus_is_stable() {
    let sorted = sort_by_bus(vec![
        device(2, 1, &[1], None),
        device(1, 9, &[2], None),
        device(2, 2, &[2], None),
        device(0, 5, &[1], None),
        device(1, 3, &[1], None),
    ]);
    assert_eq!(names(&sorted), vec!["0:5", "1:9", "1:3", "2:1", "2:2"]);
    assert!(sort_by_bus(vec![]).is_empty());
}

#[test]
fn sort_by_bus_number_puts_buses_without_number_first() {
    let mut a = Bus::new(3);
    a.name = "a".to_string();
    let mut b = Bus::new(0);
    b.name = "b".to_string();
    let mut c = Bus::new(0);
    c.usb_bus_number = None;
    c.name = "c".to_string();
    let mut d = Bus::new(3);
    d.name = "d".to_string();
    let mut e = Bus::new(255);
    e.name = "e".to_string();
    let sorted = sort_by_bus_number(vec![a, e, b, c, d]);
    let seen: Vec<&str> = sorted.iter().map(|bus| bus.name.as_str()).collect();
    assert_eq!(seen, vec!["c", "b", "a", "d", "e"]);
}

#[test]
fn sort_keys() {
    let d = device(3, 7, &[1, 4], None);
    assert_eq!(d.get_branch_position(), 4);
    assert_eq!(d.branch_sort_key(), 7);
    assert_eq!(d.number_sort_key(), 10);
    assert_eq!(device(3, 7, &[], None).get_branch_position(), 0);
    // The keys are sums that a byte does not hold.
    assert_eq!(device(200, 100, &[255], None).branch_sort_key(), 455);
    assert_eq!(device(200, 100, &[255], None).number_sort_key(), 300);
}

#[test]
fn sort_devices_by_position_and_by_number() {
    let list = || {
        vec![device(1, 3, &[2], None), device(1, 1, &[3], None), device(1, 2, &[1], None)]
    };
    assert_eq!(names(&sort_by_branch_key(list())), vec!["1:2", "1:3", "1:1"]);
    assert_eq!(names(&sort_by_number_key(list())), vec!["1:1", "1:2", "1:3"]);
    let mut devices = list();
    Sort::BranchPosition.sort_devices(&mut devices);
    assert_eq!(names(&devices), vec!["1:2", "1:3", "1:1"]);
    Sort::DeviceNumber.sort_devices(&mut devices);
    assert_eq!(names(&devices), vec!["1:1", "1:2", "1:3"]);
    let mut devices = list();
    Sort::NoSort.sort_devices(&mut devices);
    assert_eq!(devices, list());
}

#[test]
fn sort_reaches_every_hub() {
    let tree = || {
        vec![
            device(1, 5, &[2], None),
            device(
                1,
                2,
                &[1],
                Some(vec![
                    device(1, 9, &[1, 3], None),
                    device(1, 8, &[1, 1], Some(vec![device(1, 7, &[1, 1, 2], None), device(1, 6, &[1, 1, 1], None)])),
                ]),
            ),
        ]
    };
    let mut devices = tree();
    Sort::BranchPosition.sort_devices_recursive(&mut devices);
    assert_eq!(names(&devices), vec!["1:2", "1:5"]);
    let hub = devices[0].devices.as_ref().unwrap();
    assert_eq!(names(hub), vec!["1:8", "1:9"]);
    assert_eq!(names(hub[0].devices.as_ref().unwrap()), vec!["1:6", "1:7"]);
    // Sorting what is sorted changes nothing.
    let once = tree_sorted(tree());
    let mut twice = tree_sorted(tree());
    Sort::BranchPosition.sort_devices_recursive(&mut twice);
    assert_eq!(once, twice);
    let mut bus = Bus::new(1);
    bus.devices = Some(tree());
    Sort::DeviceNumber.sort_bus(&mut bus);
    assert_eq!(names(bus.devices.as_ref().unwrap()), vec!["1:2", "1:5"]);
    assert_eq!(names(bus.devices.as_ref().unwrap()[0].devices.as_ref().unwrap()), vec!["1:8", "1:9"]);
    let mut unsorted = Bus::new(1);
    unsorted.devices = Some(tree());
    Sort::NoSort.sort_bus(&mut unsorted);
    assert_eq!(unsorted.devices, Some(tree()));
}

fn tree_sorted(mut devices: Vec<Device>) -> Vec<Device> {
    Sort::BranchPosition.sort_devices_recursive(&mut devices);
    devices
}

#[test]
fn sort_buses_sorts_buses_and_devices() {
    let mut second = Bus::new(2);
    second.devices = Some(vec![device(2, 3, &[2], None), device(2, 2, &[1], None)]);
    let mut first = Bus::new(1);
    first.devices = Some(vec![device(1, 3, &[2], None), device(1, 2, &[1], None)]);
    let mut buses = vec![second, first];
    Sort::BranchPosition.sort_buses(&mut buses);
    assert_eq!(buses[0].usb_bus_number, Some(1));
    assert_eq!(names(buses[0].devices.as_ref().unwrap()), vec!["1:2", "1:3"]);
    assert_eq!(names(buses[1].devices.as_ref().unwrap()), vec!["2:2", "2:3"]);
}

#[test]
fn hidden_serial_is_all_asterisks() {
    assert_eq!(MaskSerial::Hide.mask(&"AB-123".to_string()), "******");
    assert_eq!(MaskSerial::Hide.mask(&"".to_string()), "");
    // A character counts once, whatever bytes it takes.
    assert_eq!(MaskSerial::Hide.mask(&"añ√".to_string()), "***");
}

#[test]
fn scrambled_serial_is_made_of_its_own_characters() {
    let serial = "AB-123".to_string();
    for _ in 0..50 {
        let mask = MaskSerial::Scramble.mask(&serial);
        assert_eq!(mask.chars().count(), 6);
        assert!(mask.chars().all(|c| c == '*' || serial.contains(c)), "{}", mask);
    }
    assert_eq!(MaskSerial::Scramble.mask(&"".to_string()), "");
    assert_eq!(MaskSerial::Scramble.mask(&"zzz".to_string()), "zzz");
}

#[test]
fn replaced_serial_is_capitals_and_digits() {
    for _ in 0..50 {
        let mask = MaskSerial::Replace.mask(&"ab-123é".to_string());
        assert_eq!(mask.chars().count(), 7);
        assert!(mask.chars().all(|c| c.is_ascii_digit() || c.is_ascii_uppercase()), "{}", mask);
    }
}

#[test]
fn capitals() {
    assert_eq!(to_capital('a'), 'A');
    assert_eq!(to_capital('z'), 'Z');
    assert_eq!(to_capital('M'), 'M');
    assert_eq!(to_capital('7'), '7');
    assert_eq!(to_capital('-'), '-');
    assert_eq!(to_capital('é'), 'é');
}

#[test]
fn mask_serial_of_a_tree() {
    let tree = || device(1, 2, &[1], Some(vec![device(1, 3, &[1, 1], Some(vec![device(1, 4, &[1, 1, 1], None)]))]));
    let mut only_top = tree();
    MaskSerial::Hide.mask_serial(&mut only_top, false);
    assert_eq!(only_top.serial_num, Some("*****".to_string()));
    assert_eq!(only_top.devices, tree().devices);
    assert_eq!(only_top.name, "1:2");
    let mut all = tree();
    MaskSerial::Hide.mask_serial(&mut all, true);
    let child = &all.devices.as_ref().unwrap()[0];
    assert_eq!(child.serial_num, Some("*****".to_string()));
    assert_eq!(child.devices.as_ref().unwrap()[0].serial_num, Some("*****".to_string()));
    assert_eq!(child.location_id, LocationId { bus: 1, number: 3, tree_positions: vec![1, 1] });
    let mut none = device(1, 2, &[1], None);
    none.serial_num = None;
    MaskSerial::Replace.mask_serial(&mut none, true);
    assert_eq!(none.serial_num, None);
}

#[test]
fn sort_references_to_devices() {
    let list = vec![
        device(1, 3, &[2], None),
        device(1, 1, &[3], None),
        device(1, 2, &[1], None),
        device(1, 2, &[1, 4], None),
    ];
    let names_of = |refs: &Vec<&Device>| -> Vec<String> {
        refs.iter().map(|d| format!("{}{:?}", d.name, d.location_id.tree_positions)).collect()
    };
    let mut refs: Vec<&Device> = list.iter().collect();
    Sort::BranchPosition.sort_devices_ref(&mut refs);
    assert_eq!(names_of(&refs), vec!["1:2[1]", "1:3[2]", "1:1[3]", "1:2[1, 4]"]);
    Sort::DeviceNumber.sort_devices_ref(&mut refs);
    // Devices of one number keep the order they had.
    assert_eq!(names_of(&refs), vec!["1:1[3]", "1:2[1]", "1:2[1, 4]", "1:3[2]"]);
    let mut refs: Vec<&Device> = list.iter().collect();
    Sort::NoSort.sort_devices_ref(&mut refs);
    assert_eq!(names_of(&refs), vec!["1:3[2]", "1:1[3]", "1:2[1]", "1:2[1, 4]"]);
    let mut none: Vec<&Device> = Vec::new();
    Sort::DeviceNumber.sort_devices_ref(&mut none);
    assert!(none.is_empty());
    // The references are sorted as the devices are.
    let mut owned = list.iter().map(|d| device(1, d.location_id.number, &d.location_id.tree_positions, None)).collect::<Vec<_>>();
    Sort::BranchPosition.sort_devices(&mut owned);
    let mut refs: Vec<&Device> = list.iter().collect();
    Sort::BranchPosition.sort_devices_ref(&mut refs);
    assert_eq!(refs.iter().map(|d| d.name.clone()).collect::<Vec<_>>(), names(&owned));
}
