use cyme::error::Error;
use cyme::profiler::types::{Bus, Device, LocationId, SystemProfile};
use cyme::profiler::{assemble, assemble_bus, merge, take_in_number_order};
use cyme::usb::path::PortPath;
use std::collections::HashMap;

fn device(bus: u8, number: u8, ports: &[u8]) -> Device {
    Device {
        name: format!("{}-{:?}", bus, ports),
        vendor_id: Some(0x1d6b),
        product_id: Some(number as u16),
        location_id: LocationId { bus, number, tree_positions: ports.to_vec() },
        serial_num: None,
        class: None,
        extra: None,
        hidden: false,
        devices: None,
    }
}

fn named_bus(number: Option<u8>, name: &str) -> Bus {
    Bus {
        name: name.to_string(),
        host_controller: "xhci".to_string(),
        pci_vendor: Some(0x8086),
        pci_device: Some(0x1234),
        pci_revision: Some(2),
        usb_bus_number: number,
        devices: None,
    }
}

/// The device at `ports` with `children` plugged in.
fn tree(bus: u8, number: u8, ports: &[u8], children: Vec<Device>) -> Device {
    let mut d = device(bus, number, ports);
    d.devices = Some(children);
    d
}

/// The trees of the devices, the devices of each hub sorted by their address.
fn sorted(mut devices: Vec<Device>) -> Vec<Device> {
    devices.sort_by_key(|d| d.location_id.tree_positions.clone());
    devices
        .into_iter()
        .map(|mut d| {
            d.devices = d.devices.take().map(sorted);
            d
        })
        .collect()
}

fn sorted_profile(profile: SystemProfile) -> Vec<(Option<u8>, Vec<Device>)> {
    profile
        .buses
        .into_iter()
        .map(|b| (b.usb_bus_number, sorted(b.devices.unwrap_or_default())))
        .collect()
}

#[test]
fn flat_bus_with_three_devices() {
    let profile =
        assemble(vec![device(1, 2, &[1]), device(1, 3, &[2]), device(1, 4, &[3])], HashMap::new())
            .unwrap();
    assert_eq!(profile.buses.len(), 1);
    assert_eq!(profile.buses[0].usb_bus_number, Some(1));
    assert_eq!(profile.buses[0].name, "");
    assert_eq!(
        profile.buses[0].devices,
        Some(vec![device(1, 2, &[1]), device(1, 3, &[2]), device(1, 4, &[3])])
    );
}

#[test]
fn three_levels_of_hubs() {
    let hub = device(1, 2, &[1]);
    let leaf = device(1, 3, &[1, 1]);
    let inner_hub = device(1, 4, &[1, 2]);
    let deep = device(1, 5, &[1, 2, 1]);
    let expected = vec![tree(
        1,
        2,
        &[1],
        vec![device(1, 3, &[1, 1]), tree(1, 4, &[1, 2], vec![device(1, 5, &[1, 2, 1])])],
    )];
    let profile = assemble(vec![hub, leaf, inner_hub, deep], HashMap::new()).unwrap();
    assert_eq!(profile.buses.len(), 1);
    assert_eq!(profile.buses[0].devices, Some(expected));
}

#[test]
fn order_of_the_list_does_not_change_the_tree() {
    let list = || {
        vec![
            device(1, 2, &[1]),
            device(1, 3, &[1, 1]),
            device(1, 4, &[1, 2]),
            device(1, 5, &[1, 2, 1]),
            device(2, 2, &[1]),
            device(2, 3, &[2]),
            device(2, 4, &[3]),
        ]
    };
    let expected = sorted_profile(assemble(list(), HashMap::new()).unwrap());
    assert_eq!(expected.len(), 2);
    // Rotations and the reverse of the list: children before their hubs, buses mixed.
    let n = list().len();
    for shift in 0..n {
        let mut rotated = list();
        rotated.rotate_left(shift);
        assert_eq!(sorted_profile(assemble(rotated, HashMap::new()).unwrap()), expected);
    }
    let mut reversed = list();
    reversed.reverse();
    assert_eq!(sorted_profile(assemble(reversed, HashMap::new()).unwrap()), expected);
    let interleaved = vec![
        device(2, 4, &[3]),
        device(1, 5, &[1, 2, 1]),
        device(2, 2, &[1]),
        device(1, 3, &[1, 1]),
        device(1, 4, &[1, 2]),
        device(2, 3, &[2]),
        device(1, 2, &[1]),
    ];
    assert_eq!(sorted_profile(assemble(interleaved, HashMap::new()).unwrap()), expected);
}

#[test]
fn devices_of_one_hub_keep_the_order_of_the_list() {
    let profile = assemble(
        vec![device(1, 9, &[1, 3]), device(1, 2, &[1]), device(1, 8, &[1, 1]), device(1, 7, &[1, 2])],
        HashMap::new(),
    )
    .unwrap();
    assert_eq!(
        profile.buses[0].devices,
        Some(vec![tree(
            1,
            2,
            &[1],
            vec![device(1, 9, &[1, 3]), device(1, 8, &[1, 1]), device(1, 7, &[1, 2])]
        )])
    );
}

#[test]
fn buses_come_in_the_order_of_their_numbers() {
    let profile = assemble(
        vec![device(3, 2, &[1]), device(1, 2, &[1]), device(2, 2, &[1]), device(1, 3, &[2])],
        HashMap::new(),
    )
    .unwrap();
    let numbers: Vec<Option<u8>> = profile.buses.iter().map(|b| b.usb_bus_number).collect();
    assert_eq!(numbers, vec![Some(1), Some(2), Some(3)]);
    assert_eq!(profile.buses[0].devices, Some(vec![device(1, 2, &[1]), device(1, 3, &[2])]));
}

#[test]
fn root_hub_buses_give_their_data() {
    let mut buses = HashMap::new();
    buses.insert(1, named_bus(Some(1), "first"));
    buses.insert(5, named_bus(Some(5), "fifth"));
    buses.insert(3, named_bus(Some(3), "third"));
    let profile = assemble(vec![device(4, 2, &[1]), device(1, 2, &[1])], buses).unwrap();
    let seen: Vec<(Option<u8>, &str, usize)> = profile
        .buses
        .iter()
        .map(|b| (b.usb_bus_number, b.name.as_str(), b.devices.as_ref().map_or(0, |d| d.len())))
        .collect();
    assert_eq!(
        seen,
        vec![(Some(1), "first", 1), (Some(3), "third", 0), (Some(4), "", 1), (Some(5), "fifth", 0)]
    );
    assert_eq!(profile.buses[0].pci_vendor, Some(0x8086));
    assert_eq!(profile.buses[1].devices, None);
}

#[test]
fn buses_without_devices_only() {
    let mut buses = HashMap::new();
    buses.insert(7, named_bus(Some(7), "seventh"));
    buses.insert(2, named_bus(None, "nameless"));
    let profile = assemble(vec![], buses).unwrap();
    let seen: Vec<(Option<u8>, &str)> =
        profile.buses.iter().map(|b| (b.usb_bus_number, b.name.as_str())).collect();
    assert_eq!(seen, vec![(None, "nameless"), (Some(7), "seventh")]);
    assert!(assemble(vec![], HashMap::new()).unwrap().buses.is_empty());
}

#[test]
fn a_device_without_its_hub_fails_the_assembly() {
    assert_eq!(
        assemble(vec![device(1, 2, &[1]), device(1, 3, &[2, 1])], HashMap::new()),
        Err(Error::MissingParent)
    );
    assert_eq!(assemble(vec![device(1, 3, &[2, 1])], HashMap::new()), Err(Error::MissingParent));
    // The hub is there, but on another bus.
    assert_eq!(
        assemble(vec![device(2, 2, &[2]), device(1, 3, &[2, 1])], HashMap::new()),
        Err(Error::MissingParent)
    );
}

#[test]
fn a_root_hub_in_the_list_is_plugged_into_its_bus() {
    let profile = assemble(vec![device(1, 1, &[]), device(1, 2, &[1])], HashMap::new()).unwrap();
    assert_eq!(profile.buses[0].devices, Some(vec![device(1, 1, &[]), device(1, 2, &[1])]));
}

#[test]
fn assemble_bus_plugs_hubs_in_first() {
    let bus = assemble_bus(
        named_bus(Some(1), "first"),
        vec![device(1, 5, &[1, 2, 1]), device(1, 4, &[1, 2]), device(1, 2, &[1])],
    )
    .unwrap();
    assert_eq!(bus.name, "first");
    assert_eq!(
        bus.devices,
        Some(vec![tree(1, 2, &[1], vec![tree(1, 4, &[1, 2], vec![device(1, 5, &[1, 2, 1])])])])
    );
    assert_eq!(
        assemble_bus(named_bus(Some(1), "first"), vec![device(1, 4, &[1, 2])]),
        Err(Error::MissingParent)
    );
}

#[test]
fn attach_finds_the_first_device_at_the_address() {
    let mut bus = Bus::new(1);
    assert_eq!(bus.attach(&PortPath::new(1, vec![]), device(1, 2, &[1])), None);
    assert_eq!(bus.attach(&PortPath::new(1, vec![]), device(1, 3, &[1])), None);
    assert_eq!(bus.attach(&PortPath::new(1, vec![1]), device(1, 4, &[1, 1])), None);
    assert_eq!(
        bus.devices,
        Some(vec![tree(1, 2, &[1], vec![device(1, 4, &[1, 1])]), device(1, 3, &[1])])
    );
    // No device is at 1-7: the device comes back.
    assert_eq!(
        bus.attach(&PortPath::new(1, vec![7]), device(1, 5, &[7, 1])),
        Some(device(1, 5, &[7, 1]))
    );
    assert_eq!(Bus::new(1).attach(&PortPath::new(1, vec![1]), device(1, 4, &[1, 1])), Some(device(1, 4, &[1, 1])));
    assert_eq!(Bus::new(4).get_bus_number(), Some(4));
}

#[test]
fn device_addresses() {
    let d = device(3, 9, &[1, 4, 2]);
    assert_eq!(d.port_path(), PortPath::new(3, vec![1, 4, 2]));
    assert_eq!(d.parent_port_path(), Some(PortPath::new(3, vec![1, 4])));
    assert_eq!(d.trunk_port_path(), PortPath::new(3, vec![]));
    assert_eq!(d.parent_depth(), 2);
    assert!(d.is_at(&PortPath::new(3, vec![1, 4, 2])));
    assert!(!d.is_at(&PortPath::new(3, vec![1, 4])));
    assert!(!d.is_at(&PortPath::new(2, vec![1, 4, 2])));
    assert!(!d.is_at(&PortPath::new(3, vec![1, 4, 3])));
    let root = device(3, 1, &[]);
    assert_eq!(root.parent_port_path(), None);
    assert_eq!(root.parent_depth(), 0);
    assert_eq!(device(3, 2, &[5]).parent_depth(), 0);
}

#[test]
fn taking_buses_in_the_order_of_their_numbers() {
    let mut buses = HashMap::new();
    buses.insert(200, named_bus(Some(1), "b"));
    buses.insert(0, named_bus(Some(9), "a"));
    buses.insert(255, named_bus(None, "c"));
    let names: Vec<String> = take_in_number_order(buses).into_iter().map(|b| b.name).collect();
    assert_eq!(names, vec!["a", "b", "c"]);
}

#[test]
fn merge_replaces_the_devices_of_buses_of_the_same_number() {
    let mut existing = SystemProfile {
        buses: vec![named_bus(Some(1), "first"), named_bus(Some(2), "second"), named_bus(None, "other")],
    };
    existing.buses[0].devices = Some(vec![device(1, 9, &[9])]);
    existing.buses[1].devices = Some(vec![device(2, 9, &[9])]);
    let mut fresh_one = Bus::new(1);
    fresh_one.devices = Some(vec![device(1, 2, &[1])]);
    let mut fresh_three = Bus::new(3);
    fresh_three.devices = Some(vec![device(3, 2, &[1])]);
    merge(&mut existing, SystemProfile { buses: vec![fresh_one, fresh_three] });
    assert_eq!(existing.buses.len(), 3);
    assert_eq!(existing.buses[0].name, "first");
    assert_eq!(existing.buses[0].pci_device, Some(0x1234));
    assert_eq!(existing.buses[0].devices, Some(vec![device(1, 2, &[1])]));
    assert_eq!(existing.buses[1].devices, Some(vec![device(2, 9, &[9])]));
    assert_eq!(existing.buses[2].devices, None);
}

#[test]
fn merge_into_nothing_is_nothing() {
    let mut existing = SystemProfile { buses: vec![] };
    merge(&mut existing, SystemProfile { buses: vec![Bus::new(1)] });
    assert!(existing.buses.is_empty());
}

#[test]
fn location_from_a_port_path_text() {
    assert_eq!(
        LocationId::parse("2-1.4", 7),
        Ok(LocationId { bus: 2, number: 7, tree_positions: vec![1, 4] })
    );
    assert_eq!(LocationId::parse("2-0", 1), Ok(LocationId { bus: 2, number: 1, tree_positions: vec![] }));
    assert_eq!(LocationId::parse("usb2", 1), Err(Error::InvalidPath));
}

#[test]
fn devices_with_texts_that_are_no_paths_are_left_out_one_by_one() {
    let texts = ["1-1", "1-1.2", "bogus", "1-1.2.1", "1-x"];
    let mut devices = Vec::new();
    let mut rejected = 0;
    for (number, text) in texts.iter().enumerate() {
        match LocationId::parse(text, number as u8) {
            Ok(location_id) => {
                let mut d = device(location_id.bus, location_id.number, &location_id.tree_positions);
                d.location_id = location_id;
                devices.push(d);
            }
            Err(_) => rejected += 1,
        }
    }
    assert_eq!(rejected, 2);
    let profile = assemble(devices, HashMap::new()).unwrap();
    assert_eq!(
        profile.buses[0].devices,
        Some(vec![tree(1, 0, &[1], vec![tree(1, 1, &[1, 2], vec![device(1, 3, &[1, 2, 1])])])])
    );
}
