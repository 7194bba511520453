use cyme::error::Error;
use cyme::profiler::operations::{
    bos_total_length, build_descriptor_extra, build_descriptors_extra, device_status_from,
    get_bos_descriptor, get_debug_descriptor, get_device_qualifier, get_device_status,
    get_hub_descriptor, get_port_statuses, get_report_descriptor, get_webusb_url, hub_port_count,
    pad_port_status, parse_webusb_url, ControlRequest, ControlType, Recipient, UsbOperations,
};
use cyme::profiler::types::{Bus, Device, LocationId};
use cyme::usb::descriptors::audio::midi::MidiInterfaceDescriptor;
use cyme::usb::descriptors::audio::UacInterfaceDescriptor;
use cyme::usb::descriptors::{ClassCodeTriplet, ClassDescriptor, Descriptor};
use std::cell::RefCell;

/// A device that names its strings by their index and answers every control
/// request with the bytes it was made with.
struct Canned {
    answer: Result<Vec<u8>, Error>,
    asked: RefCell<Vec<ControlRequest>>,
}

impl Canned {
    fn new(answer: Result<Vec<u8>, Error>) -> Canned {
        Canned { answer, asked: RefCell::new(Vec::new()) }
    }
}

impl UsbOperations for Canned {
    fn get_descriptor_string(&self, string_index: u8) -> Option<String> {
        if string_index == 0 {
            None
        } else {
            Some(format!("string {}", string_index))
        }
    }

    fn get_control_msg(&self, control_request: ControlRequest) -> Result<Vec<u8>, Error> {
        self.asked.borrow_mut().push(control_request);
        self.answer.clone()
    }
}

#[test]
fn requests_for_descriptors() {
    assert_eq!(
        ControlRequest::report_descriptor(2, 64, true),
        ControlRequest {
            control_type: ControlType::Standard,
            recipient: Recipient::Interface,
            request: 0x06,
            value: 0x2200,
            index: 2,
            length: 64,
            claim_interface: true,
        }
    );
    let hub2 = ControlRequest::hub_descriptor(0x0210, 12);
    assert_eq!((hub2.control_type, hub2.recipient, hub2.request), (ControlType::Class, Recipient::Device, 6));
    assert_eq!((hub2.value, hub2.index, hub2.length, hub2.claim_interface), (0x2900, 0, 12, false));
    assert_eq!(ControlRequest::hub_descriptor(0x0300, 9).value, 0x2a00);
    assert_eq!(ControlRequest::hub_descriptor(0x02ff, 9).value, 0x2900);
    let debug = ControlRequest::debug_descriptor(true);
    assert_eq!((debug.value, debug.length, debug.claim_interface), (0x0a00, 2, true));
    assert_eq!(debug.recipient, Recipient::Device);
    let bos = ControlRequest::bos_descriptor(5);
    assert_eq!((bos.value, bos.length, bos.request), (0x0f00, 5, 6));
    let qualifier = ControlRequest::device_qualifier();
    assert_eq!((qualifier.value, qualifier.length), (0x0600, 10));
    let url = ControlRequest::webusb_url(0x21, 3);
    assert_eq!((url.control_type, url.request, url.value, url.index, url.length), (ControlType::Vendor, 0x21, 3, 0x0200, 3));
}

#[test]
fn requests_for_status() {
    let status = ControlRequest::device_status();
    assert_eq!((status.control_type, status.recipient), (ControlType::Standard, Recipient::Device));
    assert_eq!((status.request, status.value, status.index, status.length), (0, 0, 0, 2));
    let port = ControlRequest::port_status(0, false);
    assert_eq!((port.control_type, port.recipient, port.request), (ControlType::Class, Recipient::Other, 0));
    assert_eq!((port.value, port.index, port.length), (0, 1, 4));
    let ext = ControlRequest::port_status(254, true);
    assert_eq!((ext.value, ext.index, ext.length), (2, 255, 8));
    assert_eq!(ControlRequest::port_status(255, true).index, 256);
    assert!(ControlRequest::is_ext_status(3, 0x0310, true));
    assert!(!ControlRequest::is_ext_status(3, 0x0300, true));
    assert!(!ControlRequest::is_ext_status(2, 0x0310, true));
    assert!(!ControlRequest::is_ext_status(3, 0x0320, false));
}

#[test]
fn device_status_is_little_endian() {
    assert_eq!(device_status_from(&[0x01, 0x02]), Ok(0x0201));
    assert_eq!(device_status_from(&[0x01, 0x02, 0x03]), Ok(0x0201));
    assert_eq!(
        device_status_from(&[0x01]),
        Err(Error::DescriptorTooShort { descriptor_name: "DeviceStatus", expected: 2, actual: 1 })
    );
    let device = Canned::new(Ok(vec![0x03, 0x00]));
    assert_eq!(get_device_status(&device), Ok(3));
    assert_eq!(device.asked.borrow().as_slice(), &[ControlRequest::device_status()]);
    assert_eq!(get_device_status(&Canned::new(Err(Error::Unsupported))), Err(Error::Unsupported));
    assert!(get_device_status(&Canned::new(Ok(vec![]))).is_err());
}

#[test]
fn bos_total_length_is_in_the_third_and_fourth_byte() {
    assert_eq!(bos_total_length(&[0x05, 0x0f, 0x2a, 0x01, 0x03]), Ok(0x012a));
    assert_eq!(
        bos_total_length(&[0x05, 0x0f, 0x2a]),
        Err(Error::DescriptorTooShort { descriptor_name: "BinaryObjectStore", expected: 4, actual: 3 })
    );
}

#[test]
fn port_status_is_filled_to_eight_bytes() {
    assert_eq!(pad_port_status(&[1, 2, 3, 4]), [1, 2, 3, 4, 0, 0, 0, 0]);
    assert_eq!(pad_port_status(&[]), [0; 8]);
    assert_eq!(pad_port_status(&[1, 2, 3, 4, 5, 6, 7, 8]), [1, 2, 3, 4, 5, 6, 7, 8]);
    assert_eq!(pad_port_status(&[1, 2, 3, 4, 5, 6, 7, 8, 9]), [1, 2, 3, 4, 5, 6, 7, 8]);
    let device = Canned::new(Ok(vec![0x03, 0x01, 0x10, 0x00]));
    assert_eq!(
        get_port_statuses(&device, 2, false),
        Some(vec![[0x03, 0x01, 0x10, 0x00, 0, 0, 0, 0]; 2])
    );
    assert_eq!(
        device.asked.borrow().as_slice(),
        &[ControlRequest::port_status(0, false), ControlRequest::port_status(1, false)]
    );
    assert_eq!(get_port_statuses(&device, 0, true), Some(vec![]));
    assert_eq!(get_port_statuses(&Canned::new(Err(Error::Unsupported)), 2, false), None);
}

#[test]
fn webusb_url_with_scheme() {
    let mut data = vec![0x0e, 0x03, 0x01];
    data.extend_from_slice(b"example.com");
    assert_eq!(parse_webusb_url(&data), Ok("https://example.com".to_string()));
    data[2] = 0x00;
    assert_eq!(parse_webusb_url(&data), Ok("http://example.com".to_string()));
    data[2] = 0xff;
    assert_eq!(parse_webusb_url(&data), Ok("example.com".to_string()));
    // What lies behind the length of the descriptor is no part of the URL.
    data.extend_from_slice(b"/more");
    assert_eq!(parse_webusb_url(&data), Ok("example.com".to_string()));
    assert_eq!(parse_webusb_url(&[0x03, 0x03, 0x01]), Ok("https://".to_string()));
    assert_eq!(get_webusb_url(&Canned::new(Ok(vec![0x04, 0x03, 0x00, b'a'])), 1, 1), Ok("http://a".to_string()));
}

#[test]
fn webusb_url_errors() {
    assert_eq!(
        parse_webusb_url(&[0x0e, 0x03]),
        Err(Error::DescriptorTooShort { descriptor_name: "WebUsbUrl", expected: 3, actual: 2 })
    );
    assert_eq!(
        parse_webusb_url(&[0x04, 0x02, 0x01, b'a']),
        Err(Error::Parsing("Failed to parse WebUSB URL: Bad URL descriptor type"))
    );
    assert_eq!(
        parse_webusb_url(&[0x09, 0x03, 0x01, b'a']),
        Err(Error::Parsing("Failed to parse WebUSB URL: Data length mismatch"))
    );
    assert_eq!(
        parse_webusb_url(&[0x02, 0x03, 0x01, b'a']),
        Err(Error::Parsing("Failed to parse WebUSB URL: Data length mismatch"))
    );
    assert_eq!(
        parse_webusb_url(&[0x04, 0x03, 0x01, 0xff]),
        Err(Error::Parsing("Failed to parse WebUSB URL: Invalid UTF-8"))
    );
    assert_eq!(
        parse_webusb_url(&[0x04, 0x03, 0x02, b'a']),
        Err(Error::Parsing("Failed to parse WebUSB URL: Bad URL scheme"))
    );
    assert_eq!(get_webusb_url(&Canned::new(Err(Error::Unsupported)), 1, 1), Err(Error::Unsupported));
}

#[test]
fn strings_are_filled_in_and_the_bytes_stay() {
    let device = Canned::new(Ok(vec![]));
    let payload = [0x07, 0x01, 0x02, 0x03, 0x04, 0x34, 0x12, 0x05, 0x00];
    let mut terminal =
        cyme::usb::descriptors::audio::ControlSubtype::InputTerminal
            .get_descriptor(&cyme::usb::descriptors::audio::UacProtocol::Uac1, &payload)
            .unwrap();
    terminal.fill_strings(&device);
    match &terminal {
        UacInterfaceDescriptor::InputTerminal1(t) => {
            assert_eq!(t.channel_names, Some("string 5".to_string()));
            assert_eq!(t.terminal, None);
        }
        other => panic!("unexpected {:?}", other),
    }
    assert_eq!(terminal.encode(), payload.to_vec());
    let mut jack = MidiInterfaceDescriptor::from_midi_endpoint(&[0x01, 0x07]).unwrap();
    jack.fill_strings(&device);
    assert_eq!(jack.encode(), vec![0x01, 0x07]);
    let mut output = cyme::usb::descriptors::audio::midi::MidiSubtype::OutputJack
        .get_interface_descriptor(&[0x02, 0x03, 0x00, 0x09])
        .unwrap();
    output.fill_strings(&device);
    match &output {
        MidiInterfaceDescriptor::OutputJack(j) => assert_eq!(j.jack_string, Some("string 9".to_string())),
        other => panic!("unexpected {:?}", other),
    }
}

#[test]
fn extra_bytes_are_read_and_filled() {
    let device = Canned::new(Ok(vec![]));
    let extra = [
        0x08, 0x24, 0x05, 0x05, 0x02, 0x01, 0x02, 0x09, // selector unit with the string 9
        0x04, 0x0b, 0x01, 0x02, // a descriptor of no class
        0x09, // the start of a descriptor that is not there
    ];
    let class = ClassCodeTriplet { base_class: 1, sub_class: 1, protocol: 0 };
    let (descriptors, left) = build_descriptors_extra(&device, Some(class), &extra);
    assert_eq!(left, 1);
    assert_eq!(descriptors.len(), 2);
    match &descriptors[0] {
        Descriptor::Interface(ClassDescriptor::Audio(ud, _)) => match &ud.interface {
            UacInterfaceDescriptor::SelectorUnit1(unit) => {
                assert_eq!(unit.selector, Some("string 9".to_string()))
            }
            other => panic!("unexpected {:?}", other),
        },
        other => panic!("unexpected {:?}", other),
    }
    assert!(matches!(descriptors[1], Descriptor::Unknown(_)));
}

#[test]
fn bus_from_root_hub() {
    let root_hub = Device {
        name: "xHCI Host Controller".to_string(),
        vendor_id: Some(0x1d6b),
        product_id: Some(0x0003),
        location_id: LocationId { bus: 4, number: 1, tree_positions: vec![] },
        serial_num: None,
        class: None,
        extra: None,
        hidden: false,
        devices: None,
    };
    let bus = Bus::new_sp_bus(9, Some(root_hub));
    assert_eq!(bus.name, "xHCI Host Controller");
    assert_eq!(bus.usb_bus_number, Some(4));
    assert_eq!((bus.pci_vendor, bus.pci_device, bus.pci_revision), (Some(0x1d6b), Some(3), None));
    assert_eq!(bus.devices, None);
    let unknown = Bus::new_sp_bus(9, None);
    assert_eq!(unknown.usb_bus_number, Some(9));
    assert_eq!(unknown.name, "");
    assert_eq!(unknown, Bus::new(9));
}

/// A device that refuses a request for more than `most` bytes and answers
/// any other with as many bytes of `bytes` as were asked for.
struct Sized {
    most: usize,
    bytes: Vec<u8>,
    asked: RefCell<Vec<ControlRequest>>,
}

impl UsbOperations for Sized {
    fn get_descriptor_string(&self, _string_index: u8) -> Option<String> {
        None
    }

    fn get_control_msg(&self, control_request: ControlRequest) -> Result<Vec<u8>, Error> {
        self.asked.borrow_mut().push(control_request);
        if control_request.length > self.most {
            Err(Error::Unsupported)
        } else {
            Ok(self.bytes.iter().copied().take(control_request.length).collect())
        }
    }
}

#[test]
fn hub_port_count_is_the_third_byte() {
    assert_eq!(hub_port_count(&[9, 0x29, 4, 0, 0, 0, 0, 0, 0xff]), Ok(4));
    assert_eq!(hub_port_count(&[12, 0x2a, 7, 0, 0, 0, 0, 0, 0, 0, 0, 0]), Ok(7));
    assert_eq!(
        hub_port_count(&[9, 0x29, 4, 0, 0, 0, 0, 0]),
        Err(Error::DescriptorTooShort { descriptor_name: "HubDescriptor", expected: 9, actual: 8 })
    );
}

#[test]
fn hub_descriptor_is_asked_for_again_with_nine_bytes() {
    let hub = vec![9, 0x29, 2, 0, 0, 0, 0, 0, 0xff, 1, 2, 3];
    let device = Sized { most: 9, bytes: hub.clone(), asked: RefCell::new(Vec::new()) };
    let (data, statuses) = get_hub_descriptor(&device, 1, 0x0200, false).unwrap();
    assert_eq!(data, hub[..9].to_vec());
    assert_eq!(statuses, Some(vec![[9, 0x29, 2, 0, 0, 0, 0, 0]; 2]));
    assert_eq!(
        device.asked.borrow().as_slice(),
        &[
            ControlRequest::hub_descriptor(0x0200, 12),
            ControlRequest::hub_descriptor(0x0200, 9),
            ControlRequest::port_status(0, false),
            ControlRequest::port_status(1, false),
        ]
    );
}

#[test]
fn hub_descriptor_with_extended_port_status() {
    let hub = vec![12, 0x2a, 1, 0, 0, 0, 0, 0, 0, 0, 0, 0];
    let device = Sized { most: 12, bytes: hub.clone(), asked: RefCell::new(Vec::new()) };
    let (data, statuses) = get_hub_descriptor(&device, 3, 0x0310, true).unwrap();
    assert_eq!(data, hub);
    assert_eq!(statuses, Some(vec![[12, 0x2a, 1, 0, 0, 0, 0, 0]]));
    assert_eq!(
        device.asked.borrow().as_slice(),
        &[ControlRequest::hub_descriptor(0x0310, 12), ControlRequest::port_status(0, true)]
    );
}

#[test]
fn hub_descriptor_fails_where_the_hub_gives_none() {
    let device = Canned::new(Err(Error::Unsupported));
    assert_eq!(get_hub_descriptor(&device, 1, 0x0200, false), Err(Error::Unsupported));
    assert_eq!(device.asked.borrow().len(), 2);
    let short = Canned::new(Ok(vec![9, 0x29, 2]));
    assert_eq!(
        get_hub_descriptor(&short, 1, 0x0200, false),
        Err(Error::DescriptorTooShort { descriptor_name: "HubDescriptor", expected: 9, actual: 3 })
    );
}

#[test]
fn bos_descriptor_is_read_in_two_steps() {
    let bos: Vec<u8> = vec![5, 0x0f, 12, 0, 1, 7, 0x10, 2, 2, 0, 0, 0, 99];
    let device = Sized { most: 64, bytes: bos.clone(), asked: RefCell::new(Vec::new()) };
    assert_eq!(get_bos_descriptor(&device), Ok(bos[..12].to_vec()));
    assert_eq!(
        device.asked.borrow().as_slice(),
        &[ControlRequest::bos_descriptor(5), ControlRequest::bos_descriptor(12)]
    );
    assert_eq!(get_bos_descriptor(&Canned::new(Err(Error::Unsupported))), Err(Error::Unsupported));
    assert_eq!(
        get_bos_descriptor(&Canned::new(Ok(vec![5, 0x0f, 12]))),
        Err(Error::DescriptorTooShort {
            descriptor_name: "BinaryObjectStore",
            expected: 4,
            actual: 3
        })
    );
}

#[test]
fn plain_descriptors_are_handed_back_as_given() {
    let device = Canned::new(Ok(vec![1, 2, 3]));
    assert_eq!(get_report_descriptor(&device, 2, 64, true), Ok(vec![1, 2, 3]));
    assert_eq!(get_debug_descriptor(&device, false), Ok(vec![1, 2, 3]));
    assert_eq!(get_device_qualifier(&device), Ok(vec![1, 2, 3]));
    assert_eq!(
        device.asked.borrow().as_slice(),
        &[
            ControlRequest::report_descriptor(2, 64, true),
            ControlRequest::debug_descriptor(false),
            ControlRequest::device_qualifier(),
        ]
    );
}

#[test]
fn one_descriptor_is_built_with_its_strings() {
    let device = Canned::new(Ok(vec![]));
    let audio = ClassCodeTriplet { base_class: 1, sub_class: 1, protocol: 0 };
    let chunk = [0x0c, 0x24, 0x02, 0x02, 0x01, 0x02, 0x00, 0x02, 0x03, 0x00, 0x05, 0x06, 0xee];
    let built = build_descriptor_extra(&device, Some(audio), &chunk).unwrap();
    assert_eq!(built.encode(), chunk[..12].to_vec());
    match built {
        Descriptor::Interface(ClassDescriptor::Audio(ad, _)) => match ad.interface {
            UacInterfaceDescriptor::InputTerminal1(terminal) => {
                assert_eq!(terminal.channel_names, Some("string 5".to_string()));
                assert_eq!(terminal.terminal, Some("string 6".to_string()));
            }
            other => panic!("not an input terminal: {:?}", other),
        },
        other => panic!("not an audio descriptor: {:?}", other),
    }
    assert_eq!(build_descriptor_extra(&device, Some(audio), &[0x01, 0x24]), Err(Error::InvalidLength(1)));
    assert_eq!(
        build_descriptor_extra(&device, None, &[0x05, 0x24, 0x01]),
        Err(Error::DescriptorTooShort {
            descriptor_name: "GenericDescriptor",
            expected: 5,
            actual: 3
        })
    );
}
