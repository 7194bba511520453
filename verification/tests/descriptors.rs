use cyme::error::Error;
use cyme::usb::descriptors::audio::midi::MidiInterfaceDescriptor;
use cyme::usb::descriptors::audio::{UacInterfaceDescriptor, UacProtocol};
use cyme::usb::descriptors::{
    read_descriptors, ClassCodeTriplet, ClassDescriptor, Descriptor, DescriptorOwner,
    GenericDescriptor,
};
use cyme::usb::DescriptorType;

fn audio(sub_class: u8, protocol: u8) -> ClassCodeTriplet {
    ClassCodeTriplet { base_class: 0x01, sub_class, protocol }
}

#[test]
fn generic_descriptor_round_trip() {
    let bytes = [0x05, 0x24, 0x02, 0xaa, 0xbb];
    let gd = GenericDescriptor::decode(&bytes).unwrap();
    assert_eq!(
        gd,
        GenericDescriptor {
            length: 5,
            descriptor_type: 0x24,
            descriptor_subtype: 2,
            data: Some(vec![0xaa, 0xbb])
        }
    );
    assert_eq!(gd.encode(), bytes.to_vec());
    assert_eq!(GenericDescriptor::decode(&gd.encode()), Ok(gd));
}

#[test]
fn generic_descriptor_of_two_and_of_three_bytes() {
    let two = GenericDescriptor::decode(&[0x02, 0x0b]).unwrap();
    assert_eq!(two, GenericDescriptor { length: 2, descriptor_type: 0x0b, descriptor_subtype: 0, data: None });
    assert_eq!(two.encode(), vec![0x02, 0x0b]);
    let three = GenericDescriptor::decode(&[0x03, 0x0b, 0x07]).unwrap();
    assert_eq!(three.descriptor_subtype, 7);
    assert_eq!(three.data, None);
    assert_eq!(three.encode(), vec![0x03, 0x0b, 0x07]);
}

#[test]
fn generic_descriptor_takes_its_own_length_only() {
    let gd = GenericDescriptor::decode(&[0x04, 0x24, 0x02, 0xaa, 0xbb, 0xcc]).unwrap();
    assert_eq!(gd.data, Some(vec![0xaa]));
    assert_eq!(gd.encode(), vec![0x04, 0x24, 0x02, 0xaa]);
}

#[test]
fn generic_descriptor_errors() {
    assert_eq!(
        GenericDescriptor::decode(&[0x05]),
        Err(Error::DescriptorTooShort { descriptor_name: "GenericDescriptor", expected: 2, actual: 1 })
    );
    assert_eq!(
        GenericDescriptor::decode(&[]),
        Err(Error::DescriptorTooShort { descriptor_name: "GenericDescriptor", expected: 2, actual: 0 })
    );
    assert_eq!(GenericDescriptor::decode(&[0x01, 0x24, 0x00]), Err(Error::InvalidLength(1)));
    assert_eq!(GenericDescriptor::decode(&[0x00, 0x24]), Err(Error::InvalidLength(0)));
    assert_eq!(
        GenericDescriptor::decode(&[0x09, 0x24, 0x02]),
        Err(Error::DescriptorTooShort { descriptor_name: "GenericDescriptor", expected: 9, actual: 3 })
    );
}

#[test]
fn descriptor_type_bytes() {
    assert_eq!(DescriptorType::from(0x01), DescriptorType::Device);
    assert_eq!(DescriptorType::from(0x05), DescriptorType::Endpoint);
    assert_eq!(DescriptorType::from(0x22), DescriptorType::Report);
    assert_eq!(DescriptorType::from(0x29), DescriptorType::Hub);
    assert_eq!(DescriptorType::from(0x2a), DescriptorType::SuperSpeedHub);
    assert_eq!(DescriptorType::from(0x24), DescriptorType::Unknown(0x24));
    for b in 0..=255u8 {
        assert_eq!(u8::from(DescriptorType::from(b)), b);
    }
}

#[test]
fn descriptor_owner_of_class_specific_types() {
    assert_eq!(DescriptorOwner::from_type(0x21), Some(DescriptorOwner::Device));
    assert_eq!(DescriptorOwner::from_type(0x24), Some(DescriptorOwner::Interface));
    assert_eq!(DescriptorOwner::from_type(0x25), Some(DescriptorOwner::Endpoint));
    assert_eq!(DescriptorOwner::from_type(0x04), None);
    assert_eq!(DescriptorOwner::from_type(0x05), None);
    assert_eq!(DescriptorOwner::from_type(0x22), None);
    assert_eq!(DescriptorOwner::from_type(0x44), None);
    assert_eq!(DescriptorOwner::from_type(0xa4), None);
}

#[test]
fn class_descriptor_in_audio_control_context() {
    let gd = GenericDescriptor::decode(&[0x08, 0x24, 0x05, 0x05, 0x02, 0x01, 0x02, 0x09]).unwrap();
    match ClassDescriptor::resolve(audio(1, 0x00), gd) {
        ClassDescriptor::Audio(descriptor, protocol) => {
            assert_eq!(protocol, UacProtocol::Uac1);
            assert!(matches!(descriptor.interface, UacInterfaceDescriptor::SelectorUnit1(_)));
        }
        other => panic!("unexpected {:?}", other),
    }
}

#[test]
fn class_descriptor_keeps_a_payload_that_is_turned_down() {
    let gd = GenericDescriptor::decode(&[0x05, 0x24, 0x05, 0x05, 0x02]).unwrap();
    match ClassDescriptor::resolve(audio(1, 0x20), gd) {
        ClassDescriptor::Audio(descriptor, protocol) => {
            assert_eq!(protocol, UacProtocol::Uac2);
            assert_eq!(descriptor.interface, UacInterfaceDescriptor::Invalid(vec![0x05, 0x02]));
            assert_eq!(descriptor.encode(), vec![0x05, 0x24, 0x05, 0x05, 0x02]);
        }
        other => panic!("unexpected {:?}", other),
    }
}

#[test]
fn class_descriptor_in_midi_context() {
    let bytes = [0x06, 0x24, 0x02, 0x01, 0x02, 0x03];
    let gd = GenericDescriptor::decode(&bytes).unwrap();
    match ClassDescriptor::resolve(audio(3, 0x00), gd) {
        ClassDescriptor::Midi(descriptor, protocol) => {
            assert_eq!(protocol, 0);
            assert!(matches!(descriptor.interface, MidiInterfaceDescriptor::InputJack(_)));
            assert_eq!(descriptor.encode(), bytes.to_vec());
        }
        other => panic!("unexpected {:?}", other),
    }
    // Three bytes are no MIDI descriptor.
    let short = GenericDescriptor::decode(&[0x03, 0x24, 0x02]).unwrap();
    assert_eq!(
        ClassDescriptor::resolve(audio(3, 0x00), short.clone()),
        ClassDescriptor::Generic(Some(audio(3, 0x00)), short)
    );
}

#[test]
fn class_descriptor_stays_generic_out_of_context() {
    let gd = GenericDescriptor::decode(&[0x05, 0x24, 0x05, 0x05, 0x02]).unwrap();
    let hid = ClassCodeTriplet { base_class: 0x03, sub_class: 1, protocol: 1 };
    assert_eq!(ClassDescriptor::resolve(hid, gd.clone()), ClassDescriptor::Generic(Some(hid), gd.clone()));
    assert_eq!(
        ClassDescriptor::resolve(audio(7, 0), gd.clone()),
        ClassDescriptor::Generic(Some(audio(7, 0)), gd.clone())
    );
    let bare = GenericDescriptor::decode(&[0x03, 0x24, 0x05]).unwrap();
    assert_eq!(
        ClassDescriptor::resolve(audio(1, 0), bare.clone()),
        ClassDescriptor::Generic(Some(audio(1, 0)), bare.clone())
    );
    let resolved = ClassDescriptor::Generic(None, gd.clone()).update_with_class_context(audio(2, 0x20));
    assert!(matches!(resolved, ClassDescriptor::Audio(_, UacProtocol::Uac2)));
    let again = resolved.update_with_class_context(hid);
    assert!(matches!(again, ClassDescriptor::Audio(_, UacProtocol::Uac2)));
}

#[test]
fn descriptor_by_type() {
    let interface = GenericDescriptor::decode(&[0x08, 0x24, 0x05, 0x05, 0x02, 0x01, 0x02, 0x09]).unwrap();
    assert!(matches!(
        Descriptor::resolve(Some(audio(1, 0)), interface.clone()),
        Descriptor::Interface(ClassDescriptor::Audio(_, _))
    ));
    assert_eq!(
        Descriptor::resolve(None, interface.clone()),
        Descriptor::Interface(ClassDescriptor::Generic(None, interface.clone()))
    );
    let endpoint = GenericDescriptor::decode(&[0x07, 0x25, 0x01, 0x01, 0x01, 0x10, 0x00]).unwrap();
    match Descriptor::resolve(Some(audio(2, 0)), endpoint) {
        Descriptor::Endpoint(ClassDescriptor::Audio(descriptor, _)) => {
            assert!(matches!(descriptor.interface, UacInterfaceDescriptor::DataStreamingEndpoint1(_)))
        }
        other => panic!("unexpected {:?}", other),
    }
    let device = GenericDescriptor::decode(&[0x04, 0x21, 0x01, 0x02]).unwrap();
    assert!(matches!(Descriptor::resolve(None, device), Descriptor::Device(_)));
    let standard = GenericDescriptor::decode(&[0x04, 0x0b, 0x01, 0x02]).unwrap();
    assert_eq!(Descriptor::resolve(Some(audio(1, 0)), standard.clone()), Descriptor::Unknown(standard));
}

#[test]
fn reader_cuts_extra_bytes_into_descriptors() {
    let extra = [
        0x08, 0x24, 0x05, 0x05, 0x02, 0x01, 0x02, 0x09, // selector unit
        0x02, 0x30, // a descriptor of its header only
        0x04, 0x0b, 0x01, 0x02, // a descriptor of no class
    ];
    let (descriptors, left) = read_descriptors(Some(audio(1, 0x00)), &extra);
    assert_eq!(left, 0);
    assert_eq!(descriptors.len(), 3);
    assert!(matches!(descriptors[0], Descriptor::Interface(ClassDescriptor::Audio(_, _))));
    assert!(matches!(descriptors[1], Descriptor::Unknown(_)));
    assert!(matches!(descriptors[2], Descriptor::Unknown(_)));
    let bytes: Vec<u8> = descriptors.iter().flat_map(|d| d.encode()).collect();
    assert_eq!(bytes, extra.to_vec());
}

#[test]
fn reader_stops_where_no_descriptor_starts() {
    // The second descriptor says it has nine bytes where four are left.
    let (descriptors, left) = read_descriptors(None, &[0x03, 0x24, 0x01, 0x09, 0x24, 0x02, 0x03]);
    assert_eq!(descriptors.len(), 1);
    assert_eq!(left, 4);
    // A length below two ends the reading.
    let (descriptors, left) = read_descriptors(None, &[0x03, 0x24, 0x01, 0x01, 0x24]);
    assert_eq!(descriptors.len(), 1);
    assert_eq!(left, 2);
    let (descriptors, left) = read_descriptors(None, &[0x00, 0x24, 0x01]);
    assert!(descriptors.is_empty());
    assert_eq!(left, 3);
    let (descriptors, left) = read_descriptors(None, &[0x07]);
    assert!(descriptors.is_empty());
    assert_eq!(left, 1);
    let (descriptors, left) = read_descriptors(None, &[]);
    assert!(descriptors.is_empty());
    assert_eq!(left, 0);
}
