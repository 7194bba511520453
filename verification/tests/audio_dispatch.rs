use cyme::error::Error;
use cyme::usb::descriptors::audio::channel::{ChannelNames, Uac1ChannelNames, Uac2ChannelNames};
use cyme::usb::descriptors::audio::midi::MidiSubtype;
use cyme::usb::descriptors::audio::streaming::{
    DataStreamingEndpoint1, LockDelayUnits, StreamingFormatInterface,
};
use cyme::usb::descriptors::audio::unit::SelectorUnit1;
use cyme::usb::descriptors::audio::{
    ControlSetting, ControlSubtype, StreamingSubtype, UacDescriptor, UacInterfaceDescriptor,
    UacProtocol, UacType,
};
use cyme::usb::descriptors::GenericDescriptor;

fn too_short(name: &'static str, expected: usize, actual: usize) -> Error {
    Error::DescriptorTooShort { descriptor_name: name, expected, actual }
}

const SELECTOR: [u8; 5] = [0x05, 0x02, 0x01, 0x02, 0x09];

#[test]
fn protocol_bytes() {
    assert_eq!(UacProtocol::from(0x00), UacProtocol::Uac1);
    assert_eq!(UacProtocol::from(0x20), UacProtocol::Uac2);
    assert_eq!(UacProtocol::from(0x30), UacProtocol::Uac3);
    assert_eq!(UacProtocol::from(0x10), UacProtocol::Unknown(0x10));
    for b in 0..=255u8 {
        assert_eq!(u8::from(UacProtocol::from(b)), b);
    }
}

#[test]
fn control_subtype_without_protocol() {
    assert_eq!(ControlSubtype::from(0x00), ControlSubtype::Undefined);
    assert_eq!(ControlSubtype::from(0x01), ControlSubtype::Header);
    assert_eq!(ControlSubtype::from(0x04), ControlSubtype::ExtendedTerminal);
    assert_eq!(ControlSubtype::from(0x05), ControlSubtype::MixerUnit);
    assert_eq!(ControlSubtype::from(0x06), ControlSubtype::SelectorUnit);
    assert_eq!(ControlSubtype::from(0x0f), ControlSubtype::Connectors);
    assert_eq!(ControlSubtype::from(0x10), ControlSubtype::PowerDomain);
    assert_eq!(ControlSubtype::from(0x11), ControlSubtype::Undefined);
    for b in 0..=0x10u8 {
        assert_eq!(u8::from(ControlSubtype::from(b)), b);
    }
}

#[test]
fn control_subtype_is_remapped_under_uac1_and_uac2() {
    // 0x04 is the mixer unit under UAC1 and UAC2, the extended terminal under UAC3.
    assert_eq!(ControlSubtype::get_uac_subtype(0x04, 0x00), ControlSubtype::MixerUnit);
    assert_eq!(ControlSubtype::get_uac_subtype(0x04, 0x20), ControlSubtype::MixerUnit);
    assert_eq!(ControlSubtype::get_uac_subtype(0x04, 0x30), ControlSubtype::ExtendedTerminal);
    // 0x06 is the selector unit under every protocol; so is 0x05 under UAC1 and UAC2.
    assert_eq!(ControlSubtype::get_uac_subtype(0x06, 0x00), ControlSubtype::SelectorUnit);
    assert_eq!(ControlSubtype::get_uac_subtype(0x06, 0x20), ControlSubtype::SelectorUnit);
    assert_eq!(ControlSubtype::get_uac_subtype(0x06, 0x30), ControlSubtype::SelectorUnit);
    assert_eq!(ControlSubtype::get_uac_subtype(0x05, 0x00), ControlSubtype::SelectorUnit);
    assert_eq!(ControlSubtype::get_uac_subtype(0x05, 0x20), ControlSubtype::SelectorUnit);
    assert_eq!(ControlSubtype::get_uac_subtype(0x05, 0x30), ControlSubtype::MixerUnit);
    assert_eq!(ControlSubtype::get_uac_subtype(0x07, 0x00), ControlSubtype::ProcessingUnit);
    assert_eq!(ControlSubtype::get_uac_subtype(0x07, 0x20), ControlSubtype::EffectUnit);
    assert_eq!(ControlSubtype::get_uac_subtype(0x07, 0x30), ControlSubtype::FeatureUnit);
    assert_eq!(ControlSubtype::get_uac_subtype(0x08, 0x00), ControlSubtype::ExtensionUnit);
    assert_eq!(ControlSubtype::get_uac_subtype(0x08, 0x20), ControlSubtype::ProcessingUnit);
    assert_eq!(ControlSubtype::get_uac_subtype(0x09, 0x00), ControlSubtype::ProcessingUnit);
    assert_eq!(ControlSubtype::get_uac_subtype(0x09, 0x20), ControlSubtype::ExtensionUnit);
    assert_eq!(ControlSubtype::get_uac_subtype(0x0a, 0x20), ControlSubtype::ClockSource);
    assert_eq!(ControlSubtype::get_uac_subtype(0x0b, 0x20), ControlSubtype::ClockSelector);
    assert_eq!(ControlSubtype::get_uac_subtype(0x0c, 0x20), ControlSubtype::ClockMultiplier);
    assert_eq!(ControlSubtype::get_uac_subtype(0x0d, 0x20), ControlSubtype::SampleRateConverter);
    assert_eq!(ControlSubtype::get_uac_subtype(0x0e, 0x20), ControlSubtype::SampleRateConverter);
    assert_eq!(ControlSubtype::get_uac_subtype(0x01, 0x00), ControlSubtype::Header);
    assert_eq!(ControlSubtype::get_uac_subtype(0x02, 0x20), ControlSubtype::InputTerminal);
    assert_eq!(ControlSubtype::get_uac_subtype(0x05, 0x77), ControlSubtype::MixerUnit);
}

#[test]
fn selector_and_mixer_fixtures_under_the_three_protocols() {
    let decode = |subtype: u8, protocol: u8, payload: &[u8]| {
        ControlSubtype::get_uac_subtype(subtype, protocol)
            .get_descriptor(&UacProtocol::from(protocol), payload)
            .unwrap()
    };
    assert_eq!(
        decode(0x06, 0x00, &[0x05, 0x02, 0x01, 0x02, 0x00]),
        UacInterfaceDescriptor::SelectorUnit1(SelectorUnit1 {
            unit_id: 5,
            nr_in_pins: 2,
            source_ids: vec![1, 2],
            selector_index: 0,
            selector: None,
        })
    );
    assert!(matches!(
        decode(0x06, 0x20, &[0x05, 0x02, 0x01, 0x02, 0x03, 0x09]),
        UacInterfaceDescriptor::SelectorUnit2(_)
    ));
    assert!(matches!(decode(0x05, 0x00, &SELECTOR), UacInterfaceDescriptor::SelectorUnit1(_)));
    assert!(matches!(
        decode(0x05, 0x20, &[0x05, 0x02, 0x01, 0x02, 0x03, 0x09]),
        UacInterfaceDescriptor::SelectorUnit2(_)
    ));
    assert!(matches!(
        decode(0x06, 0x30, &[0x05, 0x01, 0x01, 0x04, 0x03, 0x02, 0x01, 0x09, 0x00]),
        UacInterfaceDescriptor::SelectorUnit3(_)
    ));
    let mixer = [0x01, 0x02, 0x0a, 0x0b, 0x03, 0x07, 0x00, 0x09, 0x11, 0x12, 0x13, 0x21];
    assert!(matches!(decode(0x04, 0x00, &mixer), UacInterfaceDescriptor::MixerUnit1(_)));
    let mixer2 = [0x01, 0x01, 0x0a, 0x02, 0x03, 0x00, 0x00, 0x00, 0x09, 0x11, 0x12, 0x05, 0x21];
    assert!(matches!(decode(0x04, 0x20, &mixer2), UacInterfaceDescriptor::MixerUnit2(_)));
    assert!(matches!(
        decode(0x04, 0x30, &[0x05, 0x02]),
        UacInterfaceDescriptor::ExtendedTerminalHeader(_)
    ));
}

#[test]
fn control_interface_fallbacks() {
    let data = [0x01, 0x02, 0x03];
    assert_eq!(
        UacInterfaceDescriptor::from_uac_ac_interface(&ControlSubtype::Undefined, &UacProtocol::Uac1, &data),
        Ok(UacInterfaceDescriptor::Undefined(data.to_vec()))
    );
    assert_eq!(
        UacInterfaceDescriptor::from_uac_ac_interface(&ControlSubtype::Connectors, &UacProtocol::Uac3, &data),
        Ok(UacInterfaceDescriptor::Generic(data.to_vec()))
    );
    // A sub type that the protocol has no shape for keeps its bytes as invalid.
    assert_eq!(
        UacInterfaceDescriptor::from_uac_ac_interface(&ControlSubtype::ClockSource, &UacProtocol::Uac1, &data),
        Ok(UacInterfaceDescriptor::Invalid(data.to_vec()))
    );
    assert_eq!(
        UacInterfaceDescriptor::from_uac_ac_interface(&ControlSubtype::PowerDomain, &UacProtocol::Uac2, &data),
        Ok(UacInterfaceDescriptor::Invalid(data.to_vec()))
    );
    assert_eq!(
        UacInterfaceDescriptor::from_uac_ac_interface(&ControlSubtype::Header, &UacProtocol::Unknown(1), &data),
        Ok(UacInterfaceDescriptor::Invalid(data.to_vec()))
    );
    assert_eq!(
        UacInterfaceDescriptor::from_uac_ac_interface(&ControlSubtype::Header, &UacProtocol::Uac1, &data),
        Err(too_short("Header1", 6, 3))
    );
}

#[test]
fn every_control_shape_is_reached() {
    let zeros = [0u8; 40];
    let table: [(ControlSubtype, [bool; 3]); 15] = [
        (ControlSubtype::Header, [true, true, true]),
        (ControlSubtype::InputTerminal, [true, true, true]),
        (ControlSubtype::OutputTerminal, [true, true, true]),
        (ControlSubtype::ExtendedTerminal, [false, false, true]),
        (ControlSubtype::PowerDomain, [false, false, true]),
        (ControlSubtype::MixerUnit, [true, true, true]),
        (ControlSubtype::SelectorUnit, [true, true, true]),
        (ControlSubtype::ProcessingUnit, [true, true, true]),
        (ControlSubtype::EffectUnit, [false, true, true]),
        (ControlSubtype::FeatureUnit, [true, true, true]),
        (ControlSubtype::ExtensionUnit, [true, true, true]),
        (ControlSubtype::ClockSource, [false, true, true]),
        (ControlSubtype::ClockSelector, [false, true, true]),
        (ControlSubtype::ClockMultiplier, [false, true, true]),
        (ControlSubtype::SampleRateConverter, [false, true, true]),
    ];
    let protocols = [UacProtocol::Uac1, UacProtocol::Uac2, UacProtocol::Uac3];
    for (subtype, shaped) in table.iter() {
        for (protocol, has_shape) in protocols.iter().zip(shaped.iter()) {
            let d = UacInterfaceDescriptor::from_uac_ac_interface(subtype, protocol, &zeros).unwrap();
            if *has_shape {
                assert_eq!(d.get_protocol(), *protocol, "{:?} {:?}", subtype, protocol);
                assert_eq!(d.encode(), zeros[..d.encode().len()].to_vec());
            } else {
                assert_eq!(d, UacInterfaceDescriptor::Invalid(zeros.to_vec()));
                assert_eq!(d.get_protocol(), UacProtocol::Unknown(0xff));
            }
        }
    }
}

#[test]
fn streaming_general_is_the_endpoint_at_its_exact_length() {
    let four = [0x01, 0x01, 0x10, 0x00];
    let d = UacInterfaceDescriptor::from_uac_as_interface(&StreamingSubtype::General, &UacProtocol::Uac1, &four)
        .unwrap();
    assert_eq!(
        d,
        UacInterfaceDescriptor::DataStreamingEndpoint1(DataStreamingEndpoint1 {
            attributes: 1,
            lock_delay_units: 1,
            lock_delay: 16
        })
    );
    assert_eq!(d.get_lock_delay_units(), Some(LockDelayUnits::Milliseconds));
    let five = [0x01, 0x01, 0x10, 0x00, 0x00];
    assert!(matches!(
        UacInterfaceDescriptor::from_uac_as_interface(&StreamingSubtype::General, &UacProtocol::Uac1, &five),
        Ok(UacInterfaceDescriptor::StreamingInterface1(_))
    ));
    assert!(matches!(
        UacInterfaceDescriptor::from_uac_as_interface(&StreamingSubtype::General, &UacProtocol::Uac2, &five),
        Ok(UacInterfaceDescriptor::DatastreamingEndpoint2(_))
    ));
    assert_eq!(
        UacInterfaceDescriptor::from_uac_as_interface(&StreamingSubtype::General, &UacProtocol::Uac2, &four),
        Err(too_short("StreamingInterface2", 13, 4))
    );
    let seven = [0u8; 7];
    assert!(matches!(
        UacInterfaceDescriptor::from_uac_as_interface(&StreamingSubtype::General, &UacProtocol::Uac3, &seven),
        Ok(UacInterfaceDescriptor::DataStreamingEndpoint3(_))
    ));
    assert!(matches!(
        UacInterfaceDescriptor::from_uac_as_interface(&StreamingSubtype::General, &UacProtocol::Uac3, &[0u8; 20]),
        Ok(UacInterfaceDescriptor::StreamingInterface3(_))
    ));
    assert_eq!(
        UacInterfaceDescriptor::from_uac_as_interface(
            &StreamingSubtype::General,
            &UacProtocol::Unknown(5),
            &four
        ),
        Ok(UacInterfaceDescriptor::Invalid(four.to_vec()))
    );
}

#[test]
fn streaming_formats_and_undefined() {
    let data = [0x01, 0x02, 0x02, 0x10, 0x01, 0x80, 0xbb, 0x00];
    match StreamingSubtype::FormatType.get_descriptor(&UacProtocol::Uac1, &data).unwrap() {
        UacInterfaceDescriptor::StreamingFormat(format) => {
            assert!(matches!(format.interface, StreamingFormatInterface::FormatTypeI1(_)))
        }
        other => panic!("unexpected {:?}", other),
    }
    match StreamingSubtype::FormatSpecific
        .get_descriptor(&UacProtocol::Uac1, &[0x01, 0x10, 0x34, 0x12, 0x07])
        .unwrap()
    {
        UacInterfaceDescriptor::StreamingFormatSpecific(format) => assert_eq!(format.format_tag, 0x1001),
        other => panic!("unexpected {:?}", other),
    }
    assert_eq!(
        StreamingSubtype::Undefined.get_descriptor(&UacProtocol::Uac1, &data),
        Ok(UacInterfaceDescriptor::Undefined(data.to_vec()))
    );
    assert_eq!(
        StreamingSubtype::FormatType.get_descriptor(&UacProtocol::Uac1, &[]),
        Err(too_short("StreamingFormat", 1, 0))
    );
    assert_eq!(StreamingSubtype::from(1), StreamingSubtype::General);
    assert_eq!(StreamingSubtype::from(2), StreamingSubtype::FormatType);
    assert_eq!(StreamingSubtype::from(3), StreamingSubtype::FormatSpecific);
    assert_eq!(StreamingSubtype::from(4), StreamingSubtype::Undefined);
    assert_eq!(u8::from(StreamingSubtype::FormatSpecific), 3);
}

#[test]
fn iso_data_endpoint_by_protocol() {
    assert!(matches!(
        UacInterfaceDescriptor::from_uac_as_iso_data_endpoint(&UacProtocol::Uac1, &[0u8; 4]),
        Ok(UacInterfaceDescriptor::DataStreamingEndpoint1(_))
    ));
    assert!(matches!(
        UacInterfaceDescriptor::from_uac_as_iso_data_endpoint(&UacProtocol::Uac2, &[0u8; 5]),
        Ok(UacInterfaceDescriptor::DatastreamingEndpoint2(_))
    ));
    assert!(matches!(
        UacInterfaceDescriptor::from_uac_as_iso_data_endpoint(&UacProtocol::Uac3, &[0u8; 7]),
        Ok(UacInterfaceDescriptor::DataStreamingEndpoint3(_))
    ));
    assert_eq!(
        UacInterfaceDescriptor::from_uac_as_iso_data_endpoint(&UacProtocol::Uac3, &[0u8; 6]),
        Err(too_short("DataStreamingEndpoint3", 7, 6))
    );
    assert_eq!(
        UacInterfaceDescriptor::from_uac_as_iso_data_endpoint(&UacProtocol::Unknown(1), &[1, 2]),
        Ok(UacInterfaceDescriptor::Invalid(vec![1, 2]))
    );
}

#[test]
fn uac_type_from_sub_class() {
    assert_eq!(UacType::try_from((1, 0x04, 0x00)), Ok(UacType::Control(ControlSubtype::MixerUnit)));
    assert_eq!(UacType::try_from((1, 0x04, 0x30)), Ok(UacType::Control(ControlSubtype::ExtendedTerminal)));
    assert_eq!(UacType::try_from((2, 0x02, 0x00)), Ok(UacType::Streaming(StreamingSubtype::FormatType)));
    assert_eq!(UacType::try_from((3, 0x03, 0x00)), Ok(UacType::Midi(MidiSubtype::OutputJack)));
    assert_eq!(UacType::try_from((0, 0x01, 0x00)), Err(Error::InvalidSubClass(0)));
    assert_eq!(UacType::try_from((4, 0x01, 0x00)), Err(Error::InvalidSubClass(4)));
    assert_eq!(u8::from(UacType::Control(ControlSubtype::MixerUnit)), 0x05);
    assert_eq!(u8::from(UacType::Streaming(StreamingSubtype::General)), 0x01);
    assert_eq!(u8::from(UacType::Midi(MidiSubtype::Element)), 0x04);
}

#[test]
fn uac_type_decodes_or_refuses() {
    let control = UacType::Control(ControlSubtype::SelectorUnit);
    assert!(matches!(
        control.get_uac_descriptor(0x00, &SELECTOR),
        Ok(UacInterfaceDescriptor::SelectorUnit1(_))
    ));
    assert_eq!(control.get_uac_descriptor(0x00, &[0x05]), Err(too_short("SelectorUnit1", 3, 1)));
    assert_eq!(
        UacType::Midi(MidiSubtype::Header).get_uac_descriptor(0x00, &SELECTOR),
        Err(Error::MidiNotAudio)
    );
}

fn generic(subtype: u8, data: Option<Vec<u8>>) -> GenericDescriptor {
    let length = 3 + data.as_ref().map_or(0, |d| d.len()) as u8;
    GenericDescriptor { length, descriptor_type: 0x24, descriptor_subtype: subtype, data }
}

#[test]
fn uac_descriptor_from_generic_keeps_what_is_turned_down() {
    let control = UacType::Control(ControlSubtype::SelectorUnit);
    assert!(matches!(
        control.uac_descriptor_from_generic(generic(0x05, Some(SELECTOR.to_vec())), 0x00),
        Ok(UacInterfaceDescriptor::SelectorUnit1(_))
    ));
    assert_eq!(
        control.uac_descriptor_from_generic(generic(0x05, Some(vec![0x05])), 0x00),
        Ok(UacInterfaceDescriptor::Invalid(vec![0x05]))
    );
    assert_eq!(
        UacType::Midi(MidiSubtype::Header).uac_descriptor_from_generic(generic(1, Some(vec![1, 2])), 0),
        Ok(UacInterfaceDescriptor::Invalid(vec![1, 2]))
    );
    assert_eq!(control.uac_descriptor_from_generic(generic(0x05, None), 0x00), Err(Error::MissingData));
}

#[test]
fn uac_descriptor_round_trip() {
    let descriptor = UacDescriptor::try_from(generic(0x05, Some(SELECTOR.to_vec())), 1, 0x00).unwrap();
    assert_eq!(descriptor.length, 8);
    assert_eq!(descriptor.descriptor_type, 0x24);
    assert_eq!(descriptor.subtype_byte, 0x05);
    assert_eq!(descriptor.descriptor_subtype, UacType::Control(ControlSubtype::SelectorUnit));
    assert_eq!(descriptor.get_protocol(), UacProtocol::Uac1);
    // The sub type byte is written as it was read.
    assert_eq!(descriptor.encode(), vec![0x08, 0x24, 0x05, 0x05, 0x02, 0x01, 0x02, 0x09]);
    assert_eq!(
        UacDescriptor::try_from(generic(0x05, Some(SELECTOR.to_vec())), 9, 0x00),
        Err(Error::InvalidSubClass(9))
    );
    assert_eq!(UacDescriptor::try_from(generic(0x05, None), 1, 0x00), Err(Error::MissingData));
}

#[test]
fn selector_unit_at_its_byte_under_uac1() {
    let payload = vec![0x05, 0x02, 0x01, 0x02, 0x00];
    let descriptor = UacDescriptor::try_from(generic(0x06, Some(payload)), 1, 0x00).unwrap();
    assert_eq!(
        descriptor,
        UacDescriptor {
            length: 8,
            descriptor_type: 0x24,
            subtype_byte: 0x06,
            descriptor_subtype: UacType::Control(ControlSubtype::SelectorUnit),
            interface: UacInterfaceDescriptor::SelectorUnit1(SelectorUnit1 {
                unit_id: 5,
                nr_in_pins: 2,
                source_ids: vec![1, 2],
                selector_index: 0,
                selector: None,
            }),
        }
    );
    assert_eq!(descriptor.encode(), vec![0x08, 0x24, 0x06, 0x05, 0x02, 0x01, 0x02, 0x00]);
}

#[test]
fn remapped_sub_type_bytes_are_written_back_as_they_were_read() {
    let mixer = vec![0x01, 0x02, 0x0a, 0x0b, 0x03, 0x07, 0x00, 0x09, 0x11, 0x12, 0x13, 0x21];
    let descriptor = UacDescriptor::try_from(generic(0x04, Some(mixer.clone())), 1, 0x00).unwrap();
    assert_eq!(descriptor.descriptor_subtype, UacType::Control(ControlSubtype::MixerUnit));
    assert!(matches!(descriptor.interface, UacInterfaceDescriptor::MixerUnit1(_)));
    let mut bytes = vec![0x0f, 0x24, 0x04];
    bytes.extend_from_slice(&mixer);
    assert_eq!(descriptor.encode(), bytes);
    // Under each protocol, and for bytes that name no sub type, the byte stays.
    for protocol in [0x00u8, 0x20, 0x30, 0x77] {
        for subtype in [0x00u8, 0x04, 0x05, 0x06, 0x07, 0x08, 0x09, 0x0a, 0x0d, 0x10, 0x55] {
            let d = UacDescriptor::try_from(generic(subtype, Some(vec![1, 2])), 1, protocol).unwrap();
            assert_eq!(d.encode(), vec![0x05, 0x24, subtype, 1, 2], "{} {}", subtype, protocol);
            assert_eq!(
                d.descriptor_subtype,
                UacType::Control(ControlSubtype::get_uac_subtype(subtype, protocol))
            );
        }
    }
}

#[test]
fn control_setting_from_bits() {
    assert_eq!(ControlSetting::from(0b00), ControlSetting::IllegalValue);
    assert_eq!(ControlSetting::from(0b01), ControlSetting::ReadOnly);
    assert_eq!(ControlSetting::from(0b10), ControlSetting::IllegalValue);
    assert_eq!(ControlSetting::from(0b11), ControlSetting::ReadWrite);
}

#[test]
fn channel_names_from_bitmap() {
    assert_eq!(
        Uac1ChannelNames::from_bitmap(0b0000_0000_0011),
        vec![Uac1ChannelNames::LeftFront, Uac1ChannelNames::RightFront]
    );
    assert_eq!(Uac1ChannelNames::from_bitmap(0x800), vec![Uac1ChannelNames::Top]);
    assert_eq!(Uac1ChannelNames::from_bitmap(0xffff_f000), vec![]);
    assert_eq!(Uac1ChannelNames::from_bitmap(0xfff).len(), 12);
    assert_eq!(
        Uac2ChannelNames::from_bitmap(0x0400_0001),
        vec![Uac2ChannelNames::FrontLeft, Uac2ChannelNames::BackRightOfCenter]
    );
    assert_eq!(Uac2ChannelNames::from_bitmap(0xffff_ffff).len(), 27);
    assert_eq!(
        ChannelNames::from_bitmap(&UacProtocol::Uac1, 0b101),
        vec![
            ChannelNames::Uac1(Uac1ChannelNames::LeftFront),
            ChannelNames::Uac1(Uac1ChannelNames::CenterFront)
        ]
    );
    assert_eq!(
        ChannelNames::from_bitmap(&UacProtocol::Uac2, 0b100),
        vec![ChannelNames::Uac2(Uac2ChannelNames::FrontCenter)]
    );
    assert_eq!(ChannelNames::from_bitmap(&UacProtocol::Uac3, 0xffff), vec![]);
}

#[test]
fn channel_name_strings() {
    assert_eq!(
        UacInterfaceDescriptor::get_channel_name_strings(&UacProtocol::Uac1, 0b1001),
        vec!["Left Front (L)".to_string(), "Low Frequency Enhancement (LFE)".to_string()]
    );
    assert_eq!(
        UacInterfaceDescriptor::get_channel_name_strings(&UacProtocol::Uac2, 0b10),
        vec!["Front Right (FR)".to_string()]
    );
    assert_eq!(
        UacInterfaceDescriptor::get_channel_name_strings(&UacProtocol::Unknown(3), 0b10),
        Vec::<String>::new()
    );
    assert_eq!(Uac1ChannelNames::Top.to_string(), "Top (T)");
    assert_eq!(ChannelNames::Uac2(Uac2ChannelNames::BottomCenter).to_string(), "Bottom Center (BC)");
}

#[test]
fn channel_names_of_a_descriptor_follow_its_protocol() {
    let selector = UacInterfaceDescriptor::from_uac_ac_interface(
        &ControlSubtype::SelectorUnit,
        &UacProtocol::Uac2,
        &[0x05, 0x02, 0x01, 0x02, 0x03, 0x09],
    )
    .unwrap();
    assert_eq!(
        selector.get_channel_names(0b11),
        vec![
            ChannelNames::Uac2(Uac2ChannelNames::FrontLeft),
            ChannelNames::Uac2(Uac2ChannelNames::FrontRight)
        ]
    );
    assert_eq!(selector.get_lock_delay_units(), None);
    assert_eq!(UacInterfaceDescriptor::Generic(vec![1]).get_channel_names(0b11), vec![]);
}

#[test]
fn bitmap_strings() {
    let strings = ["zero", "one", "two", "three"];
    assert_eq!(
        UacInterfaceDescriptor::get_bitmap_string(0b1010, &strings),
        vec!["one".to_string(), "three".to_string()]
    );
    assert_eq!(UacInterfaceDescriptor::get_bitmap_string(0, &strings), Vec::<String>::new());
    // A bitmap has 32 bits: what lies behind them is not selected.
    let many = ["x"; 40];
    assert_eq!(UacInterfaceDescriptor::get_bitmap_string(0xffff_ffff, &many).len(), 32);
}

#[test]
fn raw_descriptors_encode_to_their_bytes() {
    assert_eq!(UacInterfaceDescriptor::Invalid(vec![1, 2]).encode(), vec![1, 2]);
    assert_eq!(UacInterfaceDescriptor::Generic(vec![3]).encode(), vec![3]);
    assert_eq!(UacInterfaceDescriptor::Undefined(vec![]).encode(), Vec::<u8>::new());
}

#[test]
fn protocol_of_streaming_descriptors() {
    let protocol = |p: UacProtocol, data: &[u8]| {
        UacInterfaceDescriptor::from_uac_as_interface(&StreamingSubtype::General, &p, data)
            .unwrap()
            .get_protocol()
    };
    // The streaming interface and the data endpoint of UAC1 name no protocol.
    assert_eq!(protocol(UacProtocol::Uac1, &[0u8; 4]), UacProtocol::Unknown(0xff));
    assert_eq!(protocol(UacProtocol::Uac1, &[0u8; 6]), UacProtocol::Unknown(0xff));
    assert_eq!(protocol(UacProtocol::Uac2, &[0u8; 5]), UacProtocol::Uac2);
    assert_eq!(protocol(UacProtocol::Uac2, &[0u8; 20]), UacProtocol::Uac2);
    assert_eq!(protocol(UacProtocol::Uac3, &[0u8; 7]), UacProtocol::Uac3);
    assert_eq!(protocol(UacProtocol::Uac3, &[0u8; 30]), UacProtocol::Uac3);
}
