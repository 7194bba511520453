use cyme::error::Error;
use cyme::usb::descriptors::audio::streaming::{
    DataStreamingEndpoint1, DataStreamingEndpoint2, DataStreamingEndpoint3, FormatSpecificAc3,
    FormatSpecificMpeg, FormatTypeI1, FormatTypeI2, FormatTypeII1, FormatTypeII2, FormatTypeIII1,
    LockDelayUnits, SampleFrequencyType, StreamingFormat, StreamingFormatInterface,
    StreamingFormatSpecific, StreamingFormatType, StreamingInterface1, StreamingInterface2,
    StreamingInterface3,
};
use cyme::usb::descriptors::audio::UacProtocol;
use cyme::wire::DescriptorShape;

fn too_short(name: &'static str, expected: usize, actual: usize) -> Error {
    Error::DescriptorTooShort { descriptor_name: name, expected, actual }
}

fn round_trip<T: DescriptorShape + PartialEq + std::fmt::Debug>(bytes: &[u8]) -> T {
    let value = T::decode(bytes).unwrap();
    let encoded = value.encode();
    assert_eq!(encoded, bytes.to_vec());
    assert_eq!(T::decode(&encoded).unwrap(), value);
    value
}

#[test]
fn streaming_interfaces_round_trip() {
    let i1: StreamingInterface1 = round_trip(&[0x01, 0x02, 0x01, 0x00]);
    assert_eq!((i1.terminal_link, i1.delay, i1.format_tag), (1, 2, 1));
    let i2: StreamingInterface2 = round_trip(&[
        0x01, 0x05, 0x01, 0x01, 0x00, 0x00, 0x00, 0x02, 0x03, 0x00, 0x00, 0x00, 0x07,
    ]);
    assert_eq!((i2.controls, i2.format_type, i2.formats), (5, 1, 1));
    assert_eq!((i2.nr_channels, i2.channel_config, i2.channel_names_index), (2, 3, 7));
    let i3: StreamingInterface3 = round_trip(&[
        0x01, 0x04, 0x03, 0x02, 0x01, 0x09, 0x00, 0x08, 0x07, 0x06, 0x05, 0x04, 0x03, 0x02, 0x01,
        0x02, 0x10, 0x34, 0x12, 0x01,
    ]);
    assert_eq!(i3.controls, 0x01020304);
    assert_eq!(i3.cluster_descr_id, 9);
    assert_eq!(i3.formats, 0x0102030405060708);
    assert_eq!((i3.sub_slot_size, i3.bit_resolution), (2, 16));
    assert_eq!((i3.aux_protocols, i3.control_size), (0x1234, 1));
    assert_eq!(StreamingInterface1::decode(&[0; 3]), Err(too_short("StreamingInterface1", 4, 3)));
    assert_eq!(StreamingInterface2::decode(&[0; 12]), Err(too_short("StreamingInterface2", 13, 12)));
    assert_eq!(StreamingInterface3::decode(&[0; 19]), Err(too_short("StreamingInterface3", 20, 19)));
}

#[test]
fn data_streaming_endpoints_round_trip() {
    let e1: DataStreamingEndpoint1 = round_trip(&[0x01, 0x01, 0x10, 0x00]);
    assert_eq!(e1.lock_delay, 16);
    assert_eq!(e1.lock_delay_units(), LockDelayUnits::Milliseconds);
    let e2: DataStreamingEndpoint2 = round_trip(&[0x01, 0x00, 0x02, 0x10, 0x00]);
    assert_eq!(e2.lock_delay_units(), LockDelayUnits::DecodedPcmSamples);
    let e3: DataStreamingEndpoint3 = round_trip(&[0x04, 0x03, 0x02, 0x01, 0x07, 0x10, 0x00]);
    assert_eq!(e3.controls, 0x01020304);
    assert_eq!(e3.lock_delay_units(), LockDelayUnits::Undefined);
    assert_eq!(DataStreamingEndpoint1::size(), 4);
    assert_eq!(DataStreamingEndpoint2::size(), 5);
    assert_eq!(DataStreamingEndpoint3::size(), 7);
    assert_eq!(DataStreamingEndpoint1::decode(&[0; 3]), Err(too_short("DataStreamingEndpoint1", 4, 3)));
    assert_eq!(DataStreamingEndpoint2::decode(&[0; 4]), Err(too_short("DataStreamingEndpoint2", 5, 4)));
    assert_eq!(DataStreamingEndpoint3::decode(&[0; 6]), Err(too_short("DataStreamingEndpoint3", 7, 6)));
}

#[test]
fn lock_delay_units_from_byte() {
    assert_eq!(LockDelayUnits::from(0), LockDelayUnits::Undefined);
    assert_eq!(LockDelayUnits::from(1), LockDelayUnits::Milliseconds);
    assert_eq!(LockDelayUnits::from(2), LockDelayUnits::DecodedPcmSamples);
    assert_eq!(LockDelayUnits::from(3), LockDelayUnits::Undefined);
}

#[test]
fn format_type_i1_discrete_frequencies() {
    // Two channels, two bytes a sample, 16 bit, two frequencies: 44100 and 48000 Hz.
    let payload = [0x02, 0x02, 0x10, 0x02, 0x44, 0xac, 0x00, 0x80, 0xbb, 0x00];
    let format: FormatTypeI1 = round_trip(&payload);
    assert_eq!((format.num_channels, format.subframe_size, format.bit_resolution), (2, 2, 16));
    assert_eq!(format.sample_frequency_type, SampleFrequencyType::Discrete(2));
    assert_eq!(format.sample_frequencies, vec![44100, 48000]);
    assert_eq!(FormatTypeI1::decode(&payload[..9]), Err(too_short("FormatTypeI", 10, 9)));
    assert_eq!(FormatTypeI1::decode(&payload[..3]), Err(too_short("FormatTypeI", 4, 3)));
}

#[test]
fn format_type_i1_continuous_range() {
    let payload = [0x02, 0x02, 0x10, 0x00, 0x40, 0x1f, 0x00, 0x00, 0x77, 0x01];
    let format: FormatTypeI1 = round_trip(&payload);
    assert_eq!(format.sample_frequency_type, SampleFrequencyType::Continuous);
    assert_eq!(format.sample_frequencies, vec![8000, 96000]);
    assert_eq!(FormatTypeI1::decode(&payload[..9]), Err(too_short("FormatTypeI", 10, 9)));
}

#[test]
fn format_type_i1_frequency_takes_three_bytes() {
    let payload = [0x01, 0x03, 0x18, 0x01, 0xff, 0xff, 0xff];
    let format: FormatTypeI1 = round_trip(&payload);
    assert_eq!(format.sample_frequencies, vec![0x00ff_ffff]);
}

#[test]
fn format_type_ii1_and_iii1_round_trip() {
    let payload2 = [0x80, 0x00, 0x00, 0x04, 0x01, 0x80, 0xbb, 0x00];
    let format2: FormatTypeII1 = round_trip(&payload2);
    assert_eq!((format2.max_bit_rate, format2.samples_per_frame), (128, 1024));
    assert_eq!(format2.sample_frequencies, vec![48000]);
    assert_eq!(FormatTypeII1::decode(&payload2[..7]), Err(too_short("FormatTypeII", 8, 7)));
    assert_eq!(FormatTypeII1::decode(&[0x80, 0, 0, 4, 0, 1, 2, 3]), Err(too_short("FormatTypeII", 11, 8)));
    let payload3 = [0x02, 0x02, 0x10, 0x01, 0x80, 0xbb, 0x00];
    let format3: FormatTypeIII1 = round_trip(&payload3);
    assert_eq!(format3.sample_frequency_type, SampleFrequencyType::Discrete(1));
    assert_eq!(format3.sample_frequencies, vec![48000]);
    assert_eq!(FormatTypeIII1::decode(&payload3[..6]), Err(too_short("FormatTypeIII", 7, 6)));
}

#[test]
fn format_types_of_uac2_round_trip() {
    let f1: FormatTypeI2 = round_trip(&[0x02, 0x10]);
    assert_eq!((f1.sub_slot_size, f1.bit_resolution), (2, 16));
    let f2: FormatTypeII2 = round_trip(&[0x80, 0x00, 0x00, 0x04]);
    assert_eq!((f2.max_bit_rate, f2.slots_per_frame), (128, 1024));
    assert_eq!(FormatTypeI2::decode(&[2]), Err(too_short("FormatTypeI2", 2, 1)));
    assert_eq!(FormatTypeII2::decode(&[0; 3]), Err(too_short("FormatTypeII2", 4, 3)));
}

#[test]
fn format_specific_round_trip() {
    let mpeg: FormatSpecificMpeg = round_trip(&[0x34, 0x12, 0x07]);
    assert_eq!((mpeg.mpeg_capabilities, mpeg.mpeg_features), (0x1234, 7));
    let ac3: FormatSpecificAc3 = round_trip(&[0x04, 0x03, 0x02, 0x01, 0x07]);
    assert_eq!((ac3.bsid, ac3.ac3_features), (0x01020304, 7));
    assert_eq!(FormatSpecificMpeg::decode(&[0; 2]), Err(too_short("FormatSpecificMpeg", 3, 2)));
    assert_eq!(FormatSpecificAc3::decode(&[0; 4]), Err(too_short("FormatSpecificAc3", 5, 4)));
}

#[test]
fn streaming_format_depends_on_protocol_and_type() {
    let data = [0x01, 0x02, 0x02, 0x10, 0x01, 0x80, 0xbb, 0x00];
    let uac1 = StreamingFormat::from_uac_as_interface(&UacProtocol::Uac1, &data).unwrap();
    assert_eq!(uac1.format_type, StreamingFormatType::TypeI);
    match &uac1.interface {
        StreamingFormatInterface::FormatTypeI1(format) => {
            assert_eq!(format.sample_frequencies, vec![48000])
        }
        other => panic!("unexpected {:?}", other),
    }
    assert_eq!(uac1.encode(), data.to_vec());
    let uac2 = StreamingFormat::from_uac_as_interface(&UacProtocol::Uac2, &data).unwrap();
    match &uac2.interface {
        StreamingFormatInterface::FormatTypeI2(format) => {
            assert_eq!((format.sub_slot_size, format.bit_resolution), (2, 2))
        }
        other => panic!("unexpected {:?}", other),
    }
    assert_eq!(uac2.encode(), data[..3].to_vec());
    let uac3 = StreamingFormat::from_uac_as_interface(&UacProtocol::Uac3, &data).unwrap();
    assert_eq!(uac3.interface, StreamingFormatInterface::Invalid(data[1..].to_vec()));
    assert_eq!(uac3.encode(), data.to_vec());
    let type4 = StreamingFormat::from_uac_as_interface(&UacProtocol::Uac1, &[0x04, 0x09]).unwrap();
    assert_eq!(type4.format_type, StreamingFormatType::TypeIV);
    assert_eq!(type4.interface, StreamingFormatInterface::Undefined(vec![0x09]));
    let unknown = StreamingFormat::from_uac_as_interface(&UacProtocol::Uac2, &[0x77]).unwrap();
    assert_eq!(unknown.format_type, StreamingFormatType::Undefined(0x77));
    assert_eq!(unknown.interface, StreamingFormatInterface::Undefined(vec![]));
}

#[test]
fn streaming_format_errors() {
    assert_eq!(
        StreamingFormat::from_uac_as_interface(&UacProtocol::Uac1, &[]),
        Err(too_short("StreamingFormat", 1, 0))
    );
    assert_eq!(
        StreamingFormat::from_uac_as_interface(&UacProtocol::Uac1, &[0x01, 0x02]),
        Err(too_short("FormatTypeI", 4, 1))
    );
    assert_eq!(
        StreamingFormat::from_uac_as_interface(&UacProtocol::Uac2, &[0x02, 0x02]),
        Err(too_short("FormatTypeII2", 4, 1))
    );
    assert_eq!(
        StreamingFormat::from_uac_as_interface(&UacProtocol::Uac2, &[0x03]),
        Err(too_short("FormatTypeI2", 2, 0))
    );
}

#[test]
fn streaming_format_specific_depends_on_tag() {
    let mpeg = StreamingFormatSpecific::decode(&[0x01, 0x10, 0x34, 0x12, 0x07]).unwrap();
    assert_eq!(mpeg.format_tag, 0x1001);
    assert_eq!(
        mpeg.interface,
        StreamingFormatInterface::FormatSpecificMpeg(FormatSpecificMpeg {
            mpeg_capabilities: 0x1234,
            mpeg_features: 7
        })
    );
    assert_eq!(mpeg.encode(), vec![0x01, 0x10, 0x34, 0x12, 0x07]);
    let ac3 = StreamingFormatSpecific::from_uac_as_interface(
        &UacProtocol::Uac2,
        &[0x02, 0x10, 0x04, 0x03, 0x02, 0x01, 0x07],
    )
    .unwrap();
    assert_eq!(
        ac3.interface,
        StreamingFormatInterface::FormatSpecificAc3(FormatSpecificAc3 { bsid: 0x01020304, ac3_features: 7 })
    );
    let other = StreamingFormatSpecific::decode(&[0x03, 0x10, 0xaa]).unwrap();
    assert_eq!(other.interface, StreamingFormatInterface::Undefined(vec![0xaa]));
    assert_eq!(other.encode(), vec![0x03, 0x10, 0xaa]);
    assert_eq!(StreamingFormatSpecific::decode(&[0x01]), Err(too_short("StreamingFormatSpecific", 2, 1)));
    assert_eq!(
        StreamingFormatSpecific::decode(&[0x01, 0x10, 0x34]),
        Err(too_short("FormatSpecificMpeg", 3, 1))
    );
    assert_eq!(
        StreamingFormatSpecific::decode(&[0x02, 0x10]),
        Err(too_short("FormatSpecificAc3", 5, 0))
    );
}

#[test]
fn sample_frequency_and_format_type_bytes() {
    assert_eq!(SampleFrequencyType::from(0), SampleFrequencyType::Continuous);
    assert_eq!(SampleFrequencyType::from(3), SampleFrequencyType::Discrete(3));
    assert_eq!(u8::from(SampleFrequencyType::Continuous), 0);
    assert_eq!(u8::from(SampleFrequencyType::Discrete(3)), 3);
    for b in 0..=255u8 {
        assert_eq!(u8::from(StreamingFormatType::from(b)), b);
    }
    assert_eq!(StreamingFormatType::from(1), StreamingFormatType::TypeI);
    assert_eq!(StreamingFormatType::from(2), StreamingFormatType::TypeII);
    assert_eq!(StreamingFormatType::from(3), StreamingFormatType::TypeIII);
    assert_eq!(StreamingFormatType::from(4), StreamingFormatType::TypeIV);
    assert_eq!(StreamingFormatType::from(5), StreamingFormatType::Undefined(5));
}
