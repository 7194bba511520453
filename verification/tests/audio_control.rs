use cyme::error::Error;
use cyme::usb::descriptors::audio::clock::{
    ClockMultiplier2, ClockMultiplier3, ClockSelector2, ClockSelector3, ClockSource2,
    ClockSource3, SampleRateConverter2, SampleRateConverter3,
};
use cyme::usb::descriptors::audio::terminal::{
    ExtendedTerminalHeader, Header1, Header2, Header3, InputTerminal1, InputTerminal2,
    InputTerminal3, OutputTerminal1, OutputTerminal2, OutputTerminal3, PowerDomain,
};
use cyme::usb::descriptors::audio::unit::{
    EffectUnit2, EffectUnit3, ExtensionUnit1, ExtensionUnit2, ExtensionUnit3, FeatureUnit1,
    FeatureUnit2, FeatureUnit3, MixerUnit1, MixerUnit2, MixerUnit3, SelectorUnit1, SelectorUnit2,
    SelectorUnit3,
};
use cyme::usb::Version;
use cyme::wire::DescriptorShape;

fn too_short(name: &'static str, expected: usize, actual: usize) -> Error {
    Error::DescriptorTooShort { descriptor_name: name, expected, actual }
}

/// Decodes `bytes`, checks that the value encodes to them again and that the
/// encoding decodes to the value, and hands the value back.
fn round_trip<T: DescriptorShape + PartialEq + std::fmt::Debug>(bytes: &[u8]) -> T {
    let value = T::decode(bytes).unwrap();
    let encoded = value.encode();
    assert_eq!(encoded, bytes.to_vec());
    assert_eq!(T::decode(&encoded).unwrap(), value);
    value
}

/// Every proper prefix of `bytes` is turned down with a length error.
fn prefixes_rejected<T: DescriptorShape + std::fmt::Debug>(bytes: &[u8]) {
    for n in 0..bytes.len() {
        match T::decode(&bytes[..n]) {
            Err(Error::DescriptorTooShort { actual, expected, .. }) => {
                assert_eq!(actual, n);
                assert!(expected > n);
            }
            other => panic!("prefix of {} bytes gave {:?}", n, other),
        }
    }
}

#[test]
fn input_terminal1_scenario() {
    let payload = [0x02, 0x00, 0x01, 0x00, 0x00, 0x00, 0x00, 0x00, 0x00];
    let terminal: InputTerminal1 = round_trip(&payload);
    assert_eq!(
        terminal,
        InputTerminal1 {
            terminal_id: 0x02,
            terminal_type: 0x0100,
            assoc_terminal: 0,
            nr_channels: 0,
            channel_config: 0,
            channel_names_index: 0,
            channel_names: None,
            terminal_index: 0,
            terminal: None,
        }
    );
    prefixes_rejected::<InputTerminal1>(&payload);
}

#[test]
fn input_terminal1_chunk_of_nine_bytes_is_too_short_without_its_header() {
    let chunk = [0x09, 0x04, 0x02, 0x01, 0x00, 0x00, 0x00, 0x00, 0x00];
    assert_eq!(InputTerminal1::decode(&chunk[2..]), Err(too_short("InputTerminal1", 9, 7)));
}

#[test]
fn input_terminal1_reads_little_endian() {
    let payload = [0x07, 0x01, 0x02, 0x03, 0x04, 0x34, 0x12, 0x05, 0x06];
    let terminal: InputTerminal1 = round_trip(&payload);
    assert_eq!(terminal.terminal_type, 0x0201);
    assert_eq!(terminal.assoc_terminal, 3);
    assert_eq!(terminal.nr_channels, 4);
    assert_eq!(terminal.channel_config, 0x1234);
    assert_eq!(terminal.channel_names_index, 5);
    assert_eq!(terminal.terminal_index, 6);
}

#[test]
fn input_terminal1_ignores_what_follows() {
    let payload = [0x07, 0x01, 0x02, 0x03, 0x04, 0x34, 0x12, 0x05, 0x06, 0xaa, 0xbb];
    let terminal = InputTerminal1::decode(&payload).unwrap();
    assert_eq!(terminal.encode(), payload[..9].to_vec());
}

#[test]
fn input_terminal1_rejects_short_payload() {
    assert_eq!(InputTerminal1::decode(&[0x02, 0x01, 0x01]), Err(too_short("InputTerminal1", 9, 3)));
    assert_eq!(InputTerminal1::decode(&[]), Err(too_short("InputTerminal1", 9, 0)));
}

#[test]
fn header1_round_trip() {
    let payload = [0x00, 0x01, 0x1e, 0x00, 0x02, 0x01, 0x02];
    let header: Header1 = round_trip(&payload);
    assert_eq!(header.version, Version(1, 0, 0));
    assert_eq!(header.total_length, 30);
    assert_eq!(header.collection_bytes, 2);
    assert_eq!(header.interfaces, vec![1, 2]);
    assert_eq!(Header1::decode(&payload[..5]), Err(too_short("Header1", 6, 5)));
}

#[test]
fn header2_round_trip() {
    let payload = [0x00, 0x02, 0x08, 0x40, 0x00, 0x01];
    let header: Header2 = round_trip(&payload);
    assert_eq!(header.version, Version(2, 0, 0));
    assert_eq!(header.category, 8);
    assert_eq!(header.total_length, 0x0040);
    assert_eq!(header.controls, 1);
    prefixes_rejected::<Header2>(&payload);
}

#[test]
fn header3_round_trip() {
    let payload = [0x08, 0x40, 0x01, 0x78, 0x56, 0x34, 0x12];
    let header: Header3 = round_trip(&payload);
    assert_eq!(header.category, 8);
    assert_eq!(header.total_length, 0x0140);
    assert_eq!(header.controls, 0x12345678);
    prefixes_rejected::<Header3>(&payload);
}

#[test]
fn header_version_that_is_not_decimal_is_not_written_back() {
    // The low digit of the major number is 0xa: the version reads 10, which is written as 0x10.
    let payload = [0x00, 0x0a, 0x08, 0x40, 0x00, 0x01];
    let header = Header2::decode(&payload).unwrap();
    assert_eq!(header.version, Version(10, 0, 0));
    assert_eq!(header.encode(), vec![0x00, 0x10, 0x08, 0x40, 0x00, 0x01]);
}

#[test]
fn input_terminal2_round_trip() {
    let payload =
        [0x01, 0x01, 0x02, 0x00, 0x09, 0x02, 0x03, 0x00, 0x00, 0x00, 0x04, 0x55, 0xaa, 0x05];
    let terminal: InputTerminal2 = round_trip(&payload);
    assert_eq!(terminal.terminal_type, 0x0201);
    assert_eq!(terminal.csource_id, 9);
    assert_eq!(terminal.channel_config, 3);
    assert_eq!(terminal.controls, 0xaa55);
    assert_eq!(terminal.terminal_index, 5);
    prefixes_rejected::<InputTerminal2>(&payload);
}

#[test]
fn input_terminal3_round_trip() {
    let payload = [
        0x01, 0x01, 0x02, 0x00, 0x09, 0x01, 0x02, 0x03, 0x04, 0x11, 0x00, 0x22, 0x00, 0x33, 0x00,
        0x44, 0x01,
    ];
    let terminal: InputTerminal3 = round_trip(&payload);
    assert_eq!(terminal.controls, 0x04030201);
    assert_eq!(terminal.cluster_descr_id, 0x11);
    assert_eq!(terminal.ex_terminal_descr_id, 0x22);
    assert_eq!(terminal.connectors_descr_id, 0x33);
    assert_eq!(terminal.terminal_descr_str, 0x0144);
    prefixes_rejected::<InputTerminal3>(&payload);
}

#[test]
fn output_terminals_round_trip() {
    let t1: OutputTerminal1 = round_trip(&[0x03, 0x01, 0x03, 0x00, 0x02, 0x07]);
    assert_eq!((t1.terminal_type, t1.source_id, t1.terminal_index), (0x0301, 2, 7));
    let t2: OutputTerminal2 = round_trip(&[0x03, 0x01, 0x03, 0x00, 0x02, 0x09, 0x01, 0x02, 0x07]);
    assert_eq!((t2.c_source_id, t2.controls, t2.terminal_index), (9, 0x0201, 7));
    let t3: OutputTerminal3 = round_trip(&[
        0x03, 0x01, 0x03, 0x00, 0x02, 0x09, 0x01, 0x02, 0x03, 0x04, 0x05, 0x00, 0x06, 0x00, 0x07,
        0x00,
    ]);
    assert_eq!(t3.controls, 0x04030201);
    assert_eq!((t3.ex_terminal_descr_id, t3.connectors_descr_id, t3.terminal_descr_str), (5, 6, 7));
    assert_eq!(OutputTerminal1::decode(&[0; 5]), Err(too_short("OutputTerminal1", 6, 5)));
    assert_eq!(OutputTerminal2::decode(&[0; 8]), Err(too_short("OutputTerminal2", 9, 8)));
    assert_eq!(OutputTerminal3::decode(&[0; 15]), Err(too_short("OutputTerminal3", 16, 15)));
}

#[test]
fn extended_terminal_header_round_trip() {
    let header: ExtendedTerminalHeader = round_trip(&[0x05, 0x02]);
    assert_eq!((header.descriptor_id, header.nr_channels), (5, 2));
    assert_eq!(
        ExtendedTerminalHeader::decode(&[0x05]),
        Err(too_short("ExtendedTerminalHeader", 2, 1))
    );
}

#[test]
fn power_domain_round_trip() {
    let payload = [0x01, 0x10, 0x00, 0x20, 0x00, 0x03, 0x0a, 0x0b, 0x0c, 0x34, 0x12];
    let domain: PowerDomain = round_trip(&payload);
    assert_eq!(domain.recovery_time_1, 0x10);
    assert_eq!(domain.recovery_time_2, 0x20);
    assert_eq!(domain.nr_entities, 3);
    assert_eq!(domain.entity_ids, vec![0x0a, 0x0b, 0x0c]);
    assert_eq!(domain.domain_descr_str, 0x1234);
    prefixes_rejected::<PowerDomain>(&payload);
    assert_eq!(PowerDomain::decode(&payload[..10]), Err(too_short("PowerDomain", 11, 10)));
}

#[test]
fn mixer_unit1_round_trip() {
    let payload = [0x01, 0x02, 0x0a, 0x0b, 0x03, 0x07, 0x00, 0x09, 0x11, 0x12, 0x13, 0x21];
    let mixer: MixerUnit1 = round_trip(&payload);
    assert_eq!(mixer.source_ids, vec![0x0a, 0x0b]);
    assert_eq!(mixer.nr_channels, 3);
    assert_eq!(mixer.channel_config, 7);
    assert_eq!(mixer.channel_names, 9);
    assert_eq!(mixer.controls, vec![0x11, 0x12, 0x13]);
    assert_eq!(mixer.mixer, 0x21);
    prefixes_rejected::<MixerUnit1>(&payload);
}

#[test]
fn mixer_unit1_counts_are_checked_one_after_the_other() {
    // The count of channels is there: two pins and three channels ask for twelve.
    assert_eq!(
        MixerUnit1::decode(&[0x01, 0x02, 0x0a, 0x0b, 0x03, 0x07, 0x00]),
        Err(too_short("MixerUnit1", 12, 7))
    );
    // Ten pins and one channel ask for eighteen, also where the bytes end among the fields.
    assert_eq!(
        MixerUnit1::decode(&[0x01, 10, 1, 2, 3, 4, 5, 6, 7, 8, 9, 10, 0x01, 0x07]),
        Err(too_short("MixerUnit1", 18, 14))
    );
    // The bytes end among the pins: the count of channels is not there, five pins ask for twelve.
    assert_eq!(
        MixerUnit1::decode(&[0x01, 0x05, 0x0a, 0x0b, 0x0c, 0x0d, 0x0e]),
        Err(too_short("MixerUnit1", 12, 7))
    );
    // With the channels read, three controls ask for twelve.
    assert_eq!(
        MixerUnit1::decode(&[0x01, 0x02, 0x0a, 0x0b, 0x03, 0x07, 0x00, 0x09, 0x11, 0x12, 0x13]),
        Err(too_short("MixerUnit1", 12, 11))
    );
    // A count of 255 pins never reads past the end.
    assert_eq!(MixerUnit1::decode(&[0x01, 0xff, 0, 0, 0, 0, 0]), Err(too_short("MixerUnit1", 262, 7)));
}

#[test]
fn mixer_unit2_and_3_round_trip() {
    let payload2 = [0x01, 0x01, 0x0a, 0x02, 0x03, 0x00, 0x00, 0x00, 0x09, 0x11, 0x12, 0x05, 0x21];
    let mixer2: MixerUnit2 = round_trip(&payload2);
    assert_eq!(mixer2.channel_config, 3);
    assert_eq!(mixer2.mixer_controls, vec![0x11, 0x12]);
    assert_eq!((mixer2.controls, mixer2.mixer), (5, 0x21));
    prefixes_rejected::<MixerUnit2>(&payload2);
    let payload3 = [0x01, 0x01, 0x0a, 0x22, 0x00, 0x7f, 0x04, 0x03, 0x02, 0x01, 0x33, 0x00];
    let mixer3: MixerUnit3 = round_trip(&payload3);
    assert_eq!(mixer3.cluster_descr_id, 0x22);
    assert_eq!(mixer3.mixer_controls, vec![0x7f]);
    assert_eq!(mixer3.controls, 0x01020304);
    assert_eq!(mixer3.mixer_descr_str, 0x33);
    prefixes_rejected::<MixerUnit3>(&payload3);
}

#[test]
fn selector_units_round_trip() {
    let s1: SelectorUnit1 = round_trip(&[0x05, 0x02, 0x01, 0x02, 0x09]);
    assert_eq!((s1.source_ids.clone(), s1.selector_index), (vec![1, 2], 9));
    let s2: SelectorUnit2 = round_trip(&[0x05, 0x02, 0x01, 0x02, 0x03, 0x09]);
    assert_eq!((s2.controls, s2.selector_index), (3, 9));
    let s3: SelectorUnit3 = round_trip(&[0x05, 0x01, 0x01, 0x04, 0x03, 0x02, 0x01, 0x09, 0x00]);
    assert_eq!((s3.controls, s3.selector_descr_str), (0x01020304, 9));
    assert_eq!(SelectorUnit1::decode(&[0x05, 0x02, 0x01, 0x02]), Err(too_short("SelectorUnit1", 5, 4)));
    assert_eq!(SelectorUnit2::decode(&[0x05, 0x02, 0x01]), Err(too_short("SelectorUnit2", 4, 3)));
    assert_eq!(SelectorUnit3::decode(&[0; 7]), Err(too_short("SelectorUnit3", 8, 7)));
    // Without pins a selector is complete with its fixed fields.
    let none: SelectorUnit1 = round_trip(&[0x05, 0x00, 0x09]);
    assert!(none.source_ids.is_empty());
}

#[test]
fn feature_unit1_round_trip() {
    let payload = [0x06, 0x01, 0x02, 0x03, 0x00, 0x08];
    let unit: FeatureUnit1 = round_trip(&payload);
    assert_eq!(unit.control_size, 2);
    assert_eq!(unit.controls, vec![3, 0]);
    assert_eq!(unit.feature_index, 8);
    prefixes_rejected::<FeatureUnit1>(&payload);
}

#[test]
fn feature_unit2_reads_over_one_byte() {
    let payload = [0x06, 0x01, 0x0f, 0x00, 0x00, 0x00, 0x00, 0x08];
    let unit: FeatureUnit2 = round_trip(&payload);
    assert_eq!(unit.controls, [0x0f, 0, 0, 0]);
    assert_eq!(unit.feature_index, 8);
    // The byte that is read over comes back as zero.
    let other = FeatureUnit2::decode(&[0x06, 0x01, 0x0f, 0x00, 0x00, 0x00, 0x77, 0x08]).unwrap();
    assert_eq!(other, unit);
    assert_eq!(other.encode(), payload.to_vec());
    assert_eq!(FeatureUnit2::decode(&payload[..7]), Err(too_short("FeatureUnit2", 8, 7)));
}

#[test]
fn feature_unit3_round_trip() {
    let payload = [0x06, 0x01, 0x0f, 0x00, 0x00, 0x01, 0x08, 0x01];
    let unit: FeatureUnit3 = round_trip(&payload);
    assert_eq!(unit.controls, [0x0f, 0, 0, 1]);
    assert_eq!(unit.feature_descr_str, 0x0108);
    prefixes_rejected::<FeatureUnit3>(&payload);
}

#[test]
fn extension_units_round_trip() {
    let payload1 = [0x09, 0x34, 0x12, 0x01, 0x02, 0x02, 0x03, 0x00, 0x04, 0x02, 0xaa, 0xbb, 0x05];
    let unit1: ExtensionUnit1 = round_trip(&payload1);
    assert_eq!(unit1.extension_code, 0x1234);
    assert_eq!(unit1.source_ids, vec![2]);
    assert_eq!(unit1.controls, vec![0xaa, 0xbb]);
    assert_eq!(unit1.extension_index, 5);
    prefixes_rejected::<ExtensionUnit1>(&payload1);
    // The size of the controls lies behind the pins: a count of pins that
    // leads past the end is a length error.
    assert_eq!(
        ExtensionUnit1::decode(&[0x09, 0x34, 0x12, 0xf0, 0, 0, 0, 0, 0, 0]),
        Err(too_short("ExtensionUnit1", 250, 10))
    );
    let payload2 = [0x09, 0x34, 0x12, 0x01, 0x02, 0x02, 0x03, 0x00, 0x00, 0x00, 0x04, 0x06, 0x05];
    let unit2: ExtensionUnit2 = round_trip(&payload2);
    assert_eq!((unit2.channel_config, unit2.controls, unit2.extension_index), (3, 6, 5));
    prefixes_rejected::<ExtensionUnit2>(&payload2);
    let payload3 = [0x09, 0x34, 0x12, 0x01, 0x02, 0x07, 0x00, 0x04, 0x03, 0x02, 0x01, 0x08, 0x00];
    let unit3: ExtensionUnit3 = round_trip(&payload3);
    assert_eq!(unit3.extension_descr_str, 7);
    assert_eq!(unit3.controls, 0x01020304);
    assert_eq!(unit3.cluster_descr_id, 8);
    prefixes_rejected::<ExtensionUnit3>(&payload3);
}

#[test]
fn effect_unit2_round_trip() {
    let payload =
        [0x04, 0x01, 0x00, 0x02, 0x04, 0x03, 0x02, 0x01, 0x08, 0x07, 0x06, 0x05, 0x09];
    let unit: EffectUnit2 = round_trip(&payload);
    assert_eq!(unit.effect_type, 1);
    assert_eq!(unit.source_id, 2);
    assert_eq!(unit.controls, vec![0x01020304, 0x05060708]);
    assert_eq!(unit.effect_index, 9);
    assert_eq!(EffectUnit2::decode(&payload[..8]), Err(too_short("EffectUnit2", 9, 8)));
}

#[test]
fn effect_unit2_with_a_broken_control_reads_the_whole_ones() {
    // Eleven bytes: one control, the index behind it, and two bytes that belong to nothing.
    let payload = [0x04, 0x01, 0x00, 0x02, 0x04, 0x03, 0x02, 0x01, 0x09, 0xee, 0xff];
    let unit = EffectUnit2::decode(&payload).unwrap();
    assert_eq!(unit.controls, vec![0x01020304]);
    assert_eq!(unit.effect_index, 9);
    assert_eq!(unit.encode(), payload[..9].to_vec());
}

#[test]
fn effect_unit3_round_trip() {
    let payload = [0x04, 0x01, 0x00, 0x02, 0x04, 0x03, 0x02, 0x01, 0x09, 0x01];
    let unit: EffectUnit3 = round_trip(&payload);
    assert_eq!(unit.controls, vec![0x01020304]);
    assert_eq!(unit.effect_descr_str, 0x0109);
    prefixes_rejected::<EffectUnit3>(&payload);
}

#[test]
fn clock_entities_round_trip() {
    let source2: ClockSource2 = round_trip(&[0x01, 0x03, 0x07, 0x00, 0x02]);
    assert_eq!((source2.attributes, source2.controls, source2.clock_source_index), (3, 7, 2));
    let source3: ClockSource3 = round_trip(&[0x01, 0x03, 0x04, 0x03, 0x02, 0x01, 0x05, 0x06, 0x00]);
    assert_eq!((source3.controls, source3.reference_terminal, source3.clock_source_str), (0x01020304, 5, 6));
    let selector2: ClockSelector2 = round_trip(&[0x01, 0x02, 0x0a, 0x0b, 0x03, 0x04]);
    assert_eq!(selector2.csource_ids, vec![0x0a, 0x0b]);
    assert_eq!((selector2.controls, selector2.clock_selector_index), (3, 4));
    let selector3: ClockSelector3 =
        round_trip(&[0x01, 0x01, 0x0a, 0x04, 0x03, 0x02, 0x01, 0x05, 0x00]);
    assert_eq!((selector3.controls, selector3.cselector_descr_str), (0x01020304, 5));
    let multiplier2: ClockMultiplier2 = round_trip(&[0x01, 0x02, 0x03, 0x04]);
    assert_eq!(multiplier2.clock_multiplier_index, 4);
    let multiplier3: ClockMultiplier3 =
        round_trip(&[0x01, 0x02, 0x04, 0x03, 0x02, 0x01, 0x05, 0x00]);
    assert_eq!(multiplier3.controls, 0x01020304);
    let converter2: SampleRateConverter2 = round_trip(&[0x01, 0x02, 0x03, 0x04, 0x05]);
    assert_eq!(converter2.src_index, 5);
    let converter3: SampleRateConverter3 = round_trip(&[0x01, 0x02, 0x03, 0x04, 0x05, 0x01]);
    assert_eq!(converter3.src_descr_str, 0x0105);
    prefixes_rejected::<ClockSource2>(&[0x01, 0x03, 0x07, 0x00, 0x02]);
    prefixes_rejected::<ClockSource3>(&[0x01, 0x03, 0x04, 0x03, 0x02, 0x01, 0x05, 0x06, 0x00]);
    prefixes_rejected::<ClockSelector2>(&[0x01, 0x02, 0x0a, 0x0b, 0x03, 0x04]);
    prefixes_rejected::<ClockSelector3>(&[0x01, 0x01, 0x0a, 0x04, 0x03, 0x02, 0x01, 0x05, 0x00]);
    prefixes_rejected::<ClockMultiplier2>(&[0x01, 0x02, 0x03, 0x04]);
    prefixes_rejected::<ClockMultiplier3>(&[0x01, 0x02, 0x04, 0x03, 0x02, 0x01, 0x05, 0x00]);
    prefixes_rejected::<SampleRateConverter2>(&[0x01, 0x02, 0x03, 0x04, 0x05]);
    prefixes_rejected::<SampleRateConverter3>(&[0x01, 0x02, 0x03, 0x04, 0x05, 0x01]);
}

#[test]
fn version_is_binary_coded_decimal() {
    assert_eq!(Version::from_bcd(0x0210), Version(2, 1, 0));
    assert_eq!(Version::from_bcd(0x1234), Version(12, 3, 4));
    assert_eq!(Version(2, 1, 0).to_bcd(), 0x0210);
    assert_eq!(Version(12, 3, 4).to_bcd(), 0x1234);
    assert_eq!(Version::from_bcd(Version(99, 9, 9).to_bcd()), Version(99, 9, 9));
}

#[test]
fn counts_after_the_pins_are_read_as_soon_as_they_are_there() {
    // A mixer unit of UAC2: the count of channels is there, two pins and three channels ask for 15.
    assert_eq!(
        MixerUnit2::decode(&[0x01, 0x02, 0x0a, 0x0b, 0x03, 0, 0, 0, 0, 0]),
        Err(too_short("MixerUnit2", 15, 10))
    );
    // The bytes end among the pins: nine pins ask for 19.
    assert_eq!(
        MixerUnit2::decode(&[0x01, 0x09, 1, 2, 3, 4, 5, 6, 7, 8, 9]),
        Err(too_short("MixerUnit2", 19, 11))
    );
    assert_eq!(MixerUnit2::decode(&[0x01, 0x02, 0, 0, 0, 0, 0, 0, 0]), Err(too_short("MixerUnit2", 10, 9)));
    // An extension unit of UAC1: the size of the controls is there, one pin and four bytes ask for 15.
    assert_eq!(
        ExtensionUnit1::decode(&[0x09, 0x34, 0x12, 0x01, 0x0a, 0x02, 0x03, 0x00, 0x05, 0x04]),
        Err(too_short("ExtensionUnit1", 15, 10))
    );
    // The bytes end before the size of the controls: two pins ask for 12.
    assert_eq!(
        ExtensionUnit1::decode(&[0x09, 0x34, 0x12, 0x02, 0x0a, 0x0b, 0x02, 0x03, 0x00, 0x05]),
        Err(too_short("ExtensionUnit1", 12, 10))
    );
}
