use cyme::display::{
    auto_max_string_len, prepare, truncate_string, truncate_to, BlockLength, Encoding, PrintMode,
    PrintSettings, DEFAULT_AUTO_WIDTH, MIN_VARIABLE_STRING_LEN,
};
use cyme::profiler::filter::Filter;
use cyme::profiler::mask::MaskSerial;
use cyme::profiler::sort::Sort;
use cyme::profiler::types::{flatten_all, Bus, Device, LocationId, SystemProfile};
use cyme::usb::descriptors::audio::midi::MidiSubtype;
use cyme::usb::descriptors::audio::processing::{
    AudioProcessingMultiFunction, AudioProcessingUnitType,
};
use cyme::usb::descriptors::audio::streaming::{
    LockDelayUnits, SampleFrequencyType, StreamingFormatType,
};
use cyme::usb::descriptors::audio::{
    ControlSetting, ControlSubtype, StreamingSubtype, UacProtocol, UacType,
};
use cyme::usb::descriptors::ClassCodeTriplet;

fn device(name: &str, number: u8, ports: &[u8], devices: Option<Vec<Device>>) -> Device {
    Device {
        name: name.to_string(),
        vendor_id: None,
        product_id: None,
        location_id: LocationId { bus: 1, number, tree_positions: ports.to_vec() },
        serial_num: None,
        class: None,
        extra: None,
        hidden: false,
        devices,
    }
}

fn profile() -> SystemProfile {
    let mut second = Bus::new(2);
    second.devices = Some(vec![device("camera", 2, &[1], None)]);
    let mut first = Bus::new(1);
    first.devices = Some(vec![
        device("mouse", 9, &[2], None),
        device(
            "hub",
            2,
            &[1],
            Some(vec![device("keyboard", 4, &[1, 2], None), device("pad", 3, &[1, 1], None)]),
        ),
    ]);
    SystemProfile { buses: vec![second, first] }
}

fn names(devices: &Option<Vec<Device>>) -> Vec<&str> {
    devices.as_ref().map_or(vec![], |d| d.iter().map(|d| d.name.as_str()).collect())
}

#[test]
fn encodings() {
    assert!(Encoding::Ascii.char_is_valid('I'));
    assert!(Encoding::Ascii.char_is_valid('\u{7f}'));
    assert!(!Encoding::Ascii.char_is_valid('\u{80}'));
    assert!(!Encoding::Ascii.char_is_valid('\u{2000}'));
    assert!(!Encoding::Ascii.char_is_valid('●'));
    assert!(Encoding::Utf8.char_is_valid('I'));
    assert!(Encoding::Utf8.char_is_valid('\u{2000}'));
    assert!(Encoding::Utf8.char_is_valid('●'));
    assert!(!Encoding::Utf8.char_is_valid('\u{e001}'));
    assert!(!Encoding::Utf8.char_is_valid('\u{e000}'));
    assert!(!Encoding::Utf8.char_is_valid('\u{f8ff}'));
    assert!(Encoding::Utf8.char_is_valid('\u{f900}'));
    assert!(!Encoding::Utf8.char_is_valid('\u{f0000}'));
    assert!(!Encoding::Utf8.char_is_valid('\u{ffffd}'));
    assert!(Encoding::Utf8.char_is_valid('\u{ffffe}'));
    assert!(!Encoding::Utf8.char_is_valid('\u{100000}'));
    assert!(!Encoding::Utf8.char_is_valid('\u{10fffd}'));
    assert!(Encoding::Utf8.char_is_valid('\u{10fffe}'));
    assert!(Encoding::Glyphs.char_is_valid('I'));
    assert!(Encoding::Glyphs.char_is_valid('\u{2000}'));
    assert!(Encoding::Glyphs.char_is_valid('\u{f287}'));
    assert!(Encoding::Glyphs.char_is_valid('\u{e001}'));
    assert!(Encoding::Ascii.str_is_valid("hello world"));
    assert!(!Encoding::Ascii.str_is_valid("├──"));
    assert!(!Encoding::Ascii.str_is_valid("chip \u{f2db}"));
    assert!(Encoding::Utf8.str_is_valid("hello world"));
    assert!(Encoding::Utf8.str_is_valid("├──"));
    assert!(!Encoding::Utf8.str_is_valid("chip \u{f2db}"));
    assert!(Encoding::Glyphs.str_is_valid("chip \u{f2db}"));
    assert!(Encoding::Ascii.str_is_valid(""));
}

#[test]
fn block_lengths() {
    assert_eq!(BlockLength::Fixed(4).len(), 4);
    assert_eq!(BlockLength::Variable(7).len(), 7);
    assert!(BlockLength::Fixed(0).is_empty());
    assert!(BlockLength::Variable(0).is_empty());
    assert!(!BlockLength::Variable(1).is_empty());
    assert_eq!(BlockLength::Fixed(4).fixed_len(), Some(4));
    assert_eq!(BlockLength::Variable(4).fixed_len(), None);
    assert_eq!(BlockLength::Variable(4).variable_len(), Some(4));
    assert_eq!(BlockLength::Fixed(4).variable_len(), None);
}

#[test]
fn truncating_strings() {
    let cut = |text: &str, len: usize| {
        let mut s = text.to_string();
        truncate_string(&mut s, len);
        s
    };
    assert_eq!(cut("blah", 4), "blah");
    assert_eq!(cut("blahx", 4), "b...");
    assert_eq!(cut("hello world", 8), "hello...");
    assert_eq!(cut("hello world", 3), "hello world");
    assert_eq!(cut("hello world", 11), "hello world");
    assert_eq!(cut("hello world", 100), "hello world");
    assert_eq!(cut("", 4), "");
    // Characters are counted, not bytes.
    assert_eq!(cut("ñandú grande", 8), "ñandú...");
    // A text of few wide characters is wider than it is long, and stays.
    assert_eq!(cut("日本", 3), "日本");
    assert_eq!(cut("日本語の文字", 5), "日本...");
    let mut s = "abcdefgh".to_string();
    truncate_to(&mut s, 20, 6);
    assert_eq!(s, "abc...");
    let mut s = "abcdefgh".to_string();
    truncate_to(&mut s, 5, 6);
    assert_eq!(s, "abcdefgh");
}

#[test]
fn flattening_walks_the_tree_in_order() {
    let flat = flatten_all(profile().buses.remove(1).devices.unwrap());
    let seen: Vec<&str> = flat.iter().map(|d| d.name.as_str()).collect();
    assert_eq!(seen, vec!["mouse", "hub", "keyboard", "pad"]);
    assert!(flat.iter().all(|d| d.devices.is_none()));
    let hub = device("hub", 2, &[1], Some(vec![device("pad", 3, &[1, 1], Some(vec![]))]));
    let seen: Vec<String> = hub.into_flattened().into_iter().map(|d| d.name).collect();
    assert_eq!(seen, vec!["hub", "pad"]);
    let mut sp = profile();
    sp.into_flattened();
    assert_eq!(names(&sp.buses[1].devices), vec!["mouse", "hub", "keyboard", "pad"]);
    let mut empty = Bus::new(3);
    empty.into_flattened();
    assert_eq!(empty.devices, None);
}

#[test]
fn prepare_a_tree() {
    let mut sp = profile();
    let settings =
        PrintSettings {
            tree: true,
            sort_devices: Sort::BranchPosition,
            sort_buses: false,
            mask_serials: None,
            print_mode: PrintMode::Normal,
        };
    prepare(&mut sp, None, &settings);
    assert_eq!(sp.buses[0].usb_bus_number, Some(1));
    assert_eq!(names(&sp.buses[0].devices), vec!["hub", "mouse"]);
    assert_eq!(names(&sp.buses[0].devices.as_ref().unwrap()[0].devices), vec!["pad", "keyboard"]);
    assert_eq!(names(&sp.buses[1].devices), vec!["camera"]);
}

#[test]
fn prepare_a_list_with_a_filter() {
    let mut sp = profile();
    let settings =
        PrintSettings {
            tree: false,
            sort_devices: Sort::DeviceNumber,
            sort_buses: false,
            mask_serials: None,
            print_mode: PrintMode::Normal,
        };
    let filter = Filter { name: Some("a".to_string()), ..Filter::new() };
    prepare(&mut sp, Some(&filter), &settings);
    // Flattened first: the hub does not stay for the keyboard and the pad.
    assert_eq!(names(&sp.buses[0].devices), vec!["pad", "keyboard"]);
    assert_eq!(names(&sp.buses[1].devices), vec!["camera"]);
}

#[test]
fn prepare_for_dynamic_printing_hides_and_keeps_the_tree() {
    let mut sp = profile();
    let settings =
        PrintSettings {
            tree: false,
            sort_devices: Sort::NoSort,
            sort_buses: false,
            mask_serials: None,
            print_mode: PrintMode::Dynamic,
        };
    let filter = Filter { name: Some("keyboard".to_string()), ..Filter::new() };
    prepare(&mut sp, Some(&filter), &settings);
    let first = sp.buses[0].devices.as_ref().unwrap();
    assert_eq!(names(&sp.buses[0].devices), vec!["mouse", "hub"]);
    assert!(first[0].hidden);
    assert!(!first[1].hidden);
    assert_eq!(names(&first[1].devices), vec!["keyboard", "pad"]);
    assert!(!first[1].devices.as_ref().unwrap()[0].hidden);
    assert!(first[1].devices.as_ref().unwrap()[1].hidden);
    assert!(sp.buses[1].devices.as_ref().unwrap()[0].hidden);
}

#[test]
fn filter_by_class() {
    let mut hid = device("mouse", 2, &[1], None);
    hid.class = Some(ClassCodeTriplet { base_class: 3, sub_class: 1, protocol: 2 });
    let filter = Filter { class: Some(3), ..Filter::new() };
    assert!(filter.is_match(&hid));
    assert!(!Filter { class: Some(1), ..Filter::new() }.is_match(&hid));
    assert!(!filter.is_match(&device("bare", 2, &[1], None)));
}

#[test]
fn names_of_sub_types() {
    assert_eq!(ControlSubtype::InputTerminal.to_string(), "InputTerminal");
    assert_eq!(ControlSubtype::InputTerminal.to_lsusb_string(), "INPUT_TERMINAL");
    assert_eq!(ControlSubtype::SampleRateConverter.to_lsusb_string(), "SAMPLE_RATE_CONVERTER");
    assert_eq!(ControlSubtype::Undefined.to_string(), "Undefined");
    assert_eq!(ControlSubtype::Undefined.to_lsusb_string(), "unknown");
    assert_eq!(StreamingSubtype::FormatType.to_string(), "FormatType");
    assert_eq!(StreamingSubtype::FormatType.to_lsusb_string(), "FORMAT_TYPE");
    assert_eq!(StreamingSubtype::Undefined.to_lsusb_string(), "UNDEFINED");
    assert_eq!(MidiSubtype::Header.to_lsusb_string(), "HEADER");
    assert_eq!(MidiSubtype::Element.to_lsusb_string(), "ELEMENT");
    assert_eq!(MidiSubtype::InputJack.to_lsusb_string(), "MIDI_IN_JACK");
    assert_eq!(MidiSubtype::OutputJack.to_lsusb_string(), "MIDI_OUT_JACK");
    assert_eq!(MidiSubtype::Undefined.to_lsusb_string(), "Invalid");
    assert_eq!(MidiSubtype::OutputJack.to_string(), "OutputJack");
    assert_eq!(UacType::Control(ControlSubtype::MixerUnit).to_string(), "MixerUnit");
    assert_eq!(UacType::Control(ControlSubtype::MixerUnit).to_lsusb_string(), "MIXER_UNIT");
    assert_eq!(UacType::Streaming(StreamingSubtype::General).to_lsusb_string(), "GENERAL");
    assert_eq!(UacType::Midi(MidiSubtype::InputJack).to_lsusb_string(), "MIDI_IN_JACK");
}

#[test]
fn names_of_other_values() {
    assert_eq!(UacProtocol::Uac1.to_string(), "UAC1");
    assert_eq!(UacProtocol::Uac2.to_string(), "UAC2");
    assert_eq!(UacProtocol::Uac3.to_string(), "UAC3");
    assert_eq!(UacProtocol::Unknown(7).to_string(), "Unknown");
    assert_eq!(ControlSetting::ReadOnly.to_string(), "read-only");
    assert_eq!(ControlSetting::IllegalValue.to_string(), "ILLEGAL VALUE (0b10)");
    assert_eq!(ControlSetting::ReadWrite.to_string(), "read/write");
    assert_eq!(StreamingFormatType::TypeIII.to_string(), "TypeIII");
    assert_eq!(StreamingFormatType::TypeIII.to_lsusb_string(), "FORMAT_TYPE_III");
    assert_eq!(StreamingFormatType::Undefined(9).to_string(), "Undefined");
    assert_eq!(StreamingFormatType::Undefined(9).to_lsusb_string(), "invalid");
    assert_eq!(SampleFrequencyType::Continuous.to_string(), "Continuous");
    assert_eq!(SampleFrequencyType::Discrete(3).to_string(), "Discrete");
    assert_eq!(LockDelayUnits::DecodedPcmSamples.to_string(), "Decoded PCM samples");
    assert_eq!(LockDelayUnits::Milliseconds.to_string(), "Milliseconds");
    assert_eq!(AudioProcessingUnitType::UpDownMix.to_string(), "Up/Down-mix");
    assert_eq!(AudioProcessingUnitType::StereoExtender3d.to_string(), "3D Stereo Extender");
    assert_eq!(AudioProcessingUnitType::DynRangeComp.to_string(), "Dyn Range Comp");
    assert_eq!(AudioProcessingMultiFunction::BeamForming.to_string(), "Beam Forming");
    assert_eq!(AudioProcessingMultiFunction::BeamForming.to_sentence(), "Beam Forming.");
    assert_eq!(
        AudioProcessingMultiFunction::NoiseSuppression.to_sentence(),
        "Noise Suppression/Reduction."
    );
}

fn four_blocks() -> Vec<BlockLength> {
    vec![
        BlockLength::Fixed(3),
        BlockLength::Fixed(4),
        BlockLength::Variable(4),
        BlockLength::Variable(6),
    ]
}

#[test]
fn no_text_is_cut_where_the_line_fits() {
    let blocks = four_blocks();
    assert_eq!(auto_max_string_len(&blocks, 2, &vec![5, 5], Some((60, 20))), None);
    // 13 fixed columns, 39 variable and 8 between the blocks are 60
    assert_eq!(auto_max_string_len(&blocks, 2, &vec![19, 20], Some((60, 20))), None);
    // one column more does not fit: each text has 23 columns and what both leave of them
    assert_eq!(auto_max_string_len(&blocks, 2, &vec![20, 20], Some((60, 20))), Some(29));
    assert_eq!(auto_max_string_len(&blocks, 2, &vec![], Some((1, 1))), None);
    assert_eq!(auto_max_string_len(&[], 0, &vec![80], None), None);
    assert_eq!(auto_max_string_len(&[], 0, &vec![81], None), Some(80));
    assert_eq!(DEFAULT_AUTO_WIDTH, 80);
}

#[test]
fn the_width_is_shared_out_among_the_long_texts() {
    let blocks = four_blocks();
    // 47 columns are left for two texts: 23 for each
    assert_eq!(auto_max_string_len(&blocks, 2, &vec![30, 50], Some((60, 20))), Some(23));
    // the short text leaves 18 of its 23 columns to the long one
    assert_eq!(auto_max_string_len(&blocks, 2, &vec![5, 50], Some((60, 20))), Some(41));
    // two long texts share what the short one leaves
    assert_eq!(auto_max_string_len(&blocks, 2, &vec![5, 50, 60], Some((60, 20))), Some(20));
    // where no text is longer than its share, all that is left is added
    assert_eq!(auto_max_string_len(&blocks, 2, &vec![10, 10], Some((40, 20))), Some(19));
    // the offset counts as fixed
    assert_eq!(auto_max_string_len(&blocks, 12, &vec![30, 50], Some((60, 20))), Some(18));
    // without a terminal the width is 80: 33 for each, and 3 that the short text leaves
    assert_eq!(auto_max_string_len(&blocks, 2, &vec![30, 50], None), Some(36));
}

#[test]
fn no_text_is_cut_to_less_than_five_characters() {
    let blocks = four_blocks();
    assert_eq!(MIN_VARIABLE_STRING_LEN, 5);
    assert_eq!(auto_max_string_len(&blocks, 2, &vec![30, 50], Some((10, 20))), Some(5));
    assert_eq!(auto_max_string_len(&blocks, 2, &vec![30, 50], Some((13, 20))), Some(5));
    assert_eq!(auto_max_string_len(&blocks, 2, &vec![30, 50], Some((14, 20))), Some(5));
    assert_eq!(auto_max_string_len(&blocks, 2, &vec![30, 50], Some((22, 20))), Some(5));
    assert_eq!(auto_max_string_len(&blocks, 2, &vec![30, 50], Some((25, 20))), Some(6));
    assert_eq!(auto_max_string_len(&blocks, 2, &vec![30, 50], Some((0, 0))), Some(5));
}

#[test]
fn lengths_beyond_any_terminal_are_counted_as_they_are() {
    let blocks = vec![BlockLength::Fixed(usize::MAX), BlockLength::Fixed(usize::MAX)];
    assert_eq!(auto_max_string_len(&blocks, usize::MAX, &vec![1], Some((u16::MAX, 0))), Some(5));
    let none: Vec<BlockLength> = vec![];
    assert_eq!(
        auto_max_string_len(&none, 0, &vec![usize::MAX, usize::MAX, 7], Some((90, 0))),
        Some(41)
    );
}

fn serials(devices: &Option<Vec<Device>>) -> Vec<Option<&str>> {
    devices.as_ref().map_or(vec![], |d| d.iter().map(|d| d.serial_num.as_deref()).collect())
}

#[test]
fn prepare_masks_the_serial_numbers_of_the_whole_tree() {
    let mut sp = profile();
    for bus in sp.buses.iter_mut() {
        for d in bus.devices.iter_mut().flatten() {
            d.serial_num = Some(format!("SN-{}", d.name));
            for below in d.devices.iter_mut().flatten() {
                below.serial_num = Some("0123456789".to_string());
            }
        }
    }
    let settings = PrintSettings {
        tree: true,
        sort_devices: Sort::NoSort,
        sort_buses: true,
        mask_serials: Some(MaskSerial::Hide),
        print_mode: PrintMode::Normal,
    };
    prepare(&mut sp, None, &settings);
    assert_eq!(sp.buses[0].usb_bus_number, Some(1));
    assert_eq!(sp.buses[1].usb_bus_number, Some(2));
    assert_eq!(names(&sp.buses[0].devices), vec!["mouse", "hub"]);
    assert_eq!(serials(&sp.buses[0].devices), vec![Some("********"), Some("******")]);
    let hub = &sp.buses[0].devices.as_ref().unwrap()[1];
    assert_eq!(serials(&hub.devices), vec![Some("**********"), Some("**********")]);
    assert_eq!(serials(&sp.buses[1].devices), vec![Some("*********")]);
}

#[test]
fn prepare_replaces_serial_numbers_by_capitals_and_digits() {
    let mut sp = profile();
    for bus in sp.buses.iter_mut() {
        for d in bus.devices.iter_mut().flatten() {
            d.serial_num = Some("a-b-c-d-e-f".to_string());
        }
    }
    let settings = PrintSettings {
        tree: false,
        sort_devices: Sort::DeviceNumber,
        sort_buses: false,
        mask_serials: Some(MaskSerial::Replace),
        print_mode: PrintMode::Normal,
    };
    prepare(&mut sp, None, &settings);
    for bus in &sp.buses {
        for d in bus.devices.iter().flatten() {
            if let Some(serial) = &d.serial_num {
                assert_eq!(serial.chars().count(), 11);
                assert!(serial.chars().all(|c| c.is_ascii_uppercase() || c.is_ascii_digit()));
            }
        }
    }
    assert!(sp.buses.iter().any(|b| b.devices.iter().flatten().any(|d| d.serial_num.is_some())));
}
