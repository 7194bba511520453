use cyme::error::Error;
use cyme::profiler::platform::{
    hex_between, hex_digit_of, parse_host_controller_id, pci_info_from_device,
    pci_info_from_parent, read_hex_attr, FromHexStr, PciInfo,
};
use cyme::profiler::types::{Device, LocationId};

#[test]
fn test_parse_host_controller_id() {
    assert_eq!(parse_host_controller_id(""), None);
    assert_eq!(
        parse_host_controller_id("PCI\\VEN_8086&DEV_2658&SUBSYS_04001AB8&REV_02\\3&11583659&0&E8"),
        Some((0x8086, 0x2658, 2, 0x04001AB8, Some("3&11583659&0&E8".to_string())))
    );
    assert_eq!(parse_host_controller_id("PCI\\VEN_8086&DEV_2658"), None);
    assert_eq!(
        parse_host_controller_id("PCI\\VEN_8086&DEV_2658&SUBSYS_04001AB8&REV_02"),
        Some((0x8086, 0x2658, 2, 0x04001AB8, None))
    );
}

#[test]
fn host_controller_id_in_small_letters_and_with_a_tail() {
    assert_eq!(
        parse_host_controller_id("PCI\\VEN_abcd&DEV_00ff&SUBSYS_deadBEEF&REV_a0&more"),
        Some((0xabcd, 0x00ff, 0xa0, 0xdeadbeef, None))
    );
    assert_eq!(
        parse_host_controller_id("PCI\\VEN_8086&DEV_2658&SUBSYS_04001AB8&REV_02\\"),
        Some((0x8086, 0x2658, 2, 0x04001AB8, Some(String::new())))
    );
    assert_eq!(
        parse_host_controller_id("PCI\\VEN_+086&DEV_2658&SUBSYS_04001AB8&REV_02"),
        Some((0x086, 0x2658, 2, 0x04001AB8, None))
    );
}

#[test]
fn host_controller_id_that_is_none() {
    assert_eq!(parse_host_controller_id("USB\\VEN_8086&DEV_2658&SUBSYS_04001AB8&REV_02"), None);
    assert_eq!(parse_host_controller_id("PCI\\VEN_80g6&DEV_2658&SUBSYS_04001AB8&REV_02"), None);
    assert_eq!(parse_host_controller_id("PCI\\VEN_8086&DEV_2658&SUBSYS_04001AB8&REV_0"), None);
    assert_eq!(parse_host_controller_id("PCI\\VEN_8086&DEV_2658&SUBSYS_04001AB&REV_02"), None);
    assert_eq!(parse_host_controller_id("PCI\\VEN_8086&DEV_-658&SUBSYS_04001AB8&REV_02"), None);
    assert_eq!(parse_host_controller_id("PCI\\VEN_8086&DEV_2658&SUBSYS_04001AB8&REV_0\u{e9}"), None);
    assert_eq!(parse_host_controller_id("PCI\\VEN_8086&dev_2658&SUBSYS_04001AB8&REV_02"), None);
}

#[test]
fn pci_info_is_read_from_the_id() {
    let text = "PCI\\VEN_8086&DEV_2658&SUBSYS_04001AB8&REV_02\\3&11583659&0&E8";
    let info = PciInfo { vendor_id: 0x8086, product_id: 0x2658, revision: 2 };
    assert_eq!(pci_info_from_parent(text), Some(info));
    assert_eq!(pci_info_from_parent("PCI"), None);
    let mut hub = Device {
        name: "xHCI Host Controller".to_string(),
        vendor_id: Some(0x1d6b),
        product_id: Some(3),
        location_id: LocationId { bus: 1, number: 1, tree_positions: vec![] },
        serial_num: None,
        class: None,
        extra: None,
        hidden: false,
        devices: None,
    };
    assert_eq!(pci_info_from_device(&hub), None);
    hub.serial_num = Some(text.to_string());
    assert_eq!(pci_info_from_device(&hub), Some(info));
    hub.serial_num = Some("0000:00:14.0".to_string());
    assert_eq!(pci_info_from_device(&hub), None);
}

#[test]
fn hexadecimal_numbers() {
    assert_eq!(u8::from_hex_str("ff"), Ok(0xff));
    assert_eq!(u8::from_hex_str("0"), Ok(0));
    assert_eq!(u8::from_hex_str("+7F"), Ok(0x7f));
    assert_eq!(u8::from_hex_str("0000a"), Ok(0x0a));
    assert_eq!(u8::from_hex_str("100"), Err(Error::Parsing("hexadecimal number")));
    assert_eq!(u8::from_hex_str(""), Err(Error::Parsing("hexadecimal number")));
    assert_eq!(u8::from_hex_str("+"), Err(Error::Parsing("hexadecimal number")));
    assert_eq!(u8::from_hex_str("-1"), Err(Error::Parsing("hexadecimal number")));
    assert_eq!(u8::from_hex_str("0x1"), Err(Error::Parsing("hexadecimal number")));
    assert_eq!(u8::from_hex_str(" 1"), Err(Error::Parsing("hexadecimal number")));
    assert_eq!(u16::from_hex_str("8086"), Ok(0x8086));
    assert_eq!(u16::from_hex_str("FFFF"), Ok(0xffff));
    assert_eq!(u16::from_hex_str("10000"), Err(Error::Parsing("hexadecimal number")));
    assert_eq!(u16::from_hex_str("1d6b"), Ok(0x1d6b));
    assert_eq!(u16::from_hex_str("fffffffffffffffffffff"), Err(Error::Parsing("hexadecimal number")));
}

#[test]
fn hexadecimal_numbers_agree_with_the_standard_library() {
    let texts = ["", "+", "+1", "++1", "-0", "0", "7", "a", "F", "g", "ff", "FF", "100", "0ff",
        "+ff", "1 ", "ffff", "10000", "0x10", "\u{ff11}", "1\u{e9}"];
    for text in texts {
        assert_eq!(u8::from_hex_str(text).ok(), u8::from_str_radix(text, 16).ok(), "{:?}", text);
        assert_eq!(u16::from_hex_str(text).ok(), u16::from_str_radix(text, 16).ok(), "{:?}", text);
    }
}

#[test]
fn hexadecimal_attributes() {
    assert_eq!(read_hex_attr::<u16>("0x8086"), Ok(0x8086));
    assert_eq!(read_hex_attr::<u16>("8086"), Ok(0x8086));
    assert_eq!(read_hex_attr::<u8>("0x03"), Ok(3));
    assert_eq!(read_hex_attr::<u8>("0x"), Err(Error::Parsing("hexadecimal number")));
    assert_eq!(read_hex_attr::<u8>("0x0x1"), Err(Error::Parsing("hexadecimal number")));
    assert_eq!(read_hex_attr::<u8>("x1"), Err(Error::Parsing("hexadecimal number")));
}

#[test]
fn hexadecimal_digits_and_fields() {
    assert_eq!(hex_digit_of('0'), Some(0));
    assert_eq!(hex_digit_of('9'), Some(9));
    assert_eq!(hex_digit_of('a'), Some(10));
    assert_eq!(hex_digit_of('F'), Some(15));
    assert_eq!(hex_digit_of('g'), None);
    assert_eq!(hex_digit_of('/'), None);
    assert_eq!(hex_digit_of(':'), None);
    assert_eq!(hex_digit_of('@'), None);
    assert_eq!(hex_digit_of('`'), None);
    assert_eq!(hex_between("xx12yy", 2, 4, 0xff), Some(0x12));
    assert_eq!(hex_between("xx12yy", 2, 5, 0xff), None);
    assert_eq!(hex_between("xx12yy", 2, 2, 0xff), None);
    assert_eq!(hex_between("ffffffff", 0, 8, 0xffff_ffff), Some(0xffff_ffff));
    assert_eq!(hex_between("1ffffffff", 0, 9, 0xffff_ffff), None);
}
