//! What the library asks of an open device: strings and control transfers.
//! The requests it makes, and what it makes of the answers.
use crate::error::Error;
use crate::usb::descriptors::audio::clock::{
    ClockMultiplier2, ClockSelector2, ClockSource2, SampleRateConverter2,
};
use crate::usb::descriptors::audio::midi::{
    Element, InputJack, MidiDescriptor, MidiInterfaceDescriptor, OutputJack,
};
use crate::usb::descriptors::audio::processing::{ProcessingUnit1, ProcessingUnit2};
use crate::usb::descriptors::audio::streaming::StreamingInterface2;
use crate::usb::descriptors::audio::terminal::{
    InputTerminal1, InputTerminal2, OutputTerminal1, OutputTerminal2,
};
use crate::usb::descriptors::audio::unit::{
    EffectUnit2, ExtensionUnit1, ExtensionUnit2, FeatureUnit1, FeatureUnit2, SelectorUnit1,
    SelectorUnit2,
};
use crate::usb::descriptors::audio::{UacDescriptor, UacInterfaceDescriptor};
use crate::usb::descriptors::{
    chunks, consumed, read_descriptors, ClassCodeTriplet, ClassDescriptor, Descriptor,
    GenericDescriptor,
};
use crate::text::text_of;
use crate::usb::DescriptorType;
use crate::wire::{copy_range, read_u16, u16_le, DescriptorShape};
use vstd::prelude::*;
use vstd::string::StringExecFns;
use vstd::utf8::{decode_utf8, valid_utf8};

verus! {

/// The standard request that reads a descriptor.
pub const REQUEST_GET_DESCRIPTOR: u8 = 0x06;

/// The standard request that reads a status.
pub const REQUEST_GET_STATUS: u8 = 0x00;

/// The WebUSB request that reads a URL.
pub const REQUEST_WEBUSB_URL: u8 = 0x02;

/// Transfer direction
#[derive(Debug, Clone, Copy, PartialEq, Eq)]
pub enum Direction {
    /// Host to device
    Out,
    /// Device to host
    In,
}

/// Specification defining the request.
#[derive(Debug, Clone, Copy, PartialEq, Eq)]
pub enum ControlType {
    /// Request defined by the USB standard.
    Standard,
    /// Request defined by the standard USB class specification.
    Class,
    /// Non-standard request.
    Vendor,
}

/// Entity targeted by the request.
#[derive(Debug, Clone, Copy, PartialEq, Eq)]
pub enum Recipient {
    /// Request made to device as a whole.
    Device,
    /// Request made to specific interface.
    Interface,
    /// Request made to specific endpoint.
    Endpoint,
    /// Other request.
    Other,
}

/// Control request to USB device.
#[derive(Debug, Clone, Copy, PartialEq, Eq)]
pub struct ControlRequest {
    pub control_type: ControlType,
    pub recipient: Recipient,
    pub request: u8,
    pub value: u16,
    pub index: u16,
    pub length: usize,
    pub claim_interface: bool,
}

/// Device USB operations that the decoders use. What a device may answer is
/// for its implementation to say: the library knows of an answer only that
/// it is one that the device may give to what it was asked.
pub trait UsbOperations {
    /// `name` is what the device may give where it is asked for the string
    /// descriptor of the index `string_index`. A device of which no more is
    /// said may give any.
    open spec fn names(&self, string_index: u8, name: Option<String>) -> bool {
        true
    }

    /// `answer` is what the device may give to the control request
    /// `request`. A device of which no more is said may give any.
    open spec fn answers(&self, request: ControlRequest, answer: Result<Vec<u8>, Error>) -> bool {
        true
    }

    /// The string descriptor of the index `string_index`, if the device gives it.
    fn get_descriptor_string(&self, string_index: u8) -> (name: Option<String>)
        ensures
            self.names(string_index, name),
    ;

    /// The bytes that the device answers to the control request.
    fn get_control_msg(&self, control_request: ControlRequest) -> (answer: Result<Vec<u8>, Error>)
        ensures
            self.answers(control_request, answer),
    ;
}

impl ControlRequest {
    /// The value of a request for the descriptor of the type `t`: the type in the high byte.
    pub open spec fn descriptor_value(t: DescriptorType) -> u16 {
        (t.code() as int * 256) as u16
    }

    /// The request for `length` bytes of the descriptor of the type `t`, made
    /// to the device as a whole.
    pub open spec fn device_descriptor(t: DescriptorType, length: usize) -> ControlRequest {
        ControlRequest {
            control_type: ControlType::Standard,
            recipient: Recipient::Device,
            request: REQUEST_GET_DESCRIPTOR,
            value: Self::descriptor_value(t),
            index: 0,
            length,
            claim_interface: false,
        }
    }

    /// The request for the HID report descriptor of `length` bytes of the interface `index`.
    pub fn report_descriptor(index: u16, length: u16, claim_interface: bool) -> (r: ControlRequest)
        ensures
            r == (ControlRequest {
                control_type: ControlType::Standard,
                recipient: Recipient::Interface,
                request: REQUEST_GET_DESCRIPTOR,
                value: 0x2200,
                index,
                length: length as usize,
                claim_interface,
            }),
    {
        ControlRequest {
            control_type: ControlType::Standard,
            recipient: Recipient::Interface,
            request: REQUEST_GET_DESCRIPTOR,
            value: 0x2200,
            index,
            length: length as usize,
            claim_interface,
        }
    }

    /// The request for `length` bytes of the hub descriptor of a hub of the
    /// USB version `bcd`: from USB 3.0 on the descriptor of a SuperSpeed hub.
    pub fn hub_descriptor(bcd: u16, length: usize) -> (r: ControlRequest)
        ensures
            r == (ControlRequest {
                control_type: ControlType::Class,
                recipient: Recipient::Device,
                request: REQUEST_GET_DESCRIPTOR,
                value: if bcd >= 0x0300 {
                    0x2a00u16
                } else {
                    0x2900u16
                },
                index: 0,
                length,
                claim_interface: false,
            }),
    {
        ControlRequest {
            control_type: ControlType::Class,
            recipient: Recipient::Device,
            request: REQUEST_GET_DESCRIPTOR,
            value: if bcd >= 0x0300 {
                0x2a00
            } else {
                0x2900
            },
            index: 0,
            length,
            claim_interface: false,
        }
    }

    /// Whether a hub answers with the extended port status: a hub of protocol
    /// 3 from USB 3.1 on that has a SuperSpeedPlus capability.
    pub fn is_ext_status(protocol: u8, bcd: u16, has_ssp: bool) -> (ext: bool)
        ensures
            ext == (protocol == 3 && bcd >= 0x0310 && has_ssp),
    {
        protocol == 3 && bcd >= 0x0310 && has_ssp
    }

    /// The request for the status of the port `port` of a hub, counted from
    /// 0: eight bytes of extended status, or four of plain status.
    pub fn port_status(port: u8, ext_status: bool) -> (r: ControlRequest)
        ensures
            r == (ControlRequest {
                control_type: ControlType::Class,
                recipient: Recipient::Other,
                request: REQUEST_GET_STATUS,
                value: if ext_status {
                    2u16
                } else {
                    0u16
                },
                index: (port + 1) as u16,
                length: if ext_status {
                    8usize
                } else {
                    4usize
                },
                claim_interface: false,
            }),
    {
        ControlRequest {
            control_type: ControlType::Class,
            recipient: Recipient::Other,
            request: REQUEST_GET_STATUS,
            value: if ext_status {
                2
            } else {
                0
            },
            index: port as u16 + 1,
            length: if ext_status {
                8
            } else {
                4
            },
            claim_interface: false,
        }
    }

    /// The request for the two bytes of the status of the device.
    pub fn device_status() -> (r: ControlRequest)
        ensures
            r == (ControlRequest {
                control_type: ControlType::Standard,
                recipient: Recipient::Device,
                request: REQUEST_GET_STATUS,
                value: 0,
                index: 0,
                length: 2,
                claim_interface: false,
            }),
    {
        ControlRequest {
            control_type: ControlType::Standard,
            recipient: Recipient::Device,
            request: REQUEST_GET_STATUS,
            value: 0,
            index: 0,
            length: 2,
            claim_interface: false,
        }
    }

    /// The request for the two bytes of the debug descriptor.
    pub fn debug_descriptor(claim_interface: bool) -> (r: ControlRequest)
        ensures
            r == (ControlRequest {
                claim_interface,
                ..ControlRequest::device_descriptor(DescriptorType::Debug, 2)
            }),
    {
        ControlRequest {
            control_type: ControlType::Standard,
            recipient: Recipient::Device,
            request: REQUEST_GET_DESCRIPTOR,
            value: 0x0a00,
            index: 0,
            length: 2,
            claim_interface,
        }
    }

    /// The request for `length` bytes of the binary object store descriptor.
    pub fn bos_descriptor(length: usize) -> (r: ControlRequest)
        ensures
            r == ControlRequest::device_descriptor(DescriptorType::Bos, length),
    {
        ControlRequest {
            control_type: ControlType::Standard,
            recipient: Recipient::Device,
            request: REQUEST_GET_DESCRIPTOR,
            value: 0x0f00,
            index: 0,
            length,
            claim_interface: false,
        }
    }

    /// The request for the ten bytes of the device qualifier descriptor.
    pub fn device_qualifier() -> (r: ControlRequest)
        ensures
            r == ControlRequest::device_descriptor(DescriptorType::DeviceQualifier, 10),
    {
        ControlRequest {
            control_type: ControlType::Standard,
            recipient: Recipient::Device,
            request: REQUEST_GET_DESCRIPTOR,
            value: 0x0600,
            index: 0,
            length: 10,
            claim_interface: false,
        }
    }

    /// The request for the header of the WebUSB URL descriptor of the index
    /// `index`, made with the vendor request `vendor_request`.
    pub fn webusb_url(vendor_request: u8, index: u8) -> (r: ControlRequest)
        ensures
            r == (ControlRequest {
                control_type: ControlType::Vendor,
                recipient: Recipient::Device,
                request: vendor_request,
                value: index as u16,
                index: 0x0200,
                length: 3,
                claim_interface: false,
            }),
    {
        ControlRequest {
            control_type: ControlType::Vendor,
            recipient: Recipient::Device,
            request: vendor_request,
            value: index as u16,
            index: 0x0200,
            length: 3,
            claim_interface: false,
        }
    }
}

impl ControlRequest {
    /// The request for the HID report descriptor of `length` bytes of the
    /// interface `index`.
    pub open spec fn report_request(index: u16, length: u16, claim_interface: bool) -> ControlRequest {
        ControlRequest {
            control_type: ControlType::Standard,
            recipient: Recipient::Interface,
            request: REQUEST_GET_DESCRIPTOR,
            value: 0x2200,
            index,
            length: length as usize,
            claim_interface,
        }
    }

    /// The request for `length` bytes of the hub descriptor of a hub of the
    /// USB version `bcd`: from USB 3.0 on the descriptor of a SuperSpeed hub.
    pub open spec fn hub_request(bcd: u16, length: usize) -> ControlRequest {
        ControlRequest {
            control_type: ControlType::Class,
            recipient: Recipient::Device,
            request: REQUEST_GET_DESCRIPTOR,
            value: if bcd >= 0x0300 {
                0x2a00u16
            } else {
                0x2900u16
            },
            index: 0,
            length,
            claim_interface: false,
        }
    }

    /// Whether a hub answers with the extended port status: a hub of protocol
    /// 3 from USB 3.1 on that has a SuperSpeedPlus capability.
    pub open spec fn ext_status(protocol: u8, bcd: u16, has_ssp: bool) -> bool {
        protocol == 3 && bcd >= 0x0310 && has_ssp
    }

    /// The request for the status of the port `port` of a hub, counted from
    /// 0: eight bytes of extended status, or four of plain status.
    pub open spec fn port_status_request(port: u8, ext_status: bool) -> ControlRequest {
        ControlRequest {
            control_type: ControlType::Class,
            recipient: Recipient::Other,
            request: REQUEST_GET_STATUS,
            value: if ext_status {
                2u16
            } else {
                0u16
            },
            index: (port + 1) as u16,
            length: if ext_status {
                8usize
            } else {
                4usize
            },
            claim_interface: false,
        }
    }

    /// The request for the two bytes of the status of the device.
    pub open spec fn status_request() -> ControlRequest {
        ControlRequest {
            control_type: ControlType::Standard,
            recipient: Recipient::Device,
            request: REQUEST_GET_STATUS,
            value: 0,
            index: 0,
            length: 2,
            claim_interface: false,
        }
    }

    /// The request for the two bytes of the debug descriptor.
    pub open spec fn debug_request(claim_interface: bool) -> ControlRequest {
        ControlRequest { claim_interface, ..Self::device_descriptor(DescriptorType::Debug, 2) }
    }

    /// The request for the header of the WebUSB URL descriptor of the index
    /// `index`, made with the vendor request `vendor_request`.
    pub open spec fn webusb_request(vendor_request: u8, index: u8) -> ControlRequest {
        ControlRequest {
            control_type: ControlType::Vendor,
            recipient: Recipient::Device,
            request: vendor_request,
            value: index as u16,
            index: 0x0200,
            length: 3,
            claim_interface: false,
        }
    }
}

/// The status that the bytes `data` hold: a 16-bit integer, low byte first.
pub open spec fn device_status_of(data: Seq<u8>) -> Result<u16, Error> {
    if data.len() >= 2 {
        Ok(u16_le(data, 0))
    } else {
        Err(
            Error::DescriptorTooShort {
                descriptor_name: "DeviceStatus",
                expected: 2,
                actual: data.len() as usize,
            },
        )
    }
}

/// The total length that the first bytes `data` of a binary object store
/// descriptor give: the 16-bit integer in the third and fourth byte.
pub open spec fn bos_length_of(data: Seq<u8>) -> Result<u16, Error> {
    if data.len() >= 4 {
        Ok(u16_le(data, 2))
    } else {
        Err(
            Error::DescriptorTooShort {
                descriptor_name: "BinaryObjectStore",
                expected: 4,
                actual: data.len() as usize,
            },
        )
    }
}

/// The number of ports that the hub descriptor `data` gives, in its third
/// byte. A hub descriptor has nine bytes at least.
pub open spec fn hub_ports_of(data: Seq<u8>) -> Result<u8, Error> {
    if data.len() >= 9 {
        Ok(data[2])
    } else {
        Err(
            Error::DescriptorTooShort {
                descriptor_name: "HubDescriptor",
                expected: 9,
                actual: data.len() as usize,
            },
        )
    }
}

/// The status that the bytes `data` hold: a 16-bit integer, low byte first.
pub fn device_status_from(data: &[u8]) -> (r: Result<u16, Error>)
    ensures
        r == if data@.len() >= 2 {
            Ok::<u16, Error>(u16_le(data@, 0))
        } else {
            Err::<u16, Error>(
                Error::DescriptorTooShort {
                    descriptor_name: "DeviceStatus",
                    expected: 2,
                    actual: data@.len() as usize,
                },
            )
        },
{
    if data.len() < 2 {
        return Err(Error::new_descriptor_len("DeviceStatus", 2, data.len()));
    }
    Ok(read_u16(data, 0))
}

/// The total length that the first bytes `data` of a binary object store
/// descriptor give: the 16-bit integer in the third and fourth byte.
pub fn bos_total_length(data: &[u8]) -> (r: Result<u16, Error>)
    ensures
        r == if data@.len() >= 4 {
            Ok::<u16, Error>(u16_le(data@, 2))
        } else {
            Err::<u16, Error>(
                Error::DescriptorTooShort {
                    descriptor_name: "BinaryObjectStore",
                    expected: 4,
                    actual: data@.len() as usize,
                },
            )
        },
{
    if data.len() < 4 {
        return Err(Error::new_descriptor_len("BinaryObjectStore", 4, data.len()));
    }
    Ok(read_u16(data, 2))
}

/// The eight bytes of a port status: `data`, cut or filled with zeros to eight bytes.
pub open spec fn padded_status(data: Seq<u8>) -> Seq<u8> {
    Seq::new(
        8,
        |i: int|
            if i < data.len() {
                data[i]
            } else {
                0u8
            },
    )
}

/// Fills the answer to a port status request with zeros to eight bytes.
pub fn pad_port_status(data: &[u8]) -> (status: [u8; 8])
    ensures
        status@ == padded_status(data@),
{
    let mut status: [u8; 8] = [0, 0, 0, 0, 0, 0, 0, 0];
    let mut i: usize = 0;
    while i < 8 && i < data.len()
        invariant
            i <= 8,
            i <= data@.len(),
            forall|k: int| 0 <= k < i ==> status@[k] == data@[k],
            forall|k: int| i <= k < 8 ==> status@[k] == 0,
        decreases 8 - i,
    {
        status[i] = data[i];
        i = i + 1;
    }
    assert(status@ =~= padded_status(data@));
    status
}

/// `status` is an answer that the hub may give for its port `port`, filled to
/// eight bytes.
pub open spec fn status_read<T: UsbOperations>(
    device: &T,
    port: u8,
    ext_status: bool,
    status: [u8; 8],
) -> bool {
    exists|data: Vec<u8>| #[trigger]
        device.answers(
            ControlRequest::port_status_request(port, ext_status),
            Ok::<Vec<u8>, Error>(data),
        ) && status@ == padded_status(data@)
}

/// The hub may fail to answer for its port `port`.
pub open spec fn status_refused<T: UsbOperations>(device: &T, port: u8, ext_status: bool) -> bool {
    exists|e: Error| #[trigger]
        device.answers(
            ControlRequest::port_status_request(port, ext_status),
            Err::<Vec<u8>, Error>(e),
        )
}

/// What reading the status of each of the `num_ports` ports of a hub may
/// return: an answer of the hub for each port in turn, filled to eight bytes,
/// or nothing where the hub failed to answer for a port that was reached.
pub open spec fn port_statuses_read<T: UsbOperations>(
    device: &T,
    num_ports: u8,
    ext_status: bool,
    statuses: Option<Vec<[u8; 8]>>,
) -> bool {
    match statuses {
        Some(s) => s@.len() == num_ports && forall|i: int|
            0 <= i < num_ports ==> status_read(device, i as u8, ext_status, #[trigger] s@[i]),
        None => exists|port: u8|
            port < num_ports && #[trigger] status_refused(device, port, ext_status),
    }
}

/// Reads the status of each of the `num_ports` ports of a hub, each filled to
/// eight bytes. There are none where the hub fails to answer for a port.
pub fn get_port_statuses<T: UsbOperations>(device: &T, num_ports: u8, ext_status: bool) -> (statuses:
    Option<Vec<[u8; 8]>>)
    ensures
        port_statuses_read(device, num_ports, ext_status, statuses),
{
    let mut statuses: Vec<[u8; 8]> = Vec::new();
    let mut port: u8 = 0;
    while port < num_ports
        invariant
            port <= num_ports,
            statuses@.len() == port,
            forall|i: int|
                0 <= i < port ==> status_read(device, i as u8, ext_status, #[trigger] statuses@[i]),
        decreases num_ports - port,
    {
        match device.get_control_msg(ControlRequest::port_status(port, ext_status)) {
            Ok(data) => {
                let status = pad_port_status(data.as_slice());
                assert(status_read(device, port, ext_status, status));
                statuses.push(status);
            },
            Err(e) => {
                assert(status_refused(device, port, ext_status));
                return None;
            },
        }
        port = port + 1;
    }
    Some(statuses)
}

/// The number of ports that the hub descriptor `data` gives, in its third
/// byte. A hub descriptor has nine bytes at least: seven and one bit mask of
/// each of two kinds.
pub fn hub_port_count(data: &[u8]) -> (r: Result<u8, Error>)
    ensures
        r == if data@.len() >= 9 {
            Ok::<u8, Error>(data@[2])
        } else {
            Err::<u8, Error>(
                Error::DescriptorTooShort {
                    descriptor_name: "HubDescriptor",
                    expected: 9,
                    actual: data@.len() as usize,
                },
            )
        },
{
    if data.len() < 9 {
        return Err(Error::new_descriptor_len("HubDescriptor", 9, data.len()));
    }
    Ok(data[2])
}

/// `r` is what the hub descriptor `data` and the answers of the hub for its
/// ports come to: the descriptor as it is with the status of each of the
/// ports that it counts, or the error of a descriptor that is too short.
pub open spec fn hub_from<T: UsbOperations>(
    device: &T,
    ext_status: bool,
    data: Vec<u8>,
    r: Result<(Vec<u8>, Option<Vec<[u8; 8]>>), Error>,
) -> bool {
    match hub_ports_of(data@) {
        Ok(num_ports) => r matches Ok((descriptor, statuses)) && descriptor == data
            && port_statuses_read(device, num_ports, ext_status, statuses),
        Err(e) => r == Err::<(Vec<u8>, Option<Vec<[u8; 8]>>), Error>(e),
    }
}

/// `r` is what asking the hub for nine bytes of its descriptor, and then for
/// the status of its ports, may come to.
pub open spec fn hub_asked_again<T: UsbOperations>(
    device: &T,
    bcd: u16,
    ext_status: bool,
    r: Result<(Vec<u8>, Option<Vec<[u8; 8]>>), Error>,
) -> bool {
    exists|second: Result<Vec<u8>, Error>| #[trigger]
        device.answers(ControlRequest::hub_request(bcd, 9), second) && match second {
            Ok(data) => hub_from(device, ext_status, data, r),
            Err(e) => r == Err::<(Vec<u8>, Option<Vec<[u8; 8]>>), Error>(e),
        }
}

/// What reading the hub descriptor of a hub and the status of its ports may
/// return. The hub is asked for twelve bytes of its descriptor and, where it
/// refuses, for nine; where it refuses again, that is the error. The ports
/// are asked for the extended status where the hub has it.
pub open spec fn hub_read<T: UsbOperations>(
    device: &T,
    protocol: u8,
    bcd: u16,
    has_ssp: bool,
    r: Result<(Vec<u8>, Option<Vec<[u8; 8]>>), Error>,
) -> bool {
    let ext_status = ControlRequest::ext_status(protocol, bcd, has_ssp);
    exists|first: Result<Vec<u8>, Error>| #[trigger]
        device.answers(ControlRequest::hub_request(bcd, 12), first) && match first {
            Ok(data) => hub_from(device, ext_status, data, r),
            Err(_) => hub_asked_again(device, bcd, ext_status, r),
        }
}

/// Reads the hub descriptor of a hub of the USB version `bcd`, and the status
/// of each of its ports. Asks for twelve bytes of the descriptor and, where
/// the hub refuses, for nine. Hands back the bytes of the descriptor as the
/// hub gave them; the statuses are missing where a port gave none.
pub fn get_hub_descriptor<T: UsbOperations>(device: &T, protocol: u8, bcd: u16, has_ssp: bool) -> (r:
    Result<(Vec<u8>, Option<Vec<[u8; 8]>>), Error>)
    ensures
        hub_read(device, protocol, bcd, has_ssp, r),
        r matches Ok((data, statuses)) ==> data@.len() >= 9 && (statuses matches Some(s)
            ==> s@.len() == data@[2]),
{
    let ext_status = ControlRequest::is_ext_status(protocol, bcd, has_ssp);
    let first = device.get_control_msg(ControlRequest::hub_descriptor(bcd, 12));
    let ghost asked_again = first is Err;
    let data = match first {
        Ok(data) => data,
        Err(_) => {
            let second = device.get_control_msg(ControlRequest::hub_descriptor(bcd, 9));
            match second {
                Ok(data) => data,
                Err(e) => {
                    let r = Err(e);
                    assert(hub_asked_again(device, bcd, ext_status, r));
                    return r;
                },
            }
        },
    };
    let r = match hub_port_count(data.as_slice()) {
        Ok(num_ports) => {
            let statuses = get_port_statuses(device, num_ports, ext_status);
            Ok((data, statuses))
        },
        Err(e) => Err(e),
    };
    assert(hub_from(device, ext_status, data, r));
    assert(asked_again ==> hub_asked_again(device, bcd, ext_status, r));
    r
}

/// Reads the HID report descriptor of `length` bytes of the interface
/// `index`: the bytes as the device gave them.
pub fn get_report_descriptor<T: UsbOperations>(
    device: &T,
    index: u16,
    length: u16,
    claim_interface: bool,
) -> (r: Result<Vec<u8>, Error>)
    ensures
        device.answers(ControlRequest::report_request(index, length, claim_interface), r),
{
    device.get_control_msg(ControlRequest::report_descriptor(index, length, claim_interface))
}

/// Reads the debug descriptor: the bytes as the device gave them.
pub fn get_debug_descriptor<T: UsbOperations>(device: &T, claim_interface: bool) -> (r: Result<
    Vec<u8>,
    Error,
>)
    ensures
        device.answers(ControlRequest::debug_request(claim_interface), r),
{
    device.get_control_msg(ControlRequest::debug_descriptor(claim_interface))
}

/// What reading the binary object store descriptor may return: the answer
/// of the device where it is asked for as many bytes of the descriptor as the
/// five leading bytes, which it is asked for first, give for its total
/// length; or the error with which it refused these, or that of leading
/// bytes that are too few.
pub open spec fn bos_read<T: UsbOperations>(device: &T, r: Result<Vec<u8>, Error>) -> bool {
    exists|head: Result<Vec<u8>, Error>| #[trigger]
        device.answers(ControlRequest::device_descriptor(DescriptorType::Bos, 5), head)
            && match head {
            Ok(leading) => match bos_length_of(leading@) {
                Ok(total_length) => device.answers(
                    ControlRequest::device_descriptor(DescriptorType::Bos, total_length as usize),
                    r,
                ),
                Err(e) => r == Err::<Vec<u8>, Error>(e),
            },
            Err(e) => r == Err::<Vec<u8>, Error>(e),
        }
}

/// Reads the binary object store descriptor: first its five leading bytes,
/// then as many bytes as those give for its total length. Hands back the
/// bytes of the second answer as the device gave them.
pub fn get_bos_descriptor<T: UsbOperations>(device: &T) -> (r: Result<Vec<u8>, Error>)
    ensures
        bos_read(device, r),
{
    let head = device.get_control_msg(ControlRequest::bos_descriptor(5));
    assert(device.answers(ControlRequest::device_descriptor(DescriptorType::Bos, 5), head));
    match head {
        Ok(leading) => match bos_total_length(leading.as_slice()) {
            Ok(total_length) => device.get_control_msg(
                ControlRequest::bos_descriptor(total_length as usize),
            ),
            Err(e) => Err(e),
        },
        Err(e) => Err(e),
    }
}

/// Reads the device qualifier descriptor: the bytes as the device gave them.
pub fn get_device_qualifier<T: UsbOperations>(device: &T) -> (r: Result<Vec<u8>, Error>)
    ensures
        device.answers(ControlRequest::device_descriptor(DescriptorType::DeviceQualifier, 10), r),
{
    device.get_control_msg(ControlRequest::device_qualifier())
}

/// What reading the status of the device may return: the status in an
/// answer of the device to the request for it, or the error with which the
/// device refused.
pub open spec fn device_status_read<T: UsbOperations>(device: &T, r: Result<u16, Error>) -> bool {
    exists|answer: Result<Vec<u8>, Error>| #[trigger]
        device.answers(ControlRequest::status_request(), answer) && r == match answer {
            Ok(data) => device_status_of(data@),
            Err(e) => Err(e),
        }
}

/// Reads the status of the device.
pub fn get_device_status<T: UsbOperations>(device: &T) -> (r: Result<u16, Error>)
    ensures
        device_status_read(device, r),
{
    let answer = device.get_control_msg(ControlRequest::device_status());
    assert(device.answers(ControlRequest::status_request(), answer));
    match answer {
        Ok(data) => device_status_from(data.as_slice()),
        Err(e) => Err(e),
    }
}

/// The scheme that the byte `scheme` of a URL descriptor stands for, if it
/// stands for one: `http://`, `https://`, or none where the URL holds its own.
pub open spec fn url_prefix(scheme: u8) -> Option<Seq<char>> {
    if scheme == 0x00 {
        Some("http://"@)
    } else if scheme == 0x01 {
        Some("https://"@)
    } else if scheme == 0xff {
        Some(Seq::empty())
    } else {
        None
    }
}

/// What parsing the WebUSB URL descriptor `data` may return. The first byte
/// is the length of the descriptor, the second its type, which has to be
/// that of a string, the third the scheme, and the rest the URL in UTF-8.
pub open spec fn webusb_url_parsing(data: Seq<u8>, r: Result<String, Error>) -> bool {
    if data.len() < 3 {
        r == Err::<String, Error>(
            Error::DescriptorTooShort {
                descriptor_name: "WebUsbUrl",
                expected: 3,
                actual: data.len() as usize,
            },
        )
    } else if data[1] != 0x03 {
        r == Err::<String, Error>(Error::Parsing("Failed to parse WebUSB URL: Bad URL descriptor type"))
    } else if data[0] < 3 || data.len() < data[0] {
        r == Err::<String, Error>(Error::Parsing("Failed to parse WebUSB URL: Data length mismatch"))
    } else if !valid_utf8(data.subrange(3, data[0] as int)) {
        r == Err::<String, Error>(Error::Parsing("Failed to parse WebUSB URL: Invalid UTF-8"))
    } else {
        match url_prefix(data[2]) {
            Some(prefix) => r matches Ok(url) && url@ == prefix + decode_utf8(
                data.subrange(3, data[0] as int),
            ),
            None => r == Err::<String, Error>(
                Error::Parsing("Failed to parse WebUSB URL: Bad URL scheme"),
            ),
        }
    }
}

/// Parses a WebUSB URL descriptor into the URL with its scheme.
pub fn parse_webusb_url(data: &[u8]) -> (r: Result<String, Error>)
    ensures
        webusb_url_parsing(data@, r),
{
    if data.len() < 3 {
        return Err(Error::new_descriptor_len("WebUsbUrl", 3, data.len()));
    }
    let len: usize = data[0] as usize;
    if data[1] != 0x03 {
        return Err(Error::Parsing("Failed to parse WebUSB URL: Bad URL descriptor type"));
    }
    if len < 3 || data.len() < len {
        return Err(Error::Parsing("Failed to parse WebUSB URL: Data length mismatch"));
    }
    let url = match text_of(copy_range(data, 3, len)) {
        Some(url) => url,
        None => {
            return Err(Error::Parsing("Failed to parse WebUSB URL: Invalid UTF-8"));
        },
    };
    match data[2] {
        0x00 => Ok(String::from_str("http://").concat(url.as_str())),
        0x01 => Ok(String::from_str("https://").concat(url.as_str())),
        0xff => {
            assert(Seq::<char>::empty() + url@ =~= url@);
            Ok(url)
        },
        _ => Err(Error::Parsing("Failed to parse WebUSB URL: Bad URL scheme")),
    }
}

/// What reading the WebUSB URL of the index `index` with the vendor request
/// `vendor_request` may return: what an answer of the device to the request
/// for it parses to, or the error with which the device refused.
pub open spec fn webusb_url_read<T: UsbOperations>(
    device: &T,
    vendor_request: u8,
    index: u8,
    r: Result<String, Error>,
) -> bool {
    exists|answer: Result<Vec<u8>, Error>| #[trigger]
        device.answers(ControlRequest::webusb_request(vendor_request, index), answer)
            && match answer {
            Ok(data) => webusb_url_parsing(data@, r),
            Err(e) => r == Err::<String, Error>(e),
        }
}

/// Reads the WebUSB URL of the index `index` with the vendor request
/// `vendor_request`, and parses it.
pub fn get_webusb_url<T: UsbOperations>(device: &T, vendor_request: u8, index: u8) -> (r: Result<
    String,
    Error,
>)
    ensures
        webusb_url_read(device, vendor_request, index, r),
{
    let answer = device.get_control_msg(ControlRequest::webusb_url(vendor_request, index));
    assert(device.answers(ControlRequest::webusb_request(vendor_request, index), answer));
    match answer {
        Ok(data) => parse_webusb_url(data.as_slice()),
        Err(e) => Err(e),
    }
}

impl UacInterfaceDescriptor {
    /// `after` is `self` with each string that it names by index as the
    /// device `device` may give it for that index. Nothing else differs, and
    /// what names no string is as it was.
    pub open spec fn filled<T: UsbOperations>(
        self,
        device: &T,
        after: UacInterfaceDescriptor,
    ) -> bool {
        match self {
            UacInterfaceDescriptor::InputTerminal1(a) => {
                &&& after matches UacInterfaceDescriptor::InputTerminal1(b)
                &&& device.names(a.channel_names_index, b.channel_names)
                &&& device.names(a.terminal_index, b.terminal)
                &&& b == (InputTerminal1 {
                    channel_names: b.channel_names,
                    terminal: b.terminal,
                    ..a
                })
            },
            UacInterfaceDescriptor::InputTerminal2(a) => {
                &&& after matches UacInterfaceDescriptor::InputTerminal2(b)
                &&& device.names(a.channel_names_index, b.channel_names)
                &&& device.names(a.terminal_index, b.terminal)
                &&& b == (InputTerminal2 {
                    channel_names: b.channel_names,
                    terminal: b.terminal,
                    ..a
                })
            },
            UacInterfaceDescriptor::OutputTerminal1(a) => {
                &&& after matches UacInterfaceDescriptor::OutputTerminal1(b)
                &&& device.names(a.terminal_index, b.terminal)
                &&& b == (OutputTerminal1 { terminal: b.terminal, ..a })
            },
            UacInterfaceDescriptor::OutputTerminal2(a) => {
                &&& after matches UacInterfaceDescriptor::OutputTerminal2(b)
                &&& device.names(a.terminal_index, b.terminal)
                &&& b == (OutputTerminal2 { terminal: b.terminal, ..a })
            },
            UacInterfaceDescriptor::StreamingInterface2(a) => {
                &&& after matches UacInterfaceDescriptor::StreamingInterface2(b)
                &&& device.names(a.channel_names_index, b.channel_names)
                &&& b == (StreamingInterface2 { channel_names: b.channel_names, ..a })
            },
            UacInterfaceDescriptor::SelectorUnit1(a) => {
                &&& after matches UacInterfaceDescriptor::SelectorUnit1(b)
                &&& device.names(a.selector_index, b.selector)
                &&& b == (SelectorUnit1 { selector: b.selector, ..a })
            },
            UacInterfaceDescriptor::SelectorUnit2(a) => {
                &&& after matches UacInterfaceDescriptor::SelectorUnit2(b)
                &&& device.names(a.selector_index, b.selector)
                &&& b == (SelectorUnit2 { selector: b.selector, ..a })
            },
            UacInterfaceDescriptor::ProcessingUnit1(a) => {
                &&& after matches UacInterfaceDescriptor::ProcessingUnit1(b)
                &&& device.names(a.channel_names_index, b.channel_names)
                &&& device.names(a.processing_index, b.processing)
                &&& b == (ProcessingUnit1 {
                    channel_names: b.channel_names,
                    processing: b.processing,
                    ..a
                })
            },
            UacInterfaceDescriptor::ProcessingUnit2(a) => {
                &&& after matches UacInterfaceDescriptor::ProcessingUnit2(b)
                &&& device.names(a.channel_names_index, b.channel_names)
                &&& device.names(a.processing_index, b.processing)
                &&& b == (ProcessingUnit2 {
                    channel_names: b.channel_names,
                    processing: b.processing,
                    ..a
                })
            },
            UacInterfaceDescriptor::EffectUnit2(a) => {
                &&& after matches UacInterfaceDescriptor::EffectUnit2(b)
                &&& device.names(a.effect_index, b.effect)
                &&& b == (EffectUnit2 { effect: b.effect, ..a })
            },
            UacInterfaceDescriptor::FeatureUnit1(a) => {
                &&& after matches UacInterfaceDescriptor::FeatureUnit1(b)
                &&& device.names(a.feature_index, b.feature)
                &&& b == (FeatureUnit1 { feature: b.feature, ..a })
            },
            UacInterfaceDescriptor::FeatureUnit2(a) => {
                &&& after matches UacInterfaceDescriptor::FeatureUnit2(b)
                &&& device.names(a.feature_index, b.feature)
                &&& b == (FeatureUnit2 { feature: b.feature, ..a })
            },
            UacInterfaceDescriptor::ExtensionUnit1(a) => {
                &&& after matches UacInterfaceDescriptor::ExtensionUnit1(b)
                &&& device.names(a.channel_names_index, b.channel_names)
                &&& device.names(a.extension_index, b.extension)
                &&& b == (ExtensionUnit1 {
                    channel_names: b.channel_names,
                    extension: b.extension,
                    ..a
                })
            },
            UacInterfaceDescriptor::ExtensionUnit2(a) => {
                &&& after matches UacInterfaceDescriptor::ExtensionUnit2(b)
                &&& device.names(a.channel_names_index, b.channel_names)
                &&& device.names(a.extension_index, b.extension)
                &&& b == (ExtensionUnit2 {
                    channel_names: b.channel_names,
                    extension: b.extension,
                    ..a
                })
            },
            UacInterfaceDescriptor::ClockSource2(a) => {
                &&& after matches UacInterfaceDescriptor::ClockSource2(b)
                &&& device.names(a.clock_source_index, b.clock_source)
                &&& b == (ClockSource2 { clock_source: b.clock_source, ..a })
            },
            UacInterfaceDescriptor::ClockSelector2(a) => {
                &&& after matches UacInterfaceDescriptor::ClockSelector2(b)
                &&& device.names(a.clock_selector_index, b.clock_selector)
                &&& b == (ClockSelector2 { clock_selector: b.clock_selector, ..a })
            },
            UacInterfaceDescriptor::ClockMultiplier2(a) => {
                &&& after matches UacInterfaceDescriptor::ClockMultiplier2(b)
                &&& device.names(a.clock_multiplier_index, b.clock_multiplier)
                &&& b == (ClockMultiplier2 { clock_multiplier: b.clock_multiplier, ..a })
            },
            UacInterfaceDescriptor::SampleRateConverter2(a) => {
                &&& after matches UacInterfaceDescriptor::SampleRateConverter2(b)
                &&& device.names(a.src_index, b.src)
                &&& b == (SampleRateConverter2 { src: b.src, ..a })
            },
            _ => after == self,
        }
    }

    /// Asks the device for the strings that the descriptor names by index.
    /// Nothing of what the descriptor holds on the wire changes.
    pub fn fill_strings<T: UsbOperations>(&mut self, device: &T)
        ensures
            old(self).filled(device, *final(self)),
            final(self).encoding() == old(self).encoding(),
            final(self).protocol() == old(self).protocol(),
    {
        match self {
            UacInterfaceDescriptor::InputTerminal1(ah) => {
                ah.channel_names = device.get_descriptor_string(ah.channel_names_index);
                ah.terminal = device.get_descriptor_string(ah.terminal_index);
            },
            UacInterfaceDescriptor::InputTerminal2(ah) => {
                ah.channel_names = device.get_descriptor_string(ah.channel_names_index);
                ah.terminal = device.get_descriptor_string(ah.terminal_index);
            },
            UacInterfaceDescriptor::OutputTerminal1(ah) => {
                ah.terminal = device.get_descriptor_string(ah.terminal_index);
            },
            UacInterfaceDescriptor::OutputTerminal2(ah) => {
                ah.terminal = device.get_descriptor_string(ah.terminal_index);
            },
            UacInterfaceDescriptor::StreamingInterface2(ah) => {
                ah.channel_names = device.get_descriptor_string(ah.channel_names_index);
            },
            UacInterfaceDescriptor::SelectorUnit1(ah) => {
                ah.selector = device.get_descriptor_string(ah.selector_index);
            },
            UacInterfaceDescriptor::SelectorUnit2(ah) => {
                ah.selector = device.get_descriptor_string(ah.selector_index);
            },
            UacInterfaceDescriptor::ProcessingUnit1(ah) => {
                ah.channel_names = device.get_descriptor_string(ah.channel_names_index);
                ah.processing = device.get_descriptor_string(ah.processing_index);
            },
            UacInterfaceDescriptor::ProcessingUnit2(ah) => {
                ah.channel_names = device.get_descriptor_string(ah.channel_names_index);
                ah.processing = device.get_descriptor_string(ah.processing_index);
            },
            UacInterfaceDescriptor::EffectUnit2(ah) => {
                ah.effect = device.get_descriptor_string(ah.effect_index);
            },
            UacInterfaceDescriptor::FeatureUnit1(ah) => {
                ah.feature = device.get_descriptor_string(ah.feature_index);
            },
            UacInterfaceDescriptor::FeatureUnit2(ah) => {
                ah.feature = device.get_descriptor_string(ah.feature_index);
            },
            UacInterfaceDescriptor::ExtensionUnit1(ah) => {
                ah.channel_names = device.get_descriptor_string(ah.channel_names_index);
                ah.extension = device.get_descriptor_string(ah.extension_index);
            },
            UacInterfaceDescriptor::ExtensionUnit2(ah) => {
                ah.channel_names = device.get_descriptor_string(ah.channel_names_index);
                ah.extension = device.get_descriptor_string(ah.extension_index);
            },
            UacInterfaceDescriptor::ClockSource2(ah) => {
                ah.clock_source = device.get_descriptor_string(ah.clock_source_index);
            },
            UacInterfaceDescriptor::ClockSelector2(ah) => {
                ah.clock_selector = device.get_descriptor_string(ah.clock_selector_index);
            },
            UacInterfaceDescriptor::ClockMultiplier2(ah) => {
                ah.clock_multiplier = device.get_descriptor_string(ah.clock_multiplier_index);
            },
            UacInterfaceDescriptor::SampleRateConverter2(ah) => {
                ah.src = device.get_descriptor_string(ah.src_index);
            },
            _ => {},
        }
    }
}

impl MidiInterfaceDescriptor {
    /// `after` is `self` with the string that it names by index as the
    /// device `device` may give it for that index. Nothing else differs, and
    /// what names no string is as it was.
    pub open spec fn filled<T: UsbOperations>(
        self,
        device: &T,
        after: MidiInterfaceDescriptor,
    ) -> bool {
        match self {
            MidiInterfaceDescriptor::InputJack(a) => {
                &&& after matches MidiInterfaceDescriptor::InputJack(b)
                &&& device.names(a.jack_string_index, b.jack_string)
                &&& b == (InputJack { jack_string: b.jack_string, ..a })
            },
            MidiInterfaceDescriptor::OutputJack(a) => {
                &&& after matches MidiInterfaceDescriptor::OutputJack(b)
                &&& device.names(a.jack_string_index, b.jack_string)
                &&& b == (OutputJack { jack_string: b.jack_string, ..a })
            },
            MidiInterfaceDescriptor::Element(a) => {
                &&& after matches MidiInterfaceDescriptor::Element(b)
                &&& device.names(a.element_string_index, b.element_string)
                &&& b == (Element { element_string: b.element_string, ..a })
            },
            _ => after == self,
        }
    }

    /// Asks the device for the strings that the descriptor names by index.
    /// Nothing of what the descriptor holds on the wire changes.
    pub fn fill_strings<T: UsbOperations>(&mut self, device: &T)
        ensures
            old(self).filled(device, *final(self)),
            final(self).encoding() == old(self).encoding(),
    {
        match self {
            MidiInterfaceDescriptor::InputJack(mh) => {
                mh.jack_string = device.get_descriptor_string(mh.jack_string_index);
            },
            MidiInterfaceDescriptor::OutputJack(mh) => {
                mh.jack_string = device.get_descriptor_string(mh.jack_string_index);
            },
            MidiInterfaceDescriptor::Element(mh) => {
                mh.element_string = device.get_descriptor_string(mh.element_string_index);
            },
            _ => {},
        }
    }
}

impl ClassDescriptor {
    /// `after` is `self` with each string that its payload names by index as
    /// the device `device` may give it for that index. Nothing else differs,
    /// and a descriptor that stayed generic is as it was.
    pub open spec fn filled<T: UsbOperations>(self, device: &T, after: ClassDescriptor) -> bool {
        match self {
            ClassDescriptor::Audio(ad, protocol) => {
                &&& after matches ClassDescriptor::Audio(bd, p)
                &&& p == protocol
                &&& ad.interface.filled(device, bd.interface)
                &&& bd == (UacDescriptor { interface: bd.interface, ..ad })
            },
            ClassDescriptor::Midi(md, protocol) => {
                &&& after matches ClassDescriptor::Midi(bd, p)
                &&& p == protocol
                &&& md.interface.filled(device, bd.interface)
                &&& bd == (MidiDescriptor { interface: bd.interface, ..md })
            },
            ClassDescriptor::Generic(_, _) => after == self,
        }
    }

    /// Asks the device for the strings that the descriptor names by index.
    /// Nothing of what the descriptor holds on the wire changes.
    pub fn fill_strings<T: UsbOperations>(&mut self, device: &T)
        ensures
            old(self).filled(device, *final(self)),
            final(self).encoding() == old(self).encoding(),
    {
        match self {
            ClassDescriptor::Audio(ad, _) => {
                ad.interface.fill_strings(device);
            },
            ClassDescriptor::Midi(md, _) => {
                md.interface.fill_strings(device);
            },
            ClassDescriptor::Generic(_, _) => {},
        }
    }
}

impl Descriptor {
    /// `after` is `self` with each string that its payload names by index as
    /// the device `device` may give it for that index. Nothing else differs,
    /// and a descriptor of no class is as it was.
    pub open spec fn filled<T: UsbOperations>(self, device: &T, after: Descriptor) -> bool {
        match self {
            Descriptor::Device(cd) => after matches Descriptor::Device(filled) && cd.filled(
                device,
                filled,
            ),
            Descriptor::Interface(cd) => after matches Descriptor::Interface(filled) && cd.filled(
                device,
                filled,
            ),
            Descriptor::Endpoint(cd) => after matches Descriptor::Endpoint(filled) && cd.filled(
                device,
                filled,
            ),
            Descriptor::Unknown(_) => after == self,
        }
    }

    /// Asks the device for the strings that the descriptor names by index.
    /// Nothing of what the descriptor holds on the wire changes.
    pub fn fill_strings<T: UsbOperations>(&mut self, device: &T)
        ensures
            old(self).filled(device, *final(self)),
            final(self).encoding() == old(self).encoding(),
            final(self).owner() == old(self).owner(),
    {
        match self {
            Descriptor::Device(cd) => {
                cd.fill_strings(device);
            },
            Descriptor::Interface(cd) => {
                cd.fill_strings(device);
            },
            Descriptor::Endpoint(cd) => {
                cd.fill_strings(device);
            },
            Descriptor::Unknown(_) => {},
        }
    }
}

/// `d` is what the descriptor bytes `chunk` come to in the context `class`,
/// with each string that it names by index as the device `device` may give
/// it for that index. On the wire it is what was read.
pub open spec fn filled_from<T: UsbOperations>(
    device: &T,
    d: Descriptor,
    class: Option<ClassCodeTriplet>,
    chunk: Seq<u8>,
) -> bool {
    exists|read: Descriptor| #[trigger]
        read.read_from(class, chunk) && read.filled(device, d) && read.encoding() == d.encoding()
            && read.owner() == d.owner()
}

/// Reads the one descriptor at the start of `extra_bytes` in the context
/// `class_code`, and asks the device for the strings that it names by index.
/// Bytes that start no descriptor give the error of the generic reader.
pub fn build_descriptor_extra<T: UsbOperations>(
    device: &T,
    class_code: Option<ClassCodeTriplet>,
    extra_bytes: &[u8],
) -> (r: Result<Descriptor, Error>)
    ensures
        r is Ok <==> extra_bytes@.len() >= 2 && 2 <= extra_bytes@[0] <= extra_bytes@.len(),
        r matches Ok(d) ==> filled_from(device, d, class_code, extra_bytes@),
        r matches Err(e) ==> GenericDescriptor::decoding(extra_bytes@, Err(e)),
{
    match GenericDescriptor::decode(extra_bytes) {
        Ok(gd) => {
            let mut descriptor = Descriptor::resolve(class_code, gd);
            let ghost read = descriptor;
            descriptor.fill_strings(device);
            assert(read.read_from(class_code, extra_bytes@));
            Ok(descriptor)
        },
        Err(e) => Err(e),
    }
}

/// Reads the descriptors among the extra bytes `extra` in the context
/// `class`, and asks the device for the strings that they name by index.
/// Hands back the descriptors and the number of bytes at the end of
/// `extra` that belong to none.
pub fn build_descriptors_extra<T: UsbOperations>(
    device: &T,
    class: Option<ClassCodeTriplet>,
    extra: &[u8],
) -> (r: (Vec<Descriptor>, usize))
    ensures
        r.0@.len() == chunks(extra@).len(),
        r.1 == extra@.len() - consumed(extra@),
        forall|i: int|
            0 <= i < r.0@.len() ==> filled_from(
                device,
                #[trigger] r.0@[i],
                class,
                chunks(extra@)[i],
            ),
{
    let (mut descriptors, left) = read_descriptors(class, extra);
    let mut i: usize = 0;
    while i < descriptors.len()
        invariant
            i <= descriptors.len(),
            descriptors@.len() == chunks(extra@).len(),
            forall|j: int|
                i <= j < descriptors@.len() ==> (#[trigger] descriptors@[j]).read_from(
                    class,
                    chunks(extra@)[j],
                ),
            forall|j: int|
                0 <= j < i ==> filled_from(
                    device,
                    #[trigger] descriptors@[j],
                    class,
                    chunks(extra@)[j],
                ),
        decreases descriptors.len() - i,
    {
        let ghost read = descriptors@[i as int];
        let descriptor = &mut descriptors[i];
        descriptor.fill_strings(device);
        assert(read.read_from(class, chunks(extra@)[i as int]));
        i = i + 1;
    }
    (descriptors, left)
}

/// Build [`Descriptor`]s from extra bytes of a Configuration Descriptor: a
/// configuration has no class to read them in.
pub fn build_config_descriptor_extra<T: UsbOperations>(device: &T, raw: &[u8]) -> (r: (
    Vec<Descriptor>,
    usize,
))
    ensures
        r.0@.len() == chunks(raw@).len(),
        r.1 == raw@.len() - consumed(raw@),
        forall|i: int|
            0 <= i < r.0@.len() ==> filled_from(
                device,
                #[trigger] r.0@[i],
                None,
                chunks(raw@)[i],
            ),
{
    build_descriptors_extra(device, None, raw)
}

/// Build [`Descriptor`]s from extra bytes of an Interface Descriptor, read in
/// the class of the interface.
pub fn build_interface_descriptor_extra<T: UsbOperations>(
    device: &T,
    class_code: ClassCodeTriplet,
    raw: &[u8],
) -> (r: (Vec<Descriptor>, usize))
    ensures
        r.0@.len() == chunks(raw@).len(),
        r.1 == raw@.len() - consumed(raw@),
        forall|i: int|
            0 <= i < r.0@.len() ==> filled_from(
                device,
                #[trigger] r.0@[i],
                Some(class_code),
                chunks(raw@)[i],
            ),
{
    build_descriptors_extra(device, Some(class_code), raw)
}

/// Build [`Descriptor`]s from extra bytes of an Endpoint Descriptor, read in
/// the class of the interface of the endpoint.
pub fn build_endpoint_descriptor_extra<T: UsbOperations>(
    device: &T,
    class_code: ClassCodeTriplet,
    raw: &[u8],
) -> (r: (Option<Vec<Descriptor>>, usize))
    ensures
        r.0 matches Some(descriptors) && descriptors@.len() == chunks(raw@).len()
            && forall|i: int|
            0 <= i < descriptors@.len() ==> filled_from(
                device,
                #[trigger] descriptors@[i],
                Some(class_code),
                chunks(raw@)[i],
            ),
        r.1 == raw@.len() - consumed(raw@),
{
    let (descriptors, left) = build_descriptors_extra(device, Some(class_code), raw);
    (Some(descriptors), left)
}

} // verus!
