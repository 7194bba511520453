//! Values that every USB descriptor shares.
use crate::usb::descriptors::{ClassCodeTriplet, Descriptor};
use vstd::prelude::*;
use vstd::std_specs::convert::FromSpecImpl;

pub mod descriptors;
pub mod path;

verus! {

/// A version number in binary coded decimal: major, minor and sub-minor number.
#[derive(Debug, Clone, Copy, PartialEq, Eq, Hash)]
pub struct Version(pub u8, pub u8, pub u8);

impl Version {
    /// The version that the 16 bits `bcd` hold: two decimal digits of major
    /// number, one digit of minor and one of sub-minor number.
    pub open spec fn decoded(bcd: u16) -> Version {
        Version(
            (bcd / 4096 * 10 + bcd / 256 % 16) as u8,
            (bcd / 16 % 16) as u8,
            (bcd % 16) as u8,
        )
    }

    /// The 16 bits that hold `self`.
    pub open spec fn bcd(self) -> u16 {
        (self.0 / 10 % 16 * 4096 + self.0 % 10 * 256 + self.1 % 16 * 16 + self.2 % 16) as u16
    }

    /// Each number of `self` fits its digits.
    pub open spec fn wf(self) -> bool {
        self.0 < 160 && self.1 < 16 && self.2 < 16
    }

    /// The low digit of the major number of `bcd` is a decimal digit.
    pub open spec fn is_bcd(bcd: u16) -> bool {
        bcd / 256 % 16 < 10
    }

    /// Decodes a version from its 16 bits.
    pub fn from_bcd(bcd: u16) -> (v: Version)
        ensures
            v == Version::decoded(bcd),
    {
        Version(
            (bcd / 4096 * 10 + bcd / 256 % 16) as u8,
            (bcd / 16 % 16) as u8,
            (bcd % 16) as u8,
        )
    }

    /// Encodes a version in 16 bits.
    pub fn to_bcd(&self) -> (bcd: u16)
        ensures
            bcd == self.bcd(),
    {
        let major: u16 = self.0 as u16;
        let minor: u16 = self.1 as u16;
        let sub_minor: u16 = self.2 as u16;
        major / 10 % 16 * 4096 + major % 10 * 256 + minor % 16 * 16 + sub_minor % 16
    }

    /// A well-formed version is decoded from its own 16 bits.
    pub proof fn lemma_decoded_bcd(self)
        requires
            self.wf(),
        ensures
            Version::decoded(self.bcd()) == self,
    {
        let (major, minor, sub_minor) = (self.0, self.1, self.2);
        assert(major < 160 && minor < 16 && sub_minor < 16 ==> {
            let bcd = (major / 10 % 16 * 4096 + major % 10 * 256 + minor % 16 * 16 + sub_minor
                % 16) as u16;
            &&& (bcd / 4096 * 10 + bcd / 256 % 16) as u8 == major
            &&& (bcd / 16 % 16) as u8 == minor
            &&& (bcd % 16) as u8 == sub_minor
        }) by (bit_vector);
    }

    /// Sixteen bits with decimal digits are the bits of the version they hold.
    pub proof fn lemma_bcd_decoded(bcd: u16)
        requires
            Version::is_bcd(bcd),
        ensures
            Version::decoded(bcd).wf(),
            Version::decoded(bcd).bcd() == bcd,
    {
        assert(bcd / 256 % 16 < 10 ==> {
            let major = (bcd / 4096 * 10 + bcd / 256 % 16) as u8;
            let minor = (bcd / 16 % 16) as u8;
            let sub_minor = (bcd % 16) as u8;
            &&& major < 160
            &&& minor < 16
            &&& sub_minor < 16
            &&& (major / 10 % 16 * 4096 + major % 10 * 256 + minor % 16 * 16 + sub_minor % 16) as u16
                == bcd
        }) by (bit_vector);
    }
}

/// The type of a descriptor, as its second byte says.
#[derive(Debug, Clone, Copy, PartialEq, Eq, Hash)]
pub enum DescriptorType {
    Device,
    Config,
    String,
    Interface,
    Endpoint,
    DeviceQualifier,
    OtherSpeed,
    InterfacePower,
    Otg,
    Debug,
    InterfaceAssociation,
    Bos,
    DeviceCapability,
    Hid,
    Report,
    Physical,
    Hub,
    SuperSpeedHub,
    SsEndpointCompanion,
    Unknown(u8),
}

impl DescriptorType {
    /// The type that the byte `b` stands for.
    pub open spec fn of(b: u8) -> DescriptorType {
        if b == 0x01 {
            DescriptorType::Device
        } else if b == 0x02 {
            DescriptorType::Config
        } else if b == 0x03 {
            DescriptorType::String
        } else if b == 0x04 {
            DescriptorType::Interface
        } else if b == 0x05 {
            DescriptorType::Endpoint
        } else if b == 0x06 {
            DescriptorType::DeviceQualifier
        } else if b == 0x07 {
            DescriptorType::OtherSpeed
        } else if b == 0x08 {
            DescriptorType::InterfacePower
        } else if b == 0x09 {
            DescriptorType::Otg
        } else if b == 0x0a {
            DescriptorType::Debug
        } else if b == 0x0b {
            DescriptorType::InterfaceAssociation
        } else if b == 0x0f {
            DescriptorType::Bos
        } else if b == 0x10 {
            DescriptorType::DeviceCapability
        } else if b == 0x21 {
            DescriptorType::Hid
        } else if b == 0x22 {
            DescriptorType::Report
        } else if b == 0x23 {
            DescriptorType::Physical
        } else if b == 0x29 {
            DescriptorType::Hub
        } else if b == 0x2a {
            DescriptorType::SuperSpeedHub
        } else if b == 0x30 {
            DescriptorType::SsEndpointCompanion
        } else {
            DescriptorType::Unknown(b)
        }
    }

    /// The byte that stands for `self`.
    pub open spec fn code(self) -> u8 {
        match self {
            DescriptorType::Device => 0x01,
            DescriptorType::Config => 0x02,
            DescriptorType::String => 0x03,
            DescriptorType::Interface => 0x04,
            DescriptorType::Endpoint => 0x05,
            DescriptorType::DeviceQualifier => 0x06,
            DescriptorType::OtherSpeed => 0x07,
            DescriptorType::InterfacePower => 0x08,
            DescriptorType::Otg => 0x09,
            DescriptorType::Debug => 0x0a,
            DescriptorType::InterfaceAssociation => 0x0b,
            DescriptorType::Bos => 0x0f,
            DescriptorType::DeviceCapability => 0x10,
            DescriptorType::Hid => 0x21,
            DescriptorType::Report => 0x22,
            DescriptorType::Physical => 0x23,
            DescriptorType::Hub => 0x29,
            DescriptorType::SuperSpeedHub => 0x2a,
            DescriptorType::SsEndpointCompanion => 0x30,
            DescriptorType::Unknown(b) => b,
        }
    }
}

impl From<u8> for DescriptorType {
    fn from(b: u8) -> (t: DescriptorType) {
        match b {
            0x01 => DescriptorType::Device,
            0x02 => DescriptorType::Config,
            0x03 => DescriptorType::String,
            0x04 => DescriptorType::Interface,
            0x05 => DescriptorType::Endpoint,
            0x06 => DescriptorType::DeviceQualifier,
            0x07 => DescriptorType::OtherSpeed,
            0x08 => DescriptorType::InterfacePower,
            0x09 => DescriptorType::Otg,
            0x0a => DescriptorType::Debug,
            0x0b => DescriptorType::InterfaceAssociation,
            0x0f => DescriptorType::Bos,
            0x10 => DescriptorType::DeviceCapability,
            0x21 => DescriptorType::Hid,
            0x22 => DescriptorType::Report,
            0x23 => DescriptorType::Physical,
            0x29 => DescriptorType::Hub,
            0x2a => DescriptorType::SuperSpeedHub,
            0x30 => DescriptorType::SsEndpointCompanion,
            b => DescriptorType::Unknown(b),
        }
    }
}

impl FromSpecImpl<u8> for DescriptorType {
    open spec fn obeys_from_spec() -> bool {
        true
    }

    open spec fn from_spec(b: u8) -> DescriptorType {
        DescriptorType::of(b)
    }
}

impl From<DescriptorType> for u8 {
    fn from(t: DescriptorType) -> (b: u8) {
        match t {
            DescriptorType::Device => 0x01,
            DescriptorType::Config => 0x02,
            DescriptorType::String => 0x03,
            DescriptorType::Interface => 0x04,
            DescriptorType::Endpoint => 0x05,
            DescriptorType::DeviceQualifier => 0x06,
            DescriptorType::OtherSpeed => 0x07,
            DescriptorType::InterfacePower => 0x08,
            DescriptorType::Otg => 0x09,
            DescriptorType::Debug => 0x0a,
            DescriptorType::InterfaceAssociation => 0x0b,
            DescriptorType::Bos => 0x0f,
            DescriptorType::DeviceCapability => 0x10,
            DescriptorType::Hid => 0x21,
            DescriptorType::Report => 0x22,
            DescriptorType::Physical => 0x23,
            DescriptorType::Hub => 0x29,
            DescriptorType::SuperSpeedHub => 0x2a,
            DescriptorType::SsEndpointCompanion => 0x30,
            DescriptorType::Unknown(b) => b,
        }
    }
}

impl FromSpecImpl<DescriptorType> for u8 {
    open spec fn obeys_from_spec() -> bool {
        true
    }

    open spec fn from_spec(t: DescriptorType) -> u8 {
        t.code()
    }
}

/// An endpoint of an interface, with the descriptors among its extra bytes
/// in the order they were met.
#[derive(Debug, Clone, PartialEq, Eq, Hash)]
pub struct Endpoint {
    pub address: u8,
    pub attributes: u8,
    pub max_packet_size: u16,
    pub interval: u8,
    pub length: u8,
    pub extra: Option<Vec<Descriptor>>,
}

/// An interface of a configuration, with its endpoints and the descriptors
/// among its extra bytes in the order they were met.
#[derive(Debug, Clone, PartialEq, Eq, Hash)]
pub struct Interface {
    pub name: String,
    pub number: u8,
    pub alt_setting: u8,
    pub class: ClassCodeTriplet,
    pub driver: Option<String>,
    pub length: u8,
    pub endpoints: Vec<Endpoint>,
    pub extra: Option<Vec<Descriptor>>,
}

/// A configuration of a device, with its interfaces and the descriptors
/// among its extra bytes in the order they were met.
#[derive(Debug, Clone, PartialEq, Eq, Hash)]
pub struct Configuration {
    pub name: String,
    pub number: u8,
    pub attributes: u8,
    pub max_power: u16,
    pub length: u8,
    pub total_length: u16,
    pub interfaces: Vec<Interface>,
    pub extra: Option<Vec<Descriptor>>,
}

/// What is known of a device once it was opened.
#[derive(Debug, Clone, PartialEq, Eq, Hash)]
pub struct DeviceExtra {
    pub max_packet_size: u8,
    pub driver: Option<String>,
    pub syspath: Option<String>,
    pub vendor: Option<String>,
    pub product_name: Option<String>,
    pub configurations: Vec<Configuration>,
}

} // verus!
