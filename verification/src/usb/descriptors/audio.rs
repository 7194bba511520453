//! The descriptors of the USB Audio Class (UAC) and of MIDI streaming.
use crate::error::Error;
use crate::usb::descriptors::audio::channel::{
    names_of, select, selected, ChannelNames, Uac1ChannelNames, Uac2ChannelNames,
};
use crate::usb::descriptors::audio::clock::{
    ClockMultiplier2, ClockMultiplier3, ClockSelector2, ClockSelector3, ClockSource2,
    ClockSource3, SampleRateConverter2, SampleRateConverter3,
};
use crate::usb::descriptors::audio::processing::{
    ProcessingUnit1, ProcessingUnit2, ProcessingUnit3,
};
use crate::usb::descriptors::audio::streaming::{
    DataStreamingEndpoint1, DataStreamingEndpoint2, DataStreamingEndpoint3, LockDelayUnits,
    StreamingFormat, StreamingFormatSpecific, StreamingInterface1, StreamingInterface2,
    StreamingInterface3,
};
use crate::usb::descriptors::audio::terminal::{
    ExtendedTerminalHeader, Header1, Header2, Header3, InputTerminal1, InputTerminal2,
    InputTerminal3, OutputTerminal1, OutputTerminal2, OutputTerminal3, PowerDomain,
};
use crate::usb::descriptors::audio::unit::{
    EffectUnit2, EffectUnit3, ExtensionUnit1, ExtensionUnit2, ExtensionUnit3, FeatureUnit1,
    FeatureUnit2, FeatureUnit3, MixerUnit1, MixerUnit2, MixerUnit3, SelectorUnit1,
    SelectorUnit2, SelectorUnit3,
};
use crate::usb::descriptors::audio::midi::MidiSubtype;
use crate::usb::descriptors::GenericDescriptor;
use crate::wire::{
    accepts, copy_all, copy_bytes, exact, lemma_encode_decode, rejects, DescriptorShape,
};
use crate::text::{shouty_snake_case, to_shouty_snake_case};
use vstd::prelude::*;
use vstd::std_specs::convert::{FromSpecImpl, TryFromSpecImpl};

pub mod channel;
pub mod clock;
pub mod midi;
pub mod processing;
pub mod streaming;
pub mod terminal;
pub mod unit;

verus! {

/// USB Audio Class (UAC) protocol byte defines the version of the UAC
#[derive(Debug, Clone, Copy, PartialEq, Eq, Hash)]
pub enum UacProtocol {
    Uac1,
    Uac2,
    Uac3,
    Unknown(u8),
}

impl UacProtocol {
    /// The protocol that the byte `b` stands for.
    pub open spec fn of(b: u8) -> UacProtocol {
        if b == 0x00 {
            UacProtocol::Uac1
        } else if b == 0x20 {
            UacProtocol::Uac2
        } else if b == 0x30 {
            UacProtocol::Uac3
        } else {
            UacProtocol::Unknown(b)
        }
    }

    /// The byte that stands for `self`.
    pub open spec fn code(self) -> u8 {
        match self {
            UacProtocol::Uac1 => 0x00,
            UacProtocol::Uac2 => 0x20,
            UacProtocol::Uac3 => 0x30,
            UacProtocol::Unknown(b) => b,
        }
    }
}

impl From<u8> for UacProtocol {
    fn from(b: u8) -> (p: UacProtocol) {
        match b {
            0x00 => UacProtocol::Uac1,
            0x20 => UacProtocol::Uac2,
            0x30 => UacProtocol::Uac3,
            b => UacProtocol::Unknown(b),
        }
    }
}

impl FromSpecImpl<u8> for UacProtocol {
    open spec fn obeys_from_spec() -> bool {
        true
    }

    open spec fn from_spec(b: u8) -> UacProtocol {
        UacProtocol::of(b)
    }
}

impl From<UacProtocol> for u8 {
    fn from(up: UacProtocol) -> (b: u8) {
        match up {
            UacProtocol::Uac1 => 0x00,
            UacProtocol::Uac2 => 0x20,
            UacProtocol::Uac3 => 0x30,
            UacProtocol::Unknown(b) => b,
        }
    }
}

impl FromSpecImpl<UacProtocol> for u8 {
    open spec fn obeys_from_spec() -> bool {
        true
    }

    open spec fn from_spec(up: UacProtocol) -> u8 {
        up.code()
    }
}

/// USB Audio Class (UAC) interface Audio Control (AC) types based on bDescriptorSubtype
#[derive(Debug, Clone, Copy, PartialEq, Eq, Hash)]
pub enum ControlSubtype {
    Undefined,
    Header,
    InputTerminal,
    OutputTerminal,
    ExtendedTerminal,
    MixerUnit,
    SelectorUnit,
    FeatureUnit,
    EffectUnit,
    ProcessingUnit,
    ExtensionUnit,
    ClockSource,
    ClockSelector,
    ClockMultiplier,
    SampleRateConverter,
    Connectors,
    PowerDomain,
}

impl ControlSubtype {
    /// The sub type that the byte `b` stands for where no protocol says
    /// otherwise; a byte that names none is undefined.
    pub open spec fn of(b: u8) -> ControlSubtype {
        if b == 0x01 {
            ControlSubtype::Header
        } else if b == 0x02 {
            ControlSubtype::InputTerminal
        } else if b == 0x03 {
            ControlSubtype::OutputTerminal
        } else if b == 0x04 {
            ControlSubtype::ExtendedTerminal
        } else if b == 0x05 {
            ControlSubtype::MixerUnit
        } else if b == 0x06 {
            ControlSubtype::SelectorUnit
        } else if b == 0x07 {
            ControlSubtype::FeatureUnit
        } else if b == 0x08 {
            ControlSubtype::EffectUnit
        } else if b == 0x09 {
            ControlSubtype::ProcessingUnit
        } else if b == 0x0a {
            ControlSubtype::ExtensionUnit
        } else if b == 0x0b {
            ControlSubtype::ClockSource
        } else if b == 0x0c {
            ControlSubtype::ClockSelector
        } else if b == 0x0d {
            ControlSubtype::ClockMultiplier
        } else if b == 0x0e {
            ControlSubtype::SampleRateConverter
        } else if b == 0x0f {
            ControlSubtype::Connectors
        } else if b == 0x10 {
            ControlSubtype::PowerDomain
        } else {
            ControlSubtype::Undefined
        }
    }

    /// The byte that stands for `self` where no protocol says otherwise.
    pub open spec fn code(self) -> u8 {
        match self {
            ControlSubtype::Undefined => 0x00,
            ControlSubtype::Header => 0x01,
            ControlSubtype::InputTerminal => 0x02,
            ControlSubtype::OutputTerminal => 0x03,
            ControlSubtype::ExtendedTerminal => 0x04,
            ControlSubtype::MixerUnit => 0x05,
            ControlSubtype::SelectorUnit => 0x06,
            ControlSubtype::FeatureUnit => 0x07,
            ControlSubtype::EffectUnit => 0x08,
            ControlSubtype::ProcessingUnit => 0x09,
            ControlSubtype::ExtensionUnit => 0x0a,
            ControlSubtype::ClockSource => 0x0b,
            ControlSubtype::ClockSelector => 0x0c,
            ControlSubtype::ClockMultiplier => 0x0d,
            ControlSubtype::SampleRateConverter => 0x0e,
            ControlSubtype::Connectors => 0x0f,
            ControlSubtype::PowerDomain => 0x10,
        }
    }

    /// The sub type that the byte `subtype` stands for under the protocol byte
    /// `protocol`. UAC1 and UAC2 number the units from 0x04 on in their own
    /// ways: under both 0x04 is the mixer unit and 0x06, like 0x05, the
    /// selector unit. Every other byte, and every byte under another
    /// protocol, stands for what [`ControlSubtype::of`] says.
    pub open spec fn remapped(subtype: u8, protocol: u8) -> ControlSubtype {
        if protocol == 0x00 {
            if subtype == 0x04 {
                ControlSubtype::MixerUnit
            } else if subtype == 0x05 || subtype == 0x06 {
                ControlSubtype::SelectorUnit
            } else if subtype == 0x07 {
                ControlSubtype::ProcessingUnit
            } else if subtype == 0x08 {
                ControlSubtype::ExtensionUnit
            } else {
                ControlSubtype::of(subtype)
            }
        } else if protocol == 0x20 {
            if subtype == 0x04 {
                ControlSubtype::MixerUnit
            } else if subtype == 0x05 || subtype == 0x06 {
                ControlSubtype::SelectorUnit
            } else if subtype == 0x07 {
                ControlSubtype::EffectUnit
            } else if subtype == 0x08 {
                ControlSubtype::ProcessingUnit
            } else if subtype == 0x09 {
                ControlSubtype::ExtensionUnit
            } else if subtype == 0x0a {
                ControlSubtype::ClockSource
            } else if subtype == 0x0b {
                ControlSubtype::ClockSelector
            } else if subtype == 0x0c {
                ControlSubtype::ClockMultiplier
            } else if subtype == 0x0d {
                ControlSubtype::SampleRateConverter
            } else {
                ControlSubtype::of(subtype)
            }
        } else {
            ControlSubtype::of(subtype)
        }
    }

    /// UAC1, UAC2, and UAC3 define bDescriptorSubtype differently for the
    /// AudioControl interface, so we need to do some ugly remapping:
    pub fn get_uac_subtype(subtype: u8, protocol: u8) -> (control: Self)
        ensures
            control == Self::remapped(subtype, protocol),
    {
        match protocol {
            // UAC1
            0x00 => match subtype {
                0x04 => ControlSubtype::MixerUnit,
                0x05 | 0x06 => ControlSubtype::SelectorUnit,
                0x07 => ControlSubtype::ProcessingUnit,
                0x08 => ControlSubtype::ExtensionUnit,
                _ => Self::from(subtype),
            },
            // UAC2
            0x20 => match subtype {
                0x04 => ControlSubtype::MixerUnit,
                0x05 | 0x06 => ControlSubtype::SelectorUnit,
                0x07 => ControlSubtype::EffectUnit,
                0x08 => ControlSubtype::ProcessingUnit,
                0x09 => ControlSubtype::ExtensionUnit,
                0x0a => ControlSubtype::ClockSource,
                0x0b => ControlSubtype::ClockSelector,
                0x0c => ControlSubtype::ClockMultiplier,
                0x0d => ControlSubtype::SampleRateConverter,
                _ => Self::from(subtype),
            },
            // no re-map for UAC3..
            _ => Self::from(subtype),
        }
    }

    /// Get the UAC interface descriptor from the UAC interface
    pub fn get_descriptor(&self, protocol: &UacProtocol, data: &[u8]) -> (r: Result<
        UacInterfaceDescriptor,
        Error,
    >)
        ensures
            UacInterfaceDescriptor::ac_decoding(*self, *protocol, data@, r),
    {
        UacInterfaceDescriptor::from_uac_ac_interface(self, protocol, data)
    }
}

impl From<u8> for ControlSubtype {
    fn from(b: u8) -> (subtype: ControlSubtype) {
        match b {
            0x01 => ControlSubtype::Header,
            0x02 => ControlSubtype::InputTerminal,
            0x03 => ControlSubtype::OutputTerminal,
            0x04 => ControlSubtype::ExtendedTerminal,
            0x05 => ControlSubtype::MixerUnit,
            0x06 => ControlSubtype::SelectorUnit,
            0x07 => ControlSubtype::FeatureUnit,
            0x08 => ControlSubtype::EffectUnit,
            0x09 => ControlSubtype::ProcessingUnit,
            0x0a => ControlSubtype::ExtensionUnit,
            0x0b => ControlSubtype::ClockSource,
            0x0c => ControlSubtype::ClockSelector,
            0x0d => ControlSubtype::ClockMultiplier,
            0x0e => ControlSubtype::SampleRateConverter,
            0x0f => ControlSubtype::Connectors,
            0x10 => ControlSubtype::PowerDomain,
            _ => ControlSubtype::Undefined,
        }
    }
}

impl FromSpecImpl<u8> for ControlSubtype {
    open spec fn obeys_from_spec() -> bool {
        true
    }

    open spec fn from_spec(b: u8) -> ControlSubtype {
        ControlSubtype::of(b)
    }
}

impl From<ControlSubtype> for u8 {
    fn from(subtype: ControlSubtype) -> (b: u8) {
        match subtype {
            ControlSubtype::Undefined => 0x00,
            ControlSubtype::Header => 0x01,
            ControlSubtype::InputTerminal => 0x02,
            ControlSubtype::OutputTerminal => 0x03,
            ControlSubtype::ExtendedTerminal => 0x04,
            ControlSubtype::MixerUnit => 0x05,
            ControlSubtype::SelectorUnit => 0x06,
            ControlSubtype::FeatureUnit => 0x07,
            ControlSubtype::EffectUnit => 0x08,
            ControlSubtype::ProcessingUnit => 0x09,
            ControlSubtype::ExtensionUnit => 0x0a,
            ControlSubtype::ClockSource => 0x0b,
            ControlSubtype::ClockSelector => 0x0c,
            ControlSubtype::ClockMultiplier => 0x0d,
            ControlSubtype::SampleRateConverter => 0x0e,
            ControlSubtype::Connectors => 0x0f,
            ControlSubtype::PowerDomain => 0x10,
        }
    }
}

impl FromSpecImpl<ControlSubtype> for u8 {
    open spec fn obeys_from_spec() -> bool {
        true
    }

    open spec fn from_spec(subtype: ControlSubtype) -> u8 {
        subtype.code()
    }
}

/// USB Audio Class (UAC) interface Audio Streaming (AS) types based on bDescriptorSubtype
#[derive(Debug, Clone, Copy, PartialEq, Eq, Hash)]
pub enum StreamingSubtype {
    Undefined,
    General,
    FormatType,
    FormatSpecific,
}

impl StreamingSubtype {
    /// The sub type that the byte `b` stands for; a byte that names none is undefined.
    pub open spec fn of(b: u8) -> StreamingSubtype {
        if b == 0x01 {
            StreamingSubtype::General
        } else if b == 0x02 {
            StreamingSubtype::FormatType
        } else if b == 0x03 {
            StreamingSubtype::FormatSpecific
        } else {
            StreamingSubtype::Undefined
        }
    }

    /// The byte that stands for `self`.
    pub open spec fn code(self) -> u8 {
        match self {
            StreamingSubtype::Undefined => 0x00,
            StreamingSubtype::General => 0x01,
            StreamingSubtype::FormatType => 0x02,
            StreamingSubtype::FormatSpecific => 0x03,
        }
    }

    /// Get the UAC interface descriptor from the UAC interface
    pub fn get_descriptor(&self, protocol: &UacProtocol, data: &[u8]) -> (r: Result<
        UacInterfaceDescriptor,
        Error,
    >)
        ensures
            UacInterfaceDescriptor::as_decoding(*self, *protocol, data@, r),
    {
        UacInterfaceDescriptor::from_uac_as_interface(self, protocol, data)
    }
}

impl From<u8> for StreamingSubtype {
    fn from(b: u8) -> (subtype: StreamingSubtype) {
        match b {
            0x01 => StreamingSubtype::General,
            0x02 => StreamingSubtype::FormatType,
            0x03 => StreamingSubtype::FormatSpecific,
            _ => StreamingSubtype::Undefined,
        }
    }
}

impl FromSpecImpl<u8> for StreamingSubtype {
    open spec fn obeys_from_spec() -> bool {
        true
    }

    open spec fn from_spec(b: u8) -> StreamingSubtype {
        StreamingSubtype::of(b)
    }
}

impl From<StreamingSubtype> for u8 {
    fn from(subtype: StreamingSubtype) -> (b: u8) {
        match subtype {
            StreamingSubtype::Undefined => 0x00,
            StreamingSubtype::General => 0x01,
            StreamingSubtype::FormatType => 0x02,
            StreamingSubtype::FormatSpecific => 0x03,
        }
    }
}

impl FromSpecImpl<StreamingSubtype> for u8 {
    open spec fn obeys_from_spec() -> bool {
        true
    }

    open spec fn from_spec(subtype: StreamingSubtype) -> u8 {
        subtype.code()
    }
}

/// The control setting for a UAC bmControls byte
#[derive(Debug, Clone, Copy, PartialEq, Eq, Hash)]
pub enum ControlSetting {
    ReadOnly,
    IllegalValue,
    ReadWrite,
}

impl ControlSetting {
    /// The setting that the two bits `b` stand for; any other value is illegal.
    pub open spec fn of(b: u8) -> ControlSetting {
        if b == 0b01 {
            ControlSetting::ReadOnly
        } else if b == 0b11 {
            ControlSetting::ReadWrite
        } else {
            ControlSetting::IllegalValue
        }
    }
}

impl From<u8> for ControlSetting {
    fn from(b: u8) -> (setting: ControlSetting) {
        match b {
            0b01 => ControlSetting::ReadOnly,
            0b11 => ControlSetting::ReadWrite,
            _ => ControlSetting::IllegalValue,
        }
    }
}

impl FromSpecImpl<u8> for ControlSetting {
    open spec fn obeys_from_spec() -> bool {
        true
    }

    open spec fn from_spec(b: u8) -> ControlSetting {
        ControlSetting::of(b)
    }
}

/// UAC bmControl can be 1 bit for just the control type or 2 bits for control
/// type and whether it's read-only
#[derive(Debug, Clone, Copy, PartialEq, Eq, Hash)]
pub enum ControlType {
    BmControl1,
    BmControl2,
}

/// USB Audio Class (UAC) subtype based on the bDescriptorSubtype
#[derive(Debug, Clone, Copy, PartialEq, Eq, Hash)]
pub enum UacType {
    /// Audio Control (AC) subtype
    Control(ControlSubtype),
    /// Audio Streaming (AS) subtype
    Streaming(StreamingSubtype),
    /// MIDI subtype
    Midi(MidiSubtype),
}

impl UacType {
    /// The sub type that the byte `descriptor_sub` stands for in an interface
    /// of the sub class `sub_class` under the protocol byte `protocol`: audio
    /// control is sub class 1, audio streaming 2 and MIDI streaming 3.
    pub open spec fn of(sub_class: u8, descriptor_sub: u8, protocol: u8) -> Result<UacType, Error> {
        if sub_class == 1 {
            Ok(UacType::Control(ControlSubtype::remapped(descriptor_sub, protocol)))
        } else if sub_class == 2 {
            Ok(UacType::Streaming(StreamingSubtype::of(descriptor_sub)))
        } else if sub_class == 3 {
            Ok(UacType::Midi(MidiSubtype::of(descriptor_sub)))
        } else {
            Err(Error::InvalidSubClass(sub_class))
        }
    }

    /// The byte that stands for `self` where no protocol says otherwise.
    pub open spec fn code(self) -> u8 {
        match self {
            UacType::Control(aci) => aci.code(),
            UacType::Streaming(asi) => asi.code(),
            UacType::Midi(mi) => mi.code(),
        }
    }

    /// What decoding the payload `b` of a descriptor of the sub type `self`
    /// under the protocol byte `protocol` may return. A MIDI sub type has no
    /// audio descriptor.
    pub open spec fn decoding(
        self,
        protocol: u8,
        b: Seq<u8>,
        r: Result<UacInterfaceDescriptor, Error>,
    ) -> bool {
        match self {
            UacType::Control(aci) => UacInterfaceDescriptor::ac_decoding(
                aci,
                UacProtocol::of(protocol),
                b,
                r,
            ),
            UacType::Streaming(asi) => UacInterfaceDescriptor::as_decoding(
                asi,
                UacProtocol::of(protocol),
                b,
                r,
            ),
            UacType::Midi(_) => r == Err::<UacInterfaceDescriptor, Error>(Error::MidiNotAudio),
        }
    }

    /// `d` is what a descriptor of the sub type `self` with the payload `b`
    /// comes to under the protocol byte `protocol`: the decoded payload, or
    /// the bytes as they are where the decoder turns them down.
    pub open spec fn generic_decoded(
        self,
        protocol: u8,
        b: Seq<u8>,
        d: UacInterfaceDescriptor,
    ) -> bool {
        ||| self.decoding(protocol, b, Ok(d))
        ||| {
            &&& d is Invalid
            &&& d->Invalid_0@ == b
            &&& exists|e: Error| self.decoding(protocol, b, Err(e))
        }
    }

    /// Get the [`UacInterfaceDescriptor`] based on UAC subtype, [`UacProtocol`] and raw data
    pub fn get_uac_descriptor(&self, protocol: u8, data: &[u8]) -> (r: Result<
        UacInterfaceDescriptor,
        Error,
    >)
        ensures
            self.decoding(protocol, data@, r),
    {
        match self {
            UacType::Control(aci) => aci.get_descriptor(&UacProtocol::from(protocol), data),
            UacType::Streaming(asi) => asi.get_descriptor(&UacProtocol::from(protocol), data),
            UacType::Midi(_) => Err(Error::MidiNotAudio),
        }
    }

    /// Get the [`UacInterfaceDescriptor`] from a generic descriptor
    pub fn uac_descriptor_from_generic(&self, gd: GenericDescriptor, protocol: u8) -> (r: Result<
        UacInterfaceDescriptor,
        Error,
    >)
        ensures
            match gd.data {
                Some(data) => r matches Ok(d) && self.generic_decoded(protocol, data@, d),
                None => r == Err::<UacInterfaceDescriptor, Error>(Error::MissingData),
            },
    {
        match gd.data {
            Some(data) => match self.get_uac_descriptor(protocol, data.as_slice()) {
                Ok(d) => Ok(d),
                Err(_) => Ok(UacInterfaceDescriptor::Invalid(data)),
            },
            None => Err(Error::MissingData),
        }
    }
}

/// From a tuple of (SubClass, DescriptorSub, Protocol) get the UAC subtype
impl TryFrom<(u8, u8, u8)> for UacType {
    type Error = Error;

    fn try_from(triple: (u8, u8, u8)) -> (r: Result<UacType, Error>) {
        let (sub_class, descriptor_sub, protocol) = triple;
        match sub_class {
            1 => Ok(UacType::Control(ControlSubtype::get_uac_subtype(descriptor_sub, protocol))),
            2 => Ok(UacType::Streaming(StreamingSubtype::from(descriptor_sub))),
            3 => Ok(UacType::Midi(MidiSubtype::from(descriptor_sub))),
            _ => Err(Error::InvalidSubClass(sub_class)),
        }
    }
}

impl TryFromSpecImpl<(u8, u8, u8)> for UacType {
    open spec fn obeys_try_from_spec() -> bool {
        true
    }

    open spec fn try_from_spec(triple: (u8, u8, u8)) -> Result<UacType, Error> {
        UacType::of(triple.0, triple.1, triple.2)
    }
}

impl From<UacType> for u8 {
    fn from(us: UacType) -> (b: u8) {
        match us {
            UacType::Control(aci) => u8::from(aci),
            UacType::Streaming(asi) => u8::from(asi),
            UacType::Midi(mi) => u8::from(mi),
        }
    }
}

impl FromSpecImpl<UacType> for u8 {
    open spec fn obeys_from_spec() -> bool {
        true
    }

    open spec fn from_spec(us: UacType) -> u8 {
        us.code()
    }
}

/// USB Audio Class (UAC) interface descriptors
#[derive(Debug, Clone, PartialEq, Eq, Hash)]
pub enum UacInterfaceDescriptor {
    // Audio Controls bSubClass
    Header1(Header1),
    Header2(Header2),
    Header3(Header3),
    InputTerminal1(InputTerminal1),
    InputTerminal2(InputTerminal2),
    InputTerminal3(InputTerminal3),
    OutputTerminal1(OutputTerminal1),
    OutputTerminal2(OutputTerminal2),
    OutputTerminal3(OutputTerminal3),
    ExtendedTerminalHeader(ExtendedTerminalHeader),
    PowerDomain(PowerDomain),
    MixerUnit1(MixerUnit1),
    MixerUnit2(MixerUnit2),
    MixerUnit3(MixerUnit3),
    SelectorUnit1(SelectorUnit1),
    SelectorUnit2(SelectorUnit2),
    SelectorUnit3(SelectorUnit3),
    ProcessingUnit1(ProcessingUnit1),
    ProcessingUnit2(ProcessingUnit2),
    ProcessingUnit3(ProcessingUnit3),
    EffectUnit2(EffectUnit2),
    EffectUnit3(EffectUnit3),
    FeatureUnit1(FeatureUnit1),
    FeatureUnit2(FeatureUnit2),
    FeatureUnit3(FeatureUnit3),
    ExtensionUnit1(ExtensionUnit1),
    ExtensionUnit2(ExtensionUnit2),
    ExtensionUnit3(ExtensionUnit3),
    ClockSource2(ClockSource2),
    ClockSource3(ClockSource3),
    ClockSelector2(ClockSelector2),
    ClockSelector3(ClockSelector3),
    ClockMultiplier2(ClockMultiplier2),
    ClockMultiplier3(ClockMultiplier3),
    SampleRateConverter2(SampleRateConverter2),
    SampleRateConverter3(SampleRateConverter3),
    // Audio Streaming bSubClass
    StreamingInterface1(StreamingInterface1),
    StreamingInterface2(StreamingInterface2),
    StreamingInterface3(StreamingInterface3),
    StreamingFormat(StreamingFormat),
    StreamingFormatSpecific(StreamingFormatSpecific),
    // Isochronous Audio Data Stream Endpoint
    DataStreamingEndpoint1(DataStreamingEndpoint1),
    DatastreamingEndpoint2(DataStreamingEndpoint2),
    DataStreamingEndpoint3(DataStreamingEndpoint3),
    /// Invalid descriptor for failing to parse matched
    Invalid(Vec<u8>),
    /// Generic descriptor for known but unsupported descriptors
    Generic(Vec<u8>),
    /// Undefined descriptor
    Undefined(Vec<u8>),
}

impl UacInterfaceDescriptor {
    /// The bytes of `self` on the wire.
    pub open spec fn encoding(&self) -> Seq<u8> {
        match self {
            UacInterfaceDescriptor::Header1(a) => a.encoding(),
            UacInterfaceDescriptor::Header2(a) => a.encoding(),
            UacInterfaceDescriptor::Header3(a) => a.encoding(),
            UacInterfaceDescriptor::InputTerminal1(a) => a.encoding(),
            UacInterfaceDescriptor::InputTerminal2(a) => a.encoding(),
            UacInterfaceDescriptor::InputTerminal3(a) => a.encoding(),
            UacInterfaceDescriptor::OutputTerminal1(a) => a.encoding(),
            UacInterfaceDescriptor::OutputTerminal2(a) => a.encoding(),
            UacInterfaceDescriptor::OutputTerminal3(a) => a.encoding(),
            UacInterfaceDescriptor::ExtendedTerminalHeader(a) => a.encoding(),
            UacInterfaceDescriptor::PowerDomain(a) => a.encoding(),
            UacInterfaceDescriptor::MixerUnit1(a) => a.encoding(),
            UacInterfaceDescriptor::MixerUnit2(a) => a.encoding(),
            UacInterfaceDescriptor::MixerUnit3(a) => a.encoding(),
            UacInterfaceDescriptor::SelectorUnit1(a) => a.encoding(),
            UacInterfaceDescriptor::SelectorUnit2(a) => a.encoding(),
            UacInterfaceDescriptor::SelectorUnit3(a) => a.encoding(),
            UacInterfaceDescriptor::ProcessingUnit1(a) => a.encoding(),
            UacInterfaceDescriptor::ProcessingUnit2(a) => a.encoding(),
            UacInterfaceDescriptor::ProcessingUnit3(a) => a.encoding(),
            UacInterfaceDescriptor::EffectUnit2(a) => a.encoding(),
            UacInterfaceDescriptor::EffectUnit3(a) => a.encoding(),
            UacInterfaceDescriptor::FeatureUnit1(a) => a.encoding(),
            UacInterfaceDescriptor::FeatureUnit2(a) => a.encoding(),
            UacInterfaceDescriptor::FeatureUnit3(a) => a.encoding(),
            UacInterfaceDescriptor::ExtensionUnit1(a) => a.encoding(),
            UacInterfaceDescriptor::ExtensionUnit2(a) => a.encoding(),
            UacInterfaceDescriptor::ExtensionUnit3(a) => a.encoding(),
            UacInterfaceDescriptor::ClockSource2(a) => a.encoding(),
            UacInterfaceDescriptor::ClockSource3(a) => a.encoding(),
            UacInterfaceDescriptor::ClockSelector2(a) => a.encoding(),
            UacInterfaceDescriptor::ClockSelector3(a) => a.encoding(),
            UacInterfaceDescriptor::ClockMultiplier2(a) => a.encoding(),
            UacInterfaceDescriptor::ClockMultiplier3(a) => a.encoding(),
            UacInterfaceDescriptor::SampleRateConverter2(a) => a.encoding(),
            UacInterfaceDescriptor::SampleRateConverter3(a) => a.encoding(),
            UacInterfaceDescriptor::StreamingInterface1(a) => a.encoding(),
            UacInterfaceDescriptor::StreamingInterface2(a) => a.encoding(),
            UacInterfaceDescriptor::StreamingInterface3(a) => a.encoding(),
            UacInterfaceDescriptor::StreamingFormat(a) => a.encoding(),
            UacInterfaceDescriptor::StreamingFormatSpecific(a) => a.encoding(),
            UacInterfaceDescriptor::DataStreamingEndpoint1(a) => a.encoding(),
            UacInterfaceDescriptor::DatastreamingEndpoint2(a) => a.encoding(),
            UacInterfaceDescriptor::DataStreamingEndpoint3(a) => a.encoding(),
            UacInterfaceDescriptor::Invalid(a) => a@,
            UacInterfaceDescriptor::Generic(a) => a@,
            UacInterfaceDescriptor::Undefined(a) => a@,
        }
    }

    /// The protocol whose shape `self` holds. Raw bytes carry no protocol, nor
    /// do the streaming interface and the data endpoint of UAC1, nor formats.
    pub open spec fn protocol(&self) -> UacProtocol {
        match self {
            UacInterfaceDescriptor::Header1(_)
            | UacInterfaceDescriptor::InputTerminal1(_)
            | UacInterfaceDescriptor::OutputTerminal1(_)
            | UacInterfaceDescriptor::MixerUnit1(_)
            | UacInterfaceDescriptor::SelectorUnit1(_)
            | UacInterfaceDescriptor::ProcessingUnit1(_)
            | UacInterfaceDescriptor::FeatureUnit1(_)
            | UacInterfaceDescriptor::ExtensionUnit1(_) => UacProtocol::Uac1,
            UacInterfaceDescriptor::Header2(_)
            | UacInterfaceDescriptor::InputTerminal2(_)
            | UacInterfaceDescriptor::OutputTerminal2(_)
            | UacInterfaceDescriptor::MixerUnit2(_)
            | UacInterfaceDescriptor::SelectorUnit2(_)
            | UacInterfaceDescriptor::ProcessingUnit2(_)
            | UacInterfaceDescriptor::EffectUnit2(_)
            | UacInterfaceDescriptor::FeatureUnit2(_)
            | UacInterfaceDescriptor::ExtensionUnit2(_)
            | UacInterfaceDescriptor::ClockSource2(_)
            | UacInterfaceDescriptor::ClockSelector2(_)
            | UacInterfaceDescriptor::ClockMultiplier2(_)
            | UacInterfaceDescriptor::SampleRateConverter2(_)
            | UacInterfaceDescriptor::StreamingInterface2(_)
            | UacInterfaceDescriptor::DatastreamingEndpoint2(_) => UacProtocol::Uac2,
            UacInterfaceDescriptor::Header3(_)
            | UacInterfaceDescriptor::InputTerminal3(_)
            | UacInterfaceDescriptor::OutputTerminal3(_)
            | UacInterfaceDescriptor::ExtendedTerminalHeader(_)
            | UacInterfaceDescriptor::PowerDomain(_)
            | UacInterfaceDescriptor::MixerUnit3(_)
            | UacInterfaceDescriptor::SelectorUnit3(_)
            | UacInterfaceDescriptor::ProcessingUnit3(_)
            | UacInterfaceDescriptor::EffectUnit3(_)
            | UacInterfaceDescriptor::FeatureUnit3(_)
            | UacInterfaceDescriptor::ExtensionUnit3(_)
            | UacInterfaceDescriptor::ClockSource3(_)
            | UacInterfaceDescriptor::ClockSelector3(_)
            | UacInterfaceDescriptor::ClockMultiplier3(_)
            | UacInterfaceDescriptor::SampleRateConverter3(_)
            | UacInterfaceDescriptor::StreamingInterface3(_)
            | UacInterfaceDescriptor::DataStreamingEndpoint3(_) => UacProtocol::Uac3,
            _ => UacProtocol::Unknown(0xff),
        }
    }

    /// What decoding the payload `b` of an audio control descriptor of the
    /// sub type `subtype` under `protocol` may return. A sub type that
    /// `protocol` gives no shape keeps its bytes as invalid, the connectors
    /// keep theirs as generic, and an undefined sub type as undefined.
    pub open spec fn ac_decoding(
        subtype: ControlSubtype,
        protocol: UacProtocol,
        b: Seq<u8>,
        r: Result<UacInterfaceDescriptor, Error>,
    ) -> bool {
        match (subtype, protocol) {
            (ControlSubtype::Header, UacProtocol::Uac1) => match r {
                Ok(d) => d is Header1 && accepts(b, d->Header1_0),
                Err(e) => rejects::<Header1>(b, e),
            },
            (ControlSubtype::Header, UacProtocol::Uac2) => match r {
                Ok(d) => d is Header2 && accepts(b, d->Header2_0),
                Err(e) => rejects::<Header2>(b, e),
            },
            (ControlSubtype::Header, UacProtocol::Uac3) => match r {
                Ok(d) => d is Header3 && accepts(b, d->Header3_0),
                Err(e) => rejects::<Header3>(b, e),
            },
            (ControlSubtype::InputTerminal, UacProtocol::Uac1) => match r {
                Ok(d) => d is InputTerminal1 && accepts(b, d->InputTerminal1_0),
                Err(e) => rejects::<InputTerminal1>(b, e),
            },
            (ControlSubtype::InputTerminal, UacProtocol::Uac2) => match r {
                Ok(d) => d is InputTerminal2 && accepts(b, d->InputTerminal2_0),
                Err(e) => rejects::<InputTerminal2>(b, e),
            },
            (ControlSubtype::InputTerminal, UacProtocol::Uac3) => match r {
                Ok(d) => d is InputTerminal3 && accepts(b, d->InputTerminal3_0),
                Err(e) => rejects::<InputTerminal3>(b, e),
            },
            (ControlSubtype::OutputTerminal, UacProtocol::Uac1) => match r {
                Ok(d) => d is OutputTerminal1 && accepts(b, d->OutputTerminal1_0),
                Err(e) => rejects::<OutputTerminal1>(b, e),
            },
            (ControlSubtype::OutputTerminal, UacProtocol::Uac2) => match r {
                Ok(d) => d is OutputTerminal2 && accepts(b, d->OutputTerminal2_0),
                Err(e) => rejects::<OutputTerminal2>(b, e),
            },
            (ControlSubtype::OutputTerminal, UacProtocol::Uac3) => match r {
                Ok(d) => d is OutputTerminal3 && accepts(b, d->OutputTerminal3_0),
                Err(e) => rejects::<OutputTerminal3>(b, e),
            },
            (ControlSubtype::ExtendedTerminal, UacProtocol::Uac3) => match r {
                Ok(d) => d is ExtendedTerminalHeader && accepts(b, d->ExtendedTerminalHeader_0),
                Err(e) => rejects::<ExtendedTerminalHeader>(b, e),
            },
            (ControlSubtype::PowerDomain, UacProtocol::Uac3) => match r {
                Ok(d) => d is PowerDomain && accepts(b, d->PowerDomain_0),
                Err(e) => rejects::<PowerDomain>(b, e),
            },
            (ControlSubtype::MixerUnit, UacProtocol::Uac1) => match r {
                Ok(d) => d is MixerUnit1 && accepts(b, d->MixerUnit1_0),
                Err(e) => rejects::<MixerUnit1>(b, e),
            },
            (ControlSubtype::MixerUnit, UacProtocol::Uac2) => match r {
                Ok(d) => d is MixerUnit2 && accepts(b, d->MixerUnit2_0),
                Err(e) => rejects::<MixerUnit2>(b, e),
            },
            (ControlSubtype::MixerUnit, UacProtocol::Uac3) => match r {
                Ok(d) => d is MixerUnit3 && accepts(b, d->MixerUnit3_0),
                Err(e) => rejects::<MixerUnit3>(b, e),
            },
            (ControlSubtype::SelectorUnit, UacProtocol::Uac1) => match r {
                Ok(d) => d is SelectorUnit1 && accepts(b, d->SelectorUnit1_0),
                Err(e) => rejects::<SelectorUnit1>(b, e),
            },
            (ControlSubtype::SelectorUnit, UacProtocol::Uac2) => match r {
                Ok(d) => d is SelectorUnit2 && accepts(b, d->SelectorUnit2_0),
                Err(e) => rejects::<SelectorUnit2>(b, e),
            },
            (ControlSubtype::SelectorUnit, UacProtocol::Uac3) => match r {
                Ok(d) => d is SelectorUnit3 && accepts(b, d->SelectorUnit3_0),
                Err(e) => rejects::<SelectorUnit3>(b, e),
            },
            (ControlSubtype::ProcessingUnit, UacProtocol::Uac1) => match r {
                Ok(d) => d is ProcessingUnit1 && accepts(b, d->ProcessingUnit1_0),
                Err(e) => rejects::<ProcessingUnit1>(b, e),
            },
            (ControlSubtype::ProcessingUnit, UacProtocol::Uac2) => match r {
                Ok(d) => d is ProcessingUnit2 && accepts(b, d->ProcessingUnit2_0),
                Err(e) => rejects::<ProcessingUnit2>(b, e),
            },
            (ControlSubtype::ProcessingUnit, UacProtocol::Uac3) => match r {
                Ok(d) => d is ProcessingUnit3 && accepts(b, d->ProcessingUnit3_0),
                Err(e) => rejects::<ProcessingUnit3>(b, e),
            },
            (ControlSubtype::EffectUnit, UacProtocol::Uac2) => match r {
                Ok(d) => d is EffectUnit2 && accepts(b, d->EffectUnit2_0),
                Err(e) => rejects::<EffectUnit2>(b, e),
            },
            (ControlSubtype::EffectUnit, UacProtocol::Uac3) => match r {
                Ok(d) => d is EffectUnit3 && accepts(b, d->EffectUnit3_0),
                Err(e) => rejects::<EffectUnit3>(b, e),
            },
            (ControlSubtype::FeatureUnit, UacProtocol::Uac1) => match r {
                Ok(d) => d is FeatureUnit1 && accepts(b, d->FeatureUnit1_0),
                Err(e) => rejects::<FeatureUnit1>(b, e),
            },
            (ControlSubtype::FeatureUnit, UacProtocol::Uac2) => match r {
                Ok(d) => d is FeatureUnit2 && accepts(b, d->FeatureUnit2_0),
                Err(e) => rejects::<FeatureUnit2>(b, e),
            },
            (ControlSubtype::FeatureUnit, UacProtocol::Uac3) => match r {
                Ok(d) => d is FeatureUnit3 && accepts(b, d->FeatureUnit3_0),
                Err(e) => rejects::<FeatureUnit3>(b, e),
            },
            (ControlSubtype::ExtensionUnit, UacProtocol::Uac1) => match r {
                Ok(d) => d is ExtensionUnit1 && accepts(b, d->ExtensionUnit1_0),
                Err(e) => rejects::<ExtensionUnit1>(b, e),
            },
            (ControlSubtype::ExtensionUnit, UacProtocol::Uac2) => match r {
                Ok(d) => d is ExtensionUnit2 && accepts(b, d->ExtensionUnit2_0),
                Err(e) => rejects::<ExtensionUnit2>(b, e),
            },
            (ControlSubtype::ExtensionUnit, UacProtocol::Uac3) => match r {
                Ok(d) => d is ExtensionUnit3 && accepts(b, d->ExtensionUnit3_0),
                Err(e) => rejects::<ExtensionUnit3>(b, e),
            },
            (ControlSubtype::ClockSource, UacProtocol::Uac2) => match r {
                Ok(d) => d is ClockSource2 && accepts(b, d->ClockSource2_0),
                Err(e) => rejects::<ClockSource2>(b, e),
            },
            (ControlSubtype::ClockSource, UacProtocol::Uac3) => match r {
                Ok(d) => d is ClockSource3 && accepts(b, d->ClockSource3_0),
                Err(e) => rejects::<ClockSource3>(b, e),
            },
            (ControlSubtype::ClockSelector, UacProtocol::Uac2) => match r {
                Ok(d) => d is ClockSelector2 && accepts(b, d->ClockSelector2_0),
                Err(e) => rejects::<ClockSelector2>(b, e),
            },
            (ControlSubtype::ClockSelector, UacProtocol::Uac3) => match r {
                Ok(d) => d is ClockSelector3 && accepts(b, d->ClockSelector3_0),
                Err(e) => rejects::<ClockSelector3>(b, e),
            },
            (ControlSubtype::ClockMultiplier, UacProtocol::Uac2) => match r {
                Ok(d) => d is ClockMultiplier2 && accepts(b, d->ClockMultiplier2_0),
                Err(e) => rejects::<ClockMultiplier2>(b, e),
            },
            (ControlSubtype::ClockMultiplier, UacProtocol::Uac3) => match r {
                Ok(d) => d is ClockMultiplier3 && accepts(b, d->ClockMultiplier3_0),
                Err(e) => rejects::<ClockMultiplier3>(b, e),
            },
            (ControlSubtype::SampleRateConverter, UacProtocol::Uac2) => match r {
                Ok(d) => d is SampleRateConverter2 && accepts(b, d->SampleRateConverter2_0),
                Err(e) => rejects::<SampleRateConverter2>(b, e),
            },
            (ControlSubtype::SampleRateConverter, UacProtocol::Uac3) => match r {
                Ok(d) => d is SampleRateConverter3 && accepts(b, d->SampleRateConverter3_0),
                Err(e) => rejects::<SampleRateConverter3>(b, e),
            },
            (ControlSubtype::Undefined, _) => r matches Ok(d) && d is Undefined
                && d->Undefined_0@ == b,
            (ControlSubtype::Connectors, _) => r matches Ok(d) && d is Generic && d->Generic_0@ == b,
            _ => r matches Ok(d) && d is Invalid && d->Invalid_0@ == b,
        }
    }

    /// What decoding the payload `b` of an audio streaming descriptor of the
    /// sub type `subtype` under `protocol` may return. A general descriptor
    /// of exactly the length of the data endpoint descriptor is one.
    pub open spec fn as_decoding(
        subtype: StreamingSubtype,
        protocol: UacProtocol,
        b: Seq<u8>,
        r: Result<UacInterfaceDescriptor, Error>,
    ) -> bool {
        match subtype {
            StreamingSubtype::General => match protocol {
                UacProtocol::Uac1 => if b.len() == DataStreamingEndpoint1::min_len() {
                    Self::endpoint_decoding(protocol, b, r)
                } else {
                    match r {
                        Ok(d) => d is StreamingInterface1 && accepts(b, d->StreamingInterface1_0),
                        Err(e) => rejects::<StreamingInterface1>(b, e),
                    }
                },
                UacProtocol::Uac2 => if b.len() == DataStreamingEndpoint2::min_len() {
                    Self::endpoint_decoding(protocol, b, r)
                } else {
                    match r {
                        Ok(d) => d is StreamingInterface2 && accepts(b, d->StreamingInterface2_0),
                        Err(e) => rejects::<StreamingInterface2>(b, e),
                    }
                },
                UacProtocol::Uac3 => if b.len() == DataStreamingEndpoint3::min_len() {
                    Self::endpoint_decoding(protocol, b, r)
                } else {
                    match r {
                        Ok(d) => d is StreamingInterface3 && accepts(b, d->StreamingInterface3_0),
                        Err(e) => rejects::<StreamingInterface3>(b, e),
                    }
                },
                UacProtocol::Unknown(_) => r matches Ok(d) && d is Invalid && d->Invalid_0@ == b,
            },
            StreamingSubtype::FormatType => match r {
                Ok(d) => d is StreamingFormat && StreamingFormat::decoding(
                    protocol,
                    b,
                    Ok(d->StreamingFormat_0),
                ),
                Err(e) => StreamingFormat::decoding(protocol, b, Err(e)),
            },
            StreamingSubtype::FormatSpecific => match r {
                Ok(d) => d is StreamingFormatSpecific && StreamingFormatSpecific::decoding(
                    b,
                    Ok(d->StreamingFormatSpecific_0),
                ),
                Err(e) => StreamingFormatSpecific::decoding(b, Err(e)),
            },
            StreamingSubtype::Undefined => r matches Ok(d) && d is Undefined
                && d->Undefined_0@ == b,
        }
    }

    /// What decoding the payload `b` of the descriptor of an isochronous audio
    /// data endpoint under `protocol` may return.
    pub open spec fn endpoint_decoding(
        protocol: UacProtocol,
        b: Seq<u8>,
        r: Result<UacInterfaceDescriptor, Error>,
    ) -> bool {
        match protocol {
            UacProtocol::Uac1 => match r {
                Ok(d) => d is DataStreamingEndpoint1 && accepts(b, d->DataStreamingEndpoint1_0),
                Err(e) => rejects::<DataStreamingEndpoint1>(b, e),
            },
            UacProtocol::Uac2 => match r {
                Ok(d) => d is DatastreamingEndpoint2 && accepts(b, d->DatastreamingEndpoint2_0),
                Err(e) => rejects::<DataStreamingEndpoint2>(b, e),
            },
            UacProtocol::Uac3 => match r {
                Ok(d) => d is DataStreamingEndpoint3 && accepts(b, d->DataStreamingEndpoint3_0),
                Err(e) => rejects::<DataStreamingEndpoint3>(b, e),
            },
            UacProtocol::Unknown(_) => r matches Ok(d) && d is Invalid && d->Invalid_0@ == b,
        }
    }

    /// `b` is the payload of the shape that `self` holds and nothing after
    /// it, written the one way in which the shape is encoded. Bytes that were
    /// kept as they are always are.
    pub open spec fn exact(&self, b: Seq<u8>) -> bool {
        match self {
            UacInterfaceDescriptor::Header1(_) => exact::<Header1>(b),
            UacInterfaceDescriptor::Header2(_) => exact::<Header2>(b),
            UacInterfaceDescriptor::Header3(_) => exact::<Header3>(b),
            UacInterfaceDescriptor::InputTerminal1(_) => exact::<InputTerminal1>(b),
            UacInterfaceDescriptor::InputTerminal2(_) => exact::<InputTerminal2>(b),
            UacInterfaceDescriptor::InputTerminal3(_) => exact::<InputTerminal3>(b),
            UacInterfaceDescriptor::OutputTerminal1(_) => exact::<OutputTerminal1>(b),
            UacInterfaceDescriptor::OutputTerminal2(_) => exact::<OutputTerminal2>(b),
            UacInterfaceDescriptor::OutputTerminal3(_) => exact::<OutputTerminal3>(b),
            UacInterfaceDescriptor::ExtendedTerminalHeader(_) => exact::<ExtendedTerminalHeader>(b),
            UacInterfaceDescriptor::PowerDomain(_) => exact::<PowerDomain>(b),
            UacInterfaceDescriptor::MixerUnit1(_) => exact::<MixerUnit1>(b),
            UacInterfaceDescriptor::MixerUnit2(_) => exact::<MixerUnit2>(b),
            UacInterfaceDescriptor::MixerUnit3(_) => exact::<MixerUnit3>(b),
            UacInterfaceDescriptor::SelectorUnit1(_) => exact::<SelectorUnit1>(b),
            UacInterfaceDescriptor::SelectorUnit2(_) => exact::<SelectorUnit2>(b),
            UacInterfaceDescriptor::SelectorUnit3(_) => exact::<SelectorUnit3>(b),
            UacInterfaceDescriptor::ProcessingUnit1(_) => exact::<ProcessingUnit1>(b),
            UacInterfaceDescriptor::ProcessingUnit2(_) => exact::<ProcessingUnit2>(b),
            UacInterfaceDescriptor::ProcessingUnit3(_) => exact::<ProcessingUnit3>(b),
            UacInterfaceDescriptor::EffectUnit2(_) => exact::<EffectUnit2>(b),
            UacInterfaceDescriptor::EffectUnit3(_) => exact::<EffectUnit3>(b),
            UacInterfaceDescriptor::FeatureUnit1(_) => exact::<FeatureUnit1>(b),
            UacInterfaceDescriptor::FeatureUnit2(_) => exact::<FeatureUnit2>(b),
            UacInterfaceDescriptor::FeatureUnit3(_) => exact::<FeatureUnit3>(b),
            UacInterfaceDescriptor::ExtensionUnit1(_) => exact::<ExtensionUnit1>(b),
            UacInterfaceDescriptor::ExtensionUnit2(_) => exact::<ExtensionUnit2>(b),
            UacInterfaceDescriptor::ExtensionUnit3(_) => exact::<ExtensionUnit3>(b),
            UacInterfaceDescriptor::ClockSource2(_) => exact::<ClockSource2>(b),
            UacInterfaceDescriptor::ClockSource3(_) => exact::<ClockSource3>(b),
            UacInterfaceDescriptor::ClockSelector2(_) => exact::<ClockSelector2>(b),
            UacInterfaceDescriptor::ClockSelector3(_) => exact::<ClockSelector3>(b),
            UacInterfaceDescriptor::ClockMultiplier2(_) => exact::<ClockMultiplier2>(b),
            UacInterfaceDescriptor::ClockMultiplier3(_) => exact::<ClockMultiplier3>(b),
            UacInterfaceDescriptor::SampleRateConverter2(_) => exact::<SampleRateConverter2>(b),
            UacInterfaceDescriptor::SampleRateConverter3(_) => exact::<SampleRateConverter3>(b),
            UacInterfaceDescriptor::StreamingInterface1(_) => exact::<StreamingInterface1>(b),
            UacInterfaceDescriptor::StreamingInterface2(_) => exact::<StreamingInterface2>(b),
            UacInterfaceDescriptor::StreamingInterface3(_) => exact::<StreamingInterface3>(b),
            UacInterfaceDescriptor::DataStreamingEndpoint1(_) => exact::<DataStreamingEndpoint1>(b),
            UacInterfaceDescriptor::DatastreamingEndpoint2(_) => exact::<DataStreamingEndpoint2>(b),
            UacInterfaceDescriptor::DataStreamingEndpoint3(_) => exact::<DataStreamingEndpoint3>(b),
            UacInterfaceDescriptor::StreamingFormat(a) => a.exact(b),
            UacInterfaceDescriptor::StreamingFormatSpecific(a) => a.exact(b),
            UacInterfaceDescriptor::Invalid(_) => true,
            UacInterfaceDescriptor::Generic(_) => true,
            UacInterfaceDescriptor::Undefined(_) => true,
        }
    }

    /// What was decoded from the payload of an audio control descriptor
    /// encodes to the payload: a shape to its bytes, and what has no shape to
    /// the bytes that were kept.
    pub proof fn lemma_ac_payload_kept(
        &self,
        subtype: ControlSubtype,
        protocol: UacProtocol,
        b: Seq<u8>,
    )
        requires
            Self::ac_decoding(subtype, protocol, b, Ok(*self)),
            self.exact(b),
        ensures
            self.encoding() == b,
    {
        match self {
            UacInterfaceDescriptor::Header1(a) => lemma_encode_decode(*a, b),
            UacInterfaceDescriptor::Header2(a) => lemma_encode_decode(*a, b),
            UacInterfaceDescriptor::Header3(a) => lemma_encode_decode(*a, b),
            UacInterfaceDescriptor::InputTerminal1(a) => lemma_encode_decode(*a, b),
            UacInterfaceDescriptor::InputTerminal2(a) => lemma_encode_decode(*a, b),
            UacInterfaceDescriptor::InputTerminal3(a) => lemma_encode_decode(*a, b),
            UacInterfaceDescriptor::OutputTerminal1(a) => lemma_encode_decode(*a, b),
            UacInterfaceDescriptor::OutputTerminal2(a) => lemma_encode_decode(*a, b),
            UacInterfaceDescriptor::OutputTerminal3(a) => lemma_encode_decode(*a, b),
            UacInterfaceDescriptor::ExtendedTerminalHeader(a) => lemma_encode_decode(*a, b),
            UacInterfaceDescriptor::PowerDomain(a) => lemma_encode_decode(*a, b),
            UacInterfaceDescriptor::MixerUnit1(a) => lemma_encode_decode(*a, b),
            UacInterfaceDescriptor::MixerUnit2(a) => lemma_encode_decode(*a, b),
            UacInterfaceDescriptor::MixerUnit3(a) => lemma_encode_decode(*a, b),
            UacInterfaceDescriptor::SelectorUnit1(a) => lemma_encode_decode(*a, b),
            UacInterfaceDescriptor::SelectorUnit2(a) => lemma_encode_decode(*a, b),
            UacInterfaceDescriptor::SelectorUnit3(a) => lemma_encode_decode(*a, b),
            UacInterfaceDescriptor::ProcessingUnit1(a) => lemma_encode_decode(*a, b),
            UacInterfaceDescriptor::ProcessingUnit2(a) => lemma_encode_decode(*a, b),
            UacInterfaceDescriptor::ProcessingUnit3(a) => lemma_encode_decode(*a, b),
            UacInterfaceDescriptor::EffectUnit2(a) => lemma_encode_decode(*a, b),
            UacInterfaceDescriptor::EffectUnit3(a) => lemma_encode_decode(*a, b),
            UacInterfaceDescriptor::FeatureUnit1(a) => lemma_encode_decode(*a, b),
            UacInterfaceDescriptor::FeatureUnit2(a) => lemma_encode_decode(*a, b),
            UacInterfaceDescriptor::FeatureUnit3(a) => lemma_encode_decode(*a, b),
            UacInterfaceDescriptor::ExtensionUnit1(a) => lemma_encode_decode(*a, b),
            UacInterfaceDescriptor::ExtensionUnit2(a) => lemma_encode_decode(*a, b),
            UacInterfaceDescriptor::ExtensionUnit3(a) => lemma_encode_decode(*a, b),
            UacInterfaceDescriptor::ClockSource2(a) => lemma_encode_decode(*a, b),
            UacInterfaceDescriptor::ClockSource3(a) => lemma_encode_decode(*a, b),
            UacInterfaceDescriptor::ClockSelector2(a) => lemma_encode_decode(*a, b),
            UacInterfaceDescriptor::ClockSelector3(a) => lemma_encode_decode(*a, b),
            UacInterfaceDescriptor::ClockMultiplier2(a) => lemma_encode_decode(*a, b),
            UacInterfaceDescriptor::ClockMultiplier3(a) => lemma_encode_decode(*a, b),
            UacInterfaceDescriptor::SampleRateConverter2(a) => lemma_encode_decode(*a, b),
            UacInterfaceDescriptor::SampleRateConverter3(a) => lemma_encode_decode(*a, b),
            _ => {},
        }
    }

    /// What was decoded from the payload of the descriptor of an audio data
    /// endpoint encodes to the payload.
    pub proof fn lemma_endpoint_payload_kept(&self, protocol: UacProtocol, b: Seq<u8>)
        requires
            Self::endpoint_decoding(protocol, b, Ok(*self)),
            self.exact(b),
        ensures
            self.encoding() == b,
    {
        match self {
            UacInterfaceDescriptor::DataStreamingEndpoint1(a) => lemma_encode_decode(*a, b),
            UacInterfaceDescriptor::DatastreamingEndpoint2(a) => lemma_encode_decode(*a, b),
            UacInterfaceDescriptor::DataStreamingEndpoint3(a) => lemma_encode_decode(*a, b),
            _ => {},
        }
    }

    /// What was decoded from the payload of an audio streaming descriptor
    /// encodes to the payload.
    pub proof fn lemma_as_payload_kept(
        &self,
        subtype: StreamingSubtype,
        protocol: UacProtocol,
        b: Seq<u8>,
    )
        requires
            Self::as_decoding(subtype, protocol, b, Ok(*self)),
            self.exact(b),
        ensures
            self.encoding() == b,
    {
        match self {
            UacInterfaceDescriptor::StreamingInterface1(a) => lemma_encode_decode(*a, b),
            UacInterfaceDescriptor::StreamingInterface2(a) => lemma_encode_decode(*a, b),
            UacInterfaceDescriptor::StreamingInterface3(a) => lemma_encode_decode(*a, b),
            UacInterfaceDescriptor::DataStreamingEndpoint1(a) => lemma_encode_decode(*a, b),
            UacInterfaceDescriptor::DatastreamingEndpoint2(a) => lemma_encode_decode(*a, b),
            UacInterfaceDescriptor::DataStreamingEndpoint3(a) => lemma_encode_decode(*a, b),
            UacInterfaceDescriptor::StreamingFormat(a) => a.lemma_payload_kept(protocol, b),
            UacInterfaceDescriptor::StreamingFormatSpecific(a) => a.lemma_payload_kept(b),
            _ => {},
        }
    }

    /// The unit of the lock delay of a data endpoint descriptor.
    pub open spec fn lock_delay_units(&self) -> Option<LockDelayUnits> {
        match self {
            UacInterfaceDescriptor::DataStreamingEndpoint1(ep) => Some(
                LockDelayUnits::of(ep.lock_delay_units),
            ),
            UacInterfaceDescriptor::DatastreamingEndpoint2(ep) => Some(
                LockDelayUnits::of(ep.lock_delay_units),
            ),
            UacInterfaceDescriptor::DataStreamingEndpoint3(ep) => Some(
                LockDelayUnits::of(ep.lock_delay_units),
            ),
            _ => None,
        }
    }

    /// Get the UAC AC interface descriptor from the UAC AC interface
    pub fn from_uac_ac_interface(
        uac_interface: &ControlSubtype,
        protocol: &UacProtocol,
        data: &[u8],
    ) -> (r: Result<Self, Error>)
        ensures
            Self::ac_decoding(*uac_interface, *protocol, data@, r),
    {
        match uac_interface {
            ControlSubtype::Header => match protocol {
                UacProtocol::Uac1 => Ok(UacInterfaceDescriptor::Header1(Header1::decode(data)?)),
                UacProtocol::Uac2 => Ok(UacInterfaceDescriptor::Header2(Header2::decode(data)?)),
                UacProtocol::Uac3 => Ok(UacInterfaceDescriptor::Header3(Header3::decode(data)?)),
                _ => Ok(UacInterfaceDescriptor::Invalid(copy_all(data))),
            },
            ControlSubtype::InputTerminal => match protocol {
                UacProtocol::Uac1 => Ok(
                    UacInterfaceDescriptor::InputTerminal1(InputTerminal1::decode(data)?),
                ),
                UacProtocol::Uac2 => Ok(
                    UacInterfaceDescriptor::InputTerminal2(InputTerminal2::decode(data)?),
                ),
                UacProtocol::Uac3 => Ok(
                    UacInterfaceDescriptor::InputTerminal3(InputTerminal3::decode(data)?),
                ),
                _ => Ok(UacInterfaceDescriptor::Invalid(copy_all(data))),
            },
            ControlSubtype::OutputTerminal => match protocol {
                UacProtocol::Uac1 => Ok(
                    UacInterfaceDescriptor::OutputTerminal1(OutputTerminal1::decode(data)?),
                ),
                UacProtocol::Uac2 => Ok(
                    UacInterfaceDescriptor::OutputTerminal2(OutputTerminal2::decode(data)?),
                ),
                UacProtocol::Uac3 => Ok(
                    UacInterfaceDescriptor::OutputTerminal3(OutputTerminal3::decode(data)?),
                ),
                _ => Ok(UacInterfaceDescriptor::Invalid(copy_all(data))),
            },
            ControlSubtype::ExtendedTerminal => match protocol {
                UacProtocol::Uac3 => Ok(
                    UacInterfaceDescriptor::ExtendedTerminalHeader(ExtendedTerminalHeader::decode(data)?),
                ),
                _ => Ok(UacInterfaceDescriptor::Invalid(copy_all(data))),
            },
            ControlSubtype::PowerDomain => match protocol {
                UacProtocol::Uac3 => Ok(
                    UacInterfaceDescriptor::PowerDomain(PowerDomain::decode(data)?),
                ),
                _ => Ok(UacInterfaceDescriptor::Invalid(copy_all(data))),
            },
            ControlSubtype::MixerUnit => match protocol {
                UacProtocol::Uac1 => Ok(
                    UacInterfaceDescriptor::MixerUnit1(MixerUnit1::decode(data)?),
                ),
                UacProtocol::Uac2 => Ok(
                    UacInterfaceDescriptor::MixerUnit2(MixerUnit2::decode(data)?),
                ),
                UacProtocol::Uac3 => Ok(
                    UacInterfaceDescriptor::MixerUnit3(MixerUnit3::decode(data)?),
                ),
                _ => Ok(UacInterfaceDescriptor::Invalid(copy_all(data))),
            },
            ControlSubtype::SelectorUnit => match protocol {
                UacProtocol::Uac1 => Ok(
                    UacInterfaceDescriptor::SelectorUnit1(SelectorUnit1::decode(data)?),
                ),
                UacProtocol::Uac2 => Ok(
                    UacInterfaceDescriptor::SelectorUnit2(SelectorUnit2::decode(data)?),
                ),
                UacProtocol::Uac3 => Ok(
                    UacInterfaceDescriptor::SelectorUnit3(SelectorUnit3::decode(data)?),
                ),
                _ => Ok(UacInterfaceDescriptor::Invalid(copy_all(data))),
            },
            ControlSubtype::ProcessingUnit => match protocol {
                UacProtocol::Uac1 => Ok(
                    UacInterfaceDescriptor::ProcessingUnit1(ProcessingUnit1::decode(data)?),
                ),
                UacProtocol::Uac2 => Ok(
                    UacInterfaceDescriptor::ProcessingUnit2(ProcessingUnit2::decode(data)?),
                ),
                UacProtocol::Uac3 => Ok(
                    UacInterfaceDescriptor::ProcessingUnit3(ProcessingUnit3::decode(data)?),
                ),
                _ => Ok(UacInterfaceDescriptor::Invalid(copy_all(data))),
            },
            ControlSubtype::EffectUnit => match protocol {
                UacProtocol::Uac2 => Ok(
                    UacInterfaceDescriptor::EffectUnit2(EffectUnit2::decode(data)?),
                ),
                UacProtocol::Uac3 => Ok(
                    UacInterfaceDescriptor::EffectUnit3(EffectUnit3::decode(data)?),
                ),
                _ => Ok(UacInterfaceDescriptor::Invalid(copy_all(data))),
            },
            ControlSubtype::FeatureUnit => match protocol {
                UacProtocol::Uac1 => Ok(
                    UacInterfaceDescriptor::FeatureUnit1(FeatureUnit1::decode(data)?),
                ),
                UacProtocol::Uac2 => Ok(
                    UacInterfaceDescriptor::FeatureUnit2(FeatureUnit2::decode(data)?),
                ),
                UacProtocol::Uac3 => Ok(
                    UacInterfaceDescriptor::FeatureUnit3(FeatureUnit3::decode(data)?),
                ),
                _ => Ok(UacInterfaceDescriptor::Invalid(copy_all(data))),
            },
            ControlSubtype::ExtensionUnit => match protocol {
                UacProtocol::Uac1 => Ok(
                    UacInterfaceDescriptor::ExtensionUnit1(ExtensionUnit1::decode(data)?),
                ),
                UacProtocol::Uac2 => Ok(
                    UacInterfaceDescriptor::ExtensionUnit2(ExtensionUnit2::decode(data)?),
                ),
                UacProtocol::Uac3 => Ok(
                    UacInterfaceDescriptor::ExtensionUnit3(ExtensionUnit3::decode(data)?),
                ),
                _ => Ok(UacInterfaceDescriptor::Invalid(copy_all(data))),
            },
            ControlSubtype::ClockSource => match protocol {
                UacProtocol::Uac2 => Ok(
                    UacInterfaceDescriptor::ClockSource2(ClockSource2::decode(data)?),
                ),
                UacProtocol::Uac3 => Ok(
                    UacInterfaceDescriptor::ClockSource3(ClockSource3::decode(data)?),
                ),
                _ => Ok(UacInterfaceDescriptor::Invalid(copy_all(data))),
            },
            ControlSubtype::ClockSelector => match protocol {
                UacProtocol::Uac2 => Ok(
                    UacInterfaceDescriptor::ClockSelector2(ClockSelector2::decode(data)?),
                ),
                UacProtocol::Uac3 => Ok(
                    UacInterfaceDescriptor::ClockSelector3(ClockSelector3::decode(data)?),
                ),
                _ => Ok(UacInterfaceDescriptor::Invalid(copy_all(data))),
            },
            ControlSubtype::ClockMultiplier => match protocol {
                UacProtocol::Uac2 => Ok(
                    UacInterfaceDescriptor::ClockMultiplier2(ClockMultiplier2::decode(data)?),
                ),
                UacProtocol::Uac3 => Ok(
                    UacInterfaceDescriptor::ClockMultiplier3(ClockMultiplier3::decode(data)?),
                ),
                _ => Ok(UacInterfaceDescriptor::Invalid(copy_all(data))),
            },
            ControlSubtype::SampleRateConverter => match protocol {
                UacProtocol::Uac2 => Ok(
                    UacInterfaceDescriptor::SampleRateConverter2(SampleRateConverter2::decode(data)?),
                ),
                UacProtocol::Uac3 => Ok(
                    UacInterfaceDescriptor::SampleRateConverter3(SampleRateConverter3::decode(data)?),
                ),
                _ => Ok(UacInterfaceDescriptor::Invalid(copy_all(data))),
            },
            ControlSubtype::Undefined => Ok(UacInterfaceDescriptor::Undefined(copy_all(data))),
            ControlSubtype::Connectors => Ok(UacInterfaceDescriptor::Generic(copy_all(data))),
        }
    }

    /// Get the UAC AS interface descriptor from the UAC AS interface
    pub fn from_uac_as_interface(
        uac_interface: &StreamingSubtype,
        protocol: &UacProtocol,
        data: &[u8],
    ) -> (r: Result<Self, Error>)
        ensures
            Self::as_decoding(*uac_interface, *protocol, data@, r),
    {
        match uac_interface {
            // Can be DataStreamingEndpoint or StreamingInterface so check the length
            // since we have no Class context here
            StreamingSubtype::General => match protocol {
                UacProtocol::Uac1 => {
                    if data.len() == DataStreamingEndpoint1::size() {
                        Self::from_uac_as_iso_data_endpoint(protocol, data)
                    } else {
                        Ok(
                            UacInterfaceDescriptor::StreamingInterface1(
                                StreamingInterface1::decode(data)?,
                            ),
                        )
                    }
                },
                UacProtocol::Uac2 => {
                    if data.len() == DataStreamingEndpoint2::size() {
                        Self::from_uac_as_iso_data_endpoint(protocol, data)
                    } else {
                        Ok(
                            UacInterfaceDescriptor::StreamingInterface2(
                                StreamingInterface2::decode(data)?,
                            ),
                        )
                    }
                },
                UacProtocol::Uac3 => {
                    if data.len() == DataStreamingEndpoint3::size() {
                        Self::from_uac_as_iso_data_endpoint(protocol, data)
                    } else {
                        Ok(
                            UacInterfaceDescriptor::StreamingInterface3(
                                StreamingInterface3::decode(data)?,
                            ),
                        )
                    }
                },
                _ => Ok(UacInterfaceDescriptor::Invalid(copy_all(data))),
            },
            StreamingSubtype::FormatType => Ok(
                UacInterfaceDescriptor::StreamingFormat(
                    StreamingFormat::from_uac_as_interface(protocol, data)?,
                ),
            ),
            StreamingSubtype::FormatSpecific => Ok(
                UacInterfaceDescriptor::StreamingFormatSpecific(
                    StreamingFormatSpecific::from_uac_as_interface(protocol, data)?,
                ),
            ),
            StreamingSubtype::Undefined => Ok(UacInterfaceDescriptor::Undefined(copy_all(data))),
        }
    }

    /// Get the UAC Audio Data Endpoint descriptor from the UAC AS interface
    pub fn from_uac_as_iso_data_endpoint(protocol: &UacProtocol, data: &[u8]) -> (r: Result<
        Self,
        Error,
    >)
        ensures
            Self::endpoint_decoding(*protocol, data@, r),
    {
        match protocol {
            UacProtocol::Uac1 => Ok(
                UacInterfaceDescriptor::DataStreamingEndpoint1(
                    DataStreamingEndpoint1::decode(data)?,
                ),
            ),
            UacProtocol::Uac2 => Ok(
                UacInterfaceDescriptor::DatastreamingEndpoint2(
                    DataStreamingEndpoint2::decode(data)?,
                ),
            ),
            UacProtocol::Uac3 => Ok(
                UacInterfaceDescriptor::DataStreamingEndpoint3(
                    DataStreamingEndpoint3::decode(data)?,
                ),
            ),
            // Only endpoint
            _ => Ok(UacInterfaceDescriptor::Invalid(copy_all(data))),
        }
    }

    /// Get bitmap string from the descriptor bit field; each bit corresponds to a string in the array
    pub fn get_bitmap_string(bitmap: u32, strings: &[&str]) -> (chosen: Vec<String>)
        ensures
            names_of(chosen@) == selected(
                bitmap,
                Seq::new(strings@.len(), |i: int| strings@[i]@),
                strings@.len(),
            ),
    {
        let ghost names = Seq::new(strings@.len(), |i: int| strings@[i]@);
        let mut chosen: Vec<String> = Vec::new();
        let mut i: usize = 0;
        assert(names_of(chosen@) =~= selected(bitmap, names, 0));
        while i < strings.len()
            invariant
                i <= strings.len(),
                names == Seq::new(strings@.len(), |i: int| strings@[i]@),
                names_of(chosen@) == selected(bitmap, names, i as nat),
            decreases strings.len() - i,
        {
            if i < 32 && bitmap & (1u32 << (i as u32)) != 0 {
                let ghost before = names_of(chosen@);
                chosen.push(strings[i].to_owned());
                assert(names_of(chosen@) =~= before.push(names[i as int]));
            }
            i = i + 1;
        }
        chosen
    }

    /// Get the [`ChannelNames`] from the descriptor "wChannelConfig" field bitmap
    pub fn get_channel_names(&self, channel_config: u32) -> (names: Vec<ChannelNames>)
        ensures
            names@ == ChannelNames::selected(self.protocol(), channel_config),
    {
        ChannelNames::from_bitmap(&self.get_protocol(), channel_config)
    }

    /// Get USB Audio Device Class channel names from the descriptor
    /// "wChannelConfig" field bitmap string based on the protocol
    pub fn get_channel_name_strings(protocol: &UacProtocol, channel_config: u32) -> (names: Vec<
        String,
    >)
        ensures
            names_of(names@) == ChannelNames::selected(*protocol, channel_config).map_values(
                |name: ChannelNames| name.label(),
            ),
    {
        let chosen = ChannelNames::from_bitmap(protocol, channel_config);
        let mut names: Vec<String> = Vec::new();
        let mut i: usize = 0;
        assert(names_of(names@) =~= chosen@.take(0).map_values(|name: ChannelNames| name.label()));
        while i < chosen.len()
            invariant
                i <= chosen.len(),
                names_of(names@) == chosen@.take(i as int).map_values(
                    |name: ChannelNames| name.label(),
                ),
            decreases chosen.len() - i,
        {
            let ghost before = names_of(names@);
            names.push(chosen[i].to_string());
            assert(names_of(names@) =~= before.push(chosen@[i as int].label()));
            i = i + 1;
            assert(chosen@.take(i as int).map_values(|name: ChannelNames| name.label())
                =~= before.push(chosen@[i - 1].label()));
        }
        assert(chosen@.take(i as int) =~= chosen@);
        names
    }

    /// Get the [`LockDelayUnits`] from the descriptor if it has the field
    pub fn get_lock_delay_units(&self) -> (units: Option<LockDelayUnits>)
        ensures
            units == self.lock_delay_units(),
    {
        match self {
            UacInterfaceDescriptor::DataStreamingEndpoint1(ep) => Some(ep.lock_delay_units()),
            UacInterfaceDescriptor::DatastreamingEndpoint2(ep) => Some(ep.lock_delay_units()),
            UacInterfaceDescriptor::DataStreamingEndpoint3(ep) => Some(ep.lock_delay_units()),
            _ => None,
        }
    }

    /// Get the [`UacProtocol`] version for the interface descriptor
    pub fn get_protocol(&self) -> (protocol: UacProtocol)
        ensures
            protocol == self.protocol(),
    {
        match self {
            UacInterfaceDescriptor::Header1(_)
            | UacInterfaceDescriptor::InputTerminal1(_)
            | UacInterfaceDescriptor::OutputTerminal1(_)
            | UacInterfaceDescriptor::MixerUnit1(_)
            | UacInterfaceDescriptor::SelectorUnit1(_)
            | UacInterfaceDescriptor::ProcessingUnit1(_)
            | UacInterfaceDescriptor::FeatureUnit1(_)
            | UacInterfaceDescriptor::ExtensionUnit1(_) => UacProtocol::Uac1,
            UacInterfaceDescriptor::Header2(_)
            | UacInterfaceDescriptor::InputTerminal2(_)
            | UacInterfaceDescriptor::OutputTerminal2(_)
            | UacInterfaceDescriptor::MixerUnit2(_)
            | UacInterfaceDescriptor::SelectorUnit2(_)
            | UacInterfaceDescriptor::ProcessingUnit2(_)
            | UacInterfaceDescriptor::EffectUnit2(_)
            | UacInterfaceDescriptor::FeatureUnit2(_)
            | UacInterfaceDescriptor::ExtensionUnit2(_)
            | UacInterfaceDescriptor::ClockSource2(_)
            | UacInterfaceDescriptor::ClockSelector2(_)
            | UacInterfaceDescriptor::ClockMultiplier2(_)
            | UacInterfaceDescriptor::SampleRateConverter2(_)
            | UacInterfaceDescriptor::StreamingInterface2(_)
            | UacInterfaceDescriptor::DatastreamingEndpoint2(_) => UacProtocol::Uac2,
            UacInterfaceDescriptor::Header3(_)
            | UacInterfaceDescriptor::InputTerminal3(_)
            | UacInterfaceDescriptor::OutputTerminal3(_)
            | UacInterfaceDescriptor::ExtendedTerminalHeader(_)
            | UacInterfaceDescriptor::PowerDomain(_)
            | UacInterfaceDescriptor::MixerUnit3(_)
            | UacInterfaceDescriptor::SelectorUnit3(_)
            | UacInterfaceDescriptor::ProcessingUnit3(_)
            | UacInterfaceDescriptor::EffectUnit3(_)
            | UacInterfaceDescriptor::FeatureUnit3(_)
            | UacInterfaceDescriptor::ExtensionUnit3(_)
            | UacInterfaceDescriptor::ClockSource3(_)
            | UacInterfaceDescriptor::ClockSelector3(_)
            | UacInterfaceDescriptor::ClockMultiplier3(_)
            | UacInterfaceDescriptor::SampleRateConverter3(_)
            | UacInterfaceDescriptor::StreamingInterface3(_)
            | UacInterfaceDescriptor::DataStreamingEndpoint3(_) => UacProtocol::Uac3,
            _ => UacProtocol::Unknown(0xff),
        }
    }

    /// Encodes `self`.
    pub fn encode(&self) -> (bytes: Vec<u8>)
        ensures
            bytes@ == self.encoding(),
    {
        match self {
            UacInterfaceDescriptor::Header1(a) => a.encode(),
            UacInterfaceDescriptor::Header2(a) => a.encode(),
            UacInterfaceDescriptor::Header3(a) => a.encode(),
            UacInterfaceDescriptor::InputTerminal1(a) => a.encode(),
            UacInterfaceDescriptor::InputTerminal2(a) => a.encode(),
            UacInterfaceDescriptor::InputTerminal3(a) => a.encode(),
            UacInterfaceDescriptor::OutputTerminal1(a) => a.encode(),
            UacInterfaceDescriptor::OutputTerminal2(a) => a.encode(),
            UacInterfaceDescriptor::OutputTerminal3(a) => a.encode(),
            UacInterfaceDescriptor::ExtendedTerminalHeader(a) => a.encode(),
            UacInterfaceDescriptor::PowerDomain(a) => a.encode(),
            UacInterfaceDescriptor::MixerUnit1(a) => a.encode(),
            UacInterfaceDescriptor::MixerUnit2(a) => a.encode(),
            UacInterfaceDescriptor::MixerUnit3(a) => a.encode(),
            UacInterfaceDescriptor::SelectorUnit1(a) => a.encode(),
            UacInterfaceDescriptor::SelectorUnit2(a) => a.encode(),
            UacInterfaceDescriptor::SelectorUnit3(a) => a.encode(),
            UacInterfaceDescriptor::ProcessingUnit1(a) => a.encode(),
            UacInterfaceDescriptor::ProcessingUnit2(a) => a.encode(),
            UacInterfaceDescriptor::ProcessingUnit3(a) => a.encode(),
            UacInterfaceDescriptor::EffectUnit2(a) => a.encode(),
            UacInterfaceDescriptor::EffectUnit3(a) => a.encode(),
            UacInterfaceDescriptor::FeatureUnit1(a) => a.encode(),
            UacInterfaceDescriptor::FeatureUnit2(a) => a.encode(),
            UacInterfaceDescriptor::FeatureUnit3(a) => a.encode(),
            UacInterfaceDescriptor::ExtensionUnit1(a) => a.encode(),
            UacInterfaceDescriptor::ExtensionUnit2(a) => a.encode(),
            UacInterfaceDescriptor::ExtensionUnit3(a) => a.encode(),
            UacInterfaceDescriptor::ClockSource2(a) => a.encode(),
            UacInterfaceDescriptor::ClockSource3(a) => a.encode(),
            UacInterfaceDescriptor::ClockSelector2(a) => a.encode(),
            UacInterfaceDescriptor::ClockSelector3(a) => a.encode(),
            UacInterfaceDescriptor::ClockMultiplier2(a) => a.encode(),
            UacInterfaceDescriptor::ClockMultiplier3(a) => a.encode(),
            UacInterfaceDescriptor::SampleRateConverter2(a) => a.encode(),
            UacInterfaceDescriptor::SampleRateConverter3(a) => a.encode(),
            UacInterfaceDescriptor::StreamingInterface1(a) => a.encode(),
            UacInterfaceDescriptor::StreamingInterface2(a) => a.encode(),
            UacInterfaceDescriptor::StreamingInterface3(a) => a.encode(),
            UacInterfaceDescriptor::StreamingFormat(a) => a.encode(),
            UacInterfaceDescriptor::StreamingFormatSpecific(a) => a.encode(),
            UacInterfaceDescriptor::DataStreamingEndpoint1(a) => a.encode(),
            UacInterfaceDescriptor::DatastreamingEndpoint2(a) => a.encode(),
            UacInterfaceDescriptor::DataStreamingEndpoint3(a) => a.encode(),
            UacInterfaceDescriptor::Invalid(a) => copy_bytes(a),
            UacInterfaceDescriptor::Generic(a) => copy_bytes(a),
            UacInterfaceDescriptor::Undefined(a) => copy_bytes(a),
        }
    }
}

/// Base USB Audio Class (UAC) interface descriptor that contains [`UacType`]
/// and [`UacInterfaceDescriptor`]
#[derive(Debug, Clone, PartialEq, Eq, Hash)]
pub struct UacDescriptor {
    pub length: u8,
    pub descriptor_type: u8,
    /// The sub type byte as it stands in the descriptor. The protocols number
    /// the sub types in their own ways, so this is what is written back.
    pub subtype_byte: u8,
    /// The sub type that the byte stands for under the protocol of the interface.
    pub descriptor_subtype: UacType,
    pub interface: UacInterfaceDescriptor,
}

impl UacDescriptor {
    /// What decoding the generic descriptor `gd` of an interface of the sub
    /// class `subc` under the protocol byte `p` may return.
    pub open spec fn decoding(
        gd: GenericDescriptor,
        subc: u8,
        p: u8,
        r: Result<UacDescriptor, Error>,
    ) -> bool {
        match UacType::of(subc, gd.descriptor_subtype, p) {
            Err(e) => r == Err::<UacDescriptor, Error>(e),
            Ok(subtype) => match gd.data {
                None => r == Err::<UacDescriptor, Error>(Error::MissingData),
                Some(data) => {
                    &&& r matches Ok(d)
                    &&& d.length == gd.length
                    &&& d.descriptor_type == gd.descriptor_type
                    &&& d.subtype_byte == gd.descriptor_subtype
                    &&& d.descriptor_subtype == subtype
                    &&& subtype.generic_decoded(p, data@, d.interface)
                },
            },
        }
    }

    /// The bytes of `self` on the wire: its length, its type, the sub type
    /// byte that it was read with, and its payload.
    pub open spec fn encoding(&self) -> Seq<u8> {
        seq![self.length, self.descriptor_type, self.subtype_byte] + self.interface.encoding()
    }

    /// The sub type byte of `self` stands for its sub type in an interface of
    /// the sub class `subc` under the protocol byte `p`.
    pub open spec fn wf_under(&self, subc: u8, p: u8) -> bool {
        UacType::of(subc, self.subtype_byte, p) == Ok::<UacType, Error>(self.descriptor_subtype)
    }

    /// What was decoded from a generic descriptor encodes to the bytes of the
    /// generic descriptor, whatever the protocol makes of the sub type byte;
    /// and that byte stands for the sub type under the protocol.
    pub proof fn lemma_descriptor_kept(&self, gd: GenericDescriptor, subc: u8, p: u8)
        requires
            gd.wf(),
            Self::decoding(gd, subc, p, Ok(*self)),
            self.interface.exact(gd.data->0@),
        ensures
            self.encoding() == gd.encoding(),
            self.wf_under(subc, p),
    {
        let b = gd.data->0@;
        let protocol = UacProtocol::of(p);
        match self.descriptor_subtype {
            UacType::Control(aci) => {
                if UacInterfaceDescriptor::ac_decoding(aci, protocol, b, Ok(self.interface)) {
                    self.interface.lemma_ac_payload_kept(aci, protocol, b);
                }
            },
            UacType::Streaming(asi) => {
                if UacInterfaceDescriptor::as_decoding(asi, protocol, b, Ok(self.interface)) {
                    self.interface.lemma_as_payload_kept(asi, protocol, b);
                }
            },
            UacType::Midi(_) => {},
        }
        assert(self.interface.encoding() == b);
        assert(self.encoding() =~= gd.encoding());
    }

    /// Try from ([`GenericDescriptor`], SubClass, Protocol)
    pub fn try_from(gd: GenericDescriptor, subc: u8, p: u8) -> (r: Result<Self, Error>)
        ensures
            Self::decoding(gd, subc, p, r),
    {
        let length = gd.length;
        let descriptor_type = gd.descriptor_type;
        let subtype_byte = gd.descriptor_subtype;
        let descriptor_subtype = UacType::try_from((subc, subtype_byte, p))?;
        let interface = descriptor_subtype.uac_descriptor_from_generic(gd, p)?;
        Ok(UacDescriptor { length, descriptor_type, subtype_byte, descriptor_subtype, interface })
    }

    /// Get the [`UacProtocol`] for the attached UAC interface
    pub fn get_protocol(&self) -> (protocol: UacProtocol)
        ensures
            protocol == self.interface.protocol(),
    {
        self.interface.get_protocol()
    }

    /// Encodes `self`.
    pub fn encode(&self) -> (bytes: Vec<u8>)
        ensures
            bytes@ == self.encoding(),
    {
        let mut data: Vec<u8> = Vec::new();
        data.push(self.length);
        data.push(self.descriptor_type);
        data.push(self.subtype_byte);
        let interface = self.interface.encode();
        data.extend_from_slice(interface.as_slice());
        data
    }
}

impl ControlSubtype {
    /// The name of `self`.
    pub open spec fn label(self) -> Seq<char> {
        match self {
            ControlSubtype::Undefined => "Undefined"@,
            ControlSubtype::Header => "Header"@,
            ControlSubtype::InputTerminal => "InputTerminal"@,
            ControlSubtype::OutputTerminal => "OutputTerminal"@,
            ControlSubtype::ExtendedTerminal => "ExtendedTerminal"@,
            ControlSubtype::MixerUnit => "MixerUnit"@,
            ControlSubtype::SelectorUnit => "SelectorUnit"@,
            ControlSubtype::FeatureUnit => "FeatureUnit"@,
            ControlSubtype::EffectUnit => "EffectUnit"@,
            ControlSubtype::ProcessingUnit => "ProcessingUnit"@,
            ControlSubtype::ExtensionUnit => "ExtensionUnit"@,
            ControlSubtype::ClockSource => "ClockSource"@,
            ControlSubtype::ClockSelector => "ClockSelector"@,
            ControlSubtype::ClockMultiplier => "ClockMultiplier"@,
            ControlSubtype::SampleRateConverter => "SampleRateConverter"@,
            ControlSubtype::Connectors => "Connectors"@,
            ControlSubtype::PowerDomain => "PowerDomain"@,
        }
    }

    /// The name of `self`.
    pub fn to_string(&self) -> (s: String)
        ensures
            s@ == self.label(),
    {
        match self {
            ControlSubtype::Undefined => "Undefined".to_owned(),
            ControlSubtype::Header => "Header".to_owned(),
            ControlSubtype::InputTerminal => "InputTerminal".to_owned(),
            ControlSubtype::OutputTerminal => "OutputTerminal".to_owned(),
            ControlSubtype::ExtendedTerminal => "ExtendedTerminal".to_owned(),
            ControlSubtype::MixerUnit => "MixerUnit".to_owned(),
            ControlSubtype::SelectorUnit => "SelectorUnit".to_owned(),
            ControlSubtype::FeatureUnit => "FeatureUnit".to_owned(),
            ControlSubtype::EffectUnit => "EffectUnit".to_owned(),
            ControlSubtype::ProcessingUnit => "ProcessingUnit".to_owned(),
            ControlSubtype::ExtensionUnit => "ExtensionUnit".to_owned(),
            ControlSubtype::ClockSource => "ClockSource".to_owned(),
            ControlSubtype::ClockSelector => "ClockSelector".to_owned(),
            ControlSubtype::ClockMultiplier => "ClockMultiplier".to_owned(),
            ControlSubtype::SampleRateConverter => "SampleRateConverter".to_owned(),
            ControlSubtype::Connectors => "Connectors".to_owned(),
            ControlSubtype::PowerDomain => "PowerDomain".to_owned(),
        }
    }

    /// The name of `self` as the list of descriptors of `lsusb` has it.
    pub open spec fn lsusb_label(self) -> Seq<char> {
        match self {
            ControlSubtype::Undefined => "unknown"@,
            _ => shouty_snake_case(self.label()),
        }
    }

    /// The name of `self` as the list of descriptors of `lsusb` has it.
    pub fn to_lsusb_string(&self) -> (s: String)
        ensures
            s@ == self.lsusb_label(),
    {
        match self {
            ControlSubtype::Undefined => "unknown".to_owned(),
            _ => to_shouty_snake_case(self.to_string().as_str()),
        }
    }
}

impl StreamingSubtype {
    /// The name of `self`.
    pub open spec fn label(self) -> Seq<char> {
        match self {
            StreamingSubtype::Undefined => "Undefined"@,
            StreamingSubtype::General => "General"@,
            StreamingSubtype::FormatType => "FormatType"@,
            StreamingSubtype::FormatSpecific => "FormatSpecific"@,
        }
    }

    /// The name of `self`.
    pub fn to_string(&self) -> (s: String)
        ensures
            s@ == self.label(),
    {
        match self {
            StreamingSubtype::Undefined => "Undefined".to_owned(),
            StreamingSubtype::General => "General".to_owned(),
            StreamingSubtype::FormatType => "FormatType".to_owned(),
            StreamingSubtype::FormatSpecific => "FormatSpecific".to_owned(),
        }
    }

    /// The name of `self` as the list of descriptors of `lsusb` has it.
    pub open spec fn lsusb_label(self) -> Seq<char> {
        match self {
            _ => shouty_snake_case(self.label()),
        }
    }

    /// The name of `self` as the list of descriptors of `lsusb` has it.
    pub fn to_lsusb_string(&self) -> (s: String)
        ensures
            s@ == self.lsusb_label(),
    {
        match self {
            _ => to_shouty_snake_case(self.to_string().as_str()),
        }
    }
}

impl UacProtocol {
    /// The name of `self`.
    pub open spec fn label(self) -> Seq<char> {
        match self {
            UacProtocol::Uac1 => "UAC1"@,
            UacProtocol::Uac2 => "UAC2"@,
            UacProtocol::Uac3 => "UAC3"@,
            UacProtocol::Unknown(_) => "Unknown"@,
        }
    }

    /// The name of `self`.
    pub fn to_string(&self) -> (s: String)
        ensures
            s@ == self.label(),
    {
        match self {
            UacProtocol::Uac1 => "UAC1".to_owned(),
            UacProtocol::Uac2 => "UAC2".to_owned(),
            UacProtocol::Uac3 => "UAC3".to_owned(),
            UacProtocol::Unknown(_) => "Unknown".to_owned(),
        }
    }
}

impl ControlSetting {
    /// The name of `self`.
    pub open spec fn label(self) -> Seq<char> {
        match self {
            ControlSetting::ReadOnly => "read-only"@,
            ControlSetting::IllegalValue => "ILLEGAL VALUE (0b10)"@,
            ControlSetting::ReadWrite => "read/write"@,
        }
    }

    /// The name of `self`.
    pub fn to_string(&self) -> (s: String)
        ensures
            s@ == self.label(),
    {
        match self {
            ControlSetting::ReadOnly => "read-only".to_owned(),
            ControlSetting::IllegalValue => "ILLEGAL VALUE (0b10)".to_owned(),
            ControlSetting::ReadWrite => "read/write".to_owned(),
        }
    }
}

impl UacType {
    /// The name of the sub type that `self` holds.
    pub open spec fn label(self) -> Seq<char> {
        match self {
            UacType::Control(aci) => aci.label(),
            UacType::Streaming(asi) => asi.label(),
            UacType::Midi(mi) => mi.label(),
        }
    }

    /// The name of the sub type that `self` holds, as the list of descriptors
    /// of `lsusb` has it.
    pub open spec fn lsusb_label(self) -> Seq<char> {
        match self {
            UacType::Control(aci) => aci.lsusb_label(),
            UacType::Streaming(asi) => asi.lsusb_label(),
            UacType::Midi(mi) => mi.lsusb_label(),
        }
    }

    /// The name of the sub type that `self` holds.
    pub fn to_string(&self) -> (s: String)
        ensures
            s@ == self.label(),
    {
        match self {
            UacType::Control(aci) => aci.to_string(),
            UacType::Streaming(asi) => asi.to_string(),
            UacType::Midi(mi) => mi.to_string(),
        }
    }

    /// The name of the sub type that `self` holds, as the list of descriptors
    /// of `lsusb` has it.
    pub fn to_lsusb_string(&self) -> (s: String)
        ensures
            s@ == self.lsusb_label(),
    {
        match self {
            UacType::Control(aci) => aci.to_lsusb_string(),
            UacType::Streaming(asi) => asi.to_lsusb_string(),
            UacType::Midi(mi) => mi.to_lsusb_string(),
        }
    }
}

} // verus!
