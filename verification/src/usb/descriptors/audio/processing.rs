//! The processing units of an audio control interface.
use crate::error::Error;
use crate::usb::descriptors::audio::UacProtocol;
use crate::usb::descriptors::audio::channel::{select, selected};
use crate::wire::{
    copy_range, lemma_digits_low, lemma_own_fields_kept, lemma_u16_bytes_le,
    lemma_u16_le_bytes, lemma_u16s_at_bytes, lemma_u16s_bytes_at, lemma_u32_bytes_le,
    lemma_u32_le_bytes, lemma_u32s_at_bytes, lemma_u32s_bytes_at, push_u16, push_u16s,
    push_u32, push_u32s, read_u16, read_u16s, read_u32, read_u32s, u16_bytes, u16_le, u16s_at,
    u16s_bytes, u32_bytes, u32_le, u32s_at, u32s_bytes, DescriptorShape,
};
use vstd::prelude::*;
use vstd::std_specs::convert::FromSpecImpl;

verus! {

/// UAC1: Up/Down-mix and Dolby Prologic proc unit descriptor extensions Table 4-9, Table 4-10.
/// The modes run to the end of the payload.
#[derive(Debug, Clone, PartialEq, Eq, Hash)]
pub struct AudioProcessingUnitExtended1 {
    pub nr_modes: u8,
    pub modes: Vec<u16>,
}

impl DescriptorShape for AudioProcessingUnitExtended1 {
    open spec fn name() -> &'static str {
        "AudioProcessingUnitExtended1"
    }

    open spec fn min_len() -> nat {
        3
    }

    open spec fn wire_len(b: Seq<u8>) -> nat {
        if b.len() < 3 {
            3
        } else {
            (1 + 2 * ((b.len() - 1) / 2)) as nat
        }
    }

    open spec fn decoded_from(&self, b: Seq<u8>) -> bool {
        let count = (b.len() - 1) / 2;
        &&& self.nr_modes == b[0]
        &&& self.modes@ == u16s_at(b, 1, count)
    }

    open spec fn wf(&self) -> bool {
        self.modes@.len() >= 1
    }

    open spec fn encoding(&self) -> Seq<u8> {
        seq![self.nr_modes] + u16s_bytes(self.modes@)
    }

    fn decode(value: &[u8]) -> (r: Result<Self, Error>) {
        if value.len() < 3 {
            return Err(Error::new_descriptor_len("AudioProcessingUnitExtended1", 3, value.len()));
        }
        let count: usize = (value.len() - 1) / 2;
        Ok(
            AudioProcessingUnitExtended1 {
                nr_modes: value[0],
                modes: read_u16s(value, 1, count),
            },
        )
    }

    fn encode(&self) -> (bytes: Vec<u8>) {
        let mut data: Vec<u8> = Vec::new();
        data.push(self.nr_modes);
        push_u16s(&mut data, &self.modes);
        data
    }

    #[verifier::rlimit(40)]
    proof fn lemma_decode_encoded(&self) {
        let e = self.encoding();
        let count = self.modes@.len() as int;
        assert(u16s_bytes(self.modes@).len() == 2 * count);
        assert(e.len() == 1 + 2 * count);
        assert(e.subrange(1, 1 + 2 * count) =~= u16s_bytes(self.modes@));
        lemma_u16s_at_bytes(e, 1, self.modes@);
    }

    proof fn lemma_encode_decoded(&self, b: Seq<u8>) {
        let count = (b.len() - 1) / 2;
        lemma_u16s_bytes_at(b, 1, count);
        assert(self.encoding() =~= b.subrange(0, Self::wire_len(b) as int));
    }
}

/// UAC2: 4.7.2.11.1 Up/Down-mix Processing Unit Descriptor; Table 4-21.
/// The modes run to the end of the payload.
#[derive(Debug, Clone, PartialEq, Eq, Hash)]
pub struct AudioProcessingUnit2UpDownMix {
    pub nr_modes: u8,
    pub modes: Vec<u32>,
}

impl DescriptorShape for AudioProcessingUnit2UpDownMix {
    open spec fn name() -> &'static str {
        "AudioProcessingUnit2UpDownMix"
    }

    open spec fn min_len() -> nat {
        5
    }

    open spec fn wire_len(b: Seq<u8>) -> nat {
        if b.len() < 5 {
            5
        } else {
            (1 + 4 * ((b.len() - 1) / 4)) as nat
        }
    }

    open spec fn decoded_from(&self, b: Seq<u8>) -> bool {
        let count = (b.len() - 1) / 4;
        &&& self.nr_modes == b[0]
        &&& self.modes@ == u32s_at(b, 1, count)
    }

    open spec fn wf(&self) -> bool {
        self.modes@.len() >= 1
    }

    open spec fn encoding(&self) -> Seq<u8> {
        seq![self.nr_modes] + u32s_bytes(self.modes@)
    }

    fn decode(value: &[u8]) -> (r: Result<Self, Error>) {
        if value.len() < 5 {
            return Err(Error::new_descriptor_len("AudioProcessingUnit2UpDownMix", 5, value.len()));
        }
        let count: usize = (value.len() - 1) / 4;
        Ok(
            AudioProcessingUnit2UpDownMix {
                nr_modes: value[0],
                modes: read_u32s(value, 1, count),
            },
        )
    }

    fn encode(&self) -> (bytes: Vec<u8>) {
        let mut data: Vec<u8> = Vec::new();
        data.push(self.nr_modes);
        push_u32s(&mut data, &self.modes);
        data
    }

    #[verifier::rlimit(40)]
    proof fn lemma_decode_encoded(&self) {
        let e = self.encoding();
        let count = self.modes@.len() as int;
        assert(u32s_bytes(self.modes@).len() == 4 * count);
        assert(e.len() == 1 + 4 * count);
        assert(e.subrange(1, 1 + 4 * count) =~= u32s_bytes(self.modes@));
        lemma_u32s_at_bytes(e, 1, self.modes@);
    }

    proof fn lemma_encode_decoded(&self, b: Seq<u8>) {
        let count = (b.len() - 1) / 4;
        lemma_u32s_bytes_at(b, 1, count);
        assert(self.encoding() =~= b.subrange(0, Self::wire_len(b) as int));
    }
}

/// UAC2: 4.7.2.11.2 Dolby prologic Processing Unit Descriptor; Table 4-22.
/// The modes run to the end of the payload.
#[derive(Debug, Clone, PartialEq, Eq, Hash)]
pub struct AudioProcessingUnit2DolbyPrologic {
    pub nr_modes: u8,
    pub modes: Vec<u32>,
}

impl DescriptorShape for AudioProcessingUnit2DolbyPrologic {
    open spec fn name() -> &'static str {
        "AudioProcessingUnit2DolbyPrologic"
    }

    open spec fn min_len() -> nat {
        5
    }

    open spec fn wire_len(b: Seq<u8>) -> nat {
        if b.len() < 5 {
            5
        } else {
            (1 + 4 * ((b.len() - 1) / 4)) as nat
        }
    }

    open spec fn decoded_from(&self, b: Seq<u8>) -> bool {
        let count = (b.len() - 1) / 4;
        &&& self.nr_modes == b[0]
        &&& self.modes@ == u32s_at(b, 1, count)
    }

    open spec fn wf(&self) -> bool {
        self.modes@.len() >= 1
    }

    open spec fn encoding(&self) -> Seq<u8> {
        seq![self.nr_modes] + u32s_bytes(self.modes@)
    }

    fn decode(value: &[u8]) -> (r: Result<Self, Error>) {
        if value.len() < 5 {
            return Err(Error::new_descriptor_len("AudioProcessingUnit2DolbyPrologic", 5, value.len()));
        }
        let count: usize = (value.len() - 1) / 4;
        Ok(
            AudioProcessingUnit2DolbyPrologic {
                nr_modes: value[0],
                modes: read_u32s(value, 1, count),
            },
        )
    }

    fn encode(&self) -> (bytes: Vec<u8>) {
        let mut data: Vec<u8> = Vec::new();
        data.push(self.nr_modes);
        push_u32s(&mut data, &self.modes);
        data
    }

    #[verifier::rlimit(40)]
    proof fn lemma_decode_encoded(&self) {
        let e = self.encoding();
        let count = self.modes@.len() as int;
        assert(u32s_bytes(self.modes@).len() == 4 * count);
        assert(e.len() == 1 + 4 * count);
        assert(e.subrange(1, 1 + 4 * count) =~= u32s_bytes(self.modes@));
        lemma_u32s_at_bytes(e, 1, self.modes@);
    }

    proof fn lemma_encode_decoded(&self, b: Seq<u8>) {
        let count = (b.len() - 1) / 4;
        lemma_u32s_bytes_at(b, 1, count);
        assert(self.encoding() =~= b.subrange(0, Self::wire_len(b) as int));
    }
}

/// UAC3: 4.5.2.10.1 Up/Down-mix Processing Unit Descriptor; Table 4-39.
/// The cluster descriptor ids run to the end of the payload.
#[derive(Debug, Clone, PartialEq, Eq, Hash)]
pub struct AudioProcessingUnit3UpDownMix {
    pub controls: u32,
    pub nr_modes: u8,
    pub cluster_descr_ids: Vec<u16>,
}

impl DescriptorShape for AudioProcessingUnit3UpDownMix {
    open spec fn name() -> &'static str {
        "AudioProcessingUnit3UpDownMix"
    }

    open spec fn min_len() -> nat {
        7
    }

    open spec fn wire_len(b: Seq<u8>) -> nat {
        if b.len() < 7 {
            7
        } else {
            (5 + 2 * ((b.len() - 5) / 2)) as nat
        }
    }

    open spec fn decoded_from(&self, b: Seq<u8>) -> bool {
        let count = (b.len() - 5) / 2;
        &&& self.controls == u32_le(b, 0)
        &&& self.nr_modes == b[4]
        &&& self.cluster_descr_ids@ == u16s_at(b, 5, count)
    }

    open spec fn wf(&self) -> bool {
        self.cluster_descr_ids@.len() >= 1
    }

    open spec fn encoding(&self) -> Seq<u8> {
        u32_bytes(self.controls) + seq![self.nr_modes] + u16s_bytes(self.cluster_descr_ids@)
    }

    fn decode(value: &[u8]) -> (r: Result<Self, Error>) {
        if value.len() < 7 {
            return Err(Error::new_descriptor_len("AudioProcessingUnit3UpDownMix", 7, value.len()));
        }
        let count: usize = (value.len() - 5) / 2;
        Ok(
            AudioProcessingUnit3UpDownMix {
                controls: read_u32(value, 0),
                nr_modes: value[4],
                cluster_descr_ids: read_u16s(value, 5, count),
            },
        )
    }

    fn encode(&self) -> (bytes: Vec<u8>) {
        let mut data: Vec<u8> = Vec::new();
        push_u32(&mut data, self.controls);
        data.push(self.nr_modes);
        push_u16s(&mut data, &self.cluster_descr_ids);
        data
    }

    #[verifier::rlimit(40)]
    proof fn lemma_decode_encoded(&self) {
        let e = self.encoding();
        let count = self.cluster_descr_ids@.len() as int;
        assert(u16s_bytes(self.cluster_descr_ids@).len() == 2 * count);
        assert(e.len() == 5 + 2 * count);
        assert(e.subrange(0, 4) =~= u32_bytes(self.controls));
        lemma_u32_le_bytes(e, 0, self.controls);
        assert(e.subrange(5, 5 + 2 * count) =~= u16s_bytes(self.cluster_descr_ids@));
        lemma_u16s_at_bytes(e, 5, self.cluster_descr_ids@);
    }

    proof fn lemma_encode_decoded(&self, b: Seq<u8>) {
        let count = (b.len() - 5) / 2;
        lemma_u32_bytes_le(b, 0);
        lemma_u16s_bytes_at(b, 5, count);
        assert(self.encoding() =~= b.subrange(0, Self::wire_len(b) as int));
    }
}

/// UAC3: 4.5.2.10.2 Stereo Extender Processing Unit Descriptor; Table 4-40.
#[derive(Debug, Clone, PartialEq, Eq, Hash)]
pub struct AudioProcessingUnit3StereoExtender {
    pub controls: u32,
}

impl DescriptorShape for AudioProcessingUnit3StereoExtender {
    open spec fn name() -> &'static str {
        "AudioProcessingUnit3StereoExtender"
    }

    open spec fn min_len() -> nat {
        4
    }

    open spec fn wire_len(b: Seq<u8>) -> nat {
        4
    }

    open spec fn decoded_from(&self, b: Seq<u8>) -> bool {
        &&& self.controls == u32_le(b, 0)
    }

    open spec fn encoding(&self) -> Seq<u8> {
        u32_bytes(self.controls)
    }

    fn decode(value: &[u8]) -> (r: Result<Self, Error>) {
        if value.len() < 4 {
            return Err(Error::new_descriptor_len("AudioProcessingUnit3StereoExtender", 4, value.len()));
        }
        Ok(
            AudioProcessingUnit3StereoExtender {
                controls: read_u32(value, 0),
            },
        )
    }

    fn encode(&self) -> (bytes: Vec<u8>) {
        let mut data: Vec<u8> = Vec::new();
        push_u32(&mut data, self.controls);
        data
    }

    proof fn lemma_decode_encoded(&self) {
        let e = self.encoding();
        assert(e.subrange(0, 4) =~= u32_bytes(self.controls));
        lemma_u32_le_bytes(e, 0, self.controls);
    }

    proof fn lemma_encode_decoded(&self, b: Seq<u8>) {
        lemma_u32_bytes_le(b, 0);
        assert(self.encoding() =~= b.subrange(0, Self::wire_len(b) as int));
    }
}

/// UAC3: 4.5.2.10.3 Multi Function Processing Unit Descriptor; Table 4-41.
#[derive(Debug, Clone, PartialEq, Eq, Hash)]
pub struct AudioProcessingUnit3MultiFunction {
    pub controls: u32,
    pub cluster_descr_id: u16,
    pub algorithms: u32,
}

impl DescriptorShape for AudioProcessingUnit3MultiFunction {
    open spec fn name() -> &'static str {
        "AudioProcessingUnit3MultiFunction"
    }

    open spec fn min_len() -> nat {
        10
    }

    open spec fn wire_len(b: Seq<u8>) -> nat {
        10
    }

    open spec fn decoded_from(&self, b: Seq<u8>) -> bool {
        &&& self.controls == u32_le(b, 0)
        &&& self.cluster_descr_id == u16_le(b, 4)
        &&& self.algorithms == u32_le(b, 6)
    }

    open spec fn encoding(&self) -> Seq<u8> {
        u32_bytes(self.controls) + u16_bytes(self.cluster_descr_id) + u32_bytes(self.algorithms)
    }

    fn decode(value: &[u8]) -> (r: Result<Self, Error>) {
        if value.len() < 10 {
            return Err(Error::new_descriptor_len("AudioProcessingUnit3MultiFunction", 10, value.len()));
        }
        Ok(
            AudioProcessingUnit3MultiFunction {
                controls: read_u32(value, 0),
                cluster_descr_id: read_u16(value, 4),
                algorithms: read_u32(value, 6),
            },
        )
    }

    fn encode(&self) -> (bytes: Vec<u8>) {
        let mut data: Vec<u8> = Vec::new();
        push_u32(&mut data, self.controls);
        push_u16(&mut data, self.cluster_descr_id);
        push_u32(&mut data, self.algorithms);
        data
    }

    proof fn lemma_decode_encoded(&self) {
        let e = self.encoding();
        assert(e.subrange(0, 4) =~= u32_bytes(self.controls));
        lemma_u32_le_bytes(e, 0, self.controls);
        assert(e.subrange(4, 6) =~= u16_bytes(self.cluster_descr_id));
        lemma_u16_le_bytes(e, 4, self.cluster_descr_id);
        assert(e.subrange(6, 10) =~= u32_bytes(self.algorithms));
        lemma_u32_le_bytes(e, 6, self.algorithms);
    }

    proof fn lemma_encode_decoded(&self, b: Seq<u8>) {
        lemma_u32_bytes_le(b, 0);
        lemma_u32_bytes_le(b, 6);
        assert(self.encoding() =~= b.subrange(0, Self::wire_len(b) as int));
    }
}

/// What a processing unit does to the audio, as its process type says under a protocol.
#[derive(Debug, Clone, Copy, PartialEq, Eq, Hash)]
pub enum AudioProcessingUnitType {
    Undefined,
    UpDownMix,
    DolbyPrologic,
    StereoExtender3d,
    StereoExtender,
    Reverberation,
    Chorus,
    DynRangeComp,
    MultiFunction,
}

impl AudioProcessingUnitType {
    /// The processing that the process type `b` stands for under `protocol`.
    pub open spec fn of(protocol: UacProtocol, b: u16) -> AudioProcessingUnitType {
        match protocol {
            UacProtocol::Uac1 => if b == 1 {
                AudioProcessingUnitType::UpDownMix
            } else if b == 2 {
                AudioProcessingUnitType::DolbyPrologic
            } else if b == 3 {
                AudioProcessingUnitType::StereoExtender3d
            } else if b == 4 {
                AudioProcessingUnitType::Reverberation
            } else if b == 5 {
                AudioProcessingUnitType::Chorus
            } else if b == 6 {
                AudioProcessingUnitType::DynRangeComp
            } else {
                AudioProcessingUnitType::Undefined
            },
            UacProtocol::Uac2 => if b == 1 {
                AudioProcessingUnitType::UpDownMix
            } else if b == 2 {
                AudioProcessingUnitType::DolbyPrologic
            } else if b == 3 {
                AudioProcessingUnitType::StereoExtender
            } else {
                AudioProcessingUnitType::Undefined
            },
            UacProtocol::Uac3 => if b == 1 {
                AudioProcessingUnitType::UpDownMix
            } else if b == 2 {
                AudioProcessingUnitType::StereoExtender
            } else if b == 3 {
                AudioProcessingUnitType::MultiFunction
            } else {
                AudioProcessingUnitType::Undefined
            },
            UacProtocol::Unknown(_) => AudioProcessingUnitType::Undefined,
        }
    }
}

impl From<(UacProtocol, u16)> for AudioProcessingUnitType {
    fn from(pair: (UacProtocol, u16)) -> (t: AudioProcessingUnitType) {
        let (protocol, b) = pair;
        match protocol {
            UacProtocol::Uac1 => match b {
                1 => AudioProcessingUnitType::UpDownMix,
                2 => AudioProcessingUnitType::DolbyPrologic,
                3 => AudioProcessingUnitType::StereoExtender3d,
                4 => AudioProcessingUnitType::Reverberation,
                5 => AudioProcessingUnitType::Chorus,
                6 => AudioProcessingUnitType::DynRangeComp,
                _ => AudioProcessingUnitType::Undefined,
            },
            UacProtocol::Uac2 => match b {
                1 => AudioProcessingUnitType::UpDownMix,
                2 => AudioProcessingUnitType::DolbyPrologic,
                3 => AudioProcessingUnitType::StereoExtender,
                _ => AudioProcessingUnitType::Undefined,
            },
            UacProtocol::Uac3 => match b {
                1 => AudioProcessingUnitType::UpDownMix,
                2 => AudioProcessingUnitType::StereoExtender,
                3 => AudioProcessingUnitType::MultiFunction,
                _ => AudioProcessingUnitType::Undefined,
            },
            _ => AudioProcessingUnitType::Undefined,
        }
    }
}

impl FromSpecImpl<(UacProtocol, u16)> for AudioProcessingUnitType {
    open spec fn obeys_from_spec() -> bool {
        true
    }

    open spec fn from_spec(pair: (UacProtocol, u16)) -> AudioProcessingUnitType {
        AudioProcessingUnitType::of(pair.0, pair.1)
    }
}

/// UAC1: 4.3.2.6 Processing Unit Descriptor; Table 4-8.
/// Where the low byte of the process type is 1 or 2, the modes of the process
/// follow the unit's own fields.
#[derive(Debug, Clone, PartialEq, Eq, Hash)]
pub struct ProcessingUnit1 {
    pub unit_id: u8,
    pub process_type: u16,
    pub nr_in_pins: u8,
    pub source_ids: Vec<u8>,
    pub nr_channels: u8,
    pub channel_config: u16,
    pub channel_names_index: u8,
    pub channel_names: Option<String>,
    pub control_size: u8,
    pub controls: Vec<u8>,
    pub processing_index: u8,
    pub processing: Option<String>,
    pub specific: Option<AudioProcessingUnitExtended1>,
}

impl ProcessingUnit1 {
    /// Whether the modes of the process follow a unit whose process type has
    /// the low byte `t`.
    pub open spec fn extended(t: u8) -> bool {
        t == 1 || t == 2
    }

    /// The number of bytes that the unit's own fields take, as far as `b`
    /// tells: ten and the input pins, and the controls once their count is
    /// there.
    pub open spec fn own_len(b: Seq<u8>) -> nat {
        if b.len() < 10 {
            10
        } else {
            let pins = b[3] as int;
            if b.len() <= 8 + pins {
                (10 + pins) as nat
            } else {
                (10 + pins + b[8 + pins]) as nat
            }
        }
    }

    /// The bytes of the unit's own fields.
    pub open spec fn own_encoding(&self) -> Seq<u8> {
        seq![self.unit_id] + u16_bytes(self.process_type) + seq![self.nr_in_pins]
            + self.source_ids@ + seq![self.nr_channels] + u16_bytes(self.channel_config)
            + seq![self.channel_names_index, self.control_size] + self.controls@
            + seq![self.processing_index]
    }

    /// Returns the [`AudioProcessingUnitType`] of the processing unit.
    pub fn processing_type(&self) -> (t: AudioProcessingUnitType)
        ensures
            t == AudioProcessingUnitType::of(UacProtocol::Uac1, self.process_type),
    {
        AudioProcessingUnitType::from((UacProtocol::Uac1, self.process_type))
    }
}

impl DescriptorShape for ProcessingUnit1 {
    open spec fn name() -> &'static str {
        "ProcessingUnit1"
    }

    open spec fn min_len() -> nat {
        10
    }

    open spec fn wire_len(b: Seq<u8>) -> nat {
        let own = Self::own_len(b);
        if b.len() < own || !Self::extended(b[1]) {
            own
        } else {
            own + AudioProcessingUnitExtended1::wire_len(b.subrange(own as int, b.len() as int))
        }
    }

    open spec fn refusal(b: Seq<u8>) -> Error {
        let own = Self::own_len(b);
        if b.len() >= own && Self::extended(b[1]) {
            AudioProcessingUnitExtended1::refusal(b.subrange(own as int, b.len() as int))
        } else {
            Error::DescriptorTooShort {
                descriptor_name: Self::name(),
                expected: own as usize,
                actual: b.len() as usize,
            }
        }
    }

    open spec fn decoded_from(&self, b: Seq<u8>) -> bool {
        let pins = b[3] as int;
        let size = b[8 + pins] as int;
        let own = 10 + pins + size;
        &&& self.unit_id == b[0]
        &&& self.process_type == u16_le(b, 1)
        &&& self.nr_in_pins == b[3]
        &&& self.source_ids@ == b.subrange(4, 4 + pins)
        &&& self.nr_channels == b[4 + pins]
        &&& self.channel_config == u16_le(b, 5 + pins)
        &&& self.channel_names_index == b[7 + pins]
        &&& self.channel_names is None
        &&& self.control_size == b[8 + pins]
        &&& self.controls@ == b.subrange(9 + pins, 9 + pins + size)
        &&& self.processing_index == b[9 + pins + size]
        &&& self.processing is None
        &&& if Self::extended(b[1]) {
            self.specific matches Some(modes) && modes.decoded_from(
                b.subrange(own, b.len() as int),
            )
        } else {
            self.specific is None
        }
    }

    open spec fn wf(&self) -> bool {
        &&& self.source_ids@.len() == self.nr_in_pins
        &&& self.channel_names is None
        &&& self.controls@.len() == self.control_size
        &&& self.processing is None
        &&& self.specific is Some <==> Self::extended((self.process_type % 256) as u8)
        &&& self.specific matches Some(modes) ==> modes.wf()
    }

    open spec fn encoding(&self) -> Seq<u8> {
        self.own_encoding() + match self.specific {
            Some(modes) => modes.encoding(),
            None => Seq::empty(),
        }
    }

    fn decode(value: &[u8]) -> (r: Result<Self, Error>) {
        if value.len() < 10 {
            return Err(Error::new_descriptor_len("ProcessingUnit1", 10, value.len()));
        }
        let pins: usize = value[3] as usize;
        if value.len() <= 8 + pins {
            return Err(Error::new_descriptor_len("ProcessingUnit1", 10 + pins, value.len()));
        }
        let size: usize = value[8 + pins] as usize;
        let own: usize = 10 + pins + size;
        if value.len() < own {
            return Err(Error::new_descriptor_len("ProcessingUnit1", own, value.len()));
        }
        let specific = if value[1] == 1 || value[1] == 2 {
            match AudioProcessingUnitExtended1::decode(&value[own..value.len()]) {
                Ok(modes) => Some(modes),
                Err(e) => {
                    return Err(e);
                },
            }
        } else {
            None
        };
        Ok(
            ProcessingUnit1 {
                unit_id: value[0],
                process_type: read_u16(value, 1),
                nr_in_pins: value[3],
                source_ids: copy_range(value, 4, 4 + pins),
                nr_channels: value[4 + pins],
                channel_config: read_u16(value, 5 + pins),
                channel_names_index: value[7 + pins],
                channel_names: None,
                control_size: value[8 + pins],
                controls: copy_range(value, 9 + pins, 9 + pins + size),
                processing_index: value[9 + pins + size],
                processing: None,
                specific,
            },
        )
    }

    fn encode(&self) -> (bytes: Vec<u8>) {
        let mut data: Vec<u8> = Vec::new();
        data.push(self.unit_id);
        push_u16(&mut data, self.process_type);
        data.push(self.nr_in_pins);
        data.extend_from_slice(self.source_ids.as_slice());
        data.push(self.nr_channels);
        push_u16(&mut data, self.channel_config);
        data.push(self.channel_names_index);
        data.push(self.control_size);
        data.extend_from_slice(self.controls.as_slice());
        data.push(self.processing_index);
        match &self.specific {
            Some(modes) => {
                let specific = modes.encode();
                data.extend_from_slice(specific.as_slice());
            },
            None => {
                assert(data@ + Seq::<u8>::empty() =~= data@);
            },
        }
        data
    }

    proof fn lemma_decode_encoded(&self) {
        let e = self.encoding();
        let o = self.own_encoding();
        let pins = self.nr_in_pins as int;
        let size = self.control_size as int;
        let own = 10 + pins + size;
        assert(o.len() == own);
        assert(o[1] == (self.process_type % 256) as u8);
        assert(o[3] == self.nr_in_pins);
        assert(o[8 + pins] == self.control_size);
        assert(o.subrange(1, 3) =~= u16_bytes(self.process_type));
        lemma_u16_le_bytes(o, 1, self.process_type);
        assert(o.subrange(4, 4 + pins) =~= self.source_ids@);
        assert(o.subrange(5 + pins, 7 + pins) =~= u16_bytes(self.channel_config));
        lemma_u16_le_bytes(o, 5 + pins, self.channel_config);
        assert(o.subrange(9 + pins, 9 + pins + size) =~= self.controls@);
        assert(o[9 + pins + size] == self.processing_index);
        assert(e.subrange(0, own) =~= o);
        lemma_own_fields_kept(e, o);
        match self.specific {
            Some(modes) => {
                modes.lemma_decode_encoded();
                assert(e.subrange(own, e.len() as int) =~= modes.encoding());
            },
            None => {
                assert(e =~= o);
            },
        }
    }

    proof fn lemma_encode_decoded(&self, b: Seq<u8>) {
        let pins = b[3] as int;
        let size = b[8 + pins] as int;
        let own = 10 + pins + size;
        let rest = b.subrange(own, b.len() as int);
        lemma_u16_bytes_le(b, 1);
        lemma_u16_bytes_le(b, 5 + pins);
        lemma_digits_low(b[1], b[2]);
        assert(self.own_encoding() =~= b.subrange(0, own));
        match self.specific {
            Some(modes) => {
                modes.lemma_encode_decoded(rest);
                let n = AudioProcessingUnitExtended1::wire_len(rest) as int;
                assert(b.subrange(0, own) + rest.subrange(0, n) =~= b.subrange(0, own + n));
            },
            None => {
                assert(self.encoding() =~= b.subrange(0, own));
            },
        }
    }
}

/// What follows the own fields of a UAC2 processing unit.
#[derive(Debug, Clone, PartialEq, Eq, Hash)]
pub enum AudioProcessingUnit2Specific {
    UpDownMix(AudioProcessingUnit2UpDownMix),
    DolbyPrologic(AudioProcessingUnit2DolbyPrologic),
}

impl AudioProcessingUnit2Specific {
    /// The low byte of the process type that announces `self`.
    pub open spec fn code(&self) -> u8 {
        match self {
            AudioProcessingUnit2Specific::UpDownMix(_) => 1,
            AudioProcessingUnit2Specific::DolbyPrologic(_) => 2,
        }
    }

    /// Whether anything follows a unit whose process type has the low byte `t`.
    pub open spec fn follows(t: u8) -> bool {
        t == 1 || t == 2
    }

    /// The number of bytes that the descriptor announced by `t` takes at the start of `b`.
    pub open spec fn wire_len(t: u8, b: Seq<u8>) -> nat {
        if t == 1 {
            AudioProcessingUnit2UpDownMix::wire_len(b)
        } else {
            AudioProcessingUnit2DolbyPrologic::wire_len(b)
        }
    }

    /// The error with which the shape announced by `t` turns `b` down.
    pub open spec fn refusal(t: u8, b: Seq<u8>) -> Error {
        if t == 1 {
            AudioProcessingUnit2UpDownMix::refusal(b)
        } else {
            AudioProcessingUnit2DolbyPrologic::refusal(b)
        }
    }

    /// `self` is announced by `t` and is what its shape finds in `b`.
    pub open spec fn decoded_from(&self, t: u8, b: Seq<u8>) -> bool {
        self.code() == t && match self {
            AudioProcessingUnit2Specific::UpDownMix(modes) => modes.decoded_from(b),
            AudioProcessingUnit2Specific::DolbyPrologic(modes) => modes.decoded_from(b),
        }
    }

    /// The shape that `self` holds is well-formed.
    pub open spec fn wf(&self) -> bool {
        match self {
            AudioProcessingUnit2Specific::UpDownMix(modes) => modes.wf(),
            AudioProcessingUnit2Specific::DolbyPrologic(modes) => modes.wf(),
        }
    }

    /// The bytes of `self` on the wire.
    pub open spec fn encoding(&self) -> Seq<u8> {
        match self {
            AudioProcessingUnit2Specific::UpDownMix(modes) => modes.encoding(),
            AudioProcessingUnit2Specific::DolbyPrologic(modes) => modes.encoding(),
        }
    }

    /// Encodes `self`.
    pub fn encode(&self) -> (bytes: Vec<u8>)
        ensures
            bytes@ == self.encoding(),
    {
        match self {
            AudioProcessingUnit2Specific::UpDownMix(modes) => modes.encode(),
            AudioProcessingUnit2Specific::DolbyPrologic(modes) => modes.encode(),
        }
    }
}

/// UAC2: 4.7.2.11 Processing Unit Descriptor; Table 4-20.
/// Where the low byte of the process type is 1 or 2, the modes of the process
/// follow the unit's own fields.
#[derive(Debug, Clone, PartialEq, Eq, Hash)]
pub struct ProcessingUnit2 {
    pub unit_id: u8,
    pub process_type: u16,
    pub nr_in_pins: u8,
    pub source_ids: Vec<u8>,
    pub nr_channels: u8,
    pub channel_config: u32,
    pub channel_names_index: u8,
    pub channel_names: Option<String>,
    pub controls: u16,
    pub processing_index: u8,
    pub processing: Option<String>,
    pub specific: Option<AudioProcessingUnit2Specific>,
}

impl ProcessingUnit2 {
    /// The number of bytes that the unit's own fields take, as far as `b`
    /// tells: thirteen and the input pins.
    pub open spec fn own_len(b: Seq<u8>) -> nat {
        if b.len() < 13 {
            13
        } else {
            (13 + b[3]) as nat
        }
    }

    /// The bytes of the unit's own fields.
    pub open spec fn own_encoding(&self) -> Seq<u8> {
        seq![self.unit_id] + u16_bytes(self.process_type) + seq![self.nr_in_pins]
            + self.source_ids@ + seq![self.nr_channels] + u32_bytes(self.channel_config)
            + seq![self.channel_names_index] + u16_bytes(self.controls) + seq![
            self.processing_index,
        ]
    }

    /// Returns the [`AudioProcessingUnitType`] of the processing unit.
    pub fn processing_type(&self) -> (t: AudioProcessingUnitType)
        ensures
            t == AudioProcessingUnitType::of(UacProtocol::Uac2, self.process_type),
    {
        AudioProcessingUnitType::from((UacProtocol::Uac2, self.process_type))
    }
}

impl DescriptorShape for ProcessingUnit2 {
    open spec fn name() -> &'static str {
        "ProcessingUnit2"
    }

    open spec fn min_len() -> nat {
        13
    }

    open spec fn wire_len(b: Seq<u8>) -> nat {
        let own = Self::own_len(b);
        if b.len() < own || !AudioProcessingUnit2Specific::follows(b[1]) {
            own
        } else {
            own + AudioProcessingUnit2Specific::wire_len(
                b[1],
                b.subrange(own as int, b.len() as int),
            )
        }
    }

    open spec fn refusal(b: Seq<u8>) -> Error {
        let own = Self::own_len(b);
        if b.len() >= own && AudioProcessingUnit2Specific::follows(b[1]) {
            AudioProcessingUnit2Specific::refusal(b[1], b.subrange(own as int, b.len() as int))
        } else {
            Error::DescriptorTooShort {
                descriptor_name: Self::name(),
                expected: own as usize,
                actual: b.len() as usize,
            }
        }
    }

    open spec fn decoded_from(&self, b: Seq<u8>) -> bool {
        let pins = b[3] as int;
        let own = 13 + pins;
        &&& self.unit_id == b[0]
        &&& self.process_type == u16_le(b, 1)
        &&& self.nr_in_pins == b[3]
        &&& self.source_ids@ == b.subrange(4, 4 + pins)
        &&& self.nr_channels == b[4 + pins]
        &&& self.channel_config == u32_le(b, 5 + pins)
        &&& self.channel_names_index == b[9 + pins]
        &&& self.channel_names is None
        &&& self.controls == u16_le(b, 10 + pins)
        &&& self.processing_index == b[12 + pins]
        &&& self.processing is None
        &&& if AudioProcessingUnit2Specific::follows(b[1]) {
            self.specific matches Some(specific) && specific.decoded_from(
                b[1],
                b.subrange(own, b.len() as int),
            )
        } else {
            self.specific is None
        }
    }

    open spec fn wf(&self) -> bool {
        &&& self.source_ids@.len() == self.nr_in_pins
        &&& self.channel_names is None
        &&& self.processing is None
        &&& match self.specific {
            Some(specific) => specific.wf() && specific.code() == self.process_type % 256,
            None => !AudioProcessingUnit2Specific::follows((self.process_type % 256) as u8),
        }
    }

    open spec fn encoding(&self) -> Seq<u8> {
        self.own_encoding() + match self.specific {
            Some(specific) => specific.encoding(),
            None => Seq::empty(),
        }
    }

    fn decode(value: &[u8]) -> (r: Result<Self, Error>) {
        if value.len() < 13 {
            return Err(Error::new_descriptor_len("ProcessingUnit2", 13, value.len()));
        }
        let pins: usize = value[3] as usize;
        let own: usize = 13 + pins;
        if value.len() < own {
            return Err(Error::new_descriptor_len("ProcessingUnit2", own, value.len()));
        }
        let rest = &value[own..value.len()];
        let specific = if value[1] == 1 {
            match AudioProcessingUnit2UpDownMix::decode(rest) {
                Ok(modes) => Some(AudioProcessingUnit2Specific::UpDownMix(modes)),
                Err(e) => {
                    return Err(e);
                },
            }
        } else if value[1] == 2 {
            match AudioProcessingUnit2DolbyPrologic::decode(rest) {
                Ok(modes) => Some(AudioProcessingUnit2Specific::DolbyPrologic(modes)),
                Err(e) => {
                    return Err(e);
                },
            }
        } else {
            None
        };
        Ok(
            ProcessingUnit2 {
                unit_id: value[0],
                process_type: read_u16(value, 1),
                nr_in_pins: value[3],
                source_ids: copy_range(value, 4, 4 + pins),
                nr_channels: value[4 + pins],
                channel_config: read_u32(value, 5 + pins),
                channel_names_index: value[9 + pins],
                channel_names: None,
                controls: read_u16(value, 10 + pins),
                processing_index: value[12 + pins],
                processing: None,
                specific,
            },
        )
    }

    fn encode(&self) -> (bytes: Vec<u8>) {
        let mut data: Vec<u8> = Vec::new();
        data.push(self.unit_id);
        push_u16(&mut data, self.process_type);
        data.push(self.nr_in_pins);
        data.extend_from_slice(self.source_ids.as_slice());
        data.push(self.nr_channels);
        push_u32(&mut data, self.channel_config);
        data.push(self.channel_names_index);
        push_u16(&mut data, self.controls);
        data.push(self.processing_index);
        match &self.specific {
            Some(specific) => {
                let specific = specific.encode();
                data.extend_from_slice(specific.as_slice());
            },
            None => {
                assert(data@ + Seq::<u8>::empty() =~= data@);
            },
        }
        data
    }

    proof fn lemma_decode_encoded(&self) {
        let e = self.encoding();
        let o = self.own_encoding();
        let pins = self.nr_in_pins as int;
        let own = 13 + pins;
        assert(o.len() == own);
        assert(o[1] == (self.process_type % 256) as u8);
        assert(o[3] == self.nr_in_pins);
        assert(o.subrange(1, 3) =~= u16_bytes(self.process_type));
        lemma_u16_le_bytes(o, 1, self.process_type);
        assert(o.subrange(4, 4 + pins) =~= self.source_ids@);
        assert(o.subrange(5 + pins, 9 + pins) =~= u32_bytes(self.channel_config));
        lemma_u32_le_bytes(o, 5 + pins, self.channel_config);
        assert(o.subrange(10 + pins, 12 + pins) =~= u16_bytes(self.controls));
        lemma_u16_le_bytes(o, 10 + pins, self.controls);
        assert(o[12 + pins] == self.processing_index);
        assert(e.subrange(0, own) =~= o);
        lemma_own_fields_kept(e, o);
        match self.specific {
            Some(AudioProcessingUnit2Specific::UpDownMix(modes)) => {
                modes.lemma_decode_encoded();
                assert(e.subrange(own, e.len() as int) =~= modes.encoding());
            },
            Some(AudioProcessingUnit2Specific::DolbyPrologic(modes)) => {
                modes.lemma_decode_encoded();
                assert(e.subrange(own, e.len() as int) =~= modes.encoding());
            },
            None => {
                assert(e =~= o);
            },
        }
    }

    proof fn lemma_encode_decoded(&self, b: Seq<u8>) {
        let pins = b[3] as int;
        let own = 13 + pins;
        let rest = b.subrange(own, b.len() as int);
        lemma_u16_bytes_le(b, 1);
        lemma_u32_bytes_le(b, 5 + pins);
        lemma_u16_bytes_le(b, 10 + pins);
        lemma_digits_low(b[1], b[2]);
        assert(self.own_encoding() =~= b.subrange(0, own));
        let n = Self::wire_len(b) - own;
        match self.specific {
            Some(AudioProcessingUnit2Specific::UpDownMix(modes)) => {
                modes.lemma_encode_decoded(rest);
                assert(b.subrange(0, own) + rest.subrange(0, n) =~= b.subrange(0, own + n));
            },
            Some(AudioProcessingUnit2Specific::DolbyPrologic(modes)) => {
                modes.lemma_encode_decoded(rest);
                assert(b.subrange(0, own) + rest.subrange(0, n) =~= b.subrange(0, own + n));
            },
            None => {
                assert(self.encoding() =~= b.subrange(0, own));
            },
        }
    }
}

/// What follows the own fields of a UAC3 processing unit.
#[derive(Debug, Clone, PartialEq, Eq, Hash)]
pub enum AudioProcessingUnit3Specific {
    UpDownMix(AudioProcessingUnit3UpDownMix),
    StereoExtender(AudioProcessingUnit3StereoExtender),
    MultiFunction(AudioProcessingUnit3MultiFunction),
}

impl AudioProcessingUnit3Specific {
    /// The low byte of the process type that announces `self`.
    pub open spec fn code(&self) -> u8 {
        match self {
            AudioProcessingUnit3Specific::UpDownMix(_) => 1,
            AudioProcessingUnit3Specific::StereoExtender(_) => 2,
            AudioProcessingUnit3Specific::MultiFunction(_) => 3,
        }
    }

    /// Whether anything follows a unit whose process type has the low byte `t`.
    pub open spec fn follows(t: u8) -> bool {
        t == 1 || t == 2 || t == 3
    }

    /// The number of bytes that the descriptor announced by `t` takes at the start of `b`.
    pub open spec fn wire_len(t: u8, b: Seq<u8>) -> nat {
        if t == 1 {
            AudioProcessingUnit3UpDownMix::wire_len(b)
        } else if t == 2 {
            AudioProcessingUnit3StereoExtender::wire_len(b)
        } else {
            AudioProcessingUnit3MultiFunction::wire_len(b)
        }
    }

    /// The error with which the shape announced by `t` turns `b` down.
    pub open spec fn refusal(t: u8, b: Seq<u8>) -> Error {
        if t == 1 {
            AudioProcessingUnit3UpDownMix::refusal(b)
        } else if t == 2 {
            AudioProcessingUnit3StereoExtender::refusal(b)
        } else {
            AudioProcessingUnit3MultiFunction::refusal(b)
        }
    }

    /// `self` is announced by `t` and is what its shape finds in `b`.
    pub open spec fn decoded_from(&self, t: u8, b: Seq<u8>) -> bool {
        self.code() == t && match self {
            AudioProcessingUnit3Specific::UpDownMix(mix) => mix.decoded_from(b),
            AudioProcessingUnit3Specific::StereoExtender(extender) => extender.decoded_from(b),
            AudioProcessingUnit3Specific::MultiFunction(functions) => functions.decoded_from(b),
        }
    }

    /// The shape that `self` holds is well-formed.
    pub open spec fn wf(&self) -> bool {
        match self {
            AudioProcessingUnit3Specific::UpDownMix(mix) => mix.wf(),
            AudioProcessingUnit3Specific::StereoExtender(extender) => extender.wf(),
            AudioProcessingUnit3Specific::MultiFunction(functions) => functions.wf(),
        }
    }

    /// The bytes of `self` on the wire.
    pub open spec fn encoding(&self) -> Seq<u8> {
        match self {
            AudioProcessingUnit3Specific::UpDownMix(mix) => mix.encoding(),
            AudioProcessingUnit3Specific::StereoExtender(extender) => extender.encoding(),
            AudioProcessingUnit3Specific::MultiFunction(functions) => functions.encoding(),
        }
    }

    /// Encodes `self`.
    pub fn encode(&self) -> (bytes: Vec<u8>)
        ensures
            bytes@ == self.encoding(),
    {
        match self {
            AudioProcessingUnit3Specific::UpDownMix(mix) => mix.encode(),
            AudioProcessingUnit3Specific::StereoExtender(extender) => extender.encode(),
            AudioProcessingUnit3Specific::MultiFunction(functions) => functions.encode(),
        }
    }
}

/// The algorithms of a multi-function processing unit.
#[derive(Debug, Clone, Copy, PartialEq, Eq, Hash)]
pub enum AudioProcessingMultiFunction {
    AlgorithmUndefined,
    BeamForming,
    AcousticEchoCancellation,
    ActiveNoiseCancellation,
    BlindSourceSeparation,
    NoiseSuppression,
}

impl AudioProcessingMultiFunction {
    /// The algorithms in the order of their bits.
    pub open spec fn all() -> Seq<AudioProcessingMultiFunction> {
        seq![
            AudioProcessingMultiFunction::AlgorithmUndefined,
            AudioProcessingMultiFunction::BeamForming,
            AudioProcessingMultiFunction::AcousticEchoCancellation,
            AudioProcessingMultiFunction::ActiveNoiseCancellation,
            AudioProcessingMultiFunction::BlindSourceSeparation,
            AudioProcessingMultiFunction::NoiseSuppression,
        ]
    }

    /// Returns the [`AudioProcessingMultiFunction`]s supported from the bitmap value
    pub fn functions_from_bitmap(bitmap: u32) -> (functions: Vec<AudioProcessingMultiFunction>)
        ensures
            functions@ == selected(bitmap, Self::all(), 6),
    {
        let all = [
            AudioProcessingMultiFunction::AlgorithmUndefined,
            AudioProcessingMultiFunction::BeamForming,
            AudioProcessingMultiFunction::AcousticEchoCancellation,
            AudioProcessingMultiFunction::ActiveNoiseCancellation,
            AudioProcessingMultiFunction::BlindSourceSeparation,
            AudioProcessingMultiFunction::NoiseSuppression,
        ];
        assert(all@ =~= Self::all());
        select(bitmap, all.as_slice())
    }
}

/// UAC3: 4.5.2.10 Processing Unit Descriptor; Table 4-38.
/// Where the low byte of the process type is 1, 2 or 3, the descriptor of the
/// process follows the unit's own fields. The byte between the source ids and
/// the string id is read over and written as zero.
#[derive(Debug, Clone, PartialEq, Eq, Hash)]
pub struct ProcessingUnit3 {
    pub unit_id: u8,
    pub process_type: u16,
    pub nr_in_pins: u8,
    pub source_ids: Vec<u8>,
    pub processing_descr_str: u16,
    pub specific: Option<AudioProcessingUnit3Specific>,
}

impl ProcessingUnit3 {
    /// The number of bytes that the unit's own fields take, as far as `b`
    /// tells: seven and the input pins.
    pub open spec fn own_len(b: Seq<u8>) -> nat {
        if b.len() < 7 {
            7
        } else {
            (7 + b[3]) as nat
        }
    }

    /// The bytes of the unit's own fields.
    pub open spec fn own_encoding(&self) -> Seq<u8> {
        seq![self.unit_id] + u16_bytes(self.process_type) + seq![self.nr_in_pins]
            + self.source_ids@ + seq![0u8] + u16_bytes(self.processing_descr_str)
    }

    /// The algorithms bitmap of a multi-function unit.
    pub open spec fn algorithms_bitmap(&self) -> Option<u32> {
        match self.specific {
            Some(AudioProcessingUnit3Specific::MultiFunction(functions)) => Some(
                functions.algorithms,
            ),
            _ => None,
        }
    }

    /// Returns the [`AudioProcessingUnitType`] of the processing unit.
    pub fn processing_type(&self) -> (t: AudioProcessingUnitType)
        ensures
            t == AudioProcessingUnitType::of(UacProtocol::Uac3, self.process_type),
    {
        AudioProcessingUnitType::from((UacProtocol::Uac3, self.process_type))
    }

    /// Returns the [`AudioProcessingMultiFunction`] supported by the processing unit.
    pub fn algorithms(&self) -> (functions: Option<Vec<AudioProcessingMultiFunction>>)
        ensures
            functions is Some <==> self.algorithms_bitmap() is Some,
            functions matches Some(list) ==> list@ == selected(
                self.algorithms_bitmap()->0,
                AudioProcessingMultiFunction::all(),
                6,
            ),
    {
        match &self.specific {
            Some(AudioProcessingUnit3Specific::MultiFunction(functions)) => Some(
                AudioProcessingMultiFunction::functions_from_bitmap(functions.algorithms),
            ),
            _ => None,
        }
    }
}

impl DescriptorShape for ProcessingUnit3 {
    open spec fn name() -> &'static str {
        "ProcessingUnit3"
    }

    open spec fn min_len() -> nat {
        7
    }

    open spec fn wire_len(b: Seq<u8>) -> nat {
        let own = Self::own_len(b);
        if b.len() < own || !AudioProcessingUnit3Specific::follows(b[1]) {
            own
        } else {
            own + AudioProcessingUnit3Specific::wire_len(
                b[1],
                b.subrange(own as int, b.len() as int),
            )
        }
    }

    open spec fn refusal(b: Seq<u8>) -> Error {
        let own = Self::own_len(b);
        if b.len() >= own && AudioProcessingUnit3Specific::follows(b[1]) {
            AudioProcessingUnit3Specific::refusal(b[1], b.subrange(own as int, b.len() as int))
        } else {
            Error::DescriptorTooShort {
                descriptor_name: Self::name(),
                expected: own as usize,
                actual: b.len() as usize,
            }
        }
    }

    open spec fn decoded_from(&self, b: Seq<u8>) -> bool {
        let pins = b[3] as int;
        let own = 7 + pins;
        &&& self.unit_id == b[0]
        &&& self.process_type == u16_le(b, 1)
        &&& self.nr_in_pins == b[3]
        &&& self.source_ids@ == b.subrange(4, 4 + pins)
        &&& self.processing_descr_str == u16_le(b, 5 + pins)
        &&& if AudioProcessingUnit3Specific::follows(b[1]) {
            self.specific matches Some(specific) && specific.decoded_from(
                b[1],
                b.subrange(own, b.len() as int),
            )
        } else {
            self.specific is None
        }
    }

    open spec fn wf(&self) -> bool {
        &&& self.source_ids@.len() == self.nr_in_pins
        &&& match self.specific {
            Some(specific) => specific.wf() && specific.code() == self.process_type % 256,
            None => !AudioProcessingUnit3Specific::follows((self.process_type % 256) as u8),
        }
    }

    open spec fn encoding(&self) -> Seq<u8> {
        self.own_encoding() + match self.specific {
            Some(specific) => specific.encoding(),
            None => Seq::empty(),
        }
    }

    open spec fn canonical(b: Seq<u8>) -> bool {
        b[4 + b[3]] == 0
    }

    fn decode(value: &[u8]) -> (r: Result<Self, Error>) {
        if value.len() < 7 {
            return Err(Error::new_descriptor_len("ProcessingUnit3", 7, value.len()));
        }
        let pins: usize = value[3] as usize;
        let own: usize = 7 + pins;
        if value.len() < own {
            return Err(Error::new_descriptor_len("ProcessingUnit3", own, value.len()));
        }
        let rest = &value[own..value.len()];
        let specific = if value[1] == 1 {
            match AudioProcessingUnit3UpDownMix::decode(rest) {
                Ok(mix) => Some(AudioProcessingUnit3Specific::UpDownMix(mix)),
                Err(e) => {
                    return Err(e);
                },
            }
        } else if value[1] == 2 {
            match AudioProcessingUnit3StereoExtender::decode(rest) {
                Ok(extender) => Some(AudioProcessingUnit3Specific::StereoExtender(extender)),
                Err(e) => {
                    return Err(e);
                },
            }
        } else if value[1] == 3 {
            match AudioProcessingUnit3MultiFunction::decode(rest) {
                Ok(functions) => Some(AudioProcessingUnit3Specific::MultiFunction(functions)),
                Err(e) => {
                    return Err(e);
                },
            }
        } else {
            None
        };
        Ok(
            ProcessingUnit3 {
                unit_id: value[0],
                process_type: read_u16(value, 1),
                nr_in_pins: value[3],
                source_ids: copy_range(value, 4, 4 + pins),
                processing_descr_str: read_u16(value, 5 + pins),
                specific,
            },
        )
    }

    fn encode(&self) -> (bytes: Vec<u8>) {
        let mut data: Vec<u8> = Vec::new();
        data.push(self.unit_id);
        push_u16(&mut data, self.process_type);
        data.push(self.nr_in_pins);
        data.extend_from_slice(self.source_ids.as_slice());
        data.push(0);
        push_u16(&mut data, self.processing_descr_str);
        match &self.specific {
            Some(specific) => {
                let specific = specific.encode();
                data.extend_from_slice(specific.as_slice());
            },
            None => {
                assert(data@ + Seq::<u8>::empty() =~= data@);
            },
        }
        data
    }

    proof fn lemma_decode_encoded(&self) {
        let e = self.encoding();
        let o = self.own_encoding();
        let pins = self.nr_in_pins as int;
        let own = 7 + pins;
        assert(o.len() == own);
        assert(o[1] == (self.process_type % 256) as u8);
        assert(o[3] == self.nr_in_pins);
        assert(o.subrange(1, 3) =~= u16_bytes(self.process_type));
        lemma_u16_le_bytes(o, 1, self.process_type);
        assert(o.subrange(4, 4 + pins) =~= self.source_ids@);
        assert(o.subrange(5 + pins, 7 + pins) =~= u16_bytes(self.processing_descr_str));
        lemma_u16_le_bytes(o, 5 + pins, self.processing_descr_str);
        assert(e.subrange(0, own) =~= o);
        lemma_own_fields_kept(e, o);
        match self.specific {
            Some(AudioProcessingUnit3Specific::UpDownMix(mix)) => {
                mix.lemma_decode_encoded();
                assert(e.subrange(own, e.len() as int) =~= mix.encoding());
            },
            Some(AudioProcessingUnit3Specific::StereoExtender(extender)) => {
                extender.lemma_decode_encoded();
                assert(e.subrange(own, e.len() as int) =~= extender.encoding());
            },
            Some(AudioProcessingUnit3Specific::MultiFunction(functions)) => {
                functions.lemma_decode_encoded();
                assert(e.subrange(own, e.len() as int) =~= functions.encoding());
            },
            None => {
                assert(e =~= o);
            },
        }
    }

    proof fn lemma_encode_decoded(&self, b: Seq<u8>) {
        let pins = b[3] as int;
        let own = 7 + pins;
        let rest = b.subrange(own, b.len() as int);
        lemma_u16_bytes_le(b, 1);
        lemma_u16_bytes_le(b, 5 + pins);
        lemma_digits_low(b[1], b[2]);
        assert(self.own_encoding() =~= b.subrange(0, own));
        let n = Self::wire_len(b) - own;
        match self.specific {
            Some(AudioProcessingUnit3Specific::UpDownMix(mix)) => {
                mix.lemma_encode_decoded(rest);
                assert(b.subrange(0, own) + rest.subrange(0, n) =~= b.subrange(0, own + n));
            },
            Some(AudioProcessingUnit3Specific::StereoExtender(extender)) => {
                extender.lemma_encode_decoded(rest);
                assert(b.subrange(0, own) + rest.subrange(0, n) =~= b.subrange(0, own + n));
            },
            Some(AudioProcessingUnit3Specific::MultiFunction(functions)) => {
                functions.lemma_encode_decoded(rest);
                assert(b.subrange(0, own) + rest.subrange(0, n) =~= b.subrange(0, own + n));
            },
            None => {
                assert(self.encoding() =~= b.subrange(0, own));
            },
        }
    }
}

impl AudioProcessingUnitType {
    /// The name of `self`.
    pub open spec fn label(self) -> Seq<char> {
        match self {
            AudioProcessingUnitType::Undefined => "Undefined"@,
            AudioProcessingUnitType::UpDownMix => "Up/Down-mix"@,
            AudioProcessingUnitType::DolbyPrologic => "Dolby Prologic"@,
            AudioProcessingUnitType::StereoExtender3d => "3D Stereo Extender"@,
            AudioProcessingUnitType::StereoExtender => "Stereo Extender"@,
            AudioProcessingUnitType::Reverberation => "Reverberation"@,
            AudioProcessingUnitType::Chorus => "Chorus"@,
            AudioProcessingUnitType::DynRangeComp => "Dyn Range Comp"@,
            AudioProcessingUnitType::MultiFunction => "Multi-Function"@,
        }
    }

    /// The name of `self`.
    pub fn to_string(&self) -> (s: String)
        ensures
            s@ == self.label(),
    {
        match self {
            AudioProcessingUnitType::Undefined => "Undefined".to_owned(),
            AudioProcessingUnitType::UpDownMix => "Up/Down-mix".to_owned(),
            AudioProcessingUnitType::DolbyPrologic => "Dolby Prologic".to_owned(),
            AudioProcessingUnitType::StereoExtender3d => "3D Stereo Extender".to_owned(),
            AudioProcessingUnitType::StereoExtender => "Stereo Extender".to_owned(),
            AudioProcessingUnitType::Reverberation => "Reverberation".to_owned(),
            AudioProcessingUnitType::Chorus => "Chorus".to_owned(),
            AudioProcessingUnitType::DynRangeComp => "Dyn Range Comp".to_owned(),
            AudioProcessingUnitType::MultiFunction => "Multi-Function".to_owned(),
        }
    }
}

impl AudioProcessingMultiFunction {
    /// The name of `self`.
    pub open spec fn label(self) -> Seq<char> {
        match self {
            AudioProcessingMultiFunction::AlgorithmUndefined => "Algorithm Undefined"@,
            AudioProcessingMultiFunction::BeamForming => "Beam Forming"@,
            AudioProcessingMultiFunction::AcousticEchoCancellation => "Acoustic Echo Cancellation"@,
            AudioProcessingMultiFunction::ActiveNoiseCancellation => "Active Noise Cancellation"@,
            AudioProcessingMultiFunction::BlindSourceSeparation => "Blind Source Separation"@,
            AudioProcessingMultiFunction::NoiseSuppression => "Noise Suppression/Reduction"@,
        }
    }

    /// The name of `self`.
    pub fn to_string(&self) -> (s: String)
        ensures
            s@ == self.label(),
    {
        match self {
            AudioProcessingMultiFunction::AlgorithmUndefined => "Algorithm Undefined".to_owned(),
            AudioProcessingMultiFunction::BeamForming => "Beam Forming".to_owned(),
            AudioProcessingMultiFunction::AcousticEchoCancellation => "Acoustic Echo Cancellation".to_owned(),
            AudioProcessingMultiFunction::ActiveNoiseCancellation => "Active Noise Cancellation".to_owned(),
            AudioProcessingMultiFunction::BlindSourceSeparation => "Blind Source Separation".to_owned(),
            AudioProcessingMultiFunction::NoiseSuppression => "Noise Suppression/Reduction".to_owned(),
        }
    }

    /// The name of `self` as a sentence.
    pub open spec fn sentence(self) -> Seq<char> {
        match self {
            AudioProcessingMultiFunction::AlgorithmUndefined => "Algorithm Undefined."@,
            AudioProcessingMultiFunction::BeamForming => "Beam Forming."@,
            AudioProcessingMultiFunction::AcousticEchoCancellation => "Acoustic Echo Cancellation."@,
            AudioProcessingMultiFunction::ActiveNoiseCancellation => "Active Noise Cancellation."@,
            AudioProcessingMultiFunction::BlindSourceSeparation => "Blind Source Separation."@,
            AudioProcessingMultiFunction::NoiseSuppression => "Noise Suppression/Reduction."@,
        }
    }

    /// The name of `self` as a sentence.
    pub fn to_sentence(&self) -> (s: String)
        ensures
            s@ == self.sentence(),
    {
        match self {
            AudioProcessingMultiFunction::AlgorithmUndefined => "Algorithm Undefined.".to_owned(),
            AudioProcessingMultiFunction::BeamForming => "Beam Forming.".to_owned(),
            AudioProcessingMultiFunction::AcousticEchoCancellation => "Acoustic Echo Cancellation.".to_owned(),
            AudioProcessingMultiFunction::ActiveNoiseCancellation => "Active Noise Cancellation.".to_owned(),
            AudioProcessingMultiFunction::BlindSourceSeparation => "Blind Source Separation.".to_owned(),
            AudioProcessingMultiFunction::NoiseSuppression => "Noise Suppression/Reduction.".to_owned(),
        }
    }
}

} // verus!
