//! The descriptors of an audio streaming interface and of its data endpoint.
use crate::error::Error;
use crate::usb::descriptors::audio::UacProtocol;
use crate::wire::{
    accepts, copy_bytes, copy_from, exact, lemma_encode_decode, lemma_u16_bytes_le,
    lemma_u16_le_bytes, lemma_u24_bytes_le, lemma_u24s_at_bytes, lemma_u24s_bytes_at,
    lemma_u32_bytes_le, lemma_u32_le_bytes, lemma_u64_bytes_le, lemma_u64_le_bytes, push_u16,
    push_u24s, push_u32, push_u64, read_u16, read_u24s, read_u32, read_u64, rejects, u16_bytes,
    u16_le, u24s_at, u24s_bytes, u32_bytes, u32_le, u64_bytes, u64_le, DescriptorShape,
};
use vstd::prelude::*;
use vstd::std_specs::convert::FromSpecImpl;

verus! {

/// UAC1: the class-specific AS interface descriptor.
#[derive(Debug, Clone, PartialEq, Eq, Hash)]
pub struct StreamingInterface1 {
    pub terminal_link: u8,
    pub delay: u8,
    pub format_tag: u16,
}

impl DescriptorShape for StreamingInterface1 {
    open spec fn name() -> &'static str {
        "StreamingInterface1"
    }

    open spec fn min_len() -> nat {
        4
    }

    open spec fn wire_len(b: Seq<u8>) -> nat {
        4
    }

    open spec fn decoded_from(&self, b: Seq<u8>) -> bool {
        &&& self.terminal_link == b[0]
        &&& self.delay == b[1]
        &&& self.format_tag == u16_le(b, 2)
    }

    open spec fn encoding(&self) -> Seq<u8> {
        seq![self.terminal_link, self.delay] + u16_bytes(self.format_tag)
    }

    fn decode(value: &[u8]) -> (r: Result<Self, Error>) {
        if value.len() < 4 {
            return Err(Error::new_descriptor_len("StreamingInterface1", 4, value.len()));
        }
        Ok(
            StreamingInterface1 {
                terminal_link: value[0],
                delay: value[1],
                format_tag: read_u16(value, 2),
            },
        )
    }

    fn encode(&self) -> (bytes: Vec<u8>) {
        let mut data: Vec<u8> = Vec::new();
        data.push(self.terminal_link);
        data.push(self.delay);
        push_u16(&mut data, self.format_tag);
        data
    }

    proof fn lemma_decode_encoded(&self) {
        let e = self.encoding();
        assert(e.subrange(2, 4) =~= u16_bytes(self.format_tag));
        lemma_u16_le_bytes(e, 2, self.format_tag);
    }

    proof fn lemma_encode_decoded(&self, b: Seq<u8>) {
    }
}

/// UAC2: the class-specific AS interface descriptor.
#[derive(Debug, Clone, PartialEq, Eq, Hash)]
pub struct StreamingInterface2 {
    pub terminal_link: u8,
    pub controls: u8,
    pub format_type: u8,
    pub formats: u32,
    pub nr_channels: u8,
    pub channel_config: u32,
    pub channel_names_index: u8,
    pub channel_names: Option<String>,
}

impl DescriptorShape for StreamingInterface2 {
    open spec fn name() -> &'static str {
        "StreamingInterface2"
    }

    open spec fn min_len() -> nat {
        13
    }

    open spec fn wire_len(b: Seq<u8>) -> nat {
        13
    }

    open spec fn decoded_from(&self, b: Seq<u8>) -> bool {
        &&& self.terminal_link == b[0]
        &&& self.controls == b[1]
        &&& self.format_type == b[2]
        &&& self.formats == u32_le(b, 3)
        &&& self.nr_channels == b[7]
        &&& self.channel_config == u32_le(b, 8)
        &&& self.channel_names_index == b[12]
        &&& self.channel_names is None
    }

    open spec fn wf(&self) -> bool {
        self.channel_names is None
    }

    open spec fn encoding(&self) -> Seq<u8> {
        seq![self.terminal_link, self.controls, self.format_type] + u32_bytes(self.formats)
            + seq![self.nr_channels] + u32_bytes(self.channel_config)
            + seq![self.channel_names_index]
    }

    fn decode(value: &[u8]) -> (r: Result<Self, Error>) {
        if value.len() < 13 {
            return Err(Error::new_descriptor_len("StreamingInterface2", 13, value.len()));
        }
        Ok(
            StreamingInterface2 {
                terminal_link: value[0],
                controls: value[1],
                format_type: value[2],
                formats: read_u32(value, 3),
                nr_channels: value[7],
                channel_config: read_u32(value, 8),
                channel_names_index: value[12],
                channel_names: None,
            },
        )
    }

    fn encode(&self) -> (bytes: Vec<u8>) {
        let mut data: Vec<u8> = Vec::new();
        data.push(self.terminal_link);
        data.push(self.controls);
        data.push(self.format_type);
        push_u32(&mut data, self.formats);
        data.push(self.nr_channels);
        push_u32(&mut data, self.channel_config);
        data.push(self.channel_names_index);
        data
    }

    proof fn lemma_decode_encoded(&self) {
        let e = self.encoding();
        assert(e.subrange(3, 7) =~= u32_bytes(self.formats));
        lemma_u32_le_bytes(e, 3, self.formats);
        assert(e.subrange(8, 12) =~= u32_bytes(self.channel_config));
        lemma_u32_le_bytes(e, 8, self.channel_config);
    }

    proof fn lemma_encode_decoded(&self, b: Seq<u8>) {
        lemma_u32_bytes_le(b, 3);
        lemma_u32_bytes_le(b, 8);
        assert(self.encoding() =~= b.subrange(0, Self::wire_len(b) as int));
    }
}

/// UAC3: the class-specific AS interface descriptor.
#[derive(Debug, Clone, PartialEq, Eq, Hash)]
pub struct StreamingInterface3 {
    pub terminal_link: u8,
    pub controls: u32,
    pub cluster_descr_id: u16,
    pub formats: u64,
    pub sub_slot_size: u8,
    pub bit_resolution: u8,
    pub aux_protocols: u16,
    pub control_size: u8,
}

impl DescriptorShape for StreamingInterface3 {
    open spec fn name() -> &'static str {
        "StreamingInterface3"
    }

    open spec fn min_len() -> nat {
        20
    }

    open spec fn wire_len(b: Seq<u8>) -> nat {
        20
    }

    open spec fn decoded_from(&self, b: Seq<u8>) -> bool {
        &&& self.terminal_link == b[0]
        &&& self.controls == u32_le(b, 1)
        &&& self.cluster_descr_id == u16_le(b, 5)
        &&& self.formats == u64_le(b, 7)
        &&& self.sub_slot_size == b[15]
        &&& self.bit_resolution == b[16]
        &&& self.aux_protocols == u16_le(b, 17)
        &&& self.control_size == b[19]
    }

    open spec fn encoding(&self) -> Seq<u8> {
        seq![self.terminal_link] + u32_bytes(self.controls) + u16_bytes(self.cluster_descr_id)
            + u64_bytes(self.formats) + seq![self.sub_slot_size, self.bit_resolution]
            + u16_bytes(self.aux_protocols) + seq![self.control_size]
    }

    fn decode(value: &[u8]) -> (r: Result<Self, Error>) {
        if value.len() < 20 {
            return Err(Error::new_descriptor_len("StreamingInterface3", 20, value.len()));
        }
        Ok(
            StreamingInterface3 {
                terminal_link: value[0],
                controls: read_u32(value, 1),
                cluster_descr_id: read_u16(value, 5),
                formats: read_u64(value, 7),
                sub_slot_size: value[15],
                bit_resolution: value[16],
                aux_protocols: read_u16(value, 17),
                control_size: value[19],
            },
        )
    }

    fn encode(&self) -> (bytes: Vec<u8>) {
        let mut data: Vec<u8> = Vec::new();
        data.push(self.terminal_link);
        push_u32(&mut data, self.controls);
        push_u16(&mut data, self.cluster_descr_id);
        push_u64(&mut data, self.formats);
        data.push(self.sub_slot_size);
        data.push(self.bit_resolution);
        push_u16(&mut data, self.aux_protocols);
        data.push(self.control_size);
        data
    }

    proof fn lemma_decode_encoded(&self) {
        let e = self.encoding();
        assert(e.subrange(1, 5) =~= u32_bytes(self.controls));
        lemma_u32_le_bytes(e, 1, self.controls);
        assert(e.subrange(5, 7) =~= u16_bytes(self.cluster_descr_id));
        lemma_u16_le_bytes(e, 5, self.cluster_descr_id);
        assert(e.subrange(7, 15) =~= u64_bytes(self.formats));
        lemma_u64_le_bytes(e, 7, self.formats);
        assert(e.subrange(17, 19) =~= u16_bytes(self.aux_protocols));
        lemma_u16_le_bytes(e, 17, self.aux_protocols);
    }

    proof fn lemma_encode_decoded(&self, b: Seq<u8>) {
        lemma_u32_bytes_le(b, 1);
        lemma_u64_bytes_le(b, 7);
        assert(self.encoding() =~= b.subrange(0, Self::wire_len(b) as int));
    }
}

/// Isochronous Audio Data Stream Endpoint for UAC1
#[derive(Debug, Clone, PartialEq, Eq, Hash)]
pub struct DataStreamingEndpoint1 {
    pub attributes: u8,
    pub lock_delay_units: u8,
    pub lock_delay: u16,
}

impl DescriptorShape for DataStreamingEndpoint1 {
    open spec fn name() -> &'static str {
        "DataStreamingEndpoint1"
    }

    open spec fn min_len() -> nat {
        4
    }

    open spec fn wire_len(b: Seq<u8>) -> nat {
        4
    }

    open spec fn decoded_from(&self, b: Seq<u8>) -> bool {
        &&& self.attributes == b[0]
        &&& self.lock_delay_units == b[1]
        &&& self.lock_delay == u16_le(b, 2)
    }

    open spec fn encoding(&self) -> Seq<u8> {
        seq![self.attributes, self.lock_delay_units] + u16_bytes(self.lock_delay)
    }

    fn decode(value: &[u8]) -> (r: Result<Self, Error>) {
        if value.len() < 4 {
            return Err(Error::new_descriptor_len("DataStreamingEndpoint1", 4, value.len()));
        }
        Ok(
            DataStreamingEndpoint1 {
                attributes: value[0],
                lock_delay_units: value[1],
                lock_delay: read_u16(value, 2),
            },
        )
    }

    fn encode(&self) -> (bytes: Vec<u8>) {
        let mut data: Vec<u8> = Vec::new();
        data.push(self.attributes);
        data.push(self.lock_delay_units);
        push_u16(&mut data, self.lock_delay);
        data
    }

    proof fn lemma_decode_encoded(&self) {
        let e = self.encoding();
        assert(e.subrange(2, 4) =~= u16_bytes(self.lock_delay));
        lemma_u16_le_bytes(e, 2, self.lock_delay);
    }

    proof fn lemma_encode_decoded(&self, b: Seq<u8>) {
    }
}

/// Isochronous Audio Data Stream Endpoint for UAC2
#[derive(Debug, Clone, PartialEq, Eq, Hash)]
pub struct DataStreamingEndpoint2 {
    pub attributes: u8,
    pub controls: u8,
    pub lock_delay_units: u8,
    pub lock_delay: u16,
}

impl DescriptorShape for DataStreamingEndpoint2 {
    open spec fn name() -> &'static str {
        "DataStreamingEndpoint2"
    }

    open spec fn min_len() -> nat {
        5
    }

    open spec fn wire_len(b: Seq<u8>) -> nat {
        5
    }

    open spec fn decoded_from(&self, b: Seq<u8>) -> bool {
        &&& self.attributes == b[0]
        &&& self.controls == b[1]
        &&& self.lock_delay_units == b[2]
        &&& self.lock_delay == u16_le(b, 3)
    }

    open spec fn encoding(&self) -> Seq<u8> {
        seq![self.attributes, self.controls, self.lock_delay_units] + u16_bytes(self.lock_delay)
    }

    fn decode(value: &[u8]) -> (r: Result<Self, Error>) {
        if value.len() < 5 {
            return Err(Error::new_descriptor_len("DataStreamingEndpoint2", 5, value.len()));
        }
        Ok(
            DataStreamingEndpoint2 {
                attributes: value[0],
                controls: value[1],
                lock_delay_units: value[2],
                lock_delay: read_u16(value, 3),
            },
        )
    }

    fn encode(&self) -> (bytes: Vec<u8>) {
        let mut data: Vec<u8> = Vec::new();
        data.push(self.attributes);
        data.push(self.controls);
        data.push(self.lock_delay_units);
        push_u16(&mut data, self.lock_delay);
        data
    }

    proof fn lemma_decode_encoded(&self) {
        let e = self.encoding();
        assert(e.subrange(3, 5) =~= u16_bytes(self.lock_delay));
        lemma_u16_le_bytes(e, 3, self.lock_delay);
    }

    proof fn lemma_encode_decoded(&self, b: Seq<u8>) {
    }
}

/// Isochronous Audio Data Stream Endpoint for UAC3
#[derive(Debug, Clone, PartialEq, Eq, Hash)]
pub struct DataStreamingEndpoint3 {
    pub controls: u32,
    pub lock_delay_units: u8,
    pub lock_delay: u16,
}

impl DescriptorShape for DataStreamingEndpoint3 {
    open spec fn name() -> &'static str {
        "DataStreamingEndpoint3"
    }

    open spec fn min_len() -> nat {
        7
    }

    open spec fn wire_len(b: Seq<u8>) -> nat {
        7
    }

    open spec fn decoded_from(&self, b: Seq<u8>) -> bool {
        &&& self.controls == u32_le(b, 0)
        &&& self.lock_delay_units == b[4]
        &&& self.lock_delay == u16_le(b, 5)
    }

    open spec fn encoding(&self) -> Seq<u8> {
        u32_bytes(self.controls) + seq![self.lock_delay_units] + u16_bytes(self.lock_delay)
    }

    fn decode(value: &[u8]) -> (r: Result<Self, Error>) {
        if value.len() < 7 {
            return Err(Error::new_descriptor_len("DataStreamingEndpoint3", 7, value.len()));
        }
        Ok(
            DataStreamingEndpoint3 {
                controls: read_u32(value, 0),
                lock_delay_units: value[4],
                lock_delay: read_u16(value, 5),
            },
        )
    }

    fn encode(&self) -> (bytes: Vec<u8>) {
        let mut data: Vec<u8> = Vec::new();
        push_u32(&mut data, self.controls);
        data.push(self.lock_delay_units);
        push_u16(&mut data, self.lock_delay);
        data
    }

    proof fn lemma_decode_encoded(&self) {
        let e = self.encoding();
        assert(e.subrange(0, 4) =~= u32_bytes(self.controls));
        lemma_u32_le_bytes(e, 0, self.controls);
        assert(e.subrange(5, 7) =~= u16_bytes(self.lock_delay));
        lemma_u16_le_bytes(e, 5, self.lock_delay);
    }

    proof fn lemma_encode_decoded(&self, b: Seq<u8>) {
        lemma_u32_bytes_le(b, 0);
        assert(self.encoding() =~= b.subrange(0, Self::wire_len(b) as int));
    }
}

/// UAC2: the Type I (and Type III) format type descriptor.
#[derive(Debug, Clone, PartialEq, Eq, Hash)]
pub struct FormatTypeI2 {
    pub sub_slot_size: u8,
    pub bit_resolution: u8,
}

impl DescriptorShape for FormatTypeI2 {
    open spec fn name() -> &'static str {
        "FormatTypeI2"
    }

    open spec fn min_len() -> nat {
        2
    }

    open spec fn wire_len(b: Seq<u8>) -> nat {
        2
    }

    open spec fn decoded_from(&self, b: Seq<u8>) -> bool {
        &&& self.sub_slot_size == b[0]
        &&& self.bit_resolution == b[1]
    }

    open spec fn encoding(&self) -> Seq<u8> {
        seq![self.sub_slot_size, self.bit_resolution]
    }

    fn decode(value: &[u8]) -> (r: Result<Self, Error>) {
        if value.len() < 2 {
            return Err(Error::new_descriptor_len("FormatTypeI2", 2, value.len()));
        }
        Ok(
            FormatTypeI2 {
                sub_slot_size: value[0],
                bit_resolution: value[1],
            },
        )
    }

    fn encode(&self) -> (bytes: Vec<u8>) {
        let mut data: Vec<u8> = Vec::new();
        data.push(self.sub_slot_size);
        data.push(self.bit_resolution);
        data
    }

    proof fn lemma_decode_encoded(&self) {
    }

    proof fn lemma_encode_decoded(&self, b: Seq<u8>) {
    }
}

/// UAC2: the Type II format type descriptor.
#[derive(Debug, Clone, PartialEq, Eq, Hash)]
pub struct FormatTypeII2 {
    pub max_bit_rate: u16,
    pub slots_per_frame: u16,
}

impl DescriptorShape for FormatTypeII2 {
    open spec fn name() -> &'static str {
        "FormatTypeII2"
    }

    open spec fn min_len() -> nat {
        4
    }

    open spec fn wire_len(b: Seq<u8>) -> nat {
        4
    }

    open spec fn decoded_from(&self, b: Seq<u8>) -> bool {
        &&& self.max_bit_rate == u16_le(b, 0)
        &&& self.slots_per_frame == u16_le(b, 2)
    }

    open spec fn encoding(&self) -> Seq<u8> {
        u16_bytes(self.max_bit_rate) + u16_bytes(self.slots_per_frame)
    }

    fn decode(value: &[u8]) -> (r: Result<Self, Error>) {
        if value.len() < 4 {
            return Err(Error::new_descriptor_len("FormatTypeII2", 4, value.len()));
        }
        Ok(
            FormatTypeII2 {
                max_bit_rate: read_u16(value, 0),
                slots_per_frame: read_u16(value, 2),
            },
        )
    }

    fn encode(&self) -> (bytes: Vec<u8>) {
        let mut data: Vec<u8> = Vec::new();
        push_u16(&mut data, self.max_bit_rate);
        push_u16(&mut data, self.slots_per_frame);
        data
    }

    proof fn lemma_decode_encoded(&self) {
        let e = self.encoding();
        assert(e.subrange(0, 2) =~= u16_bytes(self.max_bit_rate));
        lemma_u16_le_bytes(e, 0, self.max_bit_rate);
        assert(e.subrange(2, 4) =~= u16_bytes(self.slots_per_frame));
        lemma_u16_le_bytes(e, 2, self.slots_per_frame);
    }

    proof fn lemma_encode_decoded(&self, b: Seq<u8>) {
    }
}

/// The MPEG format-specific descriptor.
#[derive(Debug, Clone, PartialEq, Eq, Hash)]
pub struct FormatSpecificMpeg {
    pub mpeg_capabilities: u16,
    pub mpeg_features: u8,
}

impl DescriptorShape for FormatSpecificMpeg {
    open spec fn name() -> &'static str {
        "FormatSpecificMpeg"
    }

    open spec fn min_len() -> nat {
        3
    }

    open spec fn wire_len(b: Seq<u8>) -> nat {
        3
    }

    open spec fn decoded_from(&self, b: Seq<u8>) -> bool {
        &&& self.mpeg_capabilities == u16_le(b, 0)
        &&& self.mpeg_features == b[2]
    }

    open spec fn encoding(&self) -> Seq<u8> {
        u16_bytes(self.mpeg_capabilities) + seq![self.mpeg_features]
    }

    fn decode(value: &[u8]) -> (r: Result<Self, Error>) {
        if value.len() < 3 {
            return Err(Error::new_descriptor_len("FormatSpecificMpeg", 3, value.len()));
        }
        Ok(
            FormatSpecificMpeg {
                mpeg_capabilities: read_u16(value, 0),
                mpeg_features: value[2],
            },
        )
    }

    fn encode(&self) -> (bytes: Vec<u8>) {
        let mut data: Vec<u8> = Vec::new();
        push_u16(&mut data, self.mpeg_capabilities);
        data.push(self.mpeg_features);
        data
    }

    proof fn lemma_decode_encoded(&self) {
        let e = self.encoding();
        assert(e.subrange(0, 2) =~= u16_bytes(self.mpeg_capabilities));
        lemma_u16_le_bytes(e, 0, self.mpeg_capabilities);
    }

    proof fn lemma_encode_decoded(&self, b: Seq<u8>) {
    }
}

/// The AC-3 format-specific descriptor.
#[derive(Debug, Clone, PartialEq, Eq, Hash)]
pub struct FormatSpecificAc3 {
    pub bsid: u32,
    pub ac3_features: u8,
}

impl DescriptorShape for FormatSpecificAc3 {
    open spec fn name() -> &'static str {
        "FormatSpecificAc3"
    }

    open spec fn min_len() -> nat {
        5
    }

    open spec fn wire_len(b: Seq<u8>) -> nat {
        5
    }

    open spec fn decoded_from(&self, b: Seq<u8>) -> bool {
        &&& self.bsid == u32_le(b, 0)
        &&& self.ac3_features == b[4]
    }

    open spec fn encoding(&self) -> Seq<u8> {
        u32_bytes(self.bsid) + seq![self.ac3_features]
    }

    fn decode(value: &[u8]) -> (r: Result<Self, Error>) {
        if value.len() < 5 {
            return Err(Error::new_descriptor_len("FormatSpecificAc3", 5, value.len()));
        }
        Ok(
            FormatSpecificAc3 {
                bsid: read_u32(value, 0),
                ac3_features: value[4],
            },
        )
    }

    fn encode(&self) -> (bytes: Vec<u8>) {
        let mut data: Vec<u8> = Vec::new();
        push_u32(&mut data, self.bsid);
        data.push(self.ac3_features);
        data
    }

    proof fn lemma_decode_encoded(&self) {
        let e = self.encoding();
        assert(e.subrange(0, 4) =~= u32_bytes(self.bsid));
        lemma_u32_le_bytes(e, 0, self.bsid);
    }

    proof fn lemma_encode_decoded(&self, b: Seq<u8>) {
        lemma_u32_bytes_le(b, 0);
        assert(self.encoding() =~= b.subrange(0, Self::wire_len(b) as int));
    }
}

/// Whether the sampling frequency is a continuous range or a list of discrete values.
#[derive(Debug, Clone, Copy, PartialEq, Eq, Hash)]
pub enum SampleFrequencyType {
    Continuous,
    Discrete(u8),
}

impl SampleFrequencyType {
    /// The type that the byte `b` stands for: zero is the continuous range, any
    /// other value the number of discrete frequencies.
    pub open spec fn of(b: u8) -> SampleFrequencyType {
        if b == 0 {
            SampleFrequencyType::Continuous
        } else {
            SampleFrequencyType::Discrete(b)
        }
    }

    /// The byte that stands for `self`.
    pub open spec fn code(self) -> u8 {
        match self {
            SampleFrequencyType::Continuous => 0x00,
            SampleFrequencyType::Discrete(b) => b,
        }
    }

    /// A list of no discrete frequencies is written as the continuous range.
    pub open spec fn wf(self) -> bool {
        self != SampleFrequencyType::Discrete(0)
    }
}

impl From<u8> for SampleFrequencyType {
    fn from(b: u8) -> (t: SampleFrequencyType) {
        match b {
            0x00 => SampleFrequencyType::Continuous,
            b => SampleFrequencyType::Discrete(b),
        }
    }
}

impl FromSpecImpl<u8> for SampleFrequencyType {
    open spec fn obeys_from_spec() -> bool {
        true
    }

    open spec fn from_spec(b: u8) -> SampleFrequencyType {
        SampleFrequencyType::of(b)
    }
}

impl From<SampleFrequencyType> for u8 {
    fn from(sft: SampleFrequencyType) -> (b: u8) {
        match sft {
            SampleFrequencyType::Continuous => 0x00,
            SampleFrequencyType::Discrete(b) => b,
        }
    }
}

impl FromSpecImpl<SampleFrequencyType> for u8 {
    open spec fn obeys_from_spec() -> bool {
        true
    }

    open spec fn from_spec(sft: SampleFrequencyType) -> u8 {
        sft.code()
    }
}

/// The number of sampling frequencies that follow the type byte `t`: the two
/// bounds of a continuous range, or `t` discrete frequencies.
pub open spec fn frequency_count(t: u8) -> int {
    if t == 0 {
        2
    } else {
        t as int
    }
}

/// Every frequency fits the three bytes it takes on the wire.
pub open spec fn frequencies_fit(s: Seq<u32>) -> bool {
    forall|k: int| 0 <= k < s.len() ==> s[k] < 16777216
}

/// The number of sampling frequencies that follow the type byte `t`.
fn count_frequencies(t: u8) -> (count: usize)
    ensures
        count == frequency_count(t),
{
    if t == 0 {
        2
    } else {
        t as usize
    }
}

/// UAC1: the Type I format type descriptor, with its sampling frequencies.
#[derive(Debug, Clone, PartialEq, Eq, Hash)]
pub struct FormatTypeI1 {
    pub num_channels: u8,
    pub subframe_size: u8,
    pub bit_resolution: u8,
    pub sample_frequency_type: SampleFrequencyType,
    pub sample_frequencies: Vec<u32>,
}

impl DescriptorShape for FormatTypeI1 {
    open spec fn name() -> &'static str {
        "FormatTypeI"
    }

    open spec fn min_len() -> nat {
        4
    }

    open spec fn wire_len(b: Seq<u8>) -> nat {
        if b.len() < 4 {
            4
        } else {
            (4 + 3 * frequency_count(b[3])) as nat
        }
    }

    open spec fn decoded_from(&self, b: Seq<u8>) -> bool {
        &&& self.num_channels == b[0]
        &&& self.subframe_size == b[1]
        &&& self.bit_resolution == b[2]
        &&& self.sample_frequency_type == SampleFrequencyType::of(b[3])
        &&& self.sample_frequencies@ == u24s_at(b, 4, frequency_count(b[3]))
    }

    open spec fn wf(&self) -> bool {
        &&& self.sample_frequency_type.wf()
        &&& self.sample_frequencies@.len() == frequency_count(self.sample_frequency_type.code())
        &&& frequencies_fit(self.sample_frequencies@)
    }

    open spec fn encoding(&self) -> Seq<u8> {
        seq![
            self.num_channels,
            self.subframe_size,
            self.bit_resolution,
            self.sample_frequency_type.code(),
        ] + u24s_bytes(self.sample_frequencies@)
    }

    fn decode(value: &[u8]) -> (r: Result<Self, Error>) {
        if value.len() < 4 {
            return Err(Error::new_descriptor_len("FormatTypeI", 4, value.len()));
        }
        let count: usize = count_frequencies(value[3]);
        if value.len() < 4 + 3 * count {
            return Err(Error::new_descriptor_len("FormatTypeI", 4 + 3 * count, value.len()));
        }
        Ok(
            FormatTypeI1 {
                num_channels: value[0],
                subframe_size: value[1],
                bit_resolution: value[2],
                sample_frequency_type: SampleFrequencyType::from(value[3]),
                sample_frequencies: read_u24s(value, 4, count),
            },
        )
    }

    fn encode(&self) -> (bytes: Vec<u8>) {
        let mut data: Vec<u8> = Vec::new();
        data.push(self.num_channels);
        data.push(self.subframe_size);
        data.push(self.bit_resolution);
        data.push(u8::from(self.sample_frequency_type));
        push_u24s(&mut data, &self.sample_frequencies);
        data
    }

    proof fn lemma_decode_encoded(&self) {
        let e = self.encoding();
        let count = self.sample_frequencies@.len() as int;
        assert(e.len() == 4 + 3 * count);
        assert(e[3] == self.sample_frequency_type.code());
        assert(e.subrange(4, 4 + 3 * count) =~= u24s_bytes(self.sample_frequencies@));
        lemma_u24s_at_bytes(e, 4, self.sample_frequencies@);
    }

    proof fn lemma_encode_decoded(&self, b: Seq<u8>) {
        let count = frequency_count(b[3]);
        lemma_u24s_bytes_at(b, 4, count);
        assert forall|k: int| 0 <= k < count implies u24s_at(b, 4, count)[k] < 16777216 by {
            lemma_u24_bytes_le(b, 4 + 3 * k);
        }
        assert(self.encoding() =~= b.subrange(0, Self::wire_len(b) as int));
    }
}

/// UAC1: the Type II format type descriptor, with its sampling frequencies.
#[derive(Debug, Clone, PartialEq, Eq, Hash)]
pub struct FormatTypeII1 {
    pub max_bit_rate: u16,
    pub samples_per_frame: u16,
    pub sample_frequency_type: SampleFrequencyType,
    pub sample_frequencies: Vec<u32>,
}

impl DescriptorShape for FormatTypeII1 {
    open spec fn name() -> &'static str {
        "FormatTypeII"
    }

    open spec fn min_len() -> nat {
        5
    }

    open spec fn wire_len(b: Seq<u8>) -> nat {
        if b.len() < 5 {
            5
        } else {
            (5 + 3 * frequency_count(b[4])) as nat
        }
    }

    open spec fn decoded_from(&self, b: Seq<u8>) -> bool {
        &&& self.max_bit_rate == u16_le(b, 0)
        &&& self.samples_per_frame == u16_le(b, 2)
        &&& self.sample_frequency_type == SampleFrequencyType::of(b[4])
        &&& self.sample_frequencies@ == u24s_at(b, 5, frequency_count(b[4]))
    }

    open spec fn wf(&self) -> bool {
        &&& self.sample_frequency_type.wf()
        &&& self.sample_frequencies@.len() == frequency_count(self.sample_frequency_type.code())
        &&& frequencies_fit(self.sample_frequencies@)
    }

    open spec fn encoding(&self) -> Seq<u8> {
        u16_bytes(self.max_bit_rate) + u16_bytes(self.samples_per_frame) + seq![
            self.sample_frequency_type.code(),
        ] + u24s_bytes(self.sample_frequencies@)
    }

    fn decode(value: &[u8]) -> (r: Result<Self, Error>) {
        if value.len() < 5 {
            return Err(Error::new_descriptor_len("FormatTypeII", 5, value.len()));
        }
        let count: usize = count_frequencies(value[4]);
        if value.len() < 5 + 3 * count {
            return Err(Error::new_descriptor_len("FormatTypeII", 5 + 3 * count, value.len()));
        }
        Ok(
            FormatTypeII1 {
                max_bit_rate: read_u16(value, 0),
                samples_per_frame: read_u16(value, 2),
                sample_frequency_type: SampleFrequencyType::from(value[4]),
                sample_frequencies: read_u24s(value, 5, count),
            },
        )
    }

    fn encode(&self) -> (bytes: Vec<u8>) {
        let mut data: Vec<u8> = Vec::new();
        push_u16(&mut data, self.max_bit_rate);
        push_u16(&mut data, self.samples_per_frame);
        data.push(u8::from(self.sample_frequency_type));
        push_u24s(&mut data, &self.sample_frequencies);
        data
    }

    proof fn lemma_decode_encoded(&self) {
        let e = self.encoding();
        let count = self.sample_frequencies@.len() as int;
        assert(e.len() == 5 + 3 * count);
        assert(e[4] == self.sample_frequency_type.code());
        assert(e.subrange(0, 2) =~= u16_bytes(self.max_bit_rate));
        lemma_u16_le_bytes(e, 0, self.max_bit_rate);
        assert(e.subrange(2, 4) =~= u16_bytes(self.samples_per_frame));
        lemma_u16_le_bytes(e, 2, self.samples_per_frame);
        assert(e.subrange(5, 5 + 3 * count) =~= u24s_bytes(self.sample_frequencies@));
        lemma_u24s_at_bytes(e, 5, self.sample_frequencies@);
    }

    proof fn lemma_encode_decoded(&self, b: Seq<u8>) {
        let count = frequency_count(b[4]);
        lemma_u16_bytes_le(b, 0);
        lemma_u16_bytes_le(b, 2);
        lemma_u24s_bytes_at(b, 5, count);
        assert forall|k: int| 0 <= k < count implies u24s_at(b, 5, count)[k] < 16777216 by {
            lemma_u24_bytes_le(b, 5 + 3 * k);
        }
        assert(self.encoding() =~= b.subrange(0, Self::wire_len(b) as int));
    }
}

/// UAC1: the Type III format type descriptor, with its sampling frequencies.
#[derive(Debug, Clone, PartialEq, Eq, Hash)]
pub struct FormatTypeIII1 {
    pub num_channels: u8,
    pub subframe_size: u8,
    pub bit_resolution: u8,
    pub sample_frequency_type: SampleFrequencyType,
    pub sample_frequencies: Vec<u32>,
}

impl DescriptorShape for FormatTypeIII1 {
    open spec fn name() -> &'static str {
        "FormatTypeIII"
    }

    open spec fn min_len() -> nat {
        4
    }

    open spec fn wire_len(b: Seq<u8>) -> nat {
        if b.len() < 4 {
            4
        } else {
            (4 + 3 * frequency_count(b[3])) as nat
        }
    }

    open spec fn decoded_from(&self, b: Seq<u8>) -> bool {
        &&& self.num_channels == b[0]
        &&& self.subframe_size == b[1]
        &&& self.bit_resolution == b[2]
        &&& self.sample_frequency_type == SampleFrequencyType::of(b[3])
        &&& self.sample_frequencies@ == u24s_at(b, 4, frequency_count(b[3]))
    }

    open spec fn wf(&self) -> bool {
        &&& self.sample_frequency_type.wf()
        &&& self.sample_frequencies@.len() == frequency_count(self.sample_frequency_type.code())
        &&& frequencies_fit(self.sample_frequencies@)
    }

    open spec fn encoding(&self) -> Seq<u8> {
        seq![
            self.num_channels,
            self.subframe_size,
            self.bit_resolution,
            self.sample_frequency_type.code(),
        ] + u24s_bytes(self.sample_frequencies@)
    }

    fn decode(value: &[u8]) -> (r: Result<Self, Error>) {
        if value.len() < 4 {
            return Err(Error::new_descriptor_len("FormatTypeIII", 4, value.len()));
        }
        let count: usize = count_frequencies(value[3]);
        if value.len() < 4 + 3 * count {
            return Err(Error::new_descriptor_len("FormatTypeIII", 4 + 3 * count, value.len()));
        }
        Ok(
            FormatTypeIII1 {
                num_channels: value[0],
                subframe_size: value[1],
                bit_resolution: value[2],
                sample_frequency_type: SampleFrequencyType::from(value[3]),
                sample_frequencies: read_u24s(value, 4, count),
            },
        )
    }

    fn encode(&self) -> (bytes: Vec<u8>) {
        let mut data: Vec<u8> = Vec::new();
        data.push(self.num_channels);
        data.push(self.subframe_size);
        data.push(self.bit_resolution);
        data.push(u8::from(self.sample_frequency_type));
        push_u24s(&mut data, &self.sample_frequencies);
        data
    }

    proof fn lemma_decode_encoded(&self) {
        let e = self.encoding();
        let count = self.sample_frequencies@.len() as int;
        assert(e.len() == 4 + 3 * count);
        assert(e[3] == self.sample_frequency_type.code());
        assert(e.subrange(4, 4 + 3 * count) =~= u24s_bytes(self.sample_frequencies@));
        lemma_u24s_at_bytes(e, 4, self.sample_frequencies@);
    }

    proof fn lemma_encode_decoded(&self, b: Seq<u8>) {
        let count = frequency_count(b[3]);
        lemma_u24s_bytes_at(b, 4, count);
        assert forall|k: int| 0 <= k < count implies u24s_at(b, 4, count)[k] < 16777216 by {
            lemma_u24_bytes_le(b, 4 + 3 * k);
        }
        assert(self.encoding() =~= b.subrange(0, Self::wire_len(b) as int));
    }
}


/// The unit in which an endpoint states how long its clock takes to lock.
#[derive(Debug, Clone, Copy, PartialEq, Eq, Hash)]
pub enum LockDelayUnits {
    Undefined,
    Milliseconds,
    DecodedPcmSamples,
}

impl LockDelayUnits {
    /// The unit that the byte `b` stands for; a byte that names none is undefined.
    pub open spec fn of(b: u8) -> LockDelayUnits {
        if b == 1 {
            LockDelayUnits::Milliseconds
        } else if b == 2 {
            LockDelayUnits::DecodedPcmSamples
        } else {
            LockDelayUnits::Undefined
        }
    }
}

impl From<u8> for LockDelayUnits {
    fn from(b: u8) -> (units: LockDelayUnits) {
        match b {
            1 => LockDelayUnits::Milliseconds,
            2 => LockDelayUnits::DecodedPcmSamples,
            _ => LockDelayUnits::Undefined,
        }
    }
}

impl FromSpecImpl<u8> for LockDelayUnits {
    open spec fn obeys_from_spec() -> bool {
        true
    }

    open spec fn from_spec(b: u8) -> LockDelayUnits {
        LockDelayUnits::of(b)
    }
}

impl DataStreamingEndpoint1 {
    /// Get the expected length of the descriptor
    pub fn size() -> (len: usize)
        ensures
            len == Self::min_len(),
    {
        4
    }

    /// Get the lock delay units
    pub fn lock_delay_units(&self) -> (units: LockDelayUnits)
        ensures
            units == LockDelayUnits::of(self.lock_delay_units),
    {
        LockDelayUnits::from(self.lock_delay_units)
    }
}

impl DataStreamingEndpoint2 {
    /// Get the expected length of the descriptor
    pub fn size() -> (len: usize)
        ensures
            len == Self::min_len(),
    {
        5
    }

    /// Get the lock delay units
    pub fn lock_delay_units(&self) -> (units: LockDelayUnits)
        ensures
            units == LockDelayUnits::of(self.lock_delay_units),
    {
        LockDelayUnits::from(self.lock_delay_units)
    }
}

impl DataStreamingEndpoint3 {
    /// Get the expected length of the descriptor
    pub fn size() -> (len: usize)
        ensures
            len == Self::min_len(),
    {
        7
    }

    /// Get the lock delay units
    pub fn lock_delay_units(&self) -> (units: LockDelayUnits)
        ensures
            units == LockDelayUnits::of(self.lock_delay_units),
    {
        LockDelayUnits::from(self.lock_delay_units)
    }
}

/// The family of formats that a format type descriptor belongs to.
#[derive(Debug, Clone, Copy, PartialEq, Eq, Hash)]
pub enum StreamingFormatType {
    TypeI,
    TypeII,
    TypeIII,
    TypeIV,
    Undefined(u8),
}

impl StreamingFormatType {
    /// The format type that the byte `b` stands for.
    pub open spec fn of(b: u8) -> StreamingFormatType {
        if b == 0x01 {
            StreamingFormatType::TypeI
        } else if b == 0x02 {
            StreamingFormatType::TypeII
        } else if b == 0x03 {
            StreamingFormatType::TypeIII
        } else if b == 0x04 {
            StreamingFormatType::TypeIV
        } else {
            StreamingFormatType::Undefined(b)
        }
    }

    /// The byte that stands for `self`.
    pub open spec fn code(self) -> u8 {
        match self {
            StreamingFormatType::TypeI => 0x01,
            StreamingFormatType::TypeII => 0x02,
            StreamingFormatType::TypeIII => 0x03,
            StreamingFormatType::TypeIV => 0x04,
            StreamingFormatType::Undefined(b) => b,
        }
    }
}

impl From<u8> for StreamingFormatType {
    fn from(b: u8) -> (t: StreamingFormatType) {
        match b {
            0x01 => StreamingFormatType::TypeI,
            0x02 => StreamingFormatType::TypeII,
            0x03 => StreamingFormatType::TypeIII,
            0x04 => StreamingFormatType::TypeIV,
            b => StreamingFormatType::Undefined(b),
        }
    }
}

impl FromSpecImpl<u8> for StreamingFormatType {
    open spec fn obeys_from_spec() -> bool {
        true
    }

    open spec fn from_spec(b: u8) -> StreamingFormatType {
        StreamingFormatType::of(b)
    }
}

impl From<StreamingFormatType> for u8 {
    fn from(sft: StreamingFormatType) -> (b: u8) {
        match sft {
            StreamingFormatType::TypeI => 0x01,
            StreamingFormatType::TypeII => 0x02,
            StreamingFormatType::TypeIII => 0x03,
            StreamingFormatType::TypeIV => 0x04,
            StreamingFormatType::Undefined(b) => b,
        }
    }
}

impl FromSpecImpl<StreamingFormatType> for u8 {
    open spec fn obeys_from_spec() -> bool {
        true
    }

    open spec fn from_spec(sft: StreamingFormatType) -> u8 {
        sft.code()
    }
}

/// UAC2: the Type III format type descriptor, laid out as that of Type I.
pub type FormatTypeIII2 = FormatTypeI2;

/// What follows the type byte or the format tag of a streaming format descriptor.
#[derive(Debug, Clone, PartialEq, Eq, Hash)]
pub enum StreamingFormatInterface {
    FormatTypeI1(FormatTypeI1),
    FormatTypeII1(FormatTypeII1),
    FormatTypeIII1(FormatTypeIII1),
    FormatTypeI2(FormatTypeI2),
    FormatTypeII2(FormatTypeII2),
    FormatTypeIII2(FormatTypeIII2),
    FormatSpecificMpeg(FormatSpecificMpeg),
    FormatSpecificAc3(FormatSpecificAc3),
    /// The bytes of a format under a protocol that has no format type descriptors.
    Invalid(Vec<u8>),
    /// The bytes of a format that is not known.
    Undefined(Vec<u8>),
}

impl StreamingFormatInterface {
    /// The bytes of `self` on the wire.
    pub open spec fn encoding(&self) -> Seq<u8> {
        match self {
            StreamingFormatInterface::FormatTypeI1(ft) => ft.encoding(),
            StreamingFormatInterface::FormatTypeII1(ft) => ft.encoding(),
            StreamingFormatInterface::FormatTypeIII1(ft) => ft.encoding(),
            StreamingFormatInterface::FormatTypeI2(ft) => ft.encoding(),
            StreamingFormatInterface::FormatTypeII2(ft) => ft.encoding(),
            StreamingFormatInterface::FormatTypeIII2(ft) => ft.encoding(),
            StreamingFormatInterface::FormatSpecificMpeg(ft) => ft.encoding(),
            StreamingFormatInterface::FormatSpecificAc3(ft) => ft.encoding(),
            StreamingFormatInterface::Invalid(data) => data@,
            StreamingFormatInterface::Undefined(data) => data@,
        }
    }

    /// `self` is what the format type `format_type` of `protocol` makes of `b`.
    pub open spec fn typed_from(
        &self,
        protocol: UacProtocol,
        format_type: StreamingFormatType,
        b: Seq<u8>,
    ) -> bool {
        match (protocol, format_type) {
            (UacProtocol::Uac1, StreamingFormatType::TypeI) => self is FormatTypeI1 && accepts(
                b,
                self->FormatTypeI1_0,
            ),
            (UacProtocol::Uac1, StreamingFormatType::TypeII) => self is FormatTypeII1 && accepts(
                b,
                self->FormatTypeII1_0,
            ),
            (UacProtocol::Uac1, StreamingFormatType::TypeIII) => self is FormatTypeIII1 && accepts(
                b,
                self->FormatTypeIII1_0,
            ),
            (UacProtocol::Uac2, StreamingFormatType::TypeI) => self is FormatTypeI2 && accepts(
                b,
                self->FormatTypeI2_0,
            ),
            (UacProtocol::Uac2, StreamingFormatType::TypeII) => self is FormatTypeII2 && accepts(
                b,
                self->FormatTypeII2_0,
            ),
            (UacProtocol::Uac2, StreamingFormatType::TypeIII) => self is FormatTypeIII2 && accepts(
                b,
                self->FormatTypeIII2_0,
            ),
            (UacProtocol::Uac1, _) | (UacProtocol::Uac2, _) => self is Undefined
                && self->Undefined_0@ == b,
            _ => self is Invalid && self->Invalid_0@ == b,
        }
    }

    /// `e` is the error with which the format type `format_type` of `protocol`
    /// turns `b` down.
    pub open spec fn type_rejects(
        protocol: UacProtocol,
        format_type: StreamingFormatType,
        b: Seq<u8>,
        e: Error,
    ) -> bool {
        match (protocol, format_type) {
            (UacProtocol::Uac1, StreamingFormatType::TypeI) => rejects::<FormatTypeI1>(b, e),
            (UacProtocol::Uac1, StreamingFormatType::TypeII) => rejects::<FormatTypeII1>(b, e),
            (UacProtocol::Uac1, StreamingFormatType::TypeIII) => rejects::<FormatTypeIII1>(b, e),
            (UacProtocol::Uac2, StreamingFormatType::TypeI) => rejects::<FormatTypeI2>(b, e),
            (UacProtocol::Uac2, StreamingFormatType::TypeII) => rejects::<FormatTypeII2>(b, e),
            (UacProtocol::Uac2, StreamingFormatType::TypeIII) => rejects::<FormatTypeIII2>(b, e),
            _ => false,
        }
    }

    /// `self` is what the format tag `format_tag` makes of `b`.
    pub open spec fn tagged_from(&self, format_tag: u16, b: Seq<u8>) -> bool {
        if format_tag == 0x1001 {
            self is FormatSpecificMpeg && accepts(b, self->FormatSpecificMpeg_0)
        } else if format_tag == 0x1002 {
            self is FormatSpecificAc3 && accepts(b, self->FormatSpecificAc3_0)
        } else {
            self is Undefined && self->Undefined_0@ == b
        }
    }

    /// `e` is the error with which the format tag `format_tag` turns `b` down.
    pub open spec fn tag_rejects(format_tag: u16, b: Seq<u8>, e: Error) -> bool {
        if format_tag == 0x1001 {
            rejects::<FormatSpecificMpeg>(b, e)
        } else if format_tag == 0x1002 {
            rejects::<FormatSpecificAc3>(b, e)
        } else {
            false
        }
    }

    /// `b` is the payload of the format that `self` holds and nothing after
    /// it, written the one way in which the format is encoded. Bytes that
    /// were kept as they are always are.
    pub open spec fn exact(&self, b: Seq<u8>) -> bool {
        match self {
            StreamingFormatInterface::FormatTypeI1(_) => exact::<FormatTypeI1>(b),
            StreamingFormatInterface::FormatTypeII1(_) => exact::<FormatTypeII1>(b),
            StreamingFormatInterface::FormatTypeIII1(_) => exact::<FormatTypeIII1>(b),
            StreamingFormatInterface::FormatTypeI2(_) => exact::<FormatTypeI2>(b),
            StreamingFormatInterface::FormatTypeII2(_) => exact::<FormatTypeII2>(b),
            StreamingFormatInterface::FormatTypeIII2(_) => exact::<FormatTypeIII2>(b),
            StreamingFormatInterface::FormatSpecificMpeg(_) => exact::<FormatSpecificMpeg>(b),
            StreamingFormatInterface::FormatSpecificAc3(_) => exact::<FormatSpecificAc3>(b),
            StreamingFormatInterface::Invalid(_) => true,
            StreamingFormatInterface::Undefined(_) => true,
        }
    }

    /// What a format type made of a payload encodes to the payload.
    pub proof fn lemma_typed_payload_kept(
        &self,
        protocol: UacProtocol,
        format_type: StreamingFormatType,
        b: Seq<u8>,
    )
        requires
            self.typed_from(protocol, format_type, b),
            self.exact(b),
        ensures
            self.encoding() == b,
    {
        match self {
            StreamingFormatInterface::FormatTypeI1(ft) => lemma_encode_decode(*ft, b),
            StreamingFormatInterface::FormatTypeII1(ft) => lemma_encode_decode(*ft, b),
            StreamingFormatInterface::FormatTypeIII1(ft) => lemma_encode_decode(*ft, b),
            StreamingFormatInterface::FormatTypeI2(ft) => lemma_encode_decode(*ft, b),
            StreamingFormatInterface::FormatTypeII2(ft) => lemma_encode_decode(*ft, b),
            StreamingFormatInterface::FormatTypeIII2(ft) => lemma_encode_decode(*ft, b),
            StreamingFormatInterface::FormatSpecificMpeg(ft) => lemma_encode_decode(*ft, b),
            StreamingFormatInterface::FormatSpecificAc3(ft) => lemma_encode_decode(*ft, b),
            StreamingFormatInterface::Invalid(_) => {},
            StreamingFormatInterface::Undefined(_) => {},
        }
    }

    /// What a format tag made of a payload encodes to the payload.
    pub proof fn lemma_tagged_payload_kept(&self, format_tag: u16, b: Seq<u8>)
        requires
            self.tagged_from(format_tag, b),
            self.exact(b),
        ensures
            self.encoding() == b,
    {
        match self {
            StreamingFormatInterface::FormatSpecificMpeg(ft) => lemma_encode_decode(*ft, b),
            StreamingFormatInterface::FormatSpecificAc3(ft) => lemma_encode_decode(*ft, b),
            _ => {},
        }
    }

    /// Encodes `self`.
    pub fn encode(&self) -> (bytes: Vec<u8>)
        ensures
            bytes@ == self.encoding(),
    {
        match self {
            StreamingFormatInterface::FormatTypeI1(ft) => ft.encode(),
            StreamingFormatInterface::FormatTypeII1(ft) => ft.encode(),
            StreamingFormatInterface::FormatTypeIII1(ft) => ft.encode(),
            StreamingFormatInterface::FormatTypeI2(ft) => ft.encode(),
            StreamingFormatInterface::FormatTypeII2(ft) => ft.encode(),
            StreamingFormatInterface::FormatTypeIII2(ft) => ft.encode(),
            StreamingFormatInterface::FormatSpecificMpeg(ft) => ft.encode(),
            StreamingFormatInterface::FormatSpecificAc3(ft) => ft.encode(),
            StreamingFormatInterface::Invalid(data) => copy_bytes(data),
            StreamingFormatInterface::Undefined(data) => copy_bytes(data),
        }
    }
}

/// A format type descriptor: the type byte and what the type lays out after it.
#[derive(Debug, Clone, PartialEq, Eq, Hash)]
pub struct StreamingFormat {
    pub format_type: StreamingFormatType,
    pub interface: StreamingFormatInterface,
}

impl StreamingFormat {
    /// What decoding `b` under `protocol` may return.
    pub open spec fn decoding(
        protocol: UacProtocol,
        b: Seq<u8>,
        r: Result<StreamingFormat, Error>,
    ) -> bool {
        if b.len() == 0 {
            r == Err::<StreamingFormat, Error>(
                Error::DescriptorTooShort {
                    descriptor_name: "StreamingFormat",
                    expected: 1,
                    actual: 0,
                },
            )
        } else {
            let format_type = StreamingFormatType::of(b[0]);
            let rest = b.subrange(1, b.len() as int);
            match r {
                Ok(format) => format.format_type == format_type && format.interface.typed_from(
                    protocol,
                    format_type,
                    rest,
                ),
                Err(e) => StreamingFormatInterface::type_rejects(protocol, format_type, rest, e),
            }
        }
    }

    /// The bytes of `self` on the wire.
    pub open spec fn encoding(&self) -> Seq<u8> {
        seq![self.format_type.code()] + self.interface.encoding()
    }

    /// `b` starts with the byte of the format type of `self` and goes on with
    /// the payload of its format and nothing after it, written the one way in
    /// which the format is encoded.
    pub open spec fn exact(&self, b: Seq<u8>) -> bool {
        b.len() > 0 && b[0] == self.format_type.code() && self.interface.exact(
            b.subrange(1, b.len() as int),
        )
    }

    /// What was decoded from a payload encodes to the payload.
    pub proof fn lemma_payload_kept(&self, protocol: UacProtocol, b: Seq<u8>)
        requires
            Self::decoding(protocol, b, Ok(*self)),
            self.exact(b),
        ensures
            self.encoding() == b,
    {
        let rest = b.subrange(1, b.len() as int);
        self.interface.lemma_typed_payload_kept(protocol, self.format_type, rest);
        assert(self.encoding() =~= b);
    }

    /// Get the StreamingFormat from the UAC AS interface
    pub fn from_uac_as_interface(protocol: &UacProtocol, data: &[u8]) -> (r: Result<Self, Error>)
        ensures
            Self::decoding(*protocol, data@, r),
    {
        if data.len() == 0 {
            return Err(Error::new_descriptor_len("StreamingFormat", 1, data.len()));
        }
        let format_type = StreamingFormatType::from(data[0]);
        let rest = &data[1..data.len()];
        let interface = match protocol {
            UacProtocol::Uac1 => match format_type {
                StreamingFormatType::TypeI => StreamingFormatInterface::FormatTypeI1(
                    FormatTypeI1::decode(rest)?,
                ),
                StreamingFormatType::TypeII => StreamingFormatInterface::FormatTypeII1(
                    FormatTypeII1::decode(rest)?,
                ),
                StreamingFormatType::TypeIII => StreamingFormatInterface::FormatTypeIII1(
                    FormatTypeIII1::decode(rest)?,
                ),
                _ => StreamingFormatInterface::Undefined(copy_from(data, 1)),
            },
            UacProtocol::Uac2 => match format_type {
                StreamingFormatType::TypeI => StreamingFormatInterface::FormatTypeI2(
                    FormatTypeI2::decode(rest)?,
                ),
                StreamingFormatType::TypeII => StreamingFormatInterface::FormatTypeII2(
                    FormatTypeII2::decode(rest)?,
                ),
                StreamingFormatType::TypeIII => StreamingFormatInterface::FormatTypeIII2(
                    FormatTypeIII2::decode(rest)?,
                ),
                _ => StreamingFormatInterface::Undefined(copy_from(data, 1)),
            },
            _ => StreamingFormatInterface::Invalid(copy_from(data, 1)),
        };
        Ok(StreamingFormat { format_type, interface })
    }

    /// Encodes `self`.
    pub fn encode(&self) -> (bytes: Vec<u8>)
        ensures
            bytes@ == self.encoding(),
    {
        let mut data: Vec<u8> = Vec::new();
        data.push(u8::from(self.format_type));
        let interface = self.interface.encode();
        data.extend_from_slice(interface.as_slice());
        data
    }
}

/// A format-specific descriptor: the format tag and what the format lays out after it.
#[derive(Debug, Clone, PartialEq, Eq, Hash)]
pub struct StreamingFormatSpecific {
    pub format_tag: u16,
    pub interface: StreamingFormatInterface,
}

impl StreamingFormatSpecific {
    /// What decoding `b` may return.
    pub open spec fn decoding(b: Seq<u8>, r: Result<StreamingFormatSpecific, Error>) -> bool {
        if b.len() < 2 {
            r == Err::<StreamingFormatSpecific, Error>(
                Error::DescriptorTooShort {
                    descriptor_name: "StreamingFormatSpecific",
                    expected: 2,
                    actual: b.len() as usize,
                },
            )
        } else {
            let format_tag = u16_le(b, 0);
            let rest = b.subrange(2, b.len() as int);
            match r {
                Ok(format) => format.format_tag == format_tag && format.interface.tagged_from(
                    format_tag,
                    rest,
                ),
                Err(e) => StreamingFormatInterface::tag_rejects(format_tag, rest, e),
            }
        }
    }

    /// The bytes of `self` on the wire.
    pub open spec fn encoding(&self) -> Seq<u8> {
        u16_bytes(self.format_tag) + self.interface.encoding()
    }

    /// `b` starts with a format tag and goes on with the payload of the
    /// format of `self` and nothing after it, written the one way in which the
    /// format is encoded.
    pub open spec fn exact(&self, b: Seq<u8>) -> bool {
        b.len() >= 2 && self.interface.exact(b.subrange(2, b.len() as int))
    }

    /// What was decoded from a payload encodes to the payload.
    pub proof fn lemma_payload_kept(&self, b: Seq<u8>)
        requires
            Self::decoding(b, Ok(*self)),
            self.exact(b),
        ensures
            self.encoding() == b,
    {
        let rest = b.subrange(2, b.len() as int);
        self.interface.lemma_tagged_payload_kept(self.format_tag, rest);
        lemma_u16_bytes_le(b, 0);
        assert(self.encoding() =~= b);
    }

    /// Get the StreamingFormatSpecific from the UAC AS interface
    pub fn from_uac_as_interface(_protocol: &UacProtocol, data: &[u8]) -> (r: Result<Self, Error>)
        ensures
            Self::decoding(data@, r),
    {
        StreamingFormatSpecific::decode(data)
    }

    /// Decodes the format tag at the start of `value` and the format after it.
    pub fn decode(value: &[u8]) -> (r: Result<Self, Error>)
        ensures
            Self::decoding(value@, r),
    {
        if value.len() < 2 {
            return Err(Error::new_descriptor_len("StreamingFormatSpecific", 2, value.len()));
        }
        let format_tag = read_u16(value, 0);
        let rest = &value[2..value.len()];
        let interface = match format_tag {
            0x1001 => StreamingFormatInterface::FormatSpecificMpeg(
                FormatSpecificMpeg::decode(rest)?,
            ),
            0x1002 => StreamingFormatInterface::FormatSpecificAc3(FormatSpecificAc3::decode(rest)?),
            _ => StreamingFormatInterface::Undefined(copy_from(value, 2)),
        };
        Ok(StreamingFormatSpecific { format_tag, interface })
    }

    /// Encodes `self`.
    pub fn encode(&self) -> (bytes: Vec<u8>)
        ensures
            bytes@ == self.encoding(),
    {
        let mut data: Vec<u8> = Vec::new();
        push_u16(&mut data, self.format_tag);
        let interface = self.interface.encode();
        data.extend_from_slice(interface.as_slice());
        data
    }
}

impl StreamingFormatType {
    /// The name of `self`.
    pub open spec fn label(self) -> Seq<char> {
        match self {
            StreamingFormatType::TypeI => "TypeI"@,
            StreamingFormatType::TypeII => "TypeII"@,
            StreamingFormatType::TypeIII => "TypeIII"@,
            StreamingFormatType::TypeIV => "TypeIV"@,
            StreamingFormatType::Undefined(_) => "Undefined"@,
        }
    }

    /// The name of `self`.
    pub fn to_string(&self) -> (s: String)
        ensures
            s@ == self.label(),
    {
        match self {
            StreamingFormatType::TypeI => "TypeI".to_owned(),
            StreamingFormatType::TypeII => "TypeII".to_owned(),
            StreamingFormatType::TypeIII => "TypeIII".to_owned(),
            StreamingFormatType::TypeIV => "TypeIV".to_owned(),
            StreamingFormatType::Undefined(_) => "Undefined".to_owned(),
        }
    }

    /// The name of `self` as the list of descriptors of `lsusb` has it.
    pub open spec fn lsusb_label(self) -> Seq<char> {
        match self {
            StreamingFormatType::TypeI => "FORMAT_TYPE_I"@,
            StreamingFormatType::TypeII => "FORMAT_TYPE_II"@,
            StreamingFormatType::TypeIII => "FORMAT_TYPE_III"@,
            StreamingFormatType::TypeIV => "FORMAT_TYPE_IV"@,
            StreamingFormatType::Undefined(_) => "invalid"@,
        }
    }

    /// The name of `self` as the list of descriptors of `lsusb` has it.
    pub fn to_lsusb_string(&self) -> (s: String)
        ensures
            s@ == self.lsusb_label(),
    {
        match self {
            StreamingFormatType::TypeI => "FORMAT_TYPE_I".to_owned(),
            StreamingFormatType::TypeII => "FORMAT_TYPE_II".to_owned(),
            StreamingFormatType::TypeIII => "FORMAT_TYPE_III".to_owned(),
            StreamingFormatType::TypeIV => "FORMAT_TYPE_IV".to_owned(),
            StreamingFormatType::Undefined(_) => "invalid".to_owned(),
        }
    }
}

impl SampleFrequencyType {
    /// The name of `self`.
    pub open spec fn label(self) -> Seq<char> {
        match self {
            SampleFrequencyType::Continuous => "Continuous"@,
            SampleFrequencyType::Discrete(_) => "Discrete"@,
        }
    }

    /// The name of `self`.
    pub fn to_string(&self) -> (s: String)
        ensures
            s@ == self.label(),
    {
        match self {
            SampleFrequencyType::Continuous => "Continuous".to_owned(),
            SampleFrequencyType::Discrete(_) => "Discrete".to_owned(),
        }
    }
}

impl LockDelayUnits {
    /// The name of `self`.
    pub open spec fn label(self) -> Seq<char> {
        match self {
            LockDelayUnits::Undefined => "Undefined"@,
            LockDelayUnits::Milliseconds => "Milliseconds"@,
            LockDelayUnits::DecodedPcmSamples => "Decoded PCM samples"@,
        }
    }

    /// The name of `self`.
    pub fn to_string(&self) -> (s: String)
        ensures
            s@ == self.label(),
    {
        match self {
            LockDelayUnits::Undefined => "Undefined".to_owned(),
            LockDelayUnits::Milliseconds => "Milliseconds".to_owned(),
            LockDelayUnits::DecodedPcmSamples => "Decoded PCM samples".to_owned(),
        }
    }
}

} // verus!
