//! The units of an audio control interface: mixer, selector, feature, extension and effect.
use crate::error::Error;
use crate::wire::{
    copy_range, lemma_u16_le_bytes, lemma_u32_bytes_le, lemma_u32_le_bytes,
    lemma_u32s_at_bytes, lemma_u32s_bytes_at, push_u16, push_u32, push_u32s, read_u16,
    read_u32, read_u32s, u16_bytes, u16_le, u32_bytes, u32_le, u32s_at, u32s_bytes,
    DescriptorShape,
};
use vstd::prelude::*;

verus! {

/// UAC1: 4.3.2.3 Mixer Unit Descriptor; Table 4-5.
#[derive(Debug, Clone, PartialEq, Eq, Hash)]
pub struct MixerUnit1 {
    pub unit_id: u8,
    pub nr_in_pins: u8,
    pub source_ids: Vec<u8>,
    pub nr_channels: u8,
    pub channel_config: u16,
    pub channel_names: u8,
    pub controls: Vec<u8>,
    pub mixer: u8,
}

impl DescriptorShape for MixerUnit1 {
    open spec fn name() -> &'static str {
        "MixerUnit1"
    }

    open spec fn min_len() -> nat {
        7
    }

    open spec fn wire_len(b: Seq<u8>) -> nat {
        if b.len() < 7 {
            7
        } else {
            let pins = b[1] as int;
            if b.len() <= 2 + pins {
                (7 + pins) as nat
            } else {
                let channels = b[2 + pins] as int;
                (7 + pins + channels) as nat
            }
        }
    }

    open spec fn decoded_from(&self, b: Seq<u8>) -> bool {
        let pins = b[1] as int;
        let channels = b[2 + pins] as int;
        &&& self.unit_id == b[0]
        &&& self.nr_in_pins == b[1]
        &&& self.source_ids@ == b.subrange(2, 2 + pins)
        &&& self.nr_channels == b[2 + pins]
        &&& self.channel_config == u16_le(b, 3 + pins)
        &&& self.channel_names == b[5 + pins]
        &&& self.controls@ == b.subrange(6 + pins, 6 + pins + channels)
        &&& self.mixer == b[6 + pins + channels]
    }

    open spec fn wf(&self) -> bool {
        &&& self.source_ids@.len() == self.nr_in_pins
        &&& self.controls@.len() == self.nr_channels
    }

    open spec fn encoding(&self) -> Seq<u8> {
        seq![self.unit_id, self.nr_in_pins] + self.source_ids@ + seq![self.nr_channels]
            + u16_bytes(self.channel_config) + seq![self.channel_names] + self.controls@
            + seq![self.mixer]
    }

    fn decode(value: &[u8]) -> (r: Result<Self, Error>) {
        if value.len() < 7 {
            return Err(Error::new_descriptor_len("MixerUnit1", 7, value.len()));
        }
        let pins: usize = value[1] as usize;
        if value.len() <= 2 + pins {
            return Err(Error::new_descriptor_len("MixerUnit1", 7 + pins, value.len()));
        }
        let channels: usize = value[2 + pins] as usize;
        if value.len() < 7 + pins + channels {
            return Err(Error::new_descriptor_len("MixerUnit1", 7 + pins + channels, value.len()));
        }
        Ok(
            MixerUnit1 {
                unit_id: value[0],
                nr_in_pins: value[1],
                source_ids: copy_range(value, 2, 2 + pins),
                nr_channels: value[2 + pins],
                channel_config: read_u16(value, 3 + pins),
                channel_names: value[5 + pins],
                controls: copy_range(value, 6 + pins, 6 + pins + channels),
                mixer: value[6 + pins + channels],
            },
        )
    }

    fn encode(&self) -> (bytes: Vec<u8>) {
        let mut data: Vec<u8> = Vec::new();
        data.push(self.unit_id);
        data.push(self.nr_in_pins);
        data.extend_from_slice(self.source_ids.as_slice());
        data.push(self.nr_channels);
        push_u16(&mut data, self.channel_config);
        data.push(self.channel_names);
        data.extend_from_slice(self.controls.as_slice());
        data.push(self.mixer);
        data
    }

    proof fn lemma_decode_encoded(&self) {
        let e = self.encoding();
        let pins = self.nr_in_pins as int;
        let channels = self.nr_channels as int;
        assert(e.len() == 7 + pins + channels);
        assert(e[1] == self.nr_in_pins);
        assert(e[2 + pins] == self.nr_channels);
        assert(e.subrange(2, 2 + pins) =~= self.source_ids@);
        assert(e.subrange(3 + pins, 5 + pins) =~= u16_bytes(self.channel_config));
        lemma_u16_le_bytes(e, 3 + pins, self.channel_config);
        assert(e.subrange(6 + pins, 6 + pins + channels) =~= self.controls@);
    }

    proof fn lemma_encode_decoded(&self, b: Seq<u8>) {
        assert(self.encoding() =~= b.subrange(0, Self::wire_len(b) as int));
    }
}

/// UAC2: 4.7.2.6 Mixer Unit Descriptor; Table 4-11.
#[derive(Debug, Clone, PartialEq, Eq, Hash)]
pub struct MixerUnit2 {
    pub unit_id: u8,
    pub nr_in_pins: u8,
    pub source_ids: Vec<u8>,
    pub nr_channels: u8,
    pub channel_config: u32,
    pub channel_names: u8,
    pub mixer_controls: Vec<u8>,
    pub controls: u8,
    pub mixer: u8,
}

impl DescriptorShape for MixerUnit2 {
    open spec fn name() -> &'static str {
        "MixerUnit2"
    }

    open spec fn min_len() -> nat {
        10
    }

    open spec fn wire_len(b: Seq<u8>) -> nat {
        if b.len() < 10 {
            10
        } else {
            let pins = b[1] as int;
            if b.len() <= 2 + pins {
                (10 + pins) as nat
            } else {
                let channels = b[2 + pins] as int;
                (10 + pins + channels) as nat
            }
        }
    }

    open spec fn decoded_from(&self, b: Seq<u8>) -> bool {
        let pins = b[1] as int;
        let channels = b[2 + pins] as int;
        &&& self.unit_id == b[0]
        &&& self.nr_in_pins == b[1]
        &&& self.source_ids@ == b.subrange(2, 2 + pins)
        &&& self.nr_channels == b[2 + pins]
        &&& self.channel_config == u32_le(b, 3 + pins)
        &&& self.channel_names == b[7 + pins]
        &&& self.mixer_controls@ == b.subrange(8 + pins, 8 + pins + channels)
        &&& self.controls == b[8 + pins + channels]
        &&& self.mixer == b[9 + pins + channels]
    }

    open spec fn wf(&self) -> bool {
        &&& self.source_ids@.len() == self.nr_in_pins
        &&& self.mixer_controls@.len() == self.nr_channels
    }

    open spec fn encoding(&self) -> Seq<u8> {
        seq![self.unit_id, self.nr_in_pins] + self.source_ids@ + seq![self.nr_channels]
            + u32_bytes(self.channel_config) + seq![self.channel_names] + self.mixer_controls@
            + seq![self.controls, self.mixer]
    }

    fn decode(value: &[u8]) -> (r: Result<Self, Error>) {
        if value.len() < 10 {
            return Err(Error::new_descriptor_len("MixerUnit2", 10, value.len()));
        }
        let pins: usize = value[1] as usize;
        if value.len() <= 2 + pins {
            return Err(Error::new_descriptor_len("MixerUnit2", 10 + pins, value.len()));
        }
        let channels: usize = value[2 + pins] as usize;
        if value.len() < 10 + pins + channels {
            return Err(Error::new_descriptor_len("MixerUnit2", 10 + pins + channels, value.len()));
        }
        Ok(
            MixerUnit2 {
                unit_id: value[0],
                nr_in_pins: value[1],
                source_ids: copy_range(value, 2, 2 + pins),
                nr_channels: value[2 + pins],
                channel_config: read_u32(value, 3 + pins),
                channel_names: value[7 + pins],
                mixer_controls: copy_range(value, 8 + pins, 8 + pins + channels),
                controls: value[8 + pins + channels],
                mixer: value[9 + pins + channels],
            },
        )
    }

    fn encode(&self) -> (bytes: Vec<u8>) {
        let mut data: Vec<u8> = Vec::new();
        data.push(self.unit_id);
        data.push(self.nr_in_pins);
        data.extend_from_slice(self.source_ids.as_slice());
        data.push(self.nr_channels);
        push_u32(&mut data, self.channel_config);
        data.push(self.channel_names);
        data.extend_from_slice(self.mixer_controls.as_slice());
        data.push(self.controls);
        data.push(self.mixer);
        data
    }

    proof fn lemma_decode_encoded(&self) {
        let e = self.encoding();
        let pins = self.nr_in_pins as int;
        let channels = self.nr_channels as int;
        assert(e.len() == 10 + pins + channels);
        assert(e[1] == self.nr_in_pins);
        assert(e[2 + pins] == self.nr_channels);
        assert(e.subrange(2, 2 + pins) =~= self.source_ids@);
        assert(e.subrange(3 + pins, 7 + pins) =~= u32_bytes(self.channel_config));
        lemma_u32_le_bytes(e, 3 + pins, self.channel_config);
        assert(e.subrange(8 + pins, 8 + pins + channels) =~= self.mixer_controls@);
    }

    proof fn lemma_encode_decoded(&self, b: Seq<u8>) {
        let pins = b[1] as int;
        let channels = b[2 + pins] as int;
        lemma_u32_bytes_le(b, 3 + pins);
        assert(self.encoding() =~= b.subrange(0, Self::wire_len(b) as int));
    }
}

/// UAC3: 4.5.2.5 Mixer Unit Descriptor; Table 4-29.
#[derive(Debug, Clone, PartialEq, Eq, Hash)]
pub struct MixerUnit3 {
    pub unit_id: u8,
    pub nr_in_pins: u8,
    pub source_ids: Vec<u8>,
    pub cluster_descr_id: u16,
    pub mixer_controls: Vec<u8>,
    pub controls: u32,
    pub mixer_descr_str: u16,
}

impl DescriptorShape for MixerUnit3 {
    open spec fn name() -> &'static str {
        "MixerUnit3"
    }

    open spec fn min_len() -> nat {
        11
    }

    open spec fn wire_len(b: Seq<u8>) -> nat {
        if b.len() < 11 {
            11
        } else {
            let pins = b[1] as int;
            (11 + pins) as nat
        }
    }

    open spec fn decoded_from(&self, b: Seq<u8>) -> bool {
        let pins = b[1] as int;
        &&& self.unit_id == b[0]
        &&& self.nr_in_pins == b[1]
        &&& self.source_ids@ == b.subrange(2, 2 + pins)
        &&& self.cluster_descr_id == u16_le(b, 2 + pins)
        &&& self.mixer_controls@ == b.subrange(4 + pins, 5 + pins)
        &&& self.controls == u32_le(b, 5 + pins)
        &&& self.mixer_descr_str == u16_le(b, 9 + pins)
    }

    open spec fn wf(&self) -> bool {
        &&& self.source_ids@.len() == self.nr_in_pins
        &&& self.mixer_controls@.len() == 1
    }

    open spec fn encoding(&self) -> Seq<u8> {
        seq![self.unit_id, self.nr_in_pins] + self.source_ids@
            + u16_bytes(self.cluster_descr_id) + self.mixer_controls@ + u32_bytes(self.controls)
            + u16_bytes(self.mixer_descr_str)
    }

    fn decode(value: &[u8]) -> (r: Result<Self, Error>) {
        if value.len() < 11 {
            return Err(Error::new_descriptor_len("MixerUnit3", 11, value.len()));
        }
        let pins: usize = value[1] as usize;
        if value.len() < 11 + pins {
            return Err(Error::new_descriptor_len("MixerUnit3", 11 + pins, value.len()));
        }
        Ok(
            MixerUnit3 {
                unit_id: value[0],
                nr_in_pins: value[1],
                source_ids: copy_range(value, 2, 2 + pins),
                cluster_descr_id: read_u16(value, 2 + pins),
                mixer_controls: copy_range(value, 4 + pins, 5 + pins),
                controls: read_u32(value, 5 + pins),
                mixer_descr_str: read_u16(value, 9 + pins),
            },
        )
    }

    fn encode(&self) -> (bytes: Vec<u8>) {
        let mut data: Vec<u8> = Vec::new();
        data.push(self.unit_id);
        data.push(self.nr_in_pins);
        data.extend_from_slice(self.source_ids.as_slice());
        push_u16(&mut data, self.cluster_descr_id);
        data.extend_from_slice(self.mixer_controls.as_slice());
        push_u32(&mut data, self.controls);
        push_u16(&mut data, self.mixer_descr_str);
        data
    }

    proof fn lemma_decode_encoded(&self) {
        let e = self.encoding();
        let pins = self.nr_in_pins as int;
        assert(e.len() == 11 + pins);
        assert(e[1] == self.nr_in_pins);
        assert(e.subrange(2, 2 + pins) =~= self.source_ids@);
        assert(e.subrange(2 + pins, 4 + pins) =~= u16_bytes(self.cluster_descr_id));
        lemma_u16_le_bytes(e, 2 + pins, self.cluster_descr_id);
        assert(e.subrange(4 + pins, 5 + pins) =~= self.mixer_controls@);
        assert(e.subrange(5 + pins, 9 + pins) =~= u32_bytes(self.controls));
        lemma_u32_le_bytes(e, 5 + pins, self.controls);
        assert(e.subrange(9 + pins, 11 + pins) =~= u16_bytes(self.mixer_descr_str));
        lemma_u16_le_bytes(e, 9 + pins, self.mixer_descr_str);
    }

    proof fn lemma_encode_decoded(&self, b: Seq<u8>) {
        let pins = b[1] as int;
        lemma_u32_bytes_le(b, 5 + pins);
        assert(self.encoding() =~= b.subrange(0, Self::wire_len(b) as int));
    }
}

/// UAC1: 4.3.2.4 Selector Unit Descriptor; Table 4-6.
#[derive(Debug, Clone, PartialEq, Eq, Hash)]
pub struct SelectorUnit1 {
    pub unit_id: u8,
    pub nr_in_pins: u8,
    pub source_ids: Vec<u8>,
    pub selector_index: u8,
    pub selector: Option<String>,
}

impl DescriptorShape for SelectorUnit1 {
    open spec fn name() -> &'static str {
        "SelectorUnit1"
    }

    open spec fn min_len() -> nat {
        3
    }

    open spec fn wire_len(b: Seq<u8>) -> nat {
        if b.len() < 3 {
            3
        } else {
            let pins = b[1] as int;
            (3 + pins) as nat
        }
    }

    open spec fn decoded_from(&self, b: Seq<u8>) -> bool {
        let pins = b[1] as int;
        &&& self.unit_id == b[0]
        &&& self.nr_in_pins == b[1]
        &&& self.source_ids@ == b.subrange(2, 2 + pins)
        &&& self.selector_index == b[2 + pins]
        &&& self.selector is None
    }

    open spec fn wf(&self) -> bool {
        &&& self.source_ids@.len() == self.nr_in_pins
        &&& self.selector is None
    }

    open spec fn encoding(&self) -> Seq<u8> {
        seq![self.unit_id, self.nr_in_pins] + self.source_ids@ + seq![self.selector_index]
    }

    fn decode(value: &[u8]) -> (r: Result<Self, Error>) {
        if value.len() < 3 {
            return Err(Error::new_descriptor_len("SelectorUnit1", 3, value.len()));
        }
        let pins: usize = value[1] as usize;
        if value.len() < 3 + pins {
            return Err(Error::new_descriptor_len("SelectorUnit1", 3 + pins, value.len()));
        }
        Ok(
            SelectorUnit1 {
                unit_id: value[0],
                nr_in_pins: value[1],
                source_ids: copy_range(value, 2, 2 + pins),
                selector_index: value[2 + pins],
                selector: None,
            },
        )
    }

    fn encode(&self) -> (bytes: Vec<u8>) {
        let mut data: Vec<u8> = Vec::new();
        data.push(self.unit_id);
        data.push(self.nr_in_pins);
        data.extend_from_slice(self.source_ids.as_slice());
        data.push(self.selector_index);
        data
    }

    proof fn lemma_decode_encoded(&self) {
        let e = self.encoding();
        let pins = self.nr_in_pins as int;
        assert(e.len() == 3 + pins);
        assert(e[1] == self.nr_in_pins);
        assert(e.subrange(2, 2 + pins) =~= self.source_ids@);
    }

    proof fn lemma_encode_decoded(&self, b: Seq<u8>) {
        assert(self.encoding() =~= b.subrange(0, Self::wire_len(b) as int));
    }
}

/// UAC2: 4.7.2.7 Selector Unit Descriptor; Table 4-12.
#[derive(Debug, Clone, PartialEq, Eq, Hash)]
pub struct SelectorUnit2 {
    pub unit_id: u8,
    pub nr_in_pins: u8,
    pub source_ids: Vec<u8>,
    pub controls: u8,
    pub selector_index: u8,
    pub selector: Option<String>,
}

impl DescriptorShape for SelectorUnit2 {
    open spec fn name() -> &'static str {
        "SelectorUnit2"
    }

    open spec fn min_len() -> nat {
        4
    }

    open spec fn wire_len(b: Seq<u8>) -> nat {
        if b.len() < 4 {
            4
        } else {
            let pins = b[1] as int;
            (4 + pins) as nat
        }
    }

    open spec fn decoded_from(&self, b: Seq<u8>) -> bool {
        let pins = b[1] as int;
        &&& self.unit_id == b[0]
        &&& self.nr_in_pins == b[1]
        &&& self.source_ids@ == b.subrange(2, 2 + pins)
        &&& self.controls == b[2 + pins]
        &&& self.selector_index == b[3 + pins]
        &&& self.selector is None
    }

    open spec fn wf(&self) -> bool {
        &&& self.source_ids@.len() == self.nr_in_pins
        &&& self.selector is None
    }

    open spec fn encoding(&self) -> Seq<u8> {
        seq![self.unit_id, self.nr_in_pins] + self.source_ids@
            + seq![self.controls, self.selector_index]
    }

    fn decode(value: &[u8]) -> (r: Result<Self, Error>) {
        if value.len() < 4 {
            return Err(Error::new_descriptor_len("SelectorUnit2", 4, value.len()));
        }
        let pins: usize = value[1] as usize;
        if value.len() < 4 + pins {
            return Err(Error::new_descriptor_len("SelectorUnit2", 4 + pins, value.len()));
        }
        Ok(
            SelectorUnit2 {
                unit_id: value[0],
                nr_in_pins: value[1],
                source_ids: copy_range(value, 2, 2 + pins),
                controls: value[2 + pins],
                selector_index: value[3 + pins],
                selector: None,
            },
        )
    }

    fn encode(&self) -> (bytes: Vec<u8>) {
        let mut data: Vec<u8> = Vec::new();
        data.push(self.unit_id);
        data.push(self.nr_in_pins);
        data.extend_from_slice(self.source_ids.as_slice());
        data.push(self.controls);
        data.push(self.selector_index);
        data
    }

    proof fn lemma_decode_encoded(&self) {
        let e = self.encoding();
        let pins = self.nr_in_pins as int;
        assert(e.len() == 4 + pins);
        assert(e[1] == self.nr_in_pins);
        assert(e.subrange(2, 2 + pins) =~= self.source_ids@);
    }

    proof fn lemma_encode_decoded(&self, b: Seq<u8>) {
        assert(self.encoding() =~= b.subrange(0, Self::wire_len(b) as int));
    }
}

/// UAC3: 4.5.2.6 Selector Unit Descriptor; Table 4-30.
#[derive(Debug, Clone, PartialEq, Eq, Hash)]
pub struct SelectorUnit3 {
    pub unit_id: u8,
    pub nr_in_pins: u8,
    pub source_ids: Vec<u8>,
    pub controls: u32,
    pub selector_descr_str: u16,
}

impl DescriptorShape for SelectorUnit3 {
    open spec fn name() -> &'static str {
        "SelectorUnit3"
    }

    open spec fn min_len() -> nat {
        8
    }

    open spec fn wire_len(b: Seq<u8>) -> nat {
        if b.len() < 8 {
            8
        } else {
            let pins = b[1] as int;
            (8 + pins) as nat
        }
    }

    open spec fn decoded_from(&self, b: Seq<u8>) -> bool {
        let pins = b[1] as int;
        &&& self.unit_id == b[0]
        &&& self.nr_in_pins == b[1]
        &&& self.source_ids@ == b.subrange(2, 2 + pins)
        &&& self.controls == u32_le(b, 2 + pins)
        &&& self.selector_descr_str == u16_le(b, 6 + pins)
    }

    open spec fn wf(&self) -> bool {
        self.source_ids@.len() == self.nr_in_pins
    }

    open spec fn encoding(&self) -> Seq<u8> {
        seq![self.unit_id, self.nr_in_pins] + self.source_ids@ + u32_bytes(self.controls)
            + u16_bytes(self.selector_descr_str)
    }

    fn decode(value: &[u8]) -> (r: Result<Self, Error>) {
        if value.len() < 8 {
            return Err(Error::new_descriptor_len("SelectorUnit3", 8, value.len()));
        }
        let pins: usize = value[1] as usize;
        if value.len() < 8 + pins {
            return Err(Error::new_descriptor_len("SelectorUnit3", 8 + pins, value.len()));
        }
        Ok(
            SelectorUnit3 {
                unit_id: value[0],
                nr_in_pins: value[1],
                source_ids: copy_range(value, 2, 2 + pins),
                controls: read_u32(value, 2 + pins),
                selector_descr_str: read_u16(value, 6 + pins),
            },
        )
    }

    fn encode(&self) -> (bytes: Vec<u8>) {
        let mut data: Vec<u8> = Vec::new();
        data.push(self.unit_id);
        data.push(self.nr_in_pins);
        data.extend_from_slice(self.source_ids.as_slice());
        push_u32(&mut data, self.controls);
        push_u16(&mut data, self.selector_descr_str);
        data
    }

    proof fn lemma_decode_encoded(&self) {
        let e = self.encoding();
        let pins = self.nr_in_pins as int;
        assert(e.len() == 8 + pins);
        assert(e[1] == self.nr_in_pins);
        assert(e.subrange(2, 2 + pins) =~= self.source_ids@);
        assert(e.subrange(2 + pins, 6 + pins) =~= u32_bytes(self.controls));
        lemma_u32_le_bytes(e, 2 + pins, self.controls);
        assert(e.subrange(6 + pins, 8 + pins) =~= u16_bytes(self.selector_descr_str));
        lemma_u16_le_bytes(e, 6 + pins, self.selector_descr_str);
    }

    proof fn lemma_encode_decoded(&self, b: Seq<u8>) {
        let pins = b[1] as int;
        lemma_u32_bytes_le(b, 2 + pins);
        assert(self.encoding() =~= b.subrange(0, Self::wire_len(b) as int));
    }
}

/// UAC1: 4.3.2.5 Feature Unit Descriptor; Table 4-7.
#[derive(Debug, Clone, PartialEq, Eq, Hash)]
pub struct FeatureUnit1 {
    pub unit_id: u8,
    pub source_id: u8,
    pub control_size: u8,
    pub controls: Vec<u8>,
    pub feature_index: u8,
    pub feature: Option<String>,
}

impl DescriptorShape for FeatureUnit1 {
    open spec fn name() -> &'static str {
        "FeatureUnit1"
    }

    open spec fn min_len() -> nat {
        4
    }

    open spec fn wire_len(b: Seq<u8>) -> nat {
        if b.len() < 4 {
            4
        } else {
            let size = b[2] as int;
            (4 + size) as nat
        }
    }

    open spec fn decoded_from(&self, b: Seq<u8>) -> bool {
        let size = b[2] as int;
        &&& self.unit_id == b[0]
        &&& self.source_id == b[1]
        &&& self.control_size == b[2]
        &&& self.controls@ == b.subrange(3, 3 + size)
        &&& self.feature_index == b[3 + size]
        &&& self.feature is None
    }

    open spec fn wf(&self) -> bool {
        &&& self.controls@.len() == self.control_size
        &&& self.feature is None
    }

    open spec fn encoding(&self) -> Seq<u8> {
        seq![self.unit_id, self.source_id, self.control_size] + self.controls@
            + seq![self.feature_index]
    }

    fn decode(value: &[u8]) -> (r: Result<Self, Error>) {
        if value.len() < 4 {
            return Err(Error::new_descriptor_len("FeatureUnit1", 4, value.len()));
        }
        let size: usize = value[2] as usize;
        if value.len() < 4 + size {
            return Err(Error::new_descriptor_len("FeatureUnit1", 4 + size, value.len()));
        }
        Ok(
            FeatureUnit1 {
                unit_id: value[0],
                source_id: value[1],
                control_size: value[2],
                controls: copy_range(value, 3, 3 + size),
                feature_index: value[3 + size],
                feature: None,
            },
        )
    }

    fn encode(&self) -> (bytes: Vec<u8>) {
        let mut data: Vec<u8> = Vec::new();
        data.push(self.unit_id);
        data.push(self.source_id);
        data.push(self.control_size);
        data.extend_from_slice(self.controls.as_slice());
        data.push(self.feature_index);
        data
    }

    proof fn lemma_decode_encoded(&self) {
        let e = self.encoding();
        let size = self.control_size as int;
        assert(e.len() == 4 + size);
        assert(e[2] == self.control_size);
        assert(e.subrange(3, 3 + size) =~= self.controls@);
    }

    proof fn lemma_encode_decoded(&self, b: Seq<u8>) {
        assert(self.encoding() =~= b.subrange(0, Self::wire_len(b) as int));
    }
}

/// UAC2: 4.7.2.8 Feature Unit Descriptor; Table 4-13. The byte between the
/// master controls and the string index is read over and written as zero.
#[derive(Debug, Clone, PartialEq, Eq, Hash)]
pub struct FeatureUnit2 {
    pub unit_id: u8,
    pub source_id: u8,
    pub controls: [u8; 4],
    pub feature_index: u8,
    pub feature: Option<String>,
}

impl DescriptorShape for FeatureUnit2 {
    open spec fn name() -> &'static str {
        "FeatureUnit2"
    }

    open spec fn min_len() -> nat {
        8
    }

    open spec fn wire_len(b: Seq<u8>) -> nat {
        8
    }

    open spec fn decoded_from(&self, b: Seq<u8>) -> bool {
        &&& self.unit_id == b[0]
        &&& self.source_id == b[1]
        &&& self.controls@ == b.subrange(2, 6)
        &&& self.feature_index == b[7]
        &&& self.feature is None
    }

    open spec fn wf(&self) -> bool {
        self.feature is None
    }

    open spec fn encoding(&self) -> Seq<u8> {
        seq![self.unit_id, self.source_id] + self.controls@ + seq![0u8, self.feature_index]
    }

    open spec fn canonical(b: Seq<u8>) -> bool {
        b[6] == 0
    }

    fn decode(value: &[u8]) -> (r: Result<Self, Error>) {
        if value.len() < 8 {
            return Err(Error::new_descriptor_len("FeatureUnit2", 8, value.len()));
        }
        let controls: [u8; 4] = [value[2], value[3], value[4], value[5]];
        assert(controls@ =~= value@.subrange(2, 6));
        Ok(
            FeatureUnit2 {
                unit_id: value[0],
                source_id: value[1],
                controls,
                feature_index: value[7],
                feature: None,
            },
        )
    }

    fn encode(&self) -> (bytes: Vec<u8>) {
        let mut data: Vec<u8> = Vec::new();
        data.push(self.unit_id);
        data.push(self.source_id);
        data.extend_from_slice(self.controls.as_slice());
        data.push(0);
        data.push(self.feature_index);
        data
    }

    proof fn lemma_decode_encoded(&self) {
        let e = self.encoding();
        assert(e.subrange(2, 6) =~= self.controls@);
    }

    proof fn lemma_encode_decoded(&self, b: Seq<u8>) {
    }
}

/// UAC3: 4.5.2.7 Feature Unit Descriptor; Table 4-31.
#[derive(Debug, Clone, PartialEq, Eq, Hash)]
pub struct FeatureUnit3 {
    pub unit_id: u8,
    pub source_id: u8,
    pub controls: [u8; 4],
    pub feature_descr_str: u16,
}

impl DescriptorShape for FeatureUnit3 {
    open spec fn name() -> &'static str {
        "FeatureUnit3"
    }

    open spec fn min_len() -> nat {
        8
    }

    open spec fn wire_len(b: Seq<u8>) -> nat {
        8
    }

    open spec fn decoded_from(&self, b: Seq<u8>) -> bool {
        &&& self.unit_id == b[0]
        &&& self.source_id == b[1]
        &&& self.controls@ == b.subrange(2, 6)
        &&& self.feature_descr_str == u16_le(b, 6)
    }

    open spec fn encoding(&self) -> Seq<u8> {
        seq![self.unit_id, self.source_id] + self.controls@ + u16_bytes(self.feature_descr_str)
    }

    fn decode(value: &[u8]) -> (r: Result<Self, Error>) {
        if value.len() < 8 {
            return Err(Error::new_descriptor_len("FeatureUnit3", 8, value.len()));
        }
        let controls: [u8; 4] = [value[2], value[3], value[4], value[5]];
        assert(controls@ =~= value@.subrange(2, 6));
        Ok(
            FeatureUnit3 {
                unit_id: value[0],
                source_id: value[1],
                controls,
                feature_descr_str: read_u16(value, 6),
            },
        )
    }

    fn encode(&self) -> (bytes: Vec<u8>) {
        let mut data: Vec<u8> = Vec::new();
        data.push(self.unit_id);
        data.push(self.source_id);
        data.extend_from_slice(self.controls.as_slice());
        push_u16(&mut data, self.feature_descr_str);
        data
    }

    proof fn lemma_decode_encoded(&self) {
        let e = self.encoding();
        assert(e.subrange(2, 6) =~= self.controls@);
        assert(e.subrange(6, 8) =~= u16_bytes(self.feature_descr_str));
        lemma_u16_le_bytes(e, 6, self.feature_descr_str);
    }

    proof fn lemma_encode_decoded(&self, b: Seq<u8>) {
    }
}

/// UAC1: 4.3.2.7 Extension Unit Descriptor; Table 4-15.
#[derive(Debug, Clone, PartialEq, Eq, Hash)]
pub struct ExtensionUnit1 {
    pub unit_id: u8,
    pub extension_code: u16,
    pub nr_in_pins: u8,
    pub source_ids: Vec<u8>,
    pub nr_channels: u8,
    pub channel_config: u16,
    pub channel_names_index: u8,
    pub channel_names: Option<String>,
    pub control_size: u8,
    pub controls: Vec<u8>,
    pub extension_index: u8,
    pub extension: Option<String>,
}

impl DescriptorShape for ExtensionUnit1 {
    open spec fn name() -> &'static str {
        "ExtensionUnit1"
    }

    open spec fn min_len() -> nat {
        10
    }

    open spec fn wire_len(b: Seq<u8>) -> nat {
        if b.len() < 10 {
            10
        } else {
            let pins = b[3] as int;
            if b.len() <= 8 + pins {
                (10 + pins) as nat
            } else {
                let size = b[8 + pins] as int;
                (10 + pins + size) as nat
            }
        }
    }

    open spec fn decoded_from(&self, b: Seq<u8>) -> bool {
        let pins = b[3] as int;
        let size = b[8 + pins] as int;
        &&& self.unit_id == b[0]
        &&& self.extension_code == u16_le(b, 1)
        &&& self.nr_in_pins == b[3]
        &&& self.source_ids@ == b.subrange(4, 4 + pins)
        &&& self.nr_channels == b[4 + pins]
        &&& self.channel_config == u16_le(b, 5 + pins)
        &&& self.channel_names_index == b[7 + pins]
        &&& self.channel_names is None
        &&& self.control_size == b[8 + pins]
        &&& self.controls@ == b.subrange(9 + pins, 9 + pins + size)
        &&& self.extension_index == b[9 + pins + size]
        &&& self.extension is None
    }

    open spec fn wf(&self) -> bool {
        &&& self.source_ids@.len() == self.nr_in_pins
        &&& self.channel_names is None
        &&& self.controls@.len() == self.control_size
        &&& self.extension is None
    }

    open spec fn encoding(&self) -> Seq<u8> {
        seq![self.unit_id] + u16_bytes(self.extension_code) + seq![self.nr_in_pins]
            + self.source_ids@ + seq![self.nr_channels] + u16_bytes(self.channel_config)
            + seq![self.channel_names_index, self.control_size] + self.controls@
            + seq![self.extension_index]
    }

    fn decode(value: &[u8]) -> (r: Result<Self, Error>) {
        if value.len() < 10 {
            return Err(Error::new_descriptor_len("ExtensionUnit1", 10, value.len()));
        }
        let pins: usize = value[3] as usize;
        if value.len() <= 8 + pins {
            return Err(Error::new_descriptor_len("ExtensionUnit1", 10 + pins, value.len()));
        }
        let size: usize = value[8 + pins] as usize;
        if value.len() < 10 + pins + size {
            return Err(Error::new_descriptor_len("ExtensionUnit1", 10 + pins + size, value.len()));
        }
        Ok(
            ExtensionUnit1 {
                unit_id: value[0],
                extension_code: read_u16(value, 1),
                nr_in_pins: value[3],
                source_ids: copy_range(value, 4, 4 + pins),
                nr_channels: value[4 + pins],
                channel_config: read_u16(value, 5 + pins),
                channel_names_index: value[7 + pins],
                channel_names: None,
                control_size: value[8 + pins],
                controls: copy_range(value, 9 + pins, 9 + pins + size),
                extension_index: value[9 + pins + size],
                extension: None,
            },
        )
    }

    fn encode(&self) -> (bytes: Vec<u8>) {
        let mut data: Vec<u8> = Vec::new();
        data.push(self.unit_id);
        push_u16(&mut data, self.extension_code);
        data.push(self.nr_in_pins);
        data.extend_from_slice(self.source_ids.as_slice());
        data.push(self.nr_channels);
        push_u16(&mut data, self.channel_config);
        data.push(self.channel_names_index);
        data.push(self.control_size);
        data.extend_from_slice(self.controls.as_slice());
        data.push(self.extension_index);
        data
    }

    proof fn lemma_decode_encoded(&self) {
        let e = self.encoding();
        let pins = self.nr_in_pins as int;
        let size = self.control_size as int;
        assert(e.len() == 10 + pins + size);
        assert(e[3] == self.nr_in_pins);
        assert(e[8 + pins] == self.control_size);
        assert(e.subrange(1, 3) =~= u16_bytes(self.extension_code));
        lemma_u16_le_bytes(e, 1, self.extension_code);
        assert(e.subrange(4, 4 + pins) =~= self.source_ids@);
        assert(e.subrange(5 + pins, 7 + pins) =~= u16_bytes(self.channel_config));
        lemma_u16_le_bytes(e, 5 + pins, self.channel_config);
        assert(e.subrange(9 + pins, 9 + pins + size) =~= self.controls@);
    }

    proof fn lemma_encode_decoded(&self, b: Seq<u8>) {
        assert(self.encoding() =~= b.subrange(0, Self::wire_len(b) as int));
    }
}

/// UAC2: 4.7.2.12 Extension Unit Descriptor; Table 4-24.
#[derive(Debug, Clone, PartialEq, Eq, Hash)]
pub struct ExtensionUnit2 {
    pub unit_id: u8,
    pub extension_code: u16,
    pub nr_in_pins: u8,
    pub source_ids: Vec<u8>,
    pub nr_channels: u8,
    pub channel_config: u32,
    pub channel_names_index: u8,
    pub channel_names: Option<String>,
    pub controls: u8,
    pub extension_index: u8,
    pub extension: Option<String>,
}

impl DescriptorShape for ExtensionUnit2 {
    open spec fn name() -> &'static str {
        "ExtensionUnit2"
    }

    open spec fn min_len() -> nat {
        12
    }

    open spec fn wire_len(b: Seq<u8>) -> nat {
        if b.len() < 12 {
            12
        } else {
            let pins = b[3] as int;
            (12 + pins) as nat
        }
    }

    open spec fn decoded_from(&self, b: Seq<u8>) -> bool {
        let pins = b[3] as int;
        &&& self.unit_id == b[0]
        &&& self.extension_code == u16_le(b, 1)
        &&& self.nr_in_pins == b[3]
        &&& self.source_ids@ == b.subrange(4, 4 + pins)
        &&& self.nr_channels == b[4 + pins]
        &&& self.channel_config == u32_le(b, 5 + pins)
        &&& self.channel_names_index == b[9 + pins]
        &&& self.channel_names is None
        &&& self.controls == b[10 + pins]
        &&& self.extension_index == b[11 + pins]
        &&& self.extension is None
    }

    open spec fn wf(&self) -> bool {
        &&& self.source_ids@.len() == self.nr_in_pins
        &&& self.channel_names is None
        &&& self.extension is None
    }

    open spec fn encoding(&self) -> Seq<u8> {
        seq![self.unit_id] + u16_bytes(self.extension_code) + seq![self.nr_in_pins]
            + self.source_ids@ + seq![self.nr_channels] + u32_bytes(self.channel_config)
            + seq![self.channel_names_index, self.controls, self.extension_index]
    }

    fn decode(value: &[u8]) -> (r: Result<Self, Error>) {
        if value.len() < 12 {
            return Err(Error::new_descriptor_len("ExtensionUnit2", 12, value.len()));
        }
        let pins: usize = value[3] as usize;
        if value.len() < 12 + pins {
            return Err(Error::new_descriptor_len("ExtensionUnit2", 12 + pins, value.len()));
        }
        Ok(
            ExtensionUnit2 {
                unit_id: value[0],
                extension_code: read_u16(value, 1),
                nr_in_pins: value[3],
                source_ids: copy_range(value, 4, 4 + pins),
                nr_channels: value[4 + pins],
                channel_config: read_u32(value, 5 + pins),
                channel_names_index: value[9 + pins],
                channel_names: None,
                controls: value[10 + pins],
                extension_index: value[11 + pins],
                extension: None,
            },
        )
    }

    fn encode(&self) -> (bytes: Vec<u8>) {
        let mut data: Vec<u8> = Vec::new();
        data.push(self.unit_id);
        push_u16(&mut data, self.extension_code);
        data.push(self.nr_in_pins);
        data.extend_from_slice(self.source_ids.as_slice());
        data.push(self.nr_channels);
        push_u32(&mut data, self.channel_config);
        data.push(self.channel_names_index);
        data.push(self.controls);
        data.push(self.extension_index);
        data
    }

    proof fn lemma_decode_encoded(&self) {
        let e = self.encoding();
        let pins = self.nr_in_pins as int;
        assert(e.len() == 12 + pins);
        assert(e[3] == self.nr_in_pins);
        assert(e.subrange(1, 3) =~= u16_bytes(self.extension_code));
        lemma_u16_le_bytes(e, 1, self.extension_code);
        assert(e.subrange(4, 4 + pins) =~= self.source_ids@);
        assert(e.subrange(5 + pins, 9 + pins) =~= u32_bytes(self.channel_config));
        lemma_u32_le_bytes(e, 5 + pins, self.channel_config);
    }

    proof fn lemma_encode_decoded(&self, b: Seq<u8>) {
        let pins = b[3] as int;
        lemma_u32_bytes_le(b, 5 + pins);
        assert(self.encoding() =~= b.subrange(0, Self::wire_len(b) as int));
    }
}

/// UAC3: 4.5.2.11 Extension Unit Descriptor; Table 4-42.
#[derive(Debug, Clone, PartialEq, Eq, Hash)]
pub struct ExtensionUnit3 {
    pub unit_id: u8,
    pub extension_code: u16,
    pub nr_in_pins: u8,
    pub source_ids: Vec<u8>,
    pub extension_descr_str: u16,
    pub controls: u32,
    pub cluster_descr_id: u16,
}

impl DescriptorShape for ExtensionUnit3 {
    open spec fn name() -> &'static str {
        "ExtensionUnit3"
    }

    open spec fn min_len() -> nat {
        12
    }

    open spec fn wire_len(b: Seq<u8>) -> nat {
        if b.len() < 12 {
            12
        } else {
            let pins = b[3] as int;
            (12 + pins) as nat
        }
    }

    open spec fn decoded_from(&self, b: Seq<u8>) -> bool {
        let pins = b[3] as int;
        &&& self.unit_id == b[0]
        &&& self.extension_code == u16_le(b, 1)
        &&& self.nr_in_pins == b[3]
        &&& self.source_ids@ == b.subrange(4, 4 + pins)
        &&& self.extension_descr_str == u16_le(b, 4 + pins)
        &&& self.controls == u32_le(b, 6 + pins)
        &&& self.cluster_descr_id == u16_le(b, 10 + pins)
    }

    open spec fn wf(&self) -> bool {
        self.source_ids@.len() == self.nr_in_pins
    }

    open spec fn encoding(&self) -> Seq<u8> {
        seq![self.unit_id] + u16_bytes(self.extension_code) + seq![self.nr_in_pins]
            + self.source_ids@ + u16_bytes(self.extension_descr_str) + u32_bytes(self.controls)
            + u16_bytes(self.cluster_descr_id)
    }

    fn decode(value: &[u8]) -> (r: Result<Self, Error>) {
        if value.len() < 12 {
            return Err(Error::new_descriptor_len("ExtensionUnit3", 12, value.len()));
        }
        let pins: usize = value[3] as usize;
        if value.len() < 12 + pins {
            return Err(Error::new_descriptor_len("ExtensionUnit3", 12 + pins, value.len()));
        }
        Ok(
            ExtensionUnit3 {
                unit_id: value[0],
                extension_code: read_u16(value, 1),
                nr_in_pins: value[3],
                source_ids: copy_range(value, 4, 4 + pins),
                extension_descr_str: read_u16(value, 4 + pins),
                controls: read_u32(value, 6 + pins),
                cluster_descr_id: read_u16(value, 10 + pins),
            },
        )
    }

    fn encode(&self) -> (bytes: Vec<u8>) {
        let mut data: Vec<u8> = Vec::new();
        data.push(self.unit_id);
        push_u16(&mut data, self.extension_code);
        data.push(self.nr_in_pins);
        data.extend_from_slice(self.source_ids.as_slice());
        push_u16(&mut data, self.extension_descr_str);
        push_u32(&mut data, self.controls);
        push_u16(&mut data, self.cluster_descr_id);
        data
    }

    proof fn lemma_decode_encoded(&self) {
        let e = self.encoding();
        let pins = self.nr_in_pins as int;
        assert(e.len() == 12 + pins);
        assert(e[3] == self.nr_in_pins);
        assert(e.subrange(1, 3) =~= u16_bytes(self.extension_code));
        lemma_u16_le_bytes(e, 1, self.extension_code);
        assert(e.subrange(4, 4 + pins) =~= self.source_ids@);
        assert(e.subrange(4 + pins, 6 + pins) =~= u16_bytes(self.extension_descr_str));
        lemma_u16_le_bytes(e, 4 + pins, self.extension_descr_str);
        assert(e.subrange(6 + pins, 10 + pins) =~= u32_bytes(self.controls));
        lemma_u32_le_bytes(e, 6 + pins, self.controls);
        assert(e.subrange(10 + pins, 12 + pins) =~= u16_bytes(self.cluster_descr_id));
        lemma_u16_le_bytes(e, 10 + pins, self.cluster_descr_id);
    }

    proof fn lemma_encode_decoded(&self, b: Seq<u8>) {
        let pins = b[3] as int;
        lemma_u32_bytes_le(b, 6 + pins);
        assert(self.encoding() =~= b.subrange(0, Self::wire_len(b) as int));
    }
}

/// UAC2: 4.7.2.10 Effect Unit Descriptor; Table 4-15.
/// The controls run up to the last byte of the payload.
#[derive(Debug, Clone, PartialEq, Eq, Hash)]
pub struct EffectUnit2 {
    pub unit_id: u8,
    pub effect_type: u16,
    pub source_id: u8,
    pub controls: Vec<u32>,
    pub effect_index: u8,
    pub effect: Option<String>,
}

impl DescriptorShape for EffectUnit2 {
    open spec fn name() -> &'static str {
        "EffectUnit2"
    }

    open spec fn min_len() -> nat {
        9
    }

    open spec fn wire_len(b: Seq<u8>) -> nat {
        if b.len() < 9 {
            9
        } else {
            (5 + 4 * ((b.len() - 5) / 4)) as nat
        }
    }

    open spec fn decoded_from(&self, b: Seq<u8>) -> bool {
        let count = (b.len() - 5) / 4;
        &&& self.unit_id == b[0]
        &&& self.effect_type == u16_le(b, 1)
        &&& self.source_id == b[3]
        &&& self.controls@ == u32s_at(b, 4, count)
        &&& self.effect_index == b[4 + 4 * count]
        &&& self.effect is None
    }

    open spec fn wf(&self) -> bool {
        &&& self.controls@.len() >= 1
        &&& self.effect is None
    }

    open spec fn encoding(&self) -> Seq<u8> {
        seq![self.unit_id] + u16_bytes(self.effect_type) + seq![self.source_id]
            + u32s_bytes(self.controls@) + seq![self.effect_index]
    }

    fn decode(value: &[u8]) -> (r: Result<Self, Error>) {
        if value.len() < 9 {
            return Err(Error::new_descriptor_len("EffectUnit2", 9, value.len()));
        }
        let count: usize = (value.len() - 5) / 4;
        Ok(
            EffectUnit2 {
                unit_id: value[0],
                effect_type: read_u16(value, 1),
                source_id: value[3],
                controls: read_u32s(value, 4, count),
                effect_index: value[4 + 4 * count],
                effect: None,
            },
        )
    }

    fn encode(&self) -> (bytes: Vec<u8>) {
        let mut data: Vec<u8> = Vec::new();
        data.push(self.unit_id);
        push_u16(&mut data, self.effect_type);
        data.push(self.source_id);
        push_u32s(&mut data, &self.controls);
        data.push(self.effect_index);
        data
    }

    #[verifier::rlimit(40)]
    proof fn lemma_decode_encoded(&self) {
        let e = self.encoding();
        let count = self.controls@.len() as int;
        assert(u32s_bytes(self.controls@).len() == 4 * count);
        assert(e.len() == 5 + 4 * count);
        assert(e.subrange(1, 3) =~= u16_bytes(self.effect_type));
        lemma_u16_le_bytes(e, 1, self.effect_type);
        assert(e.subrange(4, 4 + 4 * count) =~= u32s_bytes(self.controls@));
        lemma_u32s_at_bytes(e, 4, self.controls@);
    }

    proof fn lemma_encode_decoded(&self, b: Seq<u8>) {
        let count = (b.len() - 5) / 4;
        lemma_u32s_bytes_at(b, 4, count);
        assert(self.encoding() =~= b.subrange(0, Self::wire_len(b) as int));
    }
}

/// UAC3: 4.5.2.9 Effect Unit Descriptor; Table 4-33.
/// The controls run up to the last two bytes of the payload.
#[derive(Debug, Clone, PartialEq, Eq, Hash)]
pub struct EffectUnit3 {
    pub unit_id: u8,
    pub effect_type: u16,
    pub source_id: u8,
    pub controls: Vec<u32>,
    pub effect_descr_str: u16,
}

impl DescriptorShape for EffectUnit3 {
    open spec fn name() -> &'static str {
        "EffectUnit3"
    }

    open spec fn min_len() -> nat {
        10
    }

    open spec fn wire_len(b: Seq<u8>) -> nat {
        if b.len() < 10 {
            10
        } else {
            (6 + 4 * ((b.len() - 6) / 4)) as nat
        }
    }

    open spec fn decoded_from(&self, b: Seq<u8>) -> bool {
        let count = (b.len() - 6) / 4;
        &&& self.unit_id == b[0]
        &&& self.effect_type == u16_le(b, 1)
        &&& self.source_id == b[3]
        &&& self.controls@ == u32s_at(b, 4, count)
        &&& self.effect_descr_str == u16_le(b, 4 + 4 * count)
    }

    open spec fn wf(&self) -> bool {
        self.controls@.len() >= 1
    }

    open spec fn encoding(&self) -> Seq<u8> {
        seq![self.unit_id] + u16_bytes(self.effect_type) + seq![self.source_id]
            + u32s_bytes(self.controls@) + u16_bytes(self.effect_descr_str)
    }

    fn decode(value: &[u8]) -> (r: Result<Self, Error>) {
        if value.len() < 10 {
            return Err(Error::new_descriptor_len("EffectUnit3", 10, value.len()));
        }
        let count: usize = (value.len() - 6) / 4;
        Ok(
            EffectUnit3 {
                unit_id: value[0],
                effect_type: read_u16(value, 1),
                source_id: value[3],
                controls: read_u32s(value, 4, count),
                effect_descr_str: read_u16(value, 4 + 4 * count),
            },
        )
    }

    fn encode(&self) -> (bytes: Vec<u8>) {
        let mut data: Vec<u8> = Vec::new();
        data.push(self.unit_id);
        push_u16(&mut data, self.effect_type);
        data.push(self.source_id);
        push_u32s(&mut data, &self.controls);
        push_u16(&mut data, self.effect_descr_str);
        data
    }

    #[verifier::rlimit(40)]
    proof fn lemma_decode_encoded(&self) {
        let e = self.encoding();
        let count = self.controls@.len() as int;
        assert(u32s_bytes(self.controls@).len() == 4 * count);
        assert(e.len() == 6 + 4 * count);
        assert(e.subrange(1, 3) =~= u16_bytes(self.effect_type));
        lemma_u16_le_bytes(e, 1, self.effect_type);
        assert(e.subrange(4, 4 + 4 * count) =~= u32s_bytes(self.controls@));
        lemma_u32s_at_bytes(e, 4, self.controls@);
        assert(e.subrange(4 + 4 * count, 6 + 4 * count) =~= u16_bytes(self.effect_descr_str));
        lemma_u16_le_bytes(e, 4 + 4 * count, self.effect_descr_str);
    }

    proof fn lemma_encode_decoded(&self, b: Seq<u8>) {
        let count = (b.len() - 6) / 4;
        lemma_u32s_bytes_at(b, 4, count);
        assert(self.encoding() =~= b.subrange(0, Self::wire_len(b) as int));
    }
}

} // verus!
