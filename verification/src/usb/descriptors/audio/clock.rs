//! The clock entities and sampling rate converters of an audio control interface.
use crate::error::Error;
use crate::wire::{
    copy_range, lemma_u16_le_bytes, lemma_u32_bytes_le, lemma_u32_le_bytes, push_u16, push_u32,
    read_u16, read_u32, u16_bytes, u16_le, u32_bytes, u32_le, DescriptorShape,
};
use vstd::prelude::*;

verus! {

/// UAC2: 4.7.2.1 Clock Source Descriptor; Table 4-6.
#[derive(Debug, Clone, PartialEq, Eq, Hash)]
pub struct ClockSource2 {
    pub clock_id: u8,
    pub attributes: u8,
    pub controls: u8,
    pub assoc_terminal: u8,
    pub clock_source_index: u8,
    pub clock_source: Option<String>,
}

impl DescriptorShape for ClockSource2 {
    open spec fn name() -> &'static str {
        "ClockSource2"
    }

    open spec fn min_len() -> nat {
        5
    }

    open spec fn wire_len(b: Seq<u8>) -> nat {
        5
    }

    open spec fn decoded_from(&self, b: Seq<u8>) -> bool {
        &&& self.clock_id == b[0]
        &&& self.attributes == b[1]
        &&& self.controls == b[2]
        &&& self.assoc_terminal == b[3]
        &&& self.clock_source_index == b[4]
        &&& self.clock_source is None
    }

    open spec fn wf(&self) -> bool {
        self.clock_source is None
    }

    open spec fn encoding(&self) -> Seq<u8> {
        seq![self.clock_id, self.attributes, self.controls, self.assoc_terminal, self.clock_source_index]
    }

    fn decode(value: &[u8]) -> (r: Result<Self, Error>) {
        if value.len() < 5 {
            return Err(Error::new_descriptor_len("ClockSource2", 5, value.len()));
        }
        Ok(
            ClockSource2 {
                clock_id: value[0],
                attributes: value[1],
                controls: value[2],
                assoc_terminal: value[3],
                clock_source_index: value[4],
                clock_source: None,
            },
        )
    }

    fn encode(&self) -> (bytes: Vec<u8>) {
        let mut data: Vec<u8> = Vec::new();
        data.push(self.clock_id);
        data.push(self.attributes);
        data.push(self.controls);
        data.push(self.assoc_terminal);
        data.push(self.clock_source_index);
        data
    }

    proof fn lemma_decode_encoded(&self) {
    }

    proof fn lemma_encode_decoded(&self, b: Seq<u8>) {
    }
}

/// UAC3: 4.5.2.12 Clock Source Descriptor; Table 4-43.
#[derive(Debug, Clone, PartialEq, Eq, Hash)]
pub struct ClockSource3 {
    pub clock_id: u8,
    pub attributes: u8,
    pub controls: u32,
    pub reference_terminal: u8,
    pub clock_source_str: u16,
}

impl DescriptorShape for ClockSource3 {
    open spec fn name() -> &'static str {
        "ClockSource3"
    }

    open spec fn min_len() -> nat {
        9
    }

    open spec fn wire_len(b: Seq<u8>) -> nat {
        9
    }

    open spec fn decoded_from(&self, b: Seq<u8>) -> bool {
        &&& self.clock_id == b[0]
        &&& self.attributes == b[1]
        &&& self.controls == u32_le(b, 2)
        &&& self.reference_terminal == b[6]
        &&& self.clock_source_str == u16_le(b, 7)
    }

    open spec fn encoding(&self) -> Seq<u8> {
        seq![self.clock_id, self.attributes] + u32_bytes(self.controls)
            + seq![self.reference_terminal] + u16_bytes(self.clock_source_str)
    }

    fn decode(value: &[u8]) -> (r: Result<Self, Error>) {
        if value.len() < 9 {
            return Err(Error::new_descriptor_len("ClockSource3", 9, value.len()));
        }
        Ok(
            ClockSource3 {
                clock_id: value[0],
                attributes: value[1],
                controls: read_u32(value, 2),
                reference_terminal: value[6],
                clock_source_str: read_u16(value, 7),
            },
        )
    }

    fn encode(&self) -> (bytes: Vec<u8>) {
        let mut data: Vec<u8> = Vec::new();
        data.push(self.clock_id);
        data.push(self.attributes);
        push_u32(&mut data, self.controls);
        data.push(self.reference_terminal);
        push_u16(&mut data, self.clock_source_str);
        data
    }

    proof fn lemma_decode_encoded(&self) {
        let e = self.encoding();
        assert(e.subrange(2, 6) =~= u32_bytes(self.controls));
        lemma_u32_le_bytes(e, 2, self.controls);
        assert(e.subrange(7, 9) =~= u16_bytes(self.clock_source_str));
        lemma_u16_le_bytes(e, 7, self.clock_source_str);
    }

    proof fn lemma_encode_decoded(&self, b: Seq<u8>) {
        lemma_u32_bytes_le(b, 2);
        assert(self.encoding() =~= b.subrange(0, Self::wire_len(b) as int));
    }
}

/// UAC2: 4.7.2.2 Clock Selector Descriptor; Table 4-7.
#[derive(Debug, Clone, PartialEq, Eq, Hash)]
pub struct ClockSelector2 {
    pub clock_id: u8,
    pub nr_in_pins: u8,
    pub csource_ids: Vec<u8>,
    pub controls: u8,
    pub clock_selector_index: u8,
    pub clock_selector: Option<String>,
}

impl DescriptorShape for ClockSelector2 {
    open spec fn name() -> &'static str {
        "ClockSelector2"
    }

    open spec fn min_len() -> nat {
        4
    }

    open spec fn wire_len(b: Seq<u8>) -> nat {
        if b.len() < 4 {
            4
        } else {
            let pins = b[1] as int;
            (4 + pins) as nat
        }
    }

    open spec fn decoded_from(&self, b: Seq<u8>) -> bool {
        let pins = b[1] as int;
        &&& self.clock_id == b[0]
        &&& self.nr_in_pins == b[1]
        &&& self.csource_ids@ == b.subrange(2, 2 + pins)
        &&& self.controls == b[2 + pins]
        &&& self.clock_selector_index == b[3 + pins]
        &&& self.clock_selector is None
    }

    open spec fn wf(&self) -> bool {
        &&& self.csource_ids@.len() == self.nr_in_pins
        &&& self.clock_selector is None
    }

    open spec fn encoding(&self) -> Seq<u8> {
        seq![self.clock_id, self.nr_in_pins] + self.csource_ids@
            + seq![self.controls, self.clock_selector_index]
    }

    fn decode(value: &[u8]) -> (r: Result<Self, Error>) {
        if value.len() < 4 {
            return Err(Error::new_descriptor_len("ClockSelector2", 4, value.len()));
        }
        let pins: usize = value[1] as usize;
        if value.len() < 4 + pins {
            return Err(Error::new_descriptor_len("ClockSelector2", 4 + pins, value.len()));
        }
        Ok(
            ClockSelector2 {
                clock_id: value[0],
                nr_in_pins: value[1],
                csource_ids: copy_range(value, 2, 2 + pins),
                controls: value[2 + pins],
                clock_selector_index: value[3 + pins],
                clock_selector: None,
            },
        )
    }

    fn encode(&self) -> (bytes: Vec<u8>) {
        let mut data: Vec<u8> = Vec::new();
        data.push(self.clock_id);
        data.push(self.nr_in_pins);
        data.extend_from_slice(self.csource_ids.as_slice());
        data.push(self.controls);
        data.push(self.clock_selector_index);
        data
    }

    proof fn lemma_decode_encoded(&self) {
        let e = self.encoding();
        let pins = self.nr_in_pins as int;
        assert(e.len() == 4 + pins);
        assert(e[1] == self.nr_in_pins);
        assert(e.subrange(2, 2 + pins) =~= self.csource_ids@);
    }

    proof fn lemma_encode_decoded(&self, b: Seq<u8>) {
        assert(self.encoding() =~= b.subrange(0, Self::wire_len(b) as int));
    }
}

/// UAC3: 4.5.2.13 Clock Selector Descriptor; Table 4-44.
#[derive(Debug, Clone, PartialEq, Eq, Hash)]
pub struct ClockSelector3 {
    pub clock_id: u8,
    pub nr_in_pins: u8,
    pub csource_ids: Vec<u8>,
    pub controls: u32,
    pub cselector_descr_str: u16,
}

impl DescriptorShape for ClockSelector3 {
    open spec fn name() -> &'static str {
        "ClockSelector3"
    }

    open spec fn min_len() -> nat {
        8
    }

    open spec fn wire_len(b: Seq<u8>) -> nat {
        if b.len() < 8 {
            8
        } else {
            let pins = b[1] as int;
            (8 + pins) as nat
        }
    }

    open spec fn decoded_from(&self, b: Seq<u8>) -> bool {
        let pins = b[1] as int;
        &&& self.clock_id == b[0]
        &&& self.nr_in_pins == b[1]
        &&& self.csource_ids@ == b.subrange(2, 2 + pins)
        &&& self.controls == u32_le(b, 2 + pins)
        &&& self.cselector_descr_str == u16_le(b, 6 + pins)
    }

    open spec fn wf(&self) -> bool {
        self.csource_ids@.len() == self.nr_in_pins
    }

    open spec fn encoding(&self) -> Seq<u8> {
        seq![self.clock_id, self.nr_in_pins] + self.csource_ids@ + u32_bytes(self.controls)
            + u16_bytes(self.cselector_descr_str)
    }

    fn decode(value: &[u8]) -> (r: Result<Self, Error>) {
        if value.len() < 8 {
            return Err(Error::new_descriptor_len("ClockSelector3", 8, value.len()));
        }
        let pins: usize = value[1] as usize;
        if value.len() < 8 + pins {
            return Err(Error::new_descriptor_len("ClockSelector3", 8 + pins, value.len()));
        }
        Ok(
            ClockSelector3 {
                clock_id: value[0],
                nr_in_pins: value[1],
                csource_ids: copy_range(value, 2, 2 + pins),
                controls: read_u32(value, 2 + pins),
                cselector_descr_str: read_u16(value, 6 + pins),
            },
        )
    }

    fn encode(&self) -> (bytes: Vec<u8>) {
        let mut data: Vec<u8> = Vec::new();
        data.push(self.clock_id);
        data.push(self.nr_in_pins);
        data.extend_from_slice(self.csource_ids.as_slice());
        push_u32(&mut data, self.controls);
        push_u16(&mut data, self.cselector_descr_str);
        data
    }

    proof fn lemma_decode_encoded(&self) {
        let e = self.encoding();
        let pins = self.nr_in_pins as int;
        assert(e.len() == 8 + pins);
        assert(e[1] == self.nr_in_pins);
        assert(e.subrange(2, 2 + pins) =~= self.csource_ids@);
        assert(e.subrange(2 + pins, 6 + pins) =~= u32_bytes(self.controls));
        lemma_u32_le_bytes(e, 2 + pins, self.controls);
        assert(e.subrange(6 + pins, 8 + pins) =~= u16_bytes(self.cselector_descr_str));
        lemma_u16_le_bytes(e, 6 + pins, self.cselector_descr_str);
    }

    proof fn lemma_encode_decoded(&self, b: Seq<u8>) {
        let pins = b[1] as int;
        lemma_u32_bytes_le(b, 2 + pins);
        assert(self.encoding() =~= b.subrange(0, Self::wire_len(b) as int));
    }
}

/// UAC2: 4.7.2.3 Clock Multiplier Descriptor; Table 4-8.
#[derive(Debug, Clone, PartialEq, Eq, Hash)]
pub struct ClockMultiplier2 {
    pub clock_id: u8,
    pub csource_id: u8,
    pub controls: u8,
    pub clock_multiplier_index: u8,
    pub clock_multiplier: Option<String>,
}

impl DescriptorShape for ClockMultiplier2 {
    open spec fn name() -> &'static str {
        "ClockMultiplier2"
    }

    open spec fn min_len() -> nat {
        4
    }

    open spec fn wire_len(b: Seq<u8>) -> nat {
        4
    }

    open spec fn decoded_from(&self, b: Seq<u8>) -> bool {
        &&& self.clock_id == b[0]
        &&& self.csource_id == b[1]
        &&& self.controls == b[2]
        &&& self.clock_multiplier_index == b[3]
        &&& self.clock_multiplier is None
    }

    open spec fn wf(&self) -> bool {
        self.clock_multiplier is None
    }

    open spec fn encoding(&self) -> Seq<u8> {
        seq![self.clock_id, self.csource_id, self.controls, self.clock_multiplier_index]
    }

    fn decode(value: &[u8]) -> (r: Result<Self, Error>) {
        if value.len() < 4 {
            return Err(Error::new_descriptor_len("ClockMultiplier2", 4, value.len()));
        }
        Ok(
            ClockMultiplier2 {
                clock_id: value[0],
                csource_id: value[1],
                controls: value[2],
                clock_multiplier_index: value[3],
                clock_multiplier: None,
            },
        )
    }

    fn encode(&self) -> (bytes: Vec<u8>) {
        let mut data: Vec<u8> = Vec::new();
        data.push(self.clock_id);
        data.push(self.csource_id);
        data.push(self.controls);
        data.push(self.clock_multiplier_index);
        data
    }

    proof fn lemma_decode_encoded(&self) {
    }

    proof fn lemma_encode_decoded(&self, b: Seq<u8>) {
    }
}

/// UAC3: 4.5.2.14 Clock Multiplier Descriptor; Table 4-45.
#[derive(Debug, Clone, PartialEq, Eq, Hash)]
pub struct ClockMultiplier3 {
    pub clock_id: u8,
    pub csource_id: u8,
    pub controls: u32,
    pub cmultiplier_descr_str: u16,
}

impl DescriptorShape for ClockMultiplier3 {
    open spec fn name() -> &'static str {
        "ClockMultiplier3"
    }

    open spec fn min_len() -> nat {
        8
    }

    open spec fn wire_len(b: Seq<u8>) -> nat {
        8
    }

    open spec fn decoded_from(&self, b: Seq<u8>) -> bool {
        &&& self.clock_id == b[0]
        &&& self.csource_id == b[1]
        &&& self.controls == u32_le(b, 2)
        &&& self.cmultiplier_descr_str == u16_le(b, 6)
    }

    open spec fn encoding(&self) -> Seq<u8> {
        seq![self.clock_id, self.csource_id] + u32_bytes(self.controls)
            + u16_bytes(self.cmultiplier_descr_str)
    }

    fn decode(value: &[u8]) -> (r: Result<Self, Error>) {
        if value.len() < 8 {
            return Err(Error::new_descriptor_len("ClockMultiplier3", 8, value.len()));
        }
        Ok(
            ClockMultiplier3 {
                clock_id: value[0],
                csource_id: value[1],
                controls: read_u32(value, 2),
                cmultiplier_descr_str: read_u16(value, 6),
            },
        )
    }

    fn encode(&self) -> (bytes: Vec<u8>) {
        let mut data: Vec<u8> = Vec::new();
        data.push(self.clock_id);
        data.push(self.csource_id);
        push_u32(&mut data, self.controls);
        push_u16(&mut data, self.cmultiplier_descr_str);
        data
    }

    proof fn lemma_decode_encoded(&self) {
        let e = self.encoding();
        assert(e.subrange(2, 6) =~= u32_bytes(self.controls));
        lemma_u32_le_bytes(e, 2, self.controls);
        assert(e.subrange(6, 8) =~= u16_bytes(self.cmultiplier_descr_str));
        lemma_u16_le_bytes(e, 6, self.cmultiplier_descr_str);
    }

    proof fn lemma_encode_decoded(&self, b: Seq<u8>) {
        lemma_u32_bytes_le(b, 2);
        assert(self.encoding() =~= b.subrange(0, Self::wire_len(b) as int));
    }
}

/// UAC2: 4.7.2.9 Sampling Rate Converter Descriptor; Table 4-14.
#[derive(Debug, Clone, PartialEq, Eq, Hash)]
pub struct SampleRateConverter2 {
    pub unit_id: u8,
    pub source_id: u8,
    pub csource_in_id: u8,
    pub csource_out_id: u8,
    pub src_index: u8,
    pub src: Option<String>,
}

impl DescriptorShape for SampleRateConverter2 {
    open spec fn name() -> &'static str {
        "SampleRateConverter2"
    }

    open spec fn min_len() -> nat {
        5
    }

    open spec fn wire_len(b: Seq<u8>) -> nat {
        5
    }

    open spec fn decoded_from(&self, b: Seq<u8>) -> bool {
        &&& self.unit_id == b[0]
        &&& self.source_id == b[1]
        &&& self.csource_in_id == b[2]
        &&& self.csource_out_id == b[3]
        &&& self.src_index == b[4]
        &&& self.src is None
    }

    open spec fn wf(&self) -> bool {
        self.src is None
    }

    open spec fn encoding(&self) -> Seq<u8> {
        seq![self.unit_id, self.source_id, self.csource_in_id, self.csource_out_id, self.src_index]
    }

    fn decode(value: &[u8]) -> (r: Result<Self, Error>) {
        if value.len() < 5 {
            return Err(Error::new_descriptor_len("SampleRateConverter2", 5, value.len()));
        }
        Ok(
            SampleRateConverter2 {
                unit_id: value[0],
                source_id: value[1],
                csource_in_id: value[2],
                csource_out_id: value[3],
                src_index: value[4],
                src: None,
            },
        )
    }

    fn encode(&self) -> (bytes: Vec<u8>) {
        let mut data: Vec<u8> = Vec::new();
        data.push(self.unit_id);
        data.push(self.source_id);
        data.push(self.csource_in_id);
        data.push(self.csource_out_id);
        data.push(self.src_index);
        data
    }

    proof fn lemma_decode_encoded(&self) {
    }

    proof fn lemma_encode_decoded(&self, b: Seq<u8>) {
    }
}

/// UAC3: 4.5.2.8 Sampling Rate Converter Descriptor; Table 4-32.
#[derive(Debug, Clone, PartialEq, Eq, Hash)]
pub struct SampleRateConverter3 {
    pub unit_id: u8,
    pub source_id: u8,
    pub csource_in_id: u8,
    pub csource_out_id: u8,
    pub src_descr_str: u16,
}

impl DescriptorShape for SampleRateConverter3 {
    open spec fn name() -> &'static str {
        "SampleRateConverter3"
    }

    open spec fn min_len() -> nat {
        6
    }

    open spec fn wire_len(b: Seq<u8>) -> nat {
        6
    }

    open spec fn decoded_from(&self, b: Seq<u8>) -> bool {
        &&& self.unit_id == b[0]
        &&& self.source_id == b[1]
        &&& self.csource_in_id == b[2]
        &&& self.csource_out_id == b[3]
        &&& self.src_descr_str == u16_le(b, 4)
    }

    open spec fn encoding(&self) -> Seq<u8> {
        seq![self.unit_id, self.source_id, self.csource_in_id, self.csource_out_id]
            + u16_bytes(self.src_descr_str)
    }

    fn decode(value: &[u8]) -> (r: Result<Self, Error>) {
        if value.len() < 6 {
            return Err(Error::new_descriptor_len("SampleRateConverter3", 6, value.len()));
        }
        Ok(
            SampleRateConverter3 {
                unit_id: value[0],
                source_id: value[1],
                csource_in_id: value[2],
                csource_out_id: value[3],
                src_descr_str: read_u16(value, 4),
            },
        )
    }

    fn encode(&self) -> (bytes: Vec<u8>) {
        let mut data: Vec<u8> = Vec::new();
        data.push(self.unit_id);
        data.push(self.source_id);
        data.push(self.csource_in_id);
        data.push(self.csource_out_id);
        push_u16(&mut data, self.src_descr_str);
        data
    }

    proof fn lemma_decode_encoded(&self) {
        let e = self.encoding();
        assert(e.subrange(4, 6) =~= u16_bytes(self.src_descr_str));
        lemma_u16_le_bytes(e, 4, self.src_descr_str);
    }

    proof fn lemma_encode_decoded(&self, b: Seq<u8>) {
    }
}

} // verus!
