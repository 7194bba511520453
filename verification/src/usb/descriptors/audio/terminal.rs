//! Headers, terminals and the power domain of an audio control interface.
use crate::error::Error;
use crate::usb::Version;
use crate::wire::{
    copy_range, lemma_u16_bytes_le, lemma_u16_le_bytes, lemma_u32_bytes_le, lemma_u32_le_bytes,
    push_u16, push_u32, read_u16, read_u32, u16_bytes, u16_le, u32_bytes, u32_le,
    DescriptorShape,
};
use vstd::prelude::*;

verus! {

/// UAC1: 4.3.2 Class-Specific AC Interface Descriptor; Table 4-2.
#[derive(Debug, Clone, PartialEq, Eq, Hash)]
pub struct Header1 {
    pub version: Version,
    pub total_length: u16,
    pub collection_bytes: u8,
    pub interfaces: Vec<u8>,
}

impl DescriptorShape for Header1 {
    open spec fn name() -> &'static str {
        "Header1"
    }

    open spec fn min_len() -> nat {
        6
    }

    open spec fn wire_len(b: Seq<u8>) -> nat {
        if b.len() < 6 {
            6
        } else {
            b.len()
        }
    }

    open spec fn decoded_from(&self, b: Seq<u8>) -> bool {
        &&& self.version == Version::decoded(u16_le(b, 0))
        &&& self.total_length == u16_le(b, 2)
        &&& self.collection_bytes == b[4]
        &&& self.interfaces@ == b.subrange(5, b.len() as int)
    }

    open spec fn wf(&self) -> bool {
        &&& self.version.wf()
        &&& self.interfaces@.len() >= 1
    }

    open spec fn encoding(&self) -> Seq<u8> {
        u16_bytes(self.version.bcd()) + u16_bytes(self.total_length)
            + seq![self.collection_bytes] + self.interfaces@
    }

    open spec fn canonical(b: Seq<u8>) -> bool {
        Version::is_bcd(u16_le(b, 0))
    }

    fn decode(value: &[u8]) -> (r: Result<Self, Error>) {
        if value.len() < 6 {
            return Err(Error::new_descriptor_len("Header1", 6, value.len()));
        }
        Ok(
            Header1 {
                version: Version::from_bcd(read_u16(value, 0)),
                total_length: read_u16(value, 2),
                collection_bytes: value[4],
                interfaces: copy_range(value, 5, value.len()),
            },
        )
    }

    fn encode(&self) -> (bytes: Vec<u8>) {
        let mut data: Vec<u8> = Vec::new();
        push_u16(&mut data, self.version.to_bcd());
        push_u16(&mut data, self.total_length);
        data.push(self.collection_bytes);
        data.extend_from_slice(self.interfaces.as_slice());
        data
    }

    proof fn lemma_decode_encoded(&self) {
        let e = self.encoding();
        assert(e.subrange(0, 2) =~= u16_bytes(self.version.bcd()));
        lemma_u16_le_bytes(e, 0, self.version.bcd());
        assert(e.subrange(2, 4) =~= u16_bytes(self.total_length));
        lemma_u16_le_bytes(e, 2, self.total_length);
        assert(e.subrange(5, e.len() as int) =~= self.interfaces@);
        self.version.lemma_decoded_bcd();
    }

    proof fn lemma_encode_decoded(&self, b: Seq<u8>) {
        Version::lemma_bcd_decoded(u16_le(b, 0));
        lemma_u16_bytes_le(b, 0);
        assert(self.encoding() =~= b.subrange(0, Self::wire_len(b) as int));
    }
}

/// UAC2: 4.7.2 Class-Specific AC Interface Descriptor; Table 4-5.
#[derive(Debug, Clone, PartialEq, Eq, Hash)]
pub struct Header2 {
    pub version: Version,
    pub category: u8,
    pub total_length: u16,
    pub controls: u8,
}

impl DescriptorShape for Header2 {
    open spec fn name() -> &'static str {
        "Header2"
    }

    open spec fn min_len() -> nat {
        6
    }

    open spec fn wire_len(b: Seq<u8>) -> nat {
        6
    }

    open spec fn decoded_from(&self, b: Seq<u8>) -> bool {
        &&& self.version == Version::decoded(u16_le(b, 0))
        &&& self.category == b[2]
        &&& self.total_length == u16_le(b, 3)
        &&& self.controls == b[5]
    }

    open spec fn wf(&self) -> bool {
        self.version.wf()
    }

    open spec fn encoding(&self) -> Seq<u8> {
        u16_bytes(self.version.bcd()) + seq![self.category] + u16_bytes(self.total_length)
            + seq![self.controls]
    }

    open spec fn canonical(b: Seq<u8>) -> bool {
        Version::is_bcd(u16_le(b, 0))
    }

    fn decode(value: &[u8]) -> (r: Result<Self, Error>) {
        if value.len() < 6 {
            return Err(Error::new_descriptor_len("Header2", 6, value.len()));
        }
        Ok(
            Header2 {
                version: Version::from_bcd(read_u16(value, 0)),
                category: value[2],
                total_length: read_u16(value, 3),
                controls: value[5],
            },
        )
    }

    fn encode(&self) -> (bytes: Vec<u8>) {
        let mut data: Vec<u8> = Vec::new();
        push_u16(&mut data, self.version.to_bcd());
        data.push(self.category);
        push_u16(&mut data, self.total_length);
        data.push(self.controls);
        data
    }

    proof fn lemma_decode_encoded(&self) {
        let e = self.encoding();
        assert(e.subrange(0, 2) =~= u16_bytes(self.version.bcd()));
        lemma_u16_le_bytes(e, 0, self.version.bcd());
        assert(e.subrange(3, 5) =~= u16_bytes(self.total_length));
        lemma_u16_le_bytes(e, 3, self.total_length);
        self.version.lemma_decoded_bcd();
    }

    proof fn lemma_encode_decoded(&self, b: Seq<u8>) {
        Version::lemma_bcd_decoded(u16_le(b, 0));
        lemma_u16_bytes_le(b, 0);
        assert(self.encoding() =~= b.subrange(0, Self::wire_len(b) as int));
    }
}

/// UAC3: 4.5.2 Class-Specific AC Interface Descriptor; Table 4-15.
#[derive(Debug, Clone, PartialEq, Eq, Hash)]
pub struct Header3 {
    pub category: u8,
    pub total_length: u16,
    pub controls: u32,
}

impl DescriptorShape for Header3 {
    open spec fn name() -> &'static str {
        "Header3"
    }

    open spec fn min_len() -> nat {
        7
    }

    open spec fn wire_len(b: Seq<u8>) -> nat {
        7
    }

    open spec fn decoded_from(&self, b: Seq<u8>) -> bool {
        &&& self.category == b[0]
        &&& self.total_length == u16_le(b, 1)
        &&& self.controls == u32_le(b, 3)
    }

    open spec fn encoding(&self) -> Seq<u8> {
        seq![self.category] + u16_bytes(self.total_length) + u32_bytes(self.controls)
    }

    fn decode(value: &[u8]) -> (r: Result<Self, Error>) {
        if value.len() < 7 {
            return Err(Error::new_descriptor_len("Header3", 7, value.len()));
        }
        Ok(
            Header3 {
                category: value[0],
                total_length: read_u16(value, 1),
                controls: read_u32(value, 3),
            },
        )
    }

    fn encode(&self) -> (bytes: Vec<u8>) {
        let mut data: Vec<u8> = Vec::new();
        data.push(self.category);
        push_u16(&mut data, self.total_length);
        push_u32(&mut data, self.controls);
        data
    }

    proof fn lemma_decode_encoded(&self) {
        let e = self.encoding();
        assert(e.subrange(1, 3) =~= u16_bytes(self.total_length));
        lemma_u16_le_bytes(e, 1, self.total_length);
        assert(e.subrange(3, 7) =~= u32_bytes(self.controls));
        lemma_u32_le_bytes(e, 3, self.controls);
    }

    proof fn lemma_encode_decoded(&self, b: Seq<u8>) {
        lemma_u32_bytes_le(b, 3);
        assert(self.encoding() =~= b.subrange(0, Self::wire_len(b) as int));
    }
}

/// UAC1: 4.3.2.1 Input Terminal Descriptor; Table 4-3.
#[derive(Debug, Clone, PartialEq, Eq, Hash)]
pub struct InputTerminal1 {
    pub terminal_id: u8,
    pub terminal_type: u16,
    pub assoc_terminal: u8,
    pub nr_channels: u8,
    pub channel_config: u16,
    pub channel_names_index: u8,
    pub channel_names: Option<String>,
    pub terminal_index: u8,
    pub terminal: Option<String>,
}

impl DescriptorShape for InputTerminal1 {
    open spec fn name() -> &'static str {
        "InputTerminal1"
    }

    open spec fn min_len() -> nat {
        9
    }

    open spec fn wire_len(b: Seq<u8>) -> nat {
        9
    }

    open spec fn decoded_from(&self, b: Seq<u8>) -> bool {
        &&& self.terminal_id == b[0]
        &&& self.terminal_type == u16_le(b, 1)
        &&& self.assoc_terminal == b[3]
        &&& self.nr_channels == b[4]
        &&& self.channel_config == u16_le(b, 5)
        &&& self.channel_names_index == b[7]
        &&& self.channel_names is None
        &&& self.terminal_index == b[8]
        &&& self.terminal is None
    }

    open spec fn wf(&self) -> bool {
        &&& self.channel_names is None
        &&& self.terminal is None
    }

    open spec fn encoding(&self) -> Seq<u8> {
        seq![self.terminal_id] + u16_bytes(self.terminal_type)
            + seq![self.assoc_terminal, self.nr_channels] + u16_bytes(self.channel_config)
            + seq![self.channel_names_index, self.terminal_index]
    }

    fn decode(value: &[u8]) -> (r: Result<Self, Error>) {
        if value.len() < 9 {
            return Err(Error::new_descriptor_len("InputTerminal1", 9, value.len()));
        }
        Ok(
            InputTerminal1 {
                terminal_id: value[0],
                terminal_type: read_u16(value, 1),
                assoc_terminal: value[3],
                nr_channels: value[4],
                channel_config: read_u16(value, 5),
                channel_names_index: value[7],
                channel_names: None,
                terminal_index: value[8],
                terminal: None,
            },
        )
    }

    fn encode(&self) -> (bytes: Vec<u8>) {
        let mut data: Vec<u8> = Vec::new();
        data.push(self.terminal_id);
        push_u16(&mut data, self.terminal_type);
        data.push(self.assoc_terminal);
        data.push(self.nr_channels);
        push_u16(&mut data, self.channel_config);
        data.push(self.channel_names_index);
        data.push(self.terminal_index);
        data
    }

    proof fn lemma_decode_encoded(&self) {
        let e = self.encoding();
        assert(e.subrange(1, 3) =~= u16_bytes(self.terminal_type));
        lemma_u16_le_bytes(e, 1, self.terminal_type);
        assert(e.subrange(5, 7) =~= u16_bytes(self.channel_config));
        lemma_u16_le_bytes(e, 5, self.channel_config);
    }

    proof fn lemma_encode_decoded(&self, b: Seq<u8>) {
    }
}

/// UAC2: 4.7.2.4 Input Terminal Descriptor; Table 4-9.
#[derive(Debug, Clone, PartialEq, Eq, Hash)]
pub struct InputTerminal2 {
    pub terminal_id: u8,
    pub terminal_type: u16,
    pub assoc_terminal: u8,
    pub csource_id: u8,
    pub nr_channels: u8,
    pub channel_config: u32,
    pub channel_names_index: u8,
    pub channel_names: Option<String>,
    pub controls: u16,
    pub terminal_index: u8,
    pub terminal: Option<String>,
}

impl DescriptorShape for InputTerminal2 {
    open spec fn name() -> &'static str {
        "InputTerminal2"
    }

    open spec fn min_len() -> nat {
        14
    }

    open spec fn wire_len(b: Seq<u8>) -> nat {
        14
    }

    open spec fn decoded_from(&self, b: Seq<u8>) -> bool {
        &&& self.terminal_id == b[0]
        &&& self.terminal_type == u16_le(b, 1)
        &&& self.assoc_terminal == b[3]
        &&& self.csource_id == b[4]
        &&& self.nr_channels == b[5]
        &&& self.channel_config == u32_le(b, 6)
        &&& self.channel_names_index == b[10]
        &&& self.channel_names is None
        &&& self.controls == u16_le(b, 11)
        &&& self.terminal_index == b[13]
        &&& self.terminal is None
    }

    open spec fn wf(&self) -> bool {
        &&& self.channel_names is None
        &&& self.terminal is None
    }

    open spec fn encoding(&self) -> Seq<u8> {
        seq![self.terminal_id] + u16_bytes(self.terminal_type)
            + seq![self.assoc_terminal, self.csource_id, self.nr_channels]
            + u32_bytes(self.channel_config) + seq![self.channel_names_index]
            + u16_bytes(self.controls) + seq![self.terminal_index]
    }

    fn decode(value: &[u8]) -> (r: Result<Self, Error>) {
        if value.len() < 14 {
            return Err(Error::new_descriptor_len("InputTerminal2", 14, value.len()));
        }
        Ok(
            InputTerminal2 {
                terminal_id: value[0],
                terminal_type: read_u16(value, 1),
                assoc_terminal: value[3],
                csource_id: value[4],
                nr_channels: value[5],
                channel_config: read_u32(value, 6),
                channel_names_index: value[10],
                channel_names: None,
                controls: read_u16(value, 11),
                terminal_index: value[13],
                terminal: None,
            },
        )
    }

    fn encode(&self) -> (bytes: Vec<u8>) {
        let mut data: Vec<u8> = Vec::new();
        data.push(self.terminal_id);
        push_u16(&mut data, self.terminal_type);
        data.push(self.assoc_terminal);
        data.push(self.csource_id);
        data.push(self.nr_channels);
        push_u32(&mut data, self.channel_config);
        data.push(self.channel_names_index);
        push_u16(&mut data, self.controls);
        data.push(self.terminal_index);
        data
    }

    proof fn lemma_decode_encoded(&self) {
        let e = self.encoding();
        assert(e.subrange(1, 3) =~= u16_bytes(self.terminal_type));
        lemma_u16_le_bytes(e, 1, self.terminal_type);
        assert(e.subrange(6, 10) =~= u32_bytes(self.channel_config));
        lemma_u32_le_bytes(e, 6, self.channel_config);
        assert(e.subrange(11, 13) =~= u16_bytes(self.controls));
        lemma_u16_le_bytes(e, 11, self.controls);
    }

    proof fn lemma_encode_decoded(&self, b: Seq<u8>) {
        lemma_u32_bytes_le(b, 6);
        assert(self.encoding() =~= b.subrange(0, Self::wire_len(b) as int));
    }
}

/// UAC3: 4.5.2.1 Input Terminal Descriptor; Table 4-16.
#[derive(Debug, Clone, PartialEq, Eq, Hash)]
pub struct InputTerminal3 {
    pub terminal_id: u8,
    pub terminal_type: u16,
    pub assoc_terminal: u8,
    pub csource_id: u8,
    pub controls: u32,
    pub cluster_descr_id: u16,
    pub ex_terminal_descr_id: u16,
    pub connectors_descr_id: u16,
    pub terminal_descr_str: u16,
}

impl DescriptorShape for InputTerminal3 {
    open spec fn name() -> &'static str {
        "InputTerminal3"
    }

    open spec fn min_len() -> nat {
        17
    }

    open spec fn wire_len(b: Seq<u8>) -> nat {
        17
    }

    open spec fn decoded_from(&self, b: Seq<u8>) -> bool {
        &&& self.terminal_id == b[0]
        &&& self.terminal_type == u16_le(b, 1)
        &&& self.assoc_terminal == b[3]
        &&& self.csource_id == b[4]
        &&& self.controls == u32_le(b, 5)
        &&& self.cluster_descr_id == u16_le(b, 9)
        &&& self.ex_terminal_descr_id == u16_le(b, 11)
        &&& self.connectors_descr_id == u16_le(b, 13)
        &&& self.terminal_descr_str == u16_le(b, 15)
    }

    open spec fn encoding(&self) -> Seq<u8> {
        seq![self.terminal_id] + u16_bytes(self.terminal_type)
            + seq![self.assoc_terminal, self.csource_id] + u32_bytes(self.controls)
            + u16_bytes(self.cluster_descr_id) + u16_bytes(self.ex_terminal_descr_id)
            + u16_bytes(self.connectors_descr_id) + u16_bytes(self.terminal_descr_str)
    }

    fn decode(value: &[u8]) -> (r: Result<Self, Error>) {
        if value.len() < 17 {
            return Err(Error::new_descriptor_len("InputTerminal3", 17, value.len()));
        }
        Ok(
            InputTerminal3 {
                terminal_id: value[0],
                terminal_type: read_u16(value, 1),
                assoc_terminal: value[3],
                csource_id: value[4],
                controls: read_u32(value, 5),
                cluster_descr_id: read_u16(value, 9),
                ex_terminal_descr_id: read_u16(value, 11),
                connectors_descr_id: read_u16(value, 13),
                terminal_descr_str: read_u16(value, 15),
            },
        )
    }

    fn encode(&self) -> (bytes: Vec<u8>) {
        let mut data: Vec<u8> = Vec::new();
        data.push(self.terminal_id);
        push_u16(&mut data, self.terminal_type);
        data.push(self.assoc_terminal);
        data.push(self.csource_id);
        push_u32(&mut data, self.controls);
        push_u16(&mut data, self.cluster_descr_id);
        push_u16(&mut data, self.ex_terminal_descr_id);
        push_u16(&mut data, self.connectors_descr_id);
        push_u16(&mut data, self.terminal_descr_str);
        data
    }

    proof fn lemma_decode_encoded(&self) {
        let e = self.encoding();
        assert(e.subrange(1, 3) =~= u16_bytes(self.terminal_type));
        lemma_u16_le_bytes(e, 1, self.terminal_type);
        assert(e.subrange(5, 9) =~= u32_bytes(self.controls));
        lemma_u32_le_bytes(e, 5, self.controls);
        assert(e.subrange(9, 11) =~= u16_bytes(self.cluster_descr_id));
        lemma_u16_le_bytes(e, 9, self.cluster_descr_id);
        assert(e.subrange(11, 13) =~= u16_bytes(self.ex_terminal_descr_id));
        lemma_u16_le_bytes(e, 11, self.ex_terminal_descr_id);
        assert(e.subrange(13, 15) =~= u16_bytes(self.connectors_descr_id));
        lemma_u16_le_bytes(e, 13, self.connectors_descr_id);
        assert(e.subrange(15, 17) =~= u16_bytes(self.terminal_descr_str));
        lemma_u16_le_bytes(e, 15, self.terminal_descr_str);
    }

    proof fn lemma_encode_decoded(&self, b: Seq<u8>) {
        lemma_u32_bytes_le(b, 5);
        assert(self.encoding() =~= b.subrange(0, Self::wire_len(b) as int));
    }
}

/// UAC1: 4.3.2.2 Output Terminal Descriptor; Table 4-4.
#[derive(Debug, Clone, PartialEq, Eq, Hash)]
pub struct OutputTerminal1 {
    pub terminal_id: u8,
    pub terminal_type: u16,
    pub assoc_terminal: u8,
    pub source_id: u8,
    pub terminal_index: u8,
    pub terminal: Option<String>,
}

impl DescriptorShape for OutputTerminal1 {
    open spec fn name() -> &'static str {
        "OutputTerminal1"
    }

    open spec fn min_len() -> nat {
        6
    }

    open spec fn wire_len(b: Seq<u8>) -> nat {
        6
    }

    open spec fn decoded_from(&self, b: Seq<u8>) -> bool {
        &&& self.terminal_id == b[0]
        &&& self.terminal_type == u16_le(b, 1)
        &&& self.assoc_terminal == b[3]
        &&& self.source_id == b[4]
        &&& self.terminal_index == b[5]
        &&& self.terminal is None
    }

    open spec fn wf(&self) -> bool {
        self.terminal is None
    }

    open spec fn encoding(&self) -> Seq<u8> {
        seq![self.terminal_id] + u16_bytes(self.terminal_type)
            + seq![self.assoc_terminal, self.source_id, self.terminal_index]
    }

    fn decode(value: &[u8]) -> (r: Result<Self, Error>) {
        if value.len() < 6 {
            return Err(Error::new_descriptor_len("OutputTerminal1", 6, value.len()));
        }
        Ok(
            OutputTerminal1 {
                terminal_id: value[0],
                terminal_type: read_u16(value, 1),
                assoc_terminal: value[3],
                source_id: value[4],
                terminal_index: value[5],
                terminal: None,
            },
        )
    }

    fn encode(&self) -> (bytes: Vec<u8>) {
        let mut data: Vec<u8> = Vec::new();
        data.push(self.terminal_id);
        push_u16(&mut data, self.terminal_type);
        data.push(self.assoc_terminal);
        data.push(self.source_id);
        data.push(self.terminal_index);
        data
    }

    proof fn lemma_decode_encoded(&self) {
        let e = self.encoding();
        assert(e.subrange(1, 3) =~= u16_bytes(self.terminal_type));
        lemma_u16_le_bytes(e, 1, self.terminal_type);
    }

    proof fn lemma_encode_decoded(&self, b: Seq<u8>) {
    }
}

/// UAC2: 4.7.2.5 Output Terminal Descriptor; Table 4-10.
#[derive(Debug, Clone, PartialEq, Eq, Hash)]
pub struct OutputTerminal2 {
    pub terminal_id: u8,
    pub terminal_type: u16,
    pub assoc_terminal: u8,
    pub source_id: u8,
    pub c_source_id: u8,
    pub controls: u16,
    pub terminal_index: u8,
    pub terminal: Option<String>,
}

impl DescriptorShape for OutputTerminal2 {
    open spec fn name() -> &'static str {
        "OutputTerminal2"
    }

    open spec fn min_len() -> nat {
        9
    }

    open spec fn wire_len(b: Seq<u8>) -> nat {
        9
    }

    open spec fn decoded_from(&self, b: Seq<u8>) -> bool {
        &&& self.terminal_id == b[0]
        &&& self.terminal_type == u16_le(b, 1)
        &&& self.assoc_terminal == b[3]
        &&& self.source_id == b[4]
        &&& self.c_source_id == b[5]
        &&& self.controls == u16_le(b, 6)
        &&& self.terminal_index == b[8]
        &&& self.terminal is None
    }

    open spec fn wf(&self) -> bool {
        self.terminal is None
    }

    open spec fn encoding(&self) -> Seq<u8> {
        seq![self.terminal_id] + u16_bytes(self.terminal_type)
            + seq![self.assoc_terminal, self.source_id, self.c_source_id]
            + u16_bytes(self.controls) + seq![self.terminal_index]
    }

    fn decode(value: &[u8]) -> (r: Result<Self, Error>) {
        if value.len() < 9 {
            return Err(Error::new_descriptor_len("OutputTerminal2", 9, value.len()));
        }
        Ok(
            OutputTerminal2 {
                terminal_id: value[0],
                terminal_type: read_u16(value, 1),
                assoc_terminal: value[3],
                source_id: value[4],
                c_source_id: value[5],
                controls: read_u16(value, 6),
                terminal_index: value[8],
                terminal: None,
            },
        )
    }

    fn encode(&self) -> (bytes: Vec<u8>) {
        let mut data: Vec<u8> = Vec::new();
        data.push(self.terminal_id);
        push_u16(&mut data, self.terminal_type);
        data.push(self.assoc_terminal);
        data.push(self.source_id);
        data.push(self.c_source_id);
        push_u16(&mut data, self.controls);
        data.push(self.terminal_index);
        data
    }

    proof fn lemma_decode_encoded(&self) {
        let e = self.encoding();
        assert(e.subrange(1, 3) =~= u16_bytes(self.terminal_type));
        lemma_u16_le_bytes(e, 1, self.terminal_type);
        assert(e.subrange(6, 8) =~= u16_bytes(self.controls));
        lemma_u16_le_bytes(e, 6, self.controls);
    }

    proof fn lemma_encode_decoded(&self, b: Seq<u8>) {
    }
}

/// UAC3: 4.5.2.2 Output Terminal Descriptor; Table 4-17.
#[derive(Debug, Clone, PartialEq, Eq, Hash)]
pub struct OutputTerminal3 {
    pub terminal_id: u8,
    pub terminal_type: u16,
    pub assoc_terminal: u8,
    pub source_id: u8,
    pub c_source_id: u8,
    pub controls: u32,
    pub ex_terminal_descr_id: u16,
    pub connectors_descr_id: u16,
    pub terminal_descr_str: u16,
}

impl DescriptorShape for OutputTerminal3 {
    open spec fn name() -> &'static str {
        "OutputTerminal3"
    }

    open spec fn min_len() -> nat {
        16
    }

    open spec fn wire_len(b: Seq<u8>) -> nat {
        16
    }

    open spec fn decoded_from(&self, b: Seq<u8>) -> bool {
        &&& self.terminal_id == b[0]
        &&& self.terminal_type == u16_le(b, 1)
        &&& self.assoc_terminal == b[3]
        &&& self.source_id == b[4]
        &&& self.c_source_id == b[5]
        &&& self.controls == u32_le(b, 6)
        &&& self.ex_terminal_descr_id == u16_le(b, 10)
        &&& self.connectors_descr_id == u16_le(b, 12)
        &&& self.terminal_descr_str == u16_le(b, 14)
    }

    open spec fn encoding(&self) -> Seq<u8> {
        seq![self.terminal_id] + u16_bytes(self.terminal_type)
            + seq![self.assoc_terminal, self.source_id, self.c_source_id]
            + u32_bytes(self.controls) + u16_bytes(self.ex_terminal_descr_id)
            + u16_bytes(self.connectors_descr_id) + u16_bytes(self.terminal_descr_str)
    }

    fn decode(value: &[u8]) -> (r: Result<Self, Error>) {
        if value.len() < 16 {
            return Err(Error::new_descriptor_len("OutputTerminal3", 16, value.len()));
        }
        Ok(
            OutputTerminal3 {
                terminal_id: value[0],
                terminal_type: read_u16(value, 1),
                assoc_terminal: value[3],
                source_id: value[4],
                c_source_id: value[5],
                controls: read_u32(value, 6),
                ex_terminal_descr_id: read_u16(value, 10),
                connectors_descr_id: read_u16(value, 12),
                terminal_descr_str: read_u16(value, 14),
            },
        )
    }

    fn encode(&self) -> (bytes: Vec<u8>) {
        let mut data: Vec<u8> = Vec::new();
        data.push(self.terminal_id);
        push_u16(&mut data, self.terminal_type);
        data.push(self.assoc_terminal);
        data.push(self.source_id);
        data.push(self.c_source_id);
        push_u32(&mut data, self.controls);
        push_u16(&mut data, self.ex_terminal_descr_id);
        push_u16(&mut data, self.connectors_descr_id);
        push_u16(&mut data, self.terminal_descr_str);
        data
    }

    proof fn lemma_decode_encoded(&self) {
        let e = self.encoding();
        assert(e.subrange(1, 3) =~= u16_bytes(self.terminal_type));
        lemma_u16_le_bytes(e, 1, self.terminal_type);
        assert(e.subrange(6, 10) =~= u32_bytes(self.controls));
        lemma_u32_le_bytes(e, 6, self.controls);
        assert(e.subrange(10, 12) =~= u16_bytes(self.ex_terminal_descr_id));
        lemma_u16_le_bytes(e, 10, self.ex_terminal_descr_id);
        assert(e.subrange(12, 14) =~= u16_bytes(self.connectors_descr_id));
        lemma_u16_le_bytes(e, 12, self.connectors_descr_id);
        assert(e.subrange(14, 16) =~= u16_bytes(self.terminal_descr_str));
        lemma_u16_le_bytes(e, 14, self.terminal_descr_str);
    }

    proof fn lemma_encode_decoded(&self, b: Seq<u8>) {
        lemma_u32_bytes_le(b, 6);
        assert(self.encoding() =~= b.subrange(0, Self::wire_len(b) as int));
    }
}

/// UAC3: 4.5.2.3.1 Extended Terminal Header Descriptor; Table 4-18.
#[derive(Debug, Clone, PartialEq, Eq, Hash)]
pub struct ExtendedTerminalHeader {
    pub descriptor_id: u8,
    pub nr_channels: u8,
}

impl DescriptorShape for ExtendedTerminalHeader {
    open spec fn name() -> &'static str {
        "ExtendedTerminalHeader"
    }

    open spec fn min_len() -> nat {
        2
    }

    open spec fn wire_len(b: Seq<u8>) -> nat {
        2
    }

    open spec fn decoded_from(&self, b: Seq<u8>) -> bool {
        &&& self.descriptor_id == b[0]
        &&& self.nr_channels == b[1]
    }

    open spec fn encoding(&self) -> Seq<u8> {
        seq![self.descriptor_id, self.nr_channels]
    }

    fn decode(value: &[u8]) -> (r: Result<Self, Error>) {
        if value.len() < 2 {
            return Err(Error::new_descriptor_len("ExtendedTerminalHeader", 2, value.len()));
        }
        Ok(
            ExtendedTerminalHeader {
                descriptor_id: value[0],
                nr_channels: value[1],
            },
        )
    }

    fn encode(&self) -> (bytes: Vec<u8>) {
        let mut data: Vec<u8> = Vec::new();
        data.push(self.descriptor_id);
        data.push(self.nr_channels);
        data
    }

    proof fn lemma_decode_encoded(&self) {
    }

    proof fn lemma_encode_decoded(&self, b: Seq<u8>) {
    }
}

/// UAC3: 4.5.2.15 Power Domain Descriptor; Table 4-46.
#[derive(Debug, Clone, PartialEq, Eq, Hash)]
pub struct PowerDomain {
    pub power_domain_id: u8,
    pub recovery_time_1: u16,
    pub recovery_time_2: u16,
    pub nr_entities: u8,
    pub entity_ids: Vec<u8>,
    pub domain_descr_str: u16,
}

impl DescriptorShape for PowerDomain {
    open spec fn name() -> &'static str {
        "PowerDomain"
    }

    open spec fn min_len() -> nat {
        8
    }

    open spec fn wire_len(b: Seq<u8>) -> nat {
        if b.len() < 8 {
            8
        } else {
            let entities = b[5] as int;
            (8 + entities) as nat
        }
    }

    open spec fn decoded_from(&self, b: Seq<u8>) -> bool {
        let entities = b[5] as int;
        &&& self.power_domain_id == b[0]
        &&& self.recovery_time_1 == u16_le(b, 1)
        &&& self.recovery_time_2 == u16_le(b, 3)
        &&& self.nr_entities == b[5]
        &&& self.entity_ids@ == b.subrange(6, 6 + entities)
        &&& self.domain_descr_str == u16_le(b, 6 + entities)
    }

    open spec fn wf(&self) -> bool {
        self.entity_ids@.len() == self.nr_entities
    }

    open spec fn encoding(&self) -> Seq<u8> {
        seq![self.power_domain_id] + u16_bytes(self.recovery_time_1)
            + u16_bytes(self.recovery_time_2) + seq![self.nr_entities] + self.entity_ids@
            + u16_bytes(self.domain_descr_str)
    }

    fn decode(value: &[u8]) -> (r: Result<Self, Error>) {
        if value.len() < 8 {
            return Err(Error::new_descriptor_len("PowerDomain", 8, value.len()));
        }
        let entities: usize = value[5] as usize;
        if value.len() < 8 + entities {
            return Err(Error::new_descriptor_len("PowerDomain", 8 + entities, value.len()));
        }
        Ok(
            PowerDomain {
                power_domain_id: value[0],
                recovery_time_1: read_u16(value, 1),
                recovery_time_2: read_u16(value, 3),
                nr_entities: value[5],
                entity_ids: copy_range(value, 6, 6 + entities),
                domain_descr_str: read_u16(value, 6 + entities),
            },
        )
    }

    fn encode(&self) -> (bytes: Vec<u8>) {
        let mut data: Vec<u8> = Vec::new();
        data.push(self.power_domain_id);
        push_u16(&mut data, self.recovery_time_1);
        push_u16(&mut data, self.recovery_time_2);
        data.push(self.nr_entities);
        data.extend_from_slice(self.entity_ids.as_slice());
        push_u16(&mut data, self.domain_descr_str);
        data
    }

    proof fn lemma_decode_encoded(&self) {
        let e = self.encoding();
        let entities = self.nr_entities as int;
        assert(e.len() == 8 + entities);
        assert(e[5] == self.nr_entities);
        assert(e.subrange(1, 3) =~= u16_bytes(self.recovery_time_1));
        lemma_u16_le_bytes(e, 1, self.recovery_time_1);
        assert(e.subrange(3, 5) =~= u16_bytes(self.recovery_time_2));
        lemma_u16_le_bytes(e, 3, self.recovery_time_2);
        assert(e.subrange(6, 6 + entities) =~= self.entity_ids@);
        assert(e.subrange(6 + entities, 8 + entities) =~= u16_bytes(self.domain_descr_str));
        lemma_u16_le_bytes(e, 6 + entities, self.domain_descr_str);
    }

    proof fn lemma_encode_decoded(&self, b: Seq<u8>) {
        assert(self.encoding() =~= b.subrange(0, Self::wire_len(b) as int));
    }
}

} // verus!
