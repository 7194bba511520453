//! The descriptors of a MIDI streaming interface.
use crate::error::Error;
use crate::usb::{DescriptorType, Version};
use crate::wire::{
    accepts, copy_all, copy_bytes, copy_from, copy_range, exact, lemma_encode_decode,
    lemma_pair_bytes_at, lemma_pairs_at_bytes, lemma_u16_bytes_le, lemma_u16_le_bytes,
    pair_bytes, pairs_at, push_pairs, push_u16, read_pairs, read_u16, rejects, u16_bytes,
    u16_le, DescriptorShape,
};
use crate::text::{shouty_snake_case, to_shouty_snake_case};
use vstd::prelude::*;
use vstd::std_specs::convert::FromSpecImpl;

verus! {

/// The header of the class-specific MIDI streaming interface.
#[derive(Debug, Clone, PartialEq, Eq, Hash)]
pub struct Header {
    pub version: Version,
    pub total_length: u16,
}

impl DescriptorShape for Header {
    open spec fn name() -> &'static str {
        "Header"
    }

    open spec fn min_len() -> nat {
        4
    }

    open spec fn wire_len(b: Seq<u8>) -> nat {
        4
    }

    open spec fn decoded_from(&self, b: Seq<u8>) -> bool {
        &&& self.version == Version::decoded(u16_le(b, 0))
        &&& self.total_length == u16_le(b, 2)
    }

    open spec fn wf(&self) -> bool {
        self.version.wf()
    }

    open spec fn encoding(&self) -> Seq<u8> {
        u16_bytes(self.version.bcd()) + u16_bytes(self.total_length)
    }

    open spec fn canonical(b: Seq<u8>) -> bool {
        Version::is_bcd(u16_le(b, 0))
    }

    fn decode(value: &[u8]) -> (r: Result<Self, Error>) {
        if value.len() < 4 {
            return Err(Error::new_descriptor_len("Header", 4, value.len()));
        }
        Ok(
            Header {
                version: Version::from_bcd(read_u16(value, 0)),
                total_length: read_u16(value, 2),
            },
        )
    }

    fn encode(&self) -> (bytes: Vec<u8>) {
        let mut data: Vec<u8> = Vec::new();
        push_u16(&mut data, self.version.to_bcd());
        push_u16(&mut data, self.total_length);
        data
    }

    proof fn lemma_decode_encoded(&self) {
        let e = self.encoding();
        assert(e.subrange(0, 2) =~= u16_bytes(self.version.bcd()));
        lemma_u16_le_bytes(e, 0, self.version.bcd());
        assert(e.subrange(2, 4) =~= u16_bytes(self.total_length));
        lemma_u16_le_bytes(e, 2, self.total_length);
        self.version.lemma_decoded_bcd();
    }

    proof fn lemma_encode_decoded(&self, b: Seq<u8>) {
        Version::lemma_bcd_decoded(u16_le(b, 0));
        lemma_u16_bytes_le(b, 0);
        assert(self.encoding() =~= b.subrange(0, Self::wire_len(b) as int));
    }
}

/// A MIDI IN jack.
#[derive(Debug, Clone, PartialEq, Eq, Hash)]
pub struct InputJack {
    pub jack_type: u8,
    pub jack_id: u8,
    pub jack_string_index: u8,
    pub jack_string: Option<String>,
}

impl DescriptorShape for InputJack {
    open spec fn name() -> &'static str {
        "InputJack"
    }

    open spec fn min_len() -> nat {
        3
    }

    open spec fn wire_len(b: Seq<u8>) -> nat {
        3
    }

    open spec fn decoded_from(&self, b: Seq<u8>) -> bool {
        &&& self.jack_type == b[0]
        &&& self.jack_id == b[1]
        &&& self.jack_string_index == b[2]
        &&& self.jack_string is None
    }

    open spec fn wf(&self) -> bool {
        self.jack_string is None
    }

    open spec fn encoding(&self) -> Seq<u8> {
        seq![self.jack_type, self.jack_id, self.jack_string_index]
    }

    fn decode(value: &[u8]) -> (r: Result<Self, Error>) {
        if value.len() < 3 {
            return Err(Error::new_descriptor_len("InputJack", 3, value.len()));
        }
        Ok(
            InputJack {
                jack_type: value[0],
                jack_id: value[1],
                jack_string_index: value[2],
                jack_string: None,
            },
        )
    }

    fn encode(&self) -> (bytes: Vec<u8>) {
        let mut data: Vec<u8> = Vec::new();
        data.push(self.jack_type);
        data.push(self.jack_id);
        data.push(self.jack_string_index);
        data
    }

    proof fn lemma_decode_encoded(&self) {
    }

    proof fn lemma_encode_decoded(&self, b: Seq<u8>) {
    }
}

/// A MIDI OUT jack, with the pins that feed it.
#[derive(Debug, Clone, PartialEq, Eq, Hash)]
pub struct OutputJack {
    pub jack_type: u8,
    pub jack_id: u8,
    pub num_input_pins: u8,
    pub source_ids: Vec<(u8, u8)>,
    pub jack_string_index: u8,
    pub jack_string: Option<String>,
}

impl DescriptorShape for OutputJack {
    open spec fn name() -> &'static str {
        "OutputJack"
    }

    open spec fn min_len() -> nat {
        4
    }

    open spec fn wire_len(b: Seq<u8>) -> nat {
        if b.len() < 4 {
            4
        } else {
            let pins = b[2] as int;
            (4 + 2 * pins) as nat
        }
    }

    open spec fn decoded_from(&self, b: Seq<u8>) -> bool {
        let pins = b[2] as int;
        &&& self.jack_type == b[0]
        &&& self.jack_id == b[1]
        &&& self.num_input_pins == b[2]
        &&& self.source_ids@ == pairs_at(b, 3, pins)
        &&& self.jack_string_index == b[3 + 2 * pins]
        &&& self.jack_string is None
    }

    open spec fn wf(&self) -> bool {
        &&& self.source_ids@.len() == self.num_input_pins
        &&& self.jack_string is None
    }

    open spec fn encoding(&self) -> Seq<u8> {
        seq![self.jack_type, self.jack_id, self.num_input_pins] + pair_bytes(self.source_ids@)
            + seq![self.jack_string_index]
    }

    fn decode(value: &[u8]) -> (r: Result<Self, Error>) {
        if value.len() < 4 {
            return Err(Error::new_descriptor_len("OutputJack", 4, value.len()));
        }
        let pins: usize = value[2] as usize;
        if value.len() < 4 + 2 * pins {
            return Err(Error::new_descriptor_len("OutputJack", 4 + 2 * pins, value.len()));
        }
        Ok(
            OutputJack {
                jack_type: value[0],
                jack_id: value[1],
                num_input_pins: value[2],
                source_ids: read_pairs(value, 3, pins),
                jack_string_index: value[3 + 2 * pins],
                jack_string: None,
            },
        )
    }

    fn encode(&self) -> (bytes: Vec<u8>) {
        let mut data: Vec<u8> = Vec::new();
        data.push(self.jack_type);
        data.push(self.jack_id);
        data.push(self.num_input_pins);
        push_pairs(&mut data, &self.source_ids);
        data.push(self.jack_string_index);
        data
    }

    proof fn lemma_decode_encoded(&self) {
        let e = self.encoding();
        let pins = self.num_input_pins as int;
        assert(e.len() == 4 + 2 * pins);
        assert(e[2] == self.num_input_pins);
        assert(e.subrange(3, 3 + 2 * pins) =~= pair_bytes(self.source_ids@));
        lemma_pairs_at_bytes(e, 3, self.source_ids@);
    }

    proof fn lemma_encode_decoded(&self, b: Seq<u8>) {
        let pins = b[2] as int;
        lemma_pair_bytes_at(b, 3, pins);
        assert(self.encoding() =~= b.subrange(0, Self::wire_len(b) as int));
    }
}

/// The jacks that a MIDI streaming endpoint is tied to.
#[derive(Debug, Clone, PartialEq, Eq, Hash)]
pub struct MidiEndpointDescriptor {
    pub num_jacks: u8,
    pub jacks: Vec<u8>,
}

impl DescriptorShape for MidiEndpointDescriptor {
    open spec fn name() -> &'static str {
        "MidiEndpointDescriptor"
    }

    open spec fn min_len() -> nat {
        1
    }

    open spec fn wire_len(b: Seq<u8>) -> nat {
        if b.len() < 1 {
            1
        } else {
            let jacks = b[0] as int;
            (1 + jacks) as nat
        }
    }

    open spec fn decoded_from(&self, b: Seq<u8>) -> bool {
        let jacks = b[0] as int;
        &&& self.num_jacks == b[0]
        &&& self.jacks@ == b.subrange(1, 1 + jacks)
    }

    open spec fn wf(&self) -> bool {
        self.jacks@.len() == self.num_jacks
    }

    open spec fn encoding(&self) -> Seq<u8> {
        seq![self.num_jacks] + self.jacks@
    }

    fn decode(value: &[u8]) -> (r: Result<Self, Error>) {
        if value.len() < 1 {
            return Err(Error::new_descriptor_len("MidiEndpointDescriptor", 1, value.len()));
        }
        let jacks: usize = value[0] as usize;
        if value.len() < 1 + jacks {
            return Err(Error::new_descriptor_len("MidiEndpointDescriptor", 1 + jacks, value.len()));
        }
        Ok(
            MidiEndpointDescriptor {
                num_jacks: value[0],
                jacks: copy_range(value, 1, 1 + jacks),
            },
        )
    }

    fn encode(&self) -> (bytes: Vec<u8>) {
        let mut data: Vec<u8> = Vec::new();
        data.push(self.num_jacks);
        data.extend_from_slice(self.jacks.as_slice());
        data
    }

    proof fn lemma_decode_encoded(&self) {
        let e = self.encoding();
        let jacks = self.num_jacks as int;
        assert(e.len() == 1 + jacks);
        assert(e[0] == self.num_jacks);
        assert(e.subrange(1, 1 + jacks) =~= self.jacks@);
    }

    proof fn lemma_encode_decoded(&self, b: Seq<u8>) {
        assert(self.encoding() =~= b.subrange(0, Self::wire_len(b) as int));
    }
}

/// The capabilities bitmap held in the `size` bytes from `b[from]`: the first
/// two bytes count, low byte first.
pub open spec fn caps_at(b: Seq<u8>, from: int, size: int) -> u16 {
    if size == 0 {
        0
    } else if size == 1 {
        b[from] as u16
    } else {
        u16_le(b, from)
    }
}

/// The `size` bytes that hold the capabilities bitmap `caps`: its two bytes,
/// low byte first, and zeros after them.
pub open spec fn caps_bytes(caps: u16, size: int) -> Seq<u8> {
    Seq::new(
        size as nat,
        |i: int|
            if i == 0 {
                (caps % 256) as u8
            } else if i == 1 {
                (caps / 256) as u8
            } else {
                0u8
            },
    )
}

/// Appends the `size` bytes that hold the capabilities bitmap `caps` to `out`.
fn push_caps(out: &mut Vec<u8>, caps: u16, size: u8)
    ensures
        final(out)@ == old(out)@ + caps_bytes(caps, size as int),
{
    let ghost start = out@;
    let mut i: u8 = 0;
    assert(out@ =~= start + caps_bytes(caps, 0));
    while i < size
        invariant
            i <= size,
            out@ == start + caps_bytes(caps, i as int),
        decreases size - i,
    {
        if i == 0 {
            out.push((caps % 256) as u8);
        } else if i == 1 {
            out.push((caps / 256) as u8);
        } else {
            out.push(0);
        }
        i = i + 1;
        assert(out@ =~= start + caps_bytes(caps, i as int));
    }
}

/// A MIDI element, with the pins that feed it and its capabilities.
/// A bitmap of capabilities has two bytes: where the descriptor gives it more,
/// the others are read over and written as zero. An element takes eight bytes
/// at least: one without pins and without capabilities is written in seven,
/// and not read back.
#[derive(Debug, Clone, PartialEq, Eq, Hash)]
pub struct Element {
    pub element_id: u8,
    pub num_input_pins: u8,
    pub source_ids: Vec<(u8, u8)>,
    pub num_output_pins: u8,
    pub in_terminal_link: u8,
    pub out_terminal_link: u8,
    pub el_caps_size: u8,
    pub element_caps: u16,
    pub element_string_index: u8,
    pub element_string: Option<String>,
}

impl DescriptorShape for Element {
    open spec fn name() -> &'static str {
        "Element"
    }

    open spec fn min_len() -> nat {
        8
    }

    open spec fn wire_len(b: Seq<u8>) -> nat {
        if b.len() < 8 {
            8
        } else {
            let pins = b[1] as int;
            if b.len() <= 5 + 2 * pins {
                (7 + 2 * pins) as nat
            } else {
                let size = b[5 + 2 * pins] as int;
                (7 + 2 * pins + size) as nat
            }
        }
    }

    open spec fn decoded_from(&self, b: Seq<u8>) -> bool {
        let pins = b[1] as int;
        let size = b[5 + 2 * pins] as int;
        &&& self.element_id == b[0]
        &&& self.num_input_pins == b[1]
        &&& self.source_ids@ == pairs_at(b, 2, pins)
        &&& self.num_output_pins == b[2 + 2 * pins]
        &&& self.in_terminal_link == b[3 + 2 * pins]
        &&& self.out_terminal_link == b[4 + 2 * pins]
        &&& self.el_caps_size == b[5 + 2 * pins]
        &&& self.element_caps == caps_at(b, 6 + 2 * pins, size)
        &&& self.element_string_index == b[6 + 2 * pins + size]
        &&& self.element_string is None
    }

    open spec fn wf(&self) -> bool {
        &&& self.source_ids@.len() == self.num_input_pins
        &&& 2 * self.num_input_pins + self.el_caps_size >= 1
        &&& self.el_caps_size == 0 ==> self.element_caps == 0
        &&& self.el_caps_size == 1 ==> self.element_caps < 256
        &&& self.element_string is None
    }

    open spec fn encoding(&self) -> Seq<u8> {
        seq![self.element_id, self.num_input_pins] + pair_bytes(self.source_ids@) + seq![
            self.num_output_pins,
            self.in_terminal_link,
            self.out_terminal_link,
            self.el_caps_size,
        ] + caps_bytes(self.element_caps, self.el_caps_size as int) + seq![
            self.element_string_index,
        ]
    }

    open spec fn canonical(b: Seq<u8>) -> bool {
        let pins = b[1] as int;
        let size = b[5 + 2 * pins] as int;
        &&& 2 * pins + size >= 1
        &&& forall|k: int| 8 + 2 * pins <= k < 6 + 2 * pins + size ==> b[k] == 0
    }

    fn decode(value: &[u8]) -> (r: Result<Self, Error>) {
        if value.len() < 8 {
            return Err(Error::new_descriptor_len("Element", 8, value.len()));
        }
        let pins: usize = value[1] as usize;
        if value.len() <= 5 + 2 * pins {
            return Err(Error::new_descriptor_len("Element", 7 + 2 * pins, value.len()));
        }
        let size: usize = value[5 + 2 * pins] as usize;
        if value.len() < 7 + 2 * pins + size {
            return Err(Error::new_descriptor_len("Element", 7 + 2 * pins + size, value.len()));
        }
        let element_caps: u16 = if size == 0 {
            0
        } else if size == 1 {
            value[6 + 2 * pins] as u16
        } else {
            read_u16(value, 6 + 2 * pins)
        };
        Ok(
            Element {
                element_id: value[0],
                num_input_pins: value[1],
                source_ids: read_pairs(value, 2, pins),
                num_output_pins: value[2 + 2 * pins],
                in_terminal_link: value[3 + 2 * pins],
                out_terminal_link: value[4 + 2 * pins],
                el_caps_size: value[5 + 2 * pins],
                element_caps,
                element_string_index: value[6 + 2 * pins + size],
                element_string: None,
            },
        )
    }

    fn encode(&self) -> (bytes: Vec<u8>) {
        let mut data: Vec<u8> = Vec::new();
        data.push(self.element_id);
        data.push(self.num_input_pins);
        push_pairs(&mut data, &self.source_ids);
        data.push(self.num_output_pins);
        data.push(self.in_terminal_link);
        data.push(self.out_terminal_link);
        data.push(self.el_caps_size);
        push_caps(&mut data, self.element_caps, self.el_caps_size);
        data.push(self.element_string_index);
        data
    }

    proof fn lemma_decode_encoded(&self) {
        let e = self.encoding();
        let pins = self.num_input_pins as int;
        let size = self.el_caps_size as int;
        let caps = caps_bytes(self.element_caps, size);
        assert(e.len() == 7 + 2 * pins + size);
        assert(e[1] == self.num_input_pins);
        assert(e[5 + 2 * pins] == self.el_caps_size);
        assert(e.subrange(2, 2 + 2 * pins) =~= pair_bytes(self.source_ids@));
        lemma_pairs_at_bytes(e, 2, self.source_ids@);
        assert(e.subrange(6 + 2 * pins, 6 + 2 * pins + size) =~= caps);
        if size == 1 {
            assert(e[6 + 2 * pins] == caps[0]);
        } else if size >= 2 {
            assert(e[6 + 2 * pins] == caps[0]);
            assert(e[7 + 2 * pins] == caps[1]);
        }
    }

    proof fn lemma_encode_decoded(&self, b: Seq<u8>) {
        let pins = b[1] as int;
        let size = b[5 + 2 * pins] as int;
        lemma_pair_bytes_at(b, 2, pins);
        if size >= 2 {
            lemma_u16_bytes_le(b, 6 + 2 * pins);
        }
        assert(caps_bytes(self.element_caps, size) =~= b.subrange(
            6 + 2 * pins,
            6 + 2 * pins + size,
        )) by {
            assert forall|i: int| 0 <= i < size implies caps_bytes(self.element_caps, size)[i]
                == b[6 + 2 * pins + i] by {
                if size >= 2 && i < 2 {
                    assert(b.subrange(6 + 2 * pins, 8 + 2 * pins)[i] == b[6 + 2 * pins + i]);
                }
            }
        }
        assert(self.encoding() =~= b.subrange(0, Self::wire_len(b) as int));
    }
}

impl Element {
    /// Decodes the payload of an element descriptor. Fewer than eight bytes
    /// are too few for any element; more are asked for where the element
    /// counts input pins or capability bytes. The pairs of source ids are as
    /// many as the input pins, and the string index is the byte after the
    /// capabilities.
    pub fn try_from(value: &[u8]) -> (r: Result<Element, Error>)
        ensures
            r is Ok <==> value@.len() >= Element::wire_len(value@),
            r matches Ok(x) ==> {
                &&& x.decoded_from(value@)
                &&& x.source_ids@.len() == x.num_input_pins
                &&& x.element_string_index == value@[6 + 2 * x.num_input_pins + x.el_caps_size]
            },
            r matches Err(e) ==> e == (Error::DescriptorTooShort {
                descriptor_name: "Element",
                expected: Element::wire_len(value@) as usize,
                actual: value@.len() as usize,
            }),
            value@.len() < 8 ==> r == Err::<Element, Error>(
                Error::DescriptorTooShort {
                    descriptor_name: "Element",
                    expected: 8,
                    actual: value@.len() as usize,
                },
            ),
    {
        Element::decode(value)
    }
}

/// bSubtype for MIDI interface descriptors
#[derive(Debug, Clone, Copy, PartialEq, Eq, Hash)]
pub enum MidiSubtype {
    Undefined,
    Header,
    InputJack,
    OutputJack,
    Element,
}

impl MidiSubtype {
    /// The sub type that the byte `b` stands for; a byte that names none is undefined.
    pub open spec fn of(b: u8) -> MidiSubtype {
        if b == 0x01 {
            MidiSubtype::Header
        } else if b == 0x02 {
            MidiSubtype::InputJack
        } else if b == 0x03 {
            MidiSubtype::OutputJack
        } else if b == 0x04 {
            MidiSubtype::Element
        } else {
            MidiSubtype::Undefined
        }
    }

    /// The byte that stands for `self`.
    pub open spec fn code(self) -> u8 {
        match self {
            MidiSubtype::Undefined => 0x00,
            MidiSubtype::Header => 0x01,
            MidiSubtype::InputJack => 0x02,
            MidiSubtype::OutputJack => 0x03,
            MidiSubtype::Element => 0x04,
        }
    }

    /// Get the [`MidiInterfaceDescriptor`] from the descriptor data for this subtype
    pub fn get_interface_descriptor(&self, data: &[u8]) -> (r: Result<
        MidiInterfaceDescriptor,
        Error,
    >)
        ensures
            MidiInterfaceDescriptor::interface_decoding(*self, data@, r),
    {
        MidiInterfaceDescriptor::from_midi_interface(self, data)
    }
}

impl From<u8> for MidiSubtype {
    fn from(b: u8) -> (subtype: MidiSubtype) {
        match b {
            0x01 => MidiSubtype::Header,
            0x02 => MidiSubtype::InputJack,
            0x03 => MidiSubtype::OutputJack,
            0x04 => MidiSubtype::Element,
            _ => MidiSubtype::Undefined,
        }
    }
}

impl FromSpecImpl<u8> for MidiSubtype {
    open spec fn obeys_from_spec() -> bool {
        true
    }

    open spec fn from_spec(b: u8) -> MidiSubtype {
        MidiSubtype::of(b)
    }
}

impl From<MidiSubtype> for u8 {
    fn from(subtype: MidiSubtype) -> (b: u8) {
        match subtype {
            MidiSubtype::Undefined => 0x00,
            MidiSubtype::Header => 0x01,
            MidiSubtype::InputJack => 0x02,
            MidiSubtype::OutputJack => 0x03,
            MidiSubtype::Element => 0x04,
        }
    }
}

impl FromSpecImpl<MidiSubtype> for u8 {
    open spec fn obeys_from_spec() -> bool {
        true
    }

    open spec fn from_spec(subtype: MidiSubtype) -> u8 {
        subtype.code()
    }
}

/// The payload of a MIDI streaming descriptor.
#[derive(Debug, Clone, PartialEq, Eq, Hash)]
pub enum MidiInterfaceDescriptor {
    Header(Header),
    InputJack(InputJack),
    OutputJack(OutputJack),
    Element(Element),
    Endpoint(MidiEndpointDescriptor),
    /// The bytes of a payload that the shape of its sub type turned down.
    Invalid(Vec<u8>),
    /// The bytes of a payload whose sub type is not defined.
    Undefined(Vec<u8>),
}

impl MidiInterfaceDescriptor {
    /// The bytes of `self` on the wire.
    pub open spec fn encoding(&self) -> Seq<u8> {
        match self {
            MidiInterfaceDescriptor::Header(a) => a.encoding(),
            MidiInterfaceDescriptor::InputJack(a) => a.encoding(),
            MidiInterfaceDescriptor::OutputJack(a) => a.encoding(),
            MidiInterfaceDescriptor::Element(a) => a.encoding(),
            MidiInterfaceDescriptor::Endpoint(a) => a.encoding(),
            MidiInterfaceDescriptor::Invalid(a) => a@,
            MidiInterfaceDescriptor::Undefined(a) => a@,
        }
    }

    /// What decoding the payload `b` of an endpoint descriptor may return.
    pub open spec fn endpoint_decoding(b: Seq<u8>, r: Result<MidiInterfaceDescriptor, Error>) -> bool {
        match r {
            Ok(d) => d is Endpoint && accepts(b, d->Endpoint_0),
            Err(e) => rejects::<MidiEndpointDescriptor>(b, e),
        }
    }

    /// What decoding the payload `b` of an interface descriptor of the sub type
    /// `subtype` may return.
    pub open spec fn interface_decoding(
        subtype: MidiSubtype,
        b: Seq<u8>,
        r: Result<MidiInterfaceDescriptor, Error>,
    ) -> bool {
        match subtype {
            MidiSubtype::Header => match r {
                Ok(d) => d is Header && accepts(b, d->Header_0),
                Err(e) => rejects::<Header>(b, e),
            },
            MidiSubtype::InputJack => match r {
                Ok(d) => d is InputJack && accepts(b, d->InputJack_0),
                Err(e) => rejects::<InputJack>(b, e),
            },
            MidiSubtype::OutputJack => match r {
                Ok(d) => d is OutputJack && accepts(b, d->OutputJack_0),
                Err(e) => rejects::<OutputJack>(b, e),
            },
            MidiSubtype::Element => match r {
                Ok(d) => d is Element && accepts(b, d->Element_0),
                Err(e) => rejects::<Element>(b, e),
            },
            MidiSubtype::Undefined => r matches Ok(d) && d is Undefined && d->Undefined_0@ == b,
        }
    }

    /// The payload `b` of a descriptor of the type `descriptor_type` and the
    /// sub type `subtype` holds all that its shape takes.
    pub open spec fn fits(descriptor_type: DescriptorType, subtype: MidiSubtype, b: Seq<u8>) -> bool {
        if descriptor_type == DescriptorType::Endpoint {
            b.len() >= MidiEndpointDescriptor::wire_len(b)
        } else {
            match subtype {
                MidiSubtype::Header => b.len() >= Header::wire_len(b),
                MidiSubtype::InputJack => b.len() >= InputJack::wire_len(b),
                MidiSubtype::OutputJack => b.len() >= OutputJack::wire_len(b),
                MidiSubtype::Element => b.len() >= Element::wire_len(b),
                MidiSubtype::Undefined => true,
            }
        }
    }

    /// What decoding the payload `b` of a descriptor of the type
    /// `descriptor_type` and the sub type `subtype` may return.
    pub open spec fn decoding(
        descriptor_type: DescriptorType,
        subtype: MidiSubtype,
        b: Seq<u8>,
        r: Result<MidiInterfaceDescriptor, Error>,
    ) -> bool {
        if descriptor_type == DescriptorType::Endpoint {
            Self::endpoint_decoding(b, r)
        } else {
            Self::interface_decoding(subtype, b, r)
        }
    }

    /// `b` is the payload of the shape that `self` holds and nothing after
    /// it, written the one way in which the shape is encoded. Bytes that were
    /// kept as they are always are.
    pub open spec fn exact(&self, b: Seq<u8>) -> bool {
        match self {
            MidiInterfaceDescriptor::Header(_) => exact::<Header>(b),
            MidiInterfaceDescriptor::InputJack(_) => exact::<InputJack>(b),
            MidiInterfaceDescriptor::OutputJack(_) => exact::<OutputJack>(b),
            MidiInterfaceDescriptor::Element(_) => exact::<Element>(b),
            MidiInterfaceDescriptor::Endpoint(_) => exact::<MidiEndpointDescriptor>(b),
            MidiInterfaceDescriptor::Invalid(_) => true,
            MidiInterfaceDescriptor::Undefined(_) => true,
        }
    }

    /// What was decoded from a payload encodes to the payload: a shape to its
    /// bytes, and what has no shape to the bytes that were kept.
    pub proof fn lemma_payload_kept(
        &self,
        descriptor_type: DescriptorType,
        subtype: MidiSubtype,
        b: Seq<u8>,
    )
        requires
            Self::decoding(descriptor_type, subtype, b, Ok(*self)),
            self.exact(b),
        ensures
            self.encoding() == b,
    {
        match self {
            MidiInterfaceDescriptor::Header(a) => lemma_encode_decode(*a, b),
            MidiInterfaceDescriptor::InputJack(a) => lemma_encode_decode(*a, b),
            MidiInterfaceDescriptor::OutputJack(a) => lemma_encode_decode(*a, b),
            MidiInterfaceDescriptor::Element(a) => lemma_encode_decode(*a, b),
            MidiInterfaceDescriptor::Endpoint(a) => lemma_encode_decode(*a, b),
            _ => {},
        }
    }

    /// Try to parse the MIDI interface descriptor from the main descriptor data
    pub fn from_midi_descriptor(
        descriptor_type: &DescriptorType,
        subtype: &MidiSubtype,
        data: &[u8],
    ) -> (r: Result<Self, Error>)
        ensures
            Self::decoding(*descriptor_type, *subtype, data@, r),
    {
        match descriptor_type {
            DescriptorType::Endpoint => Self::from_midi_endpoint(data),
            _ => subtype.get_interface_descriptor(data),
        }
    }

    /// Try to parse the MIDI interface descriptor for an Endpoint from the provided data
    pub fn from_midi_endpoint(data: &[u8]) -> (r: Result<Self, Error>)
        ensures
            Self::endpoint_decoding(data@, r),
    {
        Ok(MidiInterfaceDescriptor::Endpoint(MidiEndpointDescriptor::decode(data)?))
    }

    /// Try to parse the MIDI interface descriptor for an Interface from the provided data
    pub fn from_midi_interface(subtype: &MidiSubtype, data: &[u8]) -> (r: Result<Self, Error>)
        ensures
            Self::interface_decoding(*subtype, data@, r),
    {
        match subtype {
            MidiSubtype::Header => Ok(MidiInterfaceDescriptor::Header(Header::decode(data)?)),
            MidiSubtype::InputJack => Ok(
                MidiInterfaceDescriptor::InputJack(InputJack::decode(data)?),
            ),
            MidiSubtype::OutputJack => Ok(
                MidiInterfaceDescriptor::OutputJack(OutputJack::decode(data)?),
            ),
            MidiSubtype::Element => Ok(MidiInterfaceDescriptor::Element(Element::decode(data)?)),
            MidiSubtype::Undefined => Ok(MidiInterfaceDescriptor::Undefined(copy_all(data))),
        }
    }

    /// Encodes `self`.
    pub fn encode(&self) -> (bytes: Vec<u8>)
        ensures
            bytes@ == self.encoding(),
    {
        match self {
            MidiInterfaceDescriptor::Header(a) => a.encode(),
            MidiInterfaceDescriptor::InputJack(a) => a.encode(),
            MidiInterfaceDescriptor::OutputJack(a) => a.encode(),
            MidiInterfaceDescriptor::Element(a) => a.encode(),
            MidiInterfaceDescriptor::Endpoint(a) => a.encode(),
            MidiInterfaceDescriptor::Invalid(a) => copy_bytes(a),
            MidiInterfaceDescriptor::Undefined(a) => copy_bytes(a),
        }
    }
}

/// A whole MIDI streaming descriptor: its header bytes and its payload.
#[derive(Debug, Clone, PartialEq, Eq, Hash)]
pub struct MidiDescriptor {
    pub length: u8,
    pub descriptor_type: u8,
    pub descriptor_subtype: MidiSubtype,
    pub interface: MidiInterfaceDescriptor,
}

impl MidiDescriptor {
    /// The descriptor bytes `b` hold a header and a first payload byte, and
    /// no fewer bytes than the header says.
    pub open spec fn decodable(b: Seq<u8>) -> bool {
        b.len() >= 4 && b[0] <= b.len()
    }

    /// What decoding the descriptor bytes `b` may return. A payload that its
    /// shape turns down is kept as it is.
    pub open spec fn decoding(b: Seq<u8>, r: Result<MidiDescriptor, Error>) -> bool {
        if b.len() < 4 {
            r == Err::<MidiDescriptor, Error>(
                Error::DescriptorTooShort {
                    descriptor_name: "MidiDescriptor",
                    expected: 4,
                    actual: b.len() as usize,
                },
            )
        } else if b[0] > b.len() {
            r == Err::<MidiDescriptor, Error>(
                Error::DescriptorTooShort {
                    descriptor_name: "MidiDescriptor reported",
                    expected: b[0] as usize,
                    actual: b.len() as usize,
                },
            )
        } else {
            let descriptor_type = DescriptorType::of(b[1]);
            let subtype = MidiSubtype::of(b[2]);
            let payload = b.subrange(3, b.len() as int);
            &&& r matches Ok(d)
            &&& d.length == b[0]
            &&& d.descriptor_type == b[1]
            &&& d.descriptor_subtype == subtype
            &&& if MidiInterfaceDescriptor::fits(descriptor_type, subtype, payload) {
                MidiInterfaceDescriptor::decoding(descriptor_type, subtype, payload, Ok(d.interface))
            } else {
                d.interface is Invalid && d.interface->Invalid_0@ == payload
            }
        }
    }

    /// The bytes of `self` on the wire.
    pub open spec fn encoding(&self) -> Seq<u8> {
        seq![self.length, self.descriptor_type, self.descriptor_subtype.code()]
            + self.interface.encoding()
    }

    /// What was decoded from the bytes of a descriptor encodes to those
    /// bytes, where they name a sub type by its own number and hold after it
    /// the payload of its shape and nothing else.
    pub proof fn lemma_descriptor_kept(&self, b: Seq<u8>)
        requires
            Self::decoding(b, Ok(*self)),
            b[2] == MidiSubtype::of(b[2]).code(),
            self.interface.exact(b.subrange(3, b.len() as int)),
        ensures
            self.encoding() == b,
    {
        let payload = b.subrange(3, b.len() as int);
        let descriptor_type = DescriptorType::of(b[1]);
        if MidiInterfaceDescriptor::fits(descriptor_type, self.descriptor_subtype, payload) {
            self.interface.lemma_payload_kept(descriptor_type, self.descriptor_subtype, payload);
        }
        assert(self.encoding() =~= b);
    }

    /// Decodes a whole MIDI streaming descriptor.
    pub fn decode(value: &[u8]) -> (r: Result<Self, Error>)
        ensures
            Self::decoding(value@, r),
    {
        if value.len() < 4 {
            return Err(Error::new_descriptor_len("MidiDescriptor", 4, value.len()));
        }
        let length = value[0];
        if length as usize > value.len() {
            return Err(
                Error::new_descriptor_len("MidiDescriptor reported", length as usize, value.len()),
            );
        }
        let descriptor_type = DescriptorType::from(value[1]);
        let descriptor_subtype = MidiSubtype::from(value[2]);
        let payload = &value[3..value.len()];
        let interface = match MidiInterfaceDescriptor::from_midi_descriptor(
            &descriptor_type,
            &descriptor_subtype,
            payload,
        ) {
            Ok(interface) => interface,
            Err(_) => MidiInterfaceDescriptor::Invalid(copy_from(value, 3)),
        };
        Ok(MidiDescriptor { length, descriptor_type: value[1], descriptor_subtype, interface })
    }

    /// Encodes `self`.
    pub fn encode(&self) -> (bytes: Vec<u8>)
        ensures
            bytes@ == self.encoding(),
    {
        let mut data: Vec<u8> = Vec::new();
        data.push(self.length);
        data.push(self.descriptor_type);
        data.push(u8::from(self.descriptor_subtype));
        let interface = self.interface.encode();
        data.extend_from_slice(interface.as_slice());
        data
    }
}

impl MidiSubtype {
    /// The name of `self`.
    pub open spec fn label(self) -> Seq<char> {
        match self {
            MidiSubtype::Undefined => "Undefined"@,
            MidiSubtype::Header => "Header"@,
            MidiSubtype::InputJack => "InputJack"@,
            MidiSubtype::OutputJack => "OutputJack"@,
            MidiSubtype::Element => "Element"@,
        }
    }

    /// The name of `self`.
    pub fn to_string(&self) -> (s: String)
        ensures
            s@ == self.label(),
    {
        match self {
            MidiSubtype::Undefined => "Undefined".to_owned(),
            MidiSubtype::Header => "Header".to_owned(),
            MidiSubtype::InputJack => "InputJack".to_owned(),
            MidiSubtype::OutputJack => "OutputJack".to_owned(),
            MidiSubtype::Element => "Element".to_owned(),
        }
    }

    /// The name of `self` as the list of descriptors of `lsusb` has it.
    pub open spec fn lsusb_label(self) -> Seq<char> {
        match self {
            MidiSubtype::Undefined => "Invalid"@,
            MidiSubtype::InputJack => "MIDI_IN_JACK"@,
            MidiSubtype::OutputJack => "MIDI_OUT_JACK"@,
            _ => shouty_snake_case(self.label()),
        }
    }

    /// The name of `self` as the list of descriptors of `lsusb` has it.
    pub fn to_lsusb_string(&self) -> (s: String)
        ensures
            s@ == self.lsusb_label(),
    {
        match self {
            MidiSubtype::Undefined => "Invalid".to_owned(),
            MidiSubtype::InputJack => "MIDI_IN_JACK".to_owned(),
            MidiSubtype::OutputJack => "MIDI_OUT_JACK".to_owned(),
            _ => to_shouty_snake_case(self.to_string().as_str()),
        }
    }
}

} // verus!
