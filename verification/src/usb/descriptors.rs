//! Descriptors: the self-describing records of a USB device.
use crate::error::Error;
use crate::usb::descriptors::audio::midi::MidiDescriptor;
use crate::usb::descriptors::audio::{UacDescriptor, UacProtocol, UacType};
use crate::wire::copy_range;
use vstd::prelude::*;

pub mod audio;

verus! {

/// A descriptor that is not decoded any further than its header: the length
/// it says it has, its type, its sub type and the bytes after them.
///
/// A descriptor of two bytes has no sub type, which then reads zero; one of
/// up to three bytes has no data.
#[derive(Debug, Clone, PartialEq, Eq, Hash)]
pub struct GenericDescriptor {
    pub length: u8,
    pub descriptor_type: u8,
    pub descriptor_subtype: u8,
    pub data: Option<Vec<u8>>,
}

impl GenericDescriptor {
    /// What decoding the descriptor at the start of `b` may return: a
    /// descriptor takes as many bytes as its first byte says, two at least.
    pub open spec fn decoding(b: Seq<u8>, r: Result<GenericDescriptor, Error>) -> bool {
        if b.len() < 2 {
            r == Err::<GenericDescriptor, Error>(
                Error::DescriptorTooShort {
                    descriptor_name: "GenericDescriptor",
                    expected: 2,
                    actual: b.len() as usize,
                },
            )
        } else if b[0] < 2 {
            r == Err::<GenericDescriptor, Error>(Error::InvalidLength(b[0]))
        } else if b[0] > b.len() {
            r == Err::<GenericDescriptor, Error>(
                Error::DescriptorTooShort {
                    descriptor_name: "GenericDescriptor",
                    expected: b[0] as usize,
                    actual: b.len() as usize,
                },
            )
        } else {
            r matches Ok(gd) && gd.decoded_from(b)
        }
    }

    /// Every field of `self` is the one found in the descriptor at the start of `b`.
    pub open spec fn decoded_from(&self, b: Seq<u8>) -> bool {
        &&& self.length == b[0]
        &&& self.descriptor_type == b[1]
        &&& self.descriptor_subtype == if b[0] >= 3 {
            b[2]
        } else {
            0
        }
        &&& if b[0] > 3 {
            self.data matches Some(data) && data@ == b.subrange(3, b[0] as int)
        } else {
            self.data is None
        }
    }

    /// The length of `self` is that of its header and data.
    pub open spec fn wf(&self) -> bool {
        &&& self.length >= 2
        &&& self.length == 2 ==> self.descriptor_subtype == 0
        &&& match self.data {
            Some(data) => self.length > 3 && data@.len() == self.length - 3,
            None => self.length <= 3,
        }
    }

    /// The bytes of `self` on the wire.
    pub open spec fn encoding(&self) -> Seq<u8> {
        seq![self.length, self.descriptor_type] + if self.length >= 3 {
            seq![self.descriptor_subtype]
        } else {
            Seq::empty()
        } + match self.data {
            Some(data) => data@,
            None => Seq::empty(),
        }
    }

    /// Decodes the descriptor at the start of `value`.
    pub fn decode(value: &[u8]) -> (r: Result<Self, Error>)
        ensures
            Self::decoding(value@, r),
    {
        if value.len() < 2 {
            return Err(Error::new_descriptor_len("GenericDescriptor", 2, value.len()));
        }
        let length = value[0];
        if length < 2 {
            return Err(Error::InvalidLength(length));
        }
        if length as usize > value.len() {
            return Err(Error::new_descriptor_len("GenericDescriptor", length as usize, value.len()));
        }
        let descriptor_subtype = if length >= 3 {
            value[2]
        } else {
            0
        };
        let data = if length > 3 {
            Some(copy_range(value, 3, length as usize))
        } else {
            None
        };
        Ok(GenericDescriptor { length, descriptor_type: value[1], descriptor_subtype, data })
    }

    /// Encodes `self`.
    pub fn encode(&self) -> (bytes: Vec<u8>)
        ensures
            bytes@ == self.encoding(),
    {
        let mut bytes: Vec<u8> = Vec::new();
        bytes.push(self.length);
        bytes.push(self.descriptor_type);
        if self.length >= 3 {
            bytes.push(self.descriptor_subtype);
        }
        match &self.data {
            Some(data) => {
                bytes.extend_from_slice(data.as_slice());
            },
            None => {},
        }
        assert(bytes@ =~= self.encoding());
        bytes
    }

    /// A well-formed descriptor is the decoding of its own encoding, all of it.
    pub proof fn lemma_decode_encoded(&self)
        requires
            self.wf(),
        ensures
            self.encoding().len() == self.length,
            Self::decoding(self.encoding(), Ok(*self)),
    {
        let e = self.encoding();
        match self.data {
            Some(data) => {
                assert(e.subrange(3, self.length as int) =~= data@);
            },
            None => {},
        }
    }

    /// What was decoded encodes to the bytes of the descriptor that was read.
    pub proof fn lemma_encode_decoded(&self, b: Seq<u8>)
        requires
            Self::decoding(b, Ok(*self)),
        ensures
            self.wf(),
            self.encoding() == b.subrange(0, b[0] as int),
    {
        assert(self.encoding() =~= b.subrange(0, b[0] as int));
    }
}

/// The class, sub class and protocol of a device or of an interface: the
/// context in which a class-specific descriptor is read.
#[derive(Debug, Clone, Copy, PartialEq, Eq, Hash)]
pub struct ClassCodeTriplet {
    pub base_class: u8,
    pub sub_class: u8,
    pub protocol: u8,
}

/// The base class of audio devices and interfaces.
pub const BASE_CLASS_AUDIO: u8 = 0x01;

/// The sub class of MIDI streaming interfaces among the audio interfaces.
pub const SUB_CLASS_MIDI_STREAMING: u8 = 0x03;

impl ClassCodeTriplet {
    /// `self` is the context of a MIDI streaming interface.
    pub open spec fn is_midi(self) -> bool {
        self.base_class == BASE_CLASS_AUDIO && self.sub_class == SUB_CLASS_MIDI_STREAMING
    }

    /// `self` is the context of an audio control or audio streaming interface.
    pub open spec fn is_audio(self) -> bool {
        self.base_class == BASE_CLASS_AUDIO && (self.sub_class == 1 || self.sub_class == 2)
    }
}

/// A class-specific descriptor, decoded as far as its class context allows.
#[derive(Debug, Clone, PartialEq, Eq, Hash)]
pub enum ClassDescriptor {
    /// A descriptor that no decoder took, with the context it was seen in, if any.
    Generic(Option<ClassCodeTriplet>, GenericDescriptor),
    /// A descriptor of an audio control or audio streaming interface.
    Audio(UacDescriptor, UacProtocol),
    /// A descriptor of a MIDI streaming interface, with the protocol byte of the interface.
    Midi(MidiDescriptor, u8),
}

impl ClassDescriptor {
    /// `self` is what the generic descriptor `gd` comes to in the context
    /// `triplet`. An audio descriptor with data is decoded under the protocol
    /// of the context, a MIDI streaming descriptor from its own bytes; every
    /// other one, and one that its decoder turns down, stays generic.
    pub open spec fn resolved_from(&self, triplet: ClassCodeTriplet, gd: GenericDescriptor) -> bool {
        if triplet.is_midi() && MidiDescriptor::decodable(gd.encoding()) {
            &&& self is Midi
            &&& self->Midi_1 == triplet.protocol
            &&& MidiDescriptor::decoding(gd.encoding(), Ok(self->Midi_0))
        } else if triplet.is_audio() && gd.data is Some {
            &&& self is Audio
            &&& self->Audio_1 == UacProtocol::of(triplet.protocol)
            &&& UacDescriptor::decoding(gd, triplet.sub_class, triplet.protocol, Ok(self->Audio_0))
        } else {
            &&& self is Generic
            &&& self->Generic_0 == Some(triplet)
            &&& self->Generic_1 == gd
        }
    }

    /// The bytes of `self` on the wire.
    pub open spec fn encoding(&self) -> Seq<u8> {
        match self {
            ClassDescriptor::Generic(_, gd) => gd.encoding(),
            ClassDescriptor::Audio(ud, _) => ud.encoding(),
            ClassDescriptor::Midi(md, _) => md.encoding(),
        }
    }

    /// The generic descriptor `gd` holds the payload of the shape of `self`
    /// and nothing after it, written the one way in which the shape is
    /// encoded; a MIDI descriptor also names its sub type by its own number.
    /// A descriptor that stayed generic always is written so.
    pub open spec fn exact(&self, gd: GenericDescriptor) -> bool {
        match self {
            ClassDescriptor::Generic(_, _) => true,
            ClassDescriptor::Audio(ud, _) => gd.data is Some && ud.interface.exact(gd.data->0@),
            ClassDescriptor::Midi(md, _) => {
                &&& gd.descriptor_subtype == md.descriptor_subtype.code()
                &&& md.interface.exact(gd.encoding().subrange(3, gd.encoding().len() as int))
            },
        }
    }

    /// What a generic descriptor came to in a context encodes to the bytes of
    /// the generic descriptor.
    pub proof fn lemma_descriptor_kept(&self, triplet: ClassCodeTriplet, gd: GenericDescriptor)
        requires
            gd.wf(),
            self.resolved_from(triplet, gd),
            self.exact(gd),
        ensures
            self.encoding() == gd.encoding(),
    {
        match self {
            ClassDescriptor::Generic(_, _) => {},
            ClassDescriptor::Audio(ud, _) => {
                ud.lemma_descriptor_kept(gd, triplet.sub_class, triplet.protocol);
            },
            ClassDescriptor::Midi(md, _) => {
                md.lemma_descriptor_kept(gd.encoding());
            },
        }
    }

    /// Decodes the generic descriptor `gd` in the context `triplet`.
    pub fn resolve(triplet: ClassCodeTriplet, gd: GenericDescriptor) -> (d: ClassDescriptor)
        ensures
            d.resolved_from(triplet, gd),
    {
        if triplet.base_class == BASE_CLASS_AUDIO && triplet.sub_class
            == SUB_CLASS_MIDI_STREAMING {
            let bytes = gd.encode();
            match MidiDescriptor::decode(bytes.as_slice()) {
                Ok(md) => ClassDescriptor::Midi(md, triplet.protocol),
                Err(_) => ClassDescriptor::Generic(Some(triplet), gd),
            }
        } else if triplet.base_class == BASE_CLASS_AUDIO && (triplet.sub_class == 1
            || triplet.sub_class == 2) && gd.data.is_some() {
            match UacDescriptor::try_from(gd, triplet.sub_class, triplet.protocol) {
                Ok(ud) => ClassDescriptor::Audio(ud, UacProtocol::from(triplet.protocol)),
                Err(_) => {
                    proof {
                        assert(false);
                    }
                    vstd::pervasive::unreached()
                },
            }
        } else {
            ClassDescriptor::Generic(Some(triplet), gd)
        }
    }

    /// Decodes `self` in the context `triplet`, where it is still generic.
    pub fn update_with_class_context(self, triplet: ClassCodeTriplet) -> (d: ClassDescriptor)
        ensures
            match self {
                ClassDescriptor::Generic(_, gd) => d.resolved_from(triplet, gd),
                _ => d == self,
            },
    {
        match self {
            ClassDescriptor::Generic(_, gd) => ClassDescriptor::resolve(triplet, gd),
            other => other,
        }
    }

    /// Encodes `self`.
    pub fn encode(&self) -> (bytes: Vec<u8>)
        ensures
            bytes@ == self.encoding(),
    {
        match self {
            ClassDescriptor::Generic(_, gd) => gd.encode(),
            ClassDescriptor::Audio(ud, _) => ud.encode(),
            ClassDescriptor::Midi(md, _) => md.encode(),
        }
    }
}

/// Whose descriptor a class-specific descriptor is.
#[derive(Debug, Clone, Copy, PartialEq, Eq, Hash)]
pub enum DescriptorOwner {
    Device,
    Interface,
    Endpoint,
}

impl DescriptorOwner {
    /// The owner that the descriptor type `t` names. A class-specific type
    /// lies from 0x20 to 0x3f and names its owner by its low five bits; any
    /// other type names none.
    pub open spec fn of(t: u8) -> Option<DescriptorOwner> {
        if t / 32 != 1 {
            None
        } else if t % 32 == 1 {
            Some(DescriptorOwner::Device)
        } else if t % 32 == 4 {
            Some(DescriptorOwner::Interface)
        } else if t % 32 == 5 {
            Some(DescriptorOwner::Endpoint)
        } else {
            None
        }
    }

    /// The owner that the descriptor type `t` names.
    pub fn from_type(t: u8) -> (owner: Option<DescriptorOwner>)
        ensures
            owner == Self::of(t),
    {
        if t / 32 != 1 {
            None
        } else if t % 32 == 1 {
            Some(DescriptorOwner::Device)
        } else if t % 32 == 4 {
            Some(DescriptorOwner::Interface)
        } else if t % 32 == 5 {
            Some(DescriptorOwner::Endpoint)
        } else {
            None
        }
    }
}

/// One descriptor among the extra bytes of a device, a configuration, an
/// interface or an endpoint.
#[derive(Debug, Clone, PartialEq, Eq, Hash)]
pub enum Descriptor {
    /// A class-specific descriptor of the device.
    Device(ClassDescriptor),
    /// A class-specific descriptor of an interface.
    Interface(ClassDescriptor),
    /// A class-specific descriptor of an endpoint.
    Endpoint(ClassDescriptor),
    /// A descriptor of any other type, as it is.
    Unknown(GenericDescriptor),
}

impl Descriptor {
    /// The class descriptor that `self` holds, if it holds one.
    pub open spec fn class_descriptor(&self) -> Option<ClassDescriptor> {
        match self {
            Descriptor::Device(cd) => Some(*cd),
            Descriptor::Interface(cd) => Some(*cd),
            Descriptor::Endpoint(cd) => Some(*cd),
            Descriptor::Unknown(_) => None,
        }
    }

    /// The owner of the class descriptor that `self` holds.
    pub open spec fn owner(&self) -> Option<DescriptorOwner> {
        match self {
            Descriptor::Device(_) => Some(DescriptorOwner::Device),
            Descriptor::Interface(_) => Some(DescriptorOwner::Interface),
            Descriptor::Endpoint(_) => Some(DescriptorOwner::Endpoint),
            Descriptor::Unknown(_) => None,
        }
    }

    /// `self` is what the generic descriptor `gd` comes to in the context
    /// `class`: a descriptor whose type names an owner is decoded in the
    /// context, or stays generic where there is none; any other stays as it is.
    pub open spec fn resolved_from(
        &self,
        class: Option<ClassCodeTriplet>,
        gd: GenericDescriptor,
    ) -> bool {
        match DescriptorOwner::of(gd.descriptor_type) {
            Some(owner) => {
                &&& self.owner() == Some(owner)
                &&& match class {
                    Some(triplet) => self.class_descriptor()->0.resolved_from(triplet, gd),
                    None => self.class_descriptor() == Some(ClassDescriptor::Generic(None, gd)),
                }
            },
            None => self == Descriptor::Unknown(gd),
        }
    }

    /// `self` is what the descriptor bytes `chunk` come to in the context `class`.
    pub open spec fn read_from(&self, class: Option<ClassCodeTriplet>, chunk: Seq<u8>) -> bool {
        exists|gd: GenericDescriptor|
            GenericDescriptor::decoding(chunk, Ok(gd)) && #[trigger] self.resolved_from(class, gd)
    }

    /// The bytes of `self` on the wire.
    pub open spec fn encoding(&self) -> Seq<u8> {
        match self {
            Descriptor::Device(cd) => cd.encoding(),
            Descriptor::Interface(cd) => cd.encoding(),
            Descriptor::Endpoint(cd) => cd.encoding(),
            Descriptor::Unknown(gd) => gd.encoding(),
        }
    }

    /// What the descriptor bytes `chunk` came to in a context encodes to the
    /// bytes of the descriptor, where these hold the payload of its shape and
    /// nothing after it.
    pub proof fn lemma_chunk_kept(
        &self,
        class: Option<ClassCodeTriplet>,
        gd: GenericDescriptor,
        chunk: Seq<u8>,
    )
        requires
            GenericDescriptor::decoding(chunk, Ok(gd)),
            self.resolved_from(class, gd),
            self.class_descriptor() matches Some(cd) ==> cd.exact(gd),
        ensures
            self.encoding() == chunk.subrange(0, chunk[0] as int),
    {
        gd.lemma_encode_decoded(chunk);
        match (self.class_descriptor(), class) {
            (Some(cd), Some(triplet)) => {
                cd.lemma_descriptor_kept(triplet, gd);
            },
            _ => {},
        }
    }

    /// The bytes of a descriptor that no decoder took are kept: a descriptor
    /// that stays generic or unknown encodes to the bytes that it was read from.
    pub proof fn lemma_raw_kept(&self, class: Option<ClassCodeTriplet>, chunk: Seq<u8>)
        requires
            self.read_from(class, chunk),
            self is Unknown || (self.class_descriptor() matches Some(cd) && cd is Generic),
        ensures
            self.encoding() == chunk.subrange(0, chunk[0] as int),
    {
        let gd = choose|gd: GenericDescriptor|
            GenericDescriptor::decoding(chunk, Ok(gd)) && #[trigger] self.resolved_from(class, gd);
        gd.lemma_encode_decoded(chunk);
    }

    /// Decodes the generic descriptor `gd` in the context `class`.
    pub fn resolve(class: Option<ClassCodeTriplet>, gd: GenericDescriptor) -> (d: Descriptor)
        ensures
            d.resolved_from(class, gd),
    {
        match DescriptorOwner::from_type(gd.descriptor_type) {
            Some(owner) => {
                let cd = match class {
                    Some(triplet) => ClassDescriptor::resolve(triplet, gd),
                    None => ClassDescriptor::Generic(None, gd),
                };
                match owner {
                    DescriptorOwner::Device => Descriptor::Device(cd),
                    DescriptorOwner::Interface => Descriptor::Interface(cd),
                    DescriptorOwner::Endpoint => Descriptor::Endpoint(cd),
                }
            },
            None => Descriptor::Unknown(gd),
        }
    }

    /// Encodes `self`.
    pub fn encode(&self) -> (bytes: Vec<u8>)
        ensures
            bytes@ == self.encoding(),
    {
        match self {
            Descriptor::Device(cd) => cd.encode(),
            Descriptor::Interface(cd) => cd.encode(),
            Descriptor::Endpoint(cd) => cd.encode(),
            Descriptor::Unknown(gd) => gd.encode(),
        }
    }
}

/// A descriptor starts `b`: its first byte gives a length of two bytes at
/// least and of no more than `b` holds.
pub open spec fn starts_descriptor(b: Seq<u8>) -> bool {
    b.len() > 0 && 2 <= b[0] <= b.len()
}

/// The descriptors that stand in `b` one after the other, each with the length
/// that its first byte gives, up to the first place where none starts.
pub open spec fn chunks(b: Seq<u8>) -> Seq<Seq<u8>>
    decreases b.len(),
{
    if starts_descriptor(b) {
        seq![b.take(b[0] as int)] + chunks(b.skip(b[0] as int))
    } else {
        Seq::empty()
    }
}

/// The number of bytes that the descriptors of `b` take.
pub open spec fn consumed(b: Seq<u8>) -> nat
    decreases b.len(),
{
    if starts_descriptor(b) {
        b[0] as nat + consumed(b.skip(b[0] as int))
    } else {
        0
    }
}

/// Reads the descriptors among the extra bytes `extra` in the context `class`,
/// and says how many bytes at the end of `extra` belong to none.
pub fn read_descriptors(class: Option<ClassCodeTriplet>, extra: &[u8]) -> (r: (
    Vec<Descriptor>,
    usize,
))
    ensures
        r.0@.len() == chunks(extra@).len(),
        forall|i: int|
            0 <= i < r.0@.len() ==> (#[trigger] r.0@[i]).read_from(class, chunks(extra@)[i]),
        r.1 == extra@.len() - consumed(extra@),
        consumed(extra@) <= extra@.len(),
{
    let mut descriptors: Vec<Descriptor> = Vec::new();
    let mut taken: usize = 0;
    let ghost mut done: Seq<Seq<u8>> = Seq::empty();
    assert(extra@.skip(0) =~= extra@);
    loop
        invariant
            taken <= extra@.len(),
            extra@.len() == extra.len(),
            descriptors@.len() == done.len(),
            chunks(extra@) == done + chunks(extra@.skip(taken as int)),
            consumed(extra@) == taken + consumed(extra@.skip(taken as int)),
            forall|i: int|
                0 <= i < descriptors@.len() ==> (#[trigger] descriptors@[i]).read_from(
                    class,
                    done[i],
                ),
        ensures
            taken <= extra@.len(),
            descriptors@.len() == chunks(extra@).len(),
            consumed(extra@) == taken,
            forall|i: int|
                0 <= i < descriptors@.len() ==> (#[trigger] descriptors@[i]).read_from(
                    class,
                    chunks(extra@)[i],
                ),
        decreases extra@.len() - taken,
    {
        let ghost rest = extra@.skip(taken as int);
        if taken >= extra.len() {
            assert(done + Seq::<Seq<u8>>::empty() =~= done);
            break ;
        }
        let length: usize = extra[taken] as usize;
        assert(rest[0] == extra@[taken as int]);
        if length < 2 || length > extra.len() - taken {
            assert(done + Seq::<Seq<u8>>::empty() =~= done);
            break ;
        }
        let chunk = &extra[taken..taken + length];
        assert(chunk@ =~= rest.take(length as int));
        assert(rest.skip(length as int) =~= extra@.skip(taken + length));
        match GenericDescriptor::decode(chunk) {
            Ok(gd) => {
                let descriptor = Descriptor::resolve(class, gd);
                assert(descriptor.read_from(class, chunk@));
                descriptors.push(descriptor);
            },
            Err(_) => {
                proof {
                    assert(false);
                }
            },
        }
        proof {
            assert(done + (seq![chunk@] + chunks(rest.skip(length as int))) =~= done.push(chunk@)
                + chunks(rest.skip(length as int)));
            done = done.push(chunk@);
        }
        taken = taken + length;
    }
    (descriptors, extra.len() - taken)
}

} // verus!
