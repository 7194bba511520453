//! The errors of the library.
use vstd::prelude::*;

verus! {

/// What can go wrong while descriptors are decoded or the device tree is built.
#[derive(Debug, Clone, PartialEq, Eq)]
pub enum Error {
    /// The bytes end before the descriptor that they start is complete.
    DescriptorTooShort {
        /// The shape that was being decoded.
        descriptor_name: &'static str,
        /// The number of bytes the descriptor takes.
        expected: usize,
        /// The number of bytes that were given.
        actual: usize,
    },
    /// A descriptor says of itself that it is shorter than its own header.
    InvalidLength(u8),
    /// The sub class of an audio interface names no family of descriptors.
    InvalidSubClass(u8),
    /// A MIDI sub type was asked for an audio descriptor.
    MidiNotAudio,
    /// A generic descriptor without payload was handed to a decoder.
    MissingData,
    /// A text is not that of a port path.
    InvalidPath,
    /// A device names a parent that is not in the tree.
    MissingParent,
    /// An answer of a device does not hold what was asked for.
    Parsing(&'static str),
    /// The device does not answer, or there is no way to ask it.
    Unsupported,
}

impl Error {
    /// The error of a descriptor `name` that takes `expected` bytes where `actual` were given.
    pub fn new_descriptor_len(name: &'static str, expected: usize, actual: usize) -> (e: Error)
        ensures
            e == (Error::DescriptorTooShort { descriptor_name: name, expected, actual }),
    {
        Error::DescriptorTooShort { descriptor_name: name, expected, actual }
    }
}

} // verus!
