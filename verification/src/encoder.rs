//! Quadrature encoders.
//!
//! The encoding type determines how many counts one encoder cycle yields;
//! the decoding scale is its inverse and everything the count-based getters
//! need. The native counting happens in hardware; what stands here is the
//! scale arithmetic and the encoder's configuration.

use vstd::prelude::*;

use crate::handle::EncoderHandle;

verus! {

/// When the index channel resets an encoder.
#[derive(Clone, Copy, Debug, PartialEq, Eq, Hash, Structural)]
pub enum IndexingType {
    ResetWhileHigh,
    ResetWhileLow,
    ResetOnFallingEdge,
    ResetOnRisingEdge,
}

impl IndexingType {
    /// The wire value of the indexing type.
    pub fn as_i32(&self) -> (r: i32)
        ensures
            *self is ResetWhileHigh ==> r == 0,
            *self is ResetWhileLow ==> r == 1,
            *self is ResetOnFallingEdge ==> r == 2,
            *self is ResetOnRisingEdge ==> r == 3,
    {
        match *self {
            IndexingType::ResetWhileHigh => 0,
            IndexingType::ResetWhileLow => 1,
            IndexingType::ResetOnFallingEdge => 2,
            IndexingType::ResetOnRisingEdge => 3,
        }
    }
}

/// How many edges of a cycle an encoder counts.
#[derive(Clone, Copy, Debug, PartialEq, Eq, Hash, Structural)]
pub enum EncodingType {
    Encoder1X,
    Encoder2X,
    Encoder4X,
}

impl EncodingType {
    /// The counts one encoder cycle yields under this encoding.
    pub open spec fn spec_scale(&self) -> i32 {
        match *self {
            EncodingType::Encoder1X => 1,
            EncodingType::Encoder2X => 2,
            EncodingType::Encoder4X => 4,
        }
    }

    /// The wire value of the encoding type.
    pub fn as_i32(&self) -> (r: i32)
        ensures
            *self is Encoder1X ==> r == 0,
            *self is Encoder2X ==> r == 1,
            *self is Encoder4X ==> r == 2,
    {
        match *self {
            EncodingType::Encoder1X => 0,
            EncodingType::Encoder2X => 1,
            EncodingType::Encoder4X => 2,
        }
    }
}

/// A quadrature encoder.
#[derive(Clone, Copy, Debug, PartialEq, Eq, Hash, Structural)]
pub struct Encoder {
    handle: EncoderHandle,
    encoding: EncodingType,
    reverse_direction: bool,
}

impl Encoder {
    /// The wire value of the owned handle.
    pub closed spec fn handle_value(&self) -> i32 {
        self.handle.0
    }

    /// The encoding the encoder was initialized with.
    pub closed spec fn encoding_spec(&self) -> EncodingType {
        self.encoding
    }

    /// Whether the count direction is reversed.
    pub closed spec fn reverse_spec(&self) -> bool {
        self.reverse_direction
    }

    /// Wrap the handle a native encoder initialize call returned, with the
    /// encoding and direction it was initialized with.
    pub fn initialize(handle: EncoderHandle, encoding_type: EncodingType, reverse_direction: bool)
        -> (r: Encoder)
        ensures
            r.handle_value() == handle.0,
            r.encoding_spec() == encoding_type,
            r.reverse_spec() == reverse_direction,
    {
        Encoder { handle, encoding: encoding_type, reverse_direction }
    }

    /// How many counts one encoder cycle yields: 1, 2 or 4, by the
    /// encoding.
    pub fn get_encoding_scale(&self) -> (r: i32)
        ensures
            r == self.encoding_spec().spec_scale(),
    {
        match self.encoding {
            EncodingType::Encoder1X => 1,
            EncodingType::Encoder2X => 2,
            EncodingType::Encoder4X => 4,
        }
    }

    /// The encoding the encoder was initialized with.
    pub fn get_encoding_type(&self) -> (r: EncodingType)
        ensures
            r == self.encoding_spec(),
    {
        self.encoding
    }

    /// Scale a raw edge count down to whole encoder cycles.
    pub fn counts_to_cycles(&self, raw: i32) -> (r: i32)
        requires
            raw >= 0,
        ensures
            r == raw as int / self.encoding_spec().spec_scale() as int,
    {
        let scale = self.get_encoding_scale();
        raw / scale
    }

    /// Whether the count direction is reversed.
    pub fn get_direction_reversed(&self) -> (r: bool)
        ensures
            r == self.reverse_spec(),
    {
        self.reverse_direction
    }
}

} // verus!
