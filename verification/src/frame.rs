//! CAN frames as plain values: an identifier and up to eight payload bytes.

use embedded_can::ExtendedId;
use embedded_can::StandardId;
use vstd::prelude::*;
use vstd::slice::slice_to_vec;

verus! {

/// Largest standard (11-bit) identifier.
pub const STANDARD_ID_MAX: u16 = 0x7FF;

/// Largest extended (29-bit) identifier.
pub const EXTENDED_ID_MAX: u32 = 0x1FFF_FFFF;

/// Largest number of payload bytes in one frame.
pub const MAX_PAYLOAD: usize = 8;

/// Identifier of a frame, by its raw number.
///
/// The variants can hold any number; [`FrameId::valid`] says which numbers
/// are identifiers on the bus, and a [`Frame`] only ever holds a valid one.
#[derive(Clone, Copy, Debug, PartialEq, Eq, Structural)]
pub enum FrameId {
    /// Standard identifier, 11 bits wide.
    Standard(u16),
    /// Extended identifier, 29 bits wide.
    Extended(u32),
}

/// Calls `embedded_can::StandardId::new` and reads an accepted identifier
/// back with `StandardId::as_raw`.
///
/// Trusted: the contract repeats the rule of that crate, which accepts
/// exactly the numbers up to `0x7FF` and keeps the number it was given.
#[verifier::external_body]
fn checked_standard(raw: u16) -> (accepted: Option<u16>)
    ensures
        accepted == (if raw <= STANDARD_ID_MAX {
            Some(raw)
        } else {
            None
        }),
{
    match StandardId::new(raw) {
        Some(id) => Some(id.as_raw()),
        None => None,
    }
}

/// Calls `embedded_can::ExtendedId::new` and reads an accepted identifier
/// back with `ExtendedId::as_raw`.
///
/// Trusted: the contract repeats the rule of that crate, which accepts
/// exactly the numbers up to `0x1FFF_FFFF` and keeps the number it was given.
#[verifier::external_body]
fn checked_extended(raw: u32) -> (accepted: Option<u32>)
    ensures
        accepted == (if raw <= EXTENDED_ID_MAX {
            Some(raw)
        } else {
            None
        }),
{
    match ExtendedId::new(raw) {
        Some(id) => Some(id.as_raw()),
        None => None,
    }
}

impl FrameId {
    /// The raw number fits the width of its kind.
    pub open spec fn valid(self) -> bool {
        match self {
            FrameId::Standard(raw) => raw <= STANDARD_ID_MAX,
            FrameId::Extended(raw) => raw <= EXTENDED_ID_MAX,
        }
    }

    /// The raw number, whatever the kind.
    pub open spec fn number(self) -> nat {
        match self {
            FrameId::Standard(raw) => raw as nat,
            FrameId::Extended(raw) => raw as nat,
        }
    }

    /// A standard identifier, if `raw` fits in 11 bits.
    pub fn standard(raw: u16) -> (id: Option<FrameId>)
        ensures
            raw <= STANDARD_ID_MAX ==> id == Some(FrameId::Standard(raw)),
            raw > STANDARD_ID_MAX ==> id.is_none(),
    {
        match checked_standard(raw) {
            Some(accepted) => Some(FrameId::Standard(accepted)),
            None => None,
        }
    }

    /// An extended identifier, if `raw` fits in 29 bits.
    pub fn extended(raw: u32) -> (id: Option<FrameId>)
        ensures
            raw <= EXTENDED_ID_MAX ==> id == Some(FrameId::Extended(raw)),
            raw > EXTENDED_ID_MAX ==> id.is_none(),
    {
        match checked_extended(raw) {
            Some(accepted) => Some(FrameId::Extended(accepted)),
            None => None,
        }
    }

    /// Whether the identifier is valid on the bus.
    pub fn is_valid(self) -> (ok: bool)
        ensures
            ok == self.valid(),
    {
        match self {
            FrameId::Standard(raw) => checked_standard(raw).is_some(),
            FrameId::Extended(raw) => checked_extended(raw).is_some(),
        }
    }

    /// The raw number of the identifier.
    pub fn raw(self) -> (raw: u32)
        ensures
            raw == self.number(),
    {
        match self {
            FrameId::Standard(raw) => raw as u32,
            FrameId::Extended(raw) => raw,
        }
    }
}

/// What a [`Frame`] holds, as mathematical values.
pub struct FrameView {
    pub id: FrameId,
    pub data: Seq<u8>,
}

impl FrameView {
    /// A valid identifier and at most eight payload bytes.
    pub open spec fn valid(self) -> bool {
        self.id.valid() && self.data.len() <= MAX_PAYLOAD
    }
}

/// One message on the bus. Immutable once constructed, and always valid.
#[derive(Debug, PartialEq, Eq)]
pub struct Frame {
    id: FrameId,
    data: Vec<u8>,
}

impl View for Frame {
    type V = FrameView;

    closed spec fn view(&self) -> FrameView {
        FrameView { id: self.id, data: self.data@ }
    }
}

impl Clone for Frame {
    fn clone(&self) -> (copy: Frame)
        ensures
            copy@ == self@,
    {
        proof {
            use_type_invariant(self);
        }
        let data = self.data.clone();
        assert(data@ =~= self.data@);
        Frame { id: self.id, data }
    }
}

impl Frame {
    #[verifier::type_invariant]
    spec fn well_formed(self) -> bool {
        self.id.valid() && self.data@.len() <= MAX_PAYLOAD
    }

    /// A frame with the given identifier and payload, unless the identifier
    /// is out of range or the payload is longer than eight bytes.
    pub fn new(id: FrameId, data: &[u8]) -> (frame: Option<Frame>)
        ensures
            (id.valid() && data@.len() <= MAX_PAYLOAD) ==> frame.is_some() && frame.unwrap()@
                == (FrameView { id, data: data@ }),
            !(id.valid() && data@.len() <= MAX_PAYLOAD) ==> frame.is_none(),
    {
        if id.is_valid() && data.len() <= MAX_PAYLOAD {
            Some(Frame { id, data: slice_to_vec(data) })
        } else {
            None
        }
    }

    /// The identifier of the frame.
    pub fn id(&self) -> (id: FrameId)
        ensures
            id == self@.id,
            self@.valid(),
    {
        proof {
            use_type_invariant(self);
        }
        self.id
    }

    /// The payload of the frame.
    pub fn data(&self) -> (data: &[u8])
        ensures
            data@ == self@.data,
            self@.valid(),
    {
        proof {
            use_type_invariant(self);
        }
        self.data.as_slice()
    }
}

} // verus!
