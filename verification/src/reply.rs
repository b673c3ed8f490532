//! The reply rule: which frame answers a received one.

use crate::error::IdentifierRangeError;
use crate::frame::Frame;
use crate::frame::FrameId;
use crate::frame::FrameView;
use crate::frame::STANDARD_ID_MAX;
use vstd::prelude::*;

verus! {

/// Counts the replies sent so far, wrapping at 16 bits. Its value is the
/// identifier of the next reply.
#[derive(Clone, Copy, Debug, PartialEq, Eq, Structural)]
pub struct ReplyCounter {
    /// The current count.
    pub value: u16,
}

impl ReplyCounter {
    /// The counter one step on: its value plus one, modulo 2^16.
    pub open spec fn next(self) -> ReplyCounter {
        ReplyCounter { value: ((self.value + 1) % 0x1_0000) as u16 }
    }

    /// The counter as a standard identifier, or the error that it is out of
    /// their range.
    pub open spec fn identifier_spec(self) -> Result<FrameId, IdentifierRangeError> {
        if self.value <= STANDARD_ID_MAX {
            Ok(FrameId::Standard(self.value))
        } else {
            Err(IdentifierRangeError { value: self.value })
        }
    }

    /// A counter that starts at `value`.
    pub fn new(value: u16) -> (counter: ReplyCounter)
        ensures
            counter.value == value,
    {
        ReplyCounter { value }
    }

    /// Advances the counter by one, wrapping at 16 bits.
    pub fn advance(&mut self)
        ensures
            *final(self) == old(self).next(),
    {
        self.value = self.value.wrapping_add(1);
    }

    /// The standard identifier whose number is the current count. Fails if
    /// and only if the count is above `0x7FF`.
    pub fn identifier(self) -> (id: Result<FrameId, IdentifierRangeError>)
        ensures
            id == self.identifier_spec(),
    {
        match FrameId::standard(self.value) {
            Some(id) => Ok(id),
            None => Err(IdentifierRangeError { value: self.value }),
        }
    }
}

/// The payload that answers `received`: one byte, the first received byte
/// plus one modulo 256, or the byte 1 where nothing was received.
pub open spec fn reply_data(received: Seq<u8>) -> Seq<u8> {
    if received.len() == 0 {
        seq![1u8]
    } else {
        seq![((received[0] + 1) % 256) as u8]
    }
}

/// The frame that answers `received` while the counter stands at `counter`:
/// the counter as standard identifier, and the reply payload.
pub open spec fn reply_to(counter: ReplyCounter, received: FrameView) -> Result<
    FrameView,
    IdentifierRangeError,
> {
    match counter.identifier_spec() {
        Ok(id) => Ok(FrameView { id, data: reply_data(received.data) }),
        Err(error) => Err(error),
    }
}

/// Computes the payload that answers the payload `received`.
pub fn reply_payload(received: &[u8]) -> (payload: Vec<u8>)
    ensures
        payload@ == reply_data(received@),
        payload@.len() == 1,
        received@.len() == 0 ==> payload@[0] == 1,
        received@.len() > 0 ==> payload@[0] == (received@[0] + 1) % 256,
{
    let first: u8 = match received.first() {
        Some(byte) => byte.wrapping_add(1),
        None => 1,
    };
    let mut payload: Vec<u8> = Vec::new();
    payload.push(first);
    assert(payload@ =~= reply_data(received@));
    payload
}

/// Builds the frame that answers `received` while the counter stands at
/// `counter`. Fails if and only if the counter is no standard identifier.
pub fn reply_frame(counter: ReplyCounter, received: &Frame) -> (reply: Result<
    Frame,
    IdentifierRangeError,
>)
    ensures
        match reply_to(counter, received@) {
            Ok(expected) => reply.is_ok() && reply.unwrap()@ == expected,
            Err(error) => reply == Err::<Frame, IdentifierRangeError>(error),
        },
{
    match counter.identifier() {
        Ok(id) => {
            let payload = reply_payload(received.data());
            let frame = Frame::new(id, payload.as_slice());
            Ok(frame.unwrap())
        },
        Err(error) => Err(error),
    }
}

} // verus!
