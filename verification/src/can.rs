//! CAN bus stream messages.

use vstd::prelude::*;

verus! {

/// One message read from a CAN stream session: an arbitration identifier, a
/// hardware timestamp, and up to eight payload bytes.
#[derive(Clone, Copy, Debug, PartialEq, Eq, Hash)]
pub struct CanStreamMessage {
    pub message_id: u32,
    pub timestamp: u32,
    pub data: [u8; 8],
    pub data_size: u8,
}

impl CanStreamMessage {
    /// Whether the reported payload size fits the payload buffer.
    pub open spec fn wf(&self) -> bool {
        self.data_size <= 8
    }

    /// Assemble a stream message; a CAN frame carries at most eight payload
    /// bytes.
    pub fn new(message_id: u32, timestamp: u32, data: [u8; 8], data_size: u8) -> (r:
        CanStreamMessage)
        requires
            data_size <= 8,
        ensures
            r.wf(),
            r.message_id == message_id,
            r.timestamp == timestamp,
            r.data == data,
            r.data_size == data_size,
    {
        CanStreamMessage { message_id, timestamp, data, data_size }
    }
}

} // verus!
