//! The error taxonomy and kind tags shared by every message of the
//! Remote-ID family, and the capability contract that each kind
//! implements.

use vstd::prelude::*;

verus! {

/// Why a buffer failed to decode.  The three causes stay
/// distinguishable for the caller; none is collapsed into a
/// generic failure.
#[derive(Debug, Clone, PartialEq, Eq, Structural)]
pub enum MessageError {
    /// The buffer is shorter than the kind's fixed length:
    /// `(expected, actual)` in bytes.
    InsufficientLength(usize, usize),
    /// The identifier field does not hold valid UTF-8.
    InvalidIdentifierEncoding,
    /// The classification region read from the packed byte is 0 or
    /// above 3; the value carried is the one that was read.
    UnknownClassification(u8),
}

/// The closed set of sub-message kinds carried in the packet
/// envelope.
#[derive(Debug, Clone, Copy, PartialEq, Eq, Structural)]
pub enum MessageType {
    BaseMessageType,
    PositionVectorMessageType,
    SystemMessageType,
}

impl MessageType {
    /// The kind number written into the high nibble of an encoded
    /// message's leading tag byte.
    pub open spec fn spec_code(self) -> u8 {
        match self {
            MessageType::BaseMessageType => 0,
            MessageType::PositionVectorMessageType => 1,
            MessageType::SystemMessageType => 4,
        }
    }

    pub fn code(self) -> (r: u8)
        ensures
            r == self.spec_code(),
    {
        match self {
            MessageType::BaseMessageType => 0,
            MessageType::PositionVectorMessageType => 1,
            MessageType::SystemMessageType => 4,
        }
    }
}

/// The tag byte that `encode` prepends for a kind: the kind number
/// in the high nibble, the layout version in the low nibble.
pub open spec fn spec_kind_tag(t: MessageType) -> u8 {
    (t.spec_code() << 4) | 0x01
}

/// Every message kind decodes from a byte buffer and encodes back
/// to bytes; each implementation carries the exact contract for its
/// own fixed layout.
pub trait Message: Sized {
    fn from_bytes(data: &[u8]) -> (r: Result<Self, MessageError>);

    fn encode(&self) -> (r: Vec<u8>);
}

} // verus!
