//! The packet envelope: a 4-byte header, one message of each kind
//! in Base, Position, System order, a CRC16/XMODEM checksum over
//! everything before it, and a 3-byte reserved tail — 81 bytes in
//! all.  The checksum excludes itself and the reserved tail, and a
//! decode reads the stored checksum without re-verifying it.
//!
//! The header's first byte, the protocol version, doubles as the
//! envelope's tag byte (kind nibble 0xf, version nibble 1) and is
//! not re-validated by a decode.

use vstd::bytes::{
    spec_u16_from_le_bytes, spec_u16_to_le_bytes, u16_from_le_bytes, u16_to_le_bytes,
};
use vstd::prelude::*;
use vstd::slice::{slice_index_get, slice_subrange};
use vstd::string::StringExecFns;

use super::base_message::{spec_base_decode, spec_base_encode, BaseMessage};
use super::message::{Message, MessageError};
use super::position_vector_message::{
    spec_position_decode, spec_position_encode, PositionVectorMessage,
};
use super::system_message::{spec_system_decode, spec_system_encode, SystemMessage};

verus! {

/// The envelope around one message of each kind.  The message
/// counter field is what a decode read or `new` set; when a packet
/// is re-broadcast, the pipeline overwrites it from the live
/// process-wide counter before encoding.
#[derive(Debug, Clone, PartialEq)]
pub struct PacketMessage {
    /// Protocol version byte, also the envelope's tag.
    pub protocol_version: u8,
    /// Free-running message counter, wraps at 256.
    pub message_counter: u8,
    /// Size in bytes of each enclosed message.
    pub message_size: u8,
    /// Number of enclosed messages, fixed at 3.
    pub message_quantity: u8,
    pub base_message: BaseMessage,
    pub system_message: SystemMessage,
    pub position_message: PositionVectorMessage,
    /// CRC16/XMODEM over the header and the three messages.
    pub checksum: u16,
    /// Reserved tail bytes.
    pub reserved: [u8; 3],
}

impl PacketMessage {
    /// Encoded size of each enclosed message, tag byte included.
    pub const MESSAGE_SIZE: u8 = 24;

    /// The envelope always carries one message of each kind.
    pub const MESSAGE_QUANTITY: u8 = 3;

    /// Total encoded size: header, three messages, checksum,
    /// reserved tail.
    pub const EXPECTED_LENGTH: usize = 81;

    pub fn new(base: BaseMessage, system: SystemMessage, position: PositionVectorMessage) -> (r:
        Self)
        ensures
            r.protocol_version == 0xf1,
            r.message_counter == 1,
            r.message_size == PacketMessage::MESSAGE_SIZE,
            r.message_quantity == PacketMessage::MESSAGE_QUANTITY,
            r.base_message == base,
            r.system_message == system,
            r.position_message == position,
            r.checksum == 0,
            r.reserved@ =~= seq![0u8, 0u8, 0u8],
    {
        PacketMessage {
            protocol_version: 0xf1,
            message_counter: 1,
            message_size: PacketMessage::MESSAGE_SIZE,
            message_quantity: PacketMessage::MESSAGE_QUANTITY,
            base_message: base,
            system_message: system,
            position_message: position,
            checksum: 0,
            reserved: [0u8;3],
        }
    }

    /// The network name derived from the packet: the fixed prefix
    /// in front of the craft identifier.
    pub fn get_ssid(&self) -> (r: String)
        ensures
            r@ == "RID-"@ + self.base_message.uas_id@,
    {
        let prefix: String = String::from_str("RID-");
        prefix.concat(self.base_message.uas_id.as_str())
    }
}

/// The checksum that crc16's `State::<XMODEM>::calculate` computes
/// for the given bytes; a pure function of them.
pub uninterp spec fn crc16_xmodem_of(bytes: Seq<u8>) -> u16;

/// Relies on crc16's `State::<XMODEM>::calculate`: the checksum
/// depends on the input bytes alone.
#[verifier::external_body]
fn crc16_xmodem(data: &[u8]) -> (r: u16)
    ensures
        r == crc16_xmodem_of(data@),
{
    crc16::State::<crc16::XMODEM>::calculate(data)
}

/// The header and the three enclosed messages: everything the
/// envelope's checksum covers.
pub open spec fn spec_packet_head(m: PacketMessage) -> Seq<u8> {
    seq![m.protocol_version, m.message_counter, m.message_size, m.message_quantity]
        + spec_base_encode(m.base_message) + spec_position_encode(m.position_message)
        + spec_system_encode(m.system_message)
}

/// The full 81-byte encoded form of a packet: the covered head,
/// its checksum little-endian, and the reserved tail.
pub open spec fn spec_packet_encode(m: PacketMessage) -> Seq<u8> {
    spec_packet_head(m) + spec_u16_to_le_bytes(crc16_xmodem_of(spec_packet_head(m))) + m.reserved@
}

/// The error a packet decode stops on, if any: a short buffer
/// first, then the enclosed messages' own failures in Base,
/// System, Position order.
pub open spec fn spec_packet_decode_error(b: Seq<u8>) -> Option<MessageError> {
    if b.len() < PacketMessage::EXPECTED_LENGTH {
        Some(
            MessageError::InsufficientLength(PacketMessage::EXPECTED_LENGTH, b.len() as usize),
        )
    } else if spec_base_decode(b.subrange(4, 28)) is Err {
        Some(spec_base_decode(b.subrange(4, 28))->Err_0)
    } else if spec_system_decode(b.subrange(52, 76)) is Err {
        Some(spec_system_decode(b.subrange(52, 76))->Err_0)
    } else if spec_position_decode(b.subrange(28, 52)) is Err {
        Some(spec_position_decode(b.subrange(28, 52))->Err_0)
    } else {
        None
    }
}

impl Message for PacketMessage {
    /// Decode a buffer of at least 81 bytes: header fields at fixed
    /// offsets, the three messages at theirs, the stored checksum
    /// read back without verification.
    fn from_bytes(data: &[u8]) -> (r: Result<Self, MessageError>)
        ensures
            r is Err <==> spec_packet_decode_error(data@) is Some,
            r matches Err(e) ==> Some(e) == spec_packet_decode_error(data@),
            r matches Ok(m) ==> {
                &&& spec_base_decode(data@.subrange(4, 28)) matches Ok(f)
                    && m.base_message.id_type == f.0 && m.base_message.ua_type == f.1
                    && m.base_message.uas_id@ == f.2 && m.base_message.reserved@ =~= seq![
                    0u8,
                    0u8,
                    0u8,
                ]
                &&& Ok::<SystemMessage, MessageError>(m.system_message) == spec_system_decode(data@.subrange(52, 76))
                &&& Ok::<PositionVectorMessage, MessageError>(m.position_message) == spec_position_decode(data@.subrange(28, 52))
                &&& m.protocol_version == data@[0]
                &&& m.message_counter == data@[1]
                &&& m.message_size == data@[2]
                &&& m.message_quantity == data@[3]
                &&& m.checksum == spec_u16_from_le_bytes(data@.subrange(76, 78))
                &&& m.reserved@ =~= data@.subrange(78, 81)
            },
    {
        if data.len() < PacketMessage::EXPECTED_LENGTH {
            return Err(
                MessageError::InsufficientLength(PacketMessage::EXPECTED_LENGTH, data.len()),
            );
        }
        let base = match BaseMessage::from_bytes(slice_subrange(data, 4, 28)) {
            Ok(b) => b,
            Err(e) => { return Err(e) },
        };
        let system = match SystemMessage::from_bytes(slice_subrange(data, 52, 76)) {
            Ok(s) => s,
            Err(e) => { return Err(e) },
        };
        let position = match PositionVectorMessage::from_bytes(slice_subrange(data, 28, 52)) {
            Ok(p) => p,
            Err(e) => { return Err(e) },
        };
        let checksum: u16 = u16_from_le_bytes(slice_subrange(data, 76, 78));
        let reserved: [u8; 3] = [
            *slice_index_get(data, 78),
            *slice_index_get(data, 79),
            *slice_index_get(data, 80),
        ];
        Ok(
            PacketMessage {
                protocol_version: *slice_index_get(data, 0),
                message_counter: *slice_index_get(data, 1),
                message_size: *slice_index_get(data, 2),
                message_quantity: *slice_index_get(data, 3),
                base_message: base,
                system_message: system,
                position_message: position,
                checksum,
                reserved,
            },
        )
    }

    /// Encode to exactly 81 bytes: the head, then its freshly
    /// computed CRC16/XMODEM checksum little-endian, then the
    /// reserved tail.  The checksum field stored in the struct is
    /// never trusted or written out.
    fn encode(&self) -> (r: Vec<u8>)
        ensures
            r@ == spec_packet_encode(*self),
            r@.len() == PacketMessage::EXPECTED_LENGTH,
    {
        let mut bytes: Vec<u8> = Vec::new();
        bytes.push(self.protocol_version);
        bytes.push(self.message_counter);
        bytes.push(self.message_size);
        bytes.push(self.message_quantity);
        let mut base: Vec<u8> = self.base_message.encode();
        bytes.append(&mut base);
        let mut position: Vec<u8> = self.position_message.encode();
        bytes.append(&mut position);
        let mut system: Vec<u8> = self.system_message.encode();
        bytes.append(&mut system);
        proof {
            assert(bytes@ =~= spec_packet_head(*self));
        }
        let checksum: u16 = crc16_xmodem(bytes.as_slice());
        let mut tail: Vec<u8> = u16_to_le_bytes(checksum);
        bytes.append(&mut tail);
        bytes.push(self.reserved[0]);
        bytes.push(self.reserved[1]);
        bytes.push(self.reserved[2]);
        proof {
            assert(bytes@ =~= spec_packet_encode(*self));
        }
        bytes
    }
}

/// The covered head of an encoded packet is always exactly 76
/// bytes: the 4-byte header and three 24-byte messages.
pub proof fn lemma_packet_head_len(m: PacketMessage)
    ensures
        spec_packet_head(m).len() == 76,
{
    super::base_message::lemma_base_encode_len(m.base_message);
    super::position_vector_message::lemma_position_encode_len(m.position_message);
    super::system_message::lemma_system_encode_len(m.system_message);
}

/// The checksum law for the envelope: in every encoded packet, the
/// two bytes at the checksum offset hold exactly the CRC16/XMODEM
/// of the header and message bytes before them — never of the
/// reserved tail or of themselves.
pub proof fn lemma_packet_checksum_covers_head(m: PacketMessage)
    ensures
        spec_packet_encode(m).subrange(0, 76) == spec_packet_head(m),
        spec_packet_encode(m).subrange(76, 78) == spec_u16_to_le_bytes(
            crc16_xmodem_of(spec_packet_encode(m).subrange(0, 76)),
        ),
{
    vstd::bytes::lemma_auto_spec_u16_to_from_le_bytes();
    lemma_packet_head_len(m);
    let b = spec_packet_encode(m);
    assert(b.subrange(0, 76) =~= spec_packet_head(m));
    assert(b.subrange(76, 78) =~= spec_u16_to_le_bytes(crc16_xmodem_of(spec_packet_head(m))));
}


/// The round trip law for the envelope: an encoded packet decodes
/// without error, and each header field and enclosed message is
/// read back exactly where it was written, provided each enclosed
/// message meets its own round trip conditions.  The checksum field
/// read back is the freshly computed one, and the reserved bits of
/// the system message come back as its classification's upper bit.
pub proof fn lemma_packet_round_trip(m: PacketMessage)
    requires
        m.base_message.id_type < 16,
        m.base_message.ua_type < 16,
        vstd::utf8::encode_utf8(m.base_message.uas_id@).len()
            <= super::base_message::UAS_ID_WIDTH,
        vstd::utf8::encode_utf8(m.base_message.uas_id@).len() > 0 ==> (vstd::utf8::encode_utf8(
            m.base_message.uas_id@,
        ).last() != 0 && !super::base_message::is_ascii_space_byte(
            vstd::utf8::encode_utf8(m.base_message.uas_id@).last(),
        )),
        m.system_message.coordinate_system < 8,
        1 <= m.system_message.classification_region <= 3,
        m.system_message.station_type < 4,
        m.system_message.ua_category < 16,
        m.system_message.ua_level < 16,
        m.position_message.op_status < 16,
        m.position_message.flags < 16,
        m.position_message.horizontal_accuracy < 16,
        m.position_message.vertical_accuracy < 16,
    ensures
        ({
            let b = spec_packet_encode(m);
            &&& spec_packet_decode_error(b) is None
            &&& b[0] == m.protocol_version
            &&& b[1] == m.message_counter
            &&& b[2] == m.message_size
            &&& b[3] == m.message_quantity
            &&& spec_base_decode(b.subrange(4, 28)) == Ok::<(u8, u8, Seq<char>), MessageError>(
                (m.base_message.id_type, m.base_message.ua_type, m.base_message.uas_id@),
            )
            &&& spec_position_decode(b.subrange(28, 52)) == Ok::<
                PositionVectorMessage,
                MessageError,
            >(m.position_message)
            &&& spec_system_decode(b.subrange(52, 76)) == Ok::<SystemMessage, MessageError>(
                SystemMessage {
                    reserved_bits: m.system_message.classification_region >> 1,
                    reserved: 0,
                    ..m.system_message
                },
            )
            &&& spec_u16_from_le_bytes(b.subrange(76, 78)) == crc16_xmodem_of(b.subrange(0, 76))
        }),
{
    vstd::bytes::lemma_auto_spec_u16_to_from_le_bytes();
    lemma_packet_head_len(m);
    super::base_message::lemma_base_encode_len(m.base_message);
    super::position_vector_message::lemma_position_encode_len(m.position_message);
    super::system_message::lemma_system_encode_len(m.system_message);
    let b = spec_packet_encode(m);
    assert(b.subrange(0, 76) =~= spec_packet_head(m));
    assert(b.subrange(4, 28) =~= spec_base_encode(m.base_message));
    assert(b.subrange(28, 52) =~= spec_position_encode(m.position_message));
    assert(b.subrange(52, 76) =~= spec_system_encode(m.system_message));
    assert(b.subrange(76, 78) =~= spec_u16_to_le_bytes(crc16_xmodem_of(spec_packet_head(m))));
    super::base_message::lemma_base_round_trip(m.base_message);
    super::position_vector_message::lemma_position_round_trip(m.position_message);
    super::system_message::lemma_system_round_trip(m.system_message);
}

} // verus!
