//! The position vector message: the third fixed-size kind of the
//! family, carrying the craft's own status, track, speed, position
//! and accuracy figures.  Encoded form is a fixed 24 bytes: a
//! 1-byte kind tag followed by the fields below at fixed offsets,
//! numeric fields little-endian.  It participates in the packet
//! envelope exactly as the other two kinds do.

use vstd::bytes::{
    lemma_auto_spec_u16_to_from_le_bytes, lemma_auto_spec_u32_to_from_le_bytes,
    spec_u16_from_le_bytes, spec_u16_to_le_bytes, spec_u32_from_le_bytes, spec_u32_to_le_bytes,
    u16_from_le_bytes, u16_to_le_bytes, u32_from_le_bytes, u32_to_le_bytes,
};
use vstd::prelude::*;
use vstd::slice::{slice_index_get, slice_subrange};

use super::message::{spec_kind_tag, Message, MessageError, MessageType};

verus! {

/// The position vector fields.  Latitude and longitude are in
/// 1e-7-degree units; the altitude and height fields in steps of
/// 0.1 m; direction, speed and vertical speed carry their raw wire
/// encoding.
#[derive(Debug, Clone, Copy, PartialEq, Eq, Structural)]
pub struct PositionVectorMessage {
    /// Operational status, the high nibble of the packed byte.
    pub op_status: u8,
    /// Status flags, the low nibble of the packed byte.
    pub flags: u8,
    /// Track direction, raw wire value.
    pub direction: u8,
    /// Horizontal speed, raw wire value.
    pub speed: u8,
    /// Vertical speed, raw wire value.
    pub vertical_speed: u8,
    /// Latitude, 1e-7 degrees, little-endian.
    pub latitude: i32,
    /// Longitude, 1e-7 degrees, little-endian.
    pub longitude: i32,
    /// Pressure altitude, times 0.1 m.
    pub pressure_altitude: u16,
    /// Geodetic altitude, times 0.1 m.
    pub geodetic_altitude: u16,
    /// Height above takeoff or ground, times 0.1 m.
    pub height: u16,
    /// Horizontal position accuracy class, the high nibble of the
    /// accuracy byte.
    pub horizontal_accuracy: u8,
    /// Vertical position accuracy class, the low nibble of the
    /// accuracy byte.
    pub vertical_accuracy: u8,
    /// Speed accuracy class.
    pub speed_accuracy: u8,
    /// Timestamp within the hour, little-endian.
    pub timestamp: u16,
    /// Reserved tail byte, carried through unchanged.
    pub reserved: u8,
}

impl PositionVectorMessage {
    pub const MESSAGE_TYPE: u8 = 0x01;

    pub const EXPECTED_LENGTH: usize = 24;
}

/// The full 24-byte encoded form of a position vector message.
pub open spec fn spec_position_encode(m: PositionVectorMessage) -> Seq<u8> {
    seq![
        spec_kind_tag(MessageType::PositionVectorMessageType),
        (m.op_status << 4) | (m.flags & 0x0f),
        m.direction,
        m.speed,
        m.vertical_speed,
    ] + spec_u32_to_le_bytes(m.latitude as u32) + spec_u32_to_le_bytes(m.longitude as u32)
        + spec_u16_to_le_bytes(m.pressure_altitude) + spec_u16_to_le_bytes(m.geodetic_altitude)
        + spec_u16_to_le_bytes(m.height) + seq![
        (m.horizontal_accuracy << 4) | (m.vertical_accuracy & 0x0f),
        m.speed_accuracy,
    ] + spec_u16_to_le_bytes(m.timestamp) + seq![m.reserved]
}

/// What a decode of the given buffer yields: the message, or the
/// exact length error.  The leading tag byte is skipped without
/// inspection.
pub open spec fn spec_position_decode(b: Seq<u8>) -> Result<PositionVectorMessage, MessageError> {
    if b.len() < PositionVectorMessage::EXPECTED_LENGTH {
        Err(
            MessageError::InsufficientLength(
                PositionVectorMessage::EXPECTED_LENGTH,
                b.len() as usize,
            ),
        )
    } else {
        Ok(
            PositionVectorMessage {
                op_status: b[1] >> 4,
                flags: b[1] & 0x0f,
                direction: b[2],
                speed: b[3],
                vertical_speed: b[4],
                latitude: spec_u32_from_le_bytes(b.subrange(5, 9)) as i32,
                longitude: spec_u32_from_le_bytes(b.subrange(9, 13)) as i32,
                pressure_altitude: spec_u16_from_le_bytes(b.subrange(13, 15)),
                geodetic_altitude: spec_u16_from_le_bytes(b.subrange(15, 17)),
                height: spec_u16_from_le_bytes(b.subrange(17, 19)),
                horizontal_accuracy: b[19] >> 4,
                vertical_accuracy: b[19] & 0x0f,
                speed_accuracy: b[20],
                timestamp: spec_u16_from_le_bytes(b.subrange(21, 23)),
                reserved: b[23],
            },
        )
    }
}

impl Message for PositionVectorMessage {
    /// Decode a buffer of at least 24 bytes; fails exactly on a
    /// short buffer.
    fn from_bytes(data: &[u8]) -> (r: Result<Self, MessageError>)
        ensures
            r == spec_position_decode(data@),
    {
        if data.len() < PositionVectorMessage::EXPECTED_LENGTH {
            return Err(
                MessageError::InsufficientLength(
                    PositionVectorMessage::EXPECTED_LENGTH,
                    data.len(),
                ),
            );
        }
        let packed: u8 = *slice_index_get(data, 1);
        let accuracy: u8 = *slice_index_get(data, 19);
        Ok(
            PositionVectorMessage {
                op_status: packed >> 4,
                flags: packed & 0x0f,
                direction: *slice_index_get(data, 2),
                speed: *slice_index_get(data, 3),
                vertical_speed: *slice_index_get(data, 4),
                latitude: u32_from_le_bytes(slice_subrange(data, 5, 9)) as i32,
                longitude: u32_from_le_bytes(slice_subrange(data, 9, 13)) as i32,
                pressure_altitude: u16_from_le_bytes(slice_subrange(data, 13, 15)),
                geodetic_altitude: u16_from_le_bytes(slice_subrange(data, 15, 17)),
                height: u16_from_le_bytes(slice_subrange(data, 17, 19)),
                horizontal_accuracy: accuracy >> 4,
                vertical_accuracy: accuracy & 0x0f,
                speed_accuracy: *slice_index_get(data, 20),
                timestamp: u16_from_le_bytes(slice_subrange(data, 21, 23)),
                reserved: *slice_index_get(data, 23),
            },
        )
    }

    /// Encode to exactly 24 bytes, whatever the field values.
    fn encode(&self) -> (r: Vec<u8>)
        ensures
            r@ == spec_position_encode(*self),
            r@.len() == PositionVectorMessage::EXPECTED_LENGTH,
    {
        let mut bytes: Vec<u8> = Vec::new();
        let tag: u8 = (MessageType::PositionVectorMessageType.code() << 4) | 0x01;
        bytes.push(tag);
        bytes.push((self.op_status << 4) | (self.flags & 0x0f));
        bytes.push(self.direction);
        bytes.push(self.speed);
        bytes.push(self.vertical_speed);
        let mut lat: Vec<u8> = u32_to_le_bytes(self.latitude as u32);
        bytes.append(&mut lat);
        let mut lon: Vec<u8> = u32_to_le_bytes(self.longitude as u32);
        bytes.append(&mut lon);
        let mut pressure: Vec<u8> = u16_to_le_bytes(self.pressure_altitude);
        bytes.append(&mut pressure);
        let mut geodetic: Vec<u8> = u16_to_le_bytes(self.geodetic_altitude);
        bytes.append(&mut geodetic);
        let mut height: Vec<u8> = u16_to_le_bytes(self.height);
        bytes.append(&mut height);
        bytes.push((self.horizontal_accuracy << 4) | (self.vertical_accuracy & 0x0f));
        bytes.push(self.speed_accuracy);
        let mut stamp: Vec<u8> = u16_to_le_bytes(self.timestamp);
        bytes.append(&mut stamp);
        bytes.push(self.reserved);
        proof {
            assert(bytes@ =~= spec_position_encode(*self));
        }
        bytes
    }
}

/// The encoded form of a position vector message is always exactly
/// 24 bytes.
pub proof fn lemma_position_encode_len(m: PositionVectorMessage)
    ensures
        spec_position_encode(m).len() == PositionVectorMessage::EXPECTED_LENGTH,
{
    lemma_auto_spec_u16_to_from_le_bytes();
    lemma_auto_spec_u32_to_from_le_bytes();
}

/// The round trip law for the position vector message: decoding an
/// encoded message recovers every field, provided each nibble field
/// is in range.
pub proof fn lemma_position_round_trip(m: PositionVectorMessage)
    requires
        m.op_status < 16,
        m.flags < 16,
        m.horizontal_accuracy < 16,
        m.vertical_accuracy < 16,
    ensures
        spec_position_decode(spec_position_encode(m)) == Ok::<PositionVectorMessage, MessageError>(
            m,
        ),
{
    lemma_auto_spec_u16_to_from_le_bytes();
    lemma_auto_spec_u32_to_from_le_bytes();
    let b = spec_position_encode(m);
    assert(b.len() == 24);
    let hi = m.op_status;
    let lo = m.flags;
    assert((((hi << 4) | (lo & 0x0f)) >> 4) == hi && (((hi << 4) | (lo & 0x0f)) & 0x0f) == lo)
        by (bit_vector)
        requires
            hi < 16,
            lo < 16,
    ;
    let ha = m.horizontal_accuracy;
    let va = m.vertical_accuracy;
    assert((((ha << 4) | (va & 0x0f)) >> 4) == ha && (((ha << 4) | (va & 0x0f)) & 0x0f) == va)
        by (bit_vector)
        requires
            ha < 16,
            va < 16,
    ;
    let lat = m.latitude;
    let lon = m.longitude;
    assert(((lat as u32) as i32) == lat && ((lon as u32) as i32) == lon) by (bit_vector);
    assert(b[1] == (hi << 4) | (lo & 0x0f));
    assert(b[19] == (ha << 4) | (va & 0x0f));
    assert(b.subrange(5, 9) =~= spec_u32_to_le_bytes(m.latitude as u32));
    assert(b.subrange(9, 13) =~= spec_u32_to_le_bytes(m.longitude as u32));
    assert(b.subrange(13, 15) =~= spec_u16_to_le_bytes(m.pressure_altitude));
    assert(b.subrange(15, 17) =~= spec_u16_to_le_bytes(m.geodetic_altitude));
    assert(b.subrange(17, 19) =~= spec_u16_to_le_bytes(m.height));
    assert(b.subrange(21, 23) =~= spec_u16_to_le_bytes(m.timestamp));
}

} // verus!
