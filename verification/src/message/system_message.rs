//! The system message: the periodic kind that describes the control
//! station's position and altitude together with group and
//! classification data.  Encoded form is a fixed 24 bytes: a 1-byte
//! kind tag, one packed byte, then the numeric fields little-endian.
//!
//! The packed byte overlaps on the wire: the classification region
//! sits in bits 4-2 while the reserved bits are read back from bits
//! 4-3, so a decode returns the classification's upper bit there.
//! The bit positions follow the decoder's shift amounts, which are
//! the authoritative layout.

use vstd::bytes::{
    lemma_auto_spec_u16_to_from_le_bytes, lemma_auto_spec_u32_to_from_le_bytes,
    spec_u16_from_le_bytes, spec_u16_to_le_bytes, spec_u32_from_le_bytes, spec_u32_to_le_bytes,
    u16_from_le_bytes, u16_to_le_bytes, u32_from_le_bytes, u32_to_le_bytes,
};
use vstd::prelude::*;
use vstd::slice::{slice_index_get, slice_subrange};

use super::message::{spec_kind_tag, Message, MessageError, MessageType};

verus! {

/// The system message fields.  Scaled units: `operation_radius` is
/// in steps of 10 m, the altitudes in steps of 0.1 m; latitude and
/// longitude are in 1e-7-degree units.
#[derive(Debug, Clone, Copy, PartialEq, Eq, Structural)]
pub struct SystemMessage {
    /// Coordinate system type, bits 7-5 of the packed byte.
    pub coordinate_system: u8,
    /// Reserved bits, read back from bits 4-3 of the packed byte.
    pub reserved_bits: u8,
    /// Classification region, bits 4-2; only 1 through 3 decode.
    pub classification_region: u8,
    /// Control station type, bits 1-0.
    pub station_type: u8,
    /// Control station latitude, 1e-7 degrees, little-endian.
    pub latitude: i32,
    /// Control station longitude, 1e-7 degrees, little-endian.
    pub longitude: i32,
    /// Operation area count.
    pub operation_count: u16,
    /// Operation area radius, times 10 m.
    pub operation_radius: u8,
    /// Operation area altitude ceiling, times 0.1 m.
    pub altitude_upper: u16,
    /// Operation area altitude floor, times 0.1 m.
    pub altitude_lower: u16,
    /// Craft category, the high nibble of the category byte.
    pub ua_category: u8,
    /// Craft level, the low nibble of the category byte.
    pub ua_level: u8,
    /// Control station altitude, times 0.1 m.
    pub station_altitude: u16,
    /// Unix timestamp in seconds.  The pipeline refreshes this from
    /// the live clock before encoding, so the wire always carries
    /// the moment of transmission rather than a stored value.
    pub timestamp: u32,
    /// Reserved byte; not carried on the wire, zero after a decode.
    pub reserved: u8,
}

impl SystemMessage {
    pub const MESSAGE_TYPE: u8 = 0x04;

    pub const EXPECTED_LENGTH: usize = 24;
}

/// The packed first payload byte: coordinate system in bits 7-5,
/// classification region in bits 4-2, station type in bits 1-0.
/// The reserved bits are not written; they overlap the
/// classification on the read side.
pub open spec fn spec_system_packed_byte(m: SystemMessage) -> u8 {
    ((m.coordinate_system & 0x07) << 5) | ((m.classification_region & 0x07) << 2) | (m.station_type
        & 0x03)
}

/// The full 24-byte encoded form of a system message.
pub open spec fn spec_system_encode(m: SystemMessage) -> Seq<u8> {
    seq![
        spec_kind_tag(MessageType::SystemMessageType),
        spec_system_packed_byte(m),
    ] + spec_u32_to_le_bytes(m.latitude as u32) + spec_u32_to_le_bytes(m.longitude as u32)
        + spec_u16_to_le_bytes(m.operation_count) + seq![m.operation_radius]
        + spec_u16_to_le_bytes(m.altitude_upper) + spec_u16_to_le_bytes(m.altitude_lower) + seq![
        (m.ua_category << 4) | (m.ua_level & 0x0f),
    ] + spec_u16_to_le_bytes(m.station_altitude) + spec_u32_to_le_bytes(m.timestamp)
}

/// What a decode of the given buffer yields: the message, or the
/// exact error.  A classification region of 0 or above 3 fails; the
/// leading tag byte is skipped without inspection.
pub open spec fn spec_system_decode(b: Seq<u8>) -> Result<SystemMessage, MessageError> {
    if b.len() < SystemMessage::EXPECTED_LENGTH {
        Err(MessageError::InsufficientLength(SystemMessage::EXPECTED_LENGTH, b.len() as usize))
    } else {
        let p = b[1];
        let classification_region = (p >> 2) & 0x07;
        if classification_region == 0 || classification_region > 3 {
            Err(MessageError::UnknownClassification(classification_region))
        } else {
            Ok(
                SystemMessage {
                    coordinate_system: (p >> 5) & 0x07,
                    reserved_bits: (p >> 3) & 0x03,
                    classification_region,
                    station_type: p & 0x03,
                    latitude: spec_u32_from_le_bytes(b.subrange(2, 6)) as i32,
                    longitude: spec_u32_from_le_bytes(b.subrange(6, 10)) as i32,
                    operation_count: spec_u16_from_le_bytes(b.subrange(10, 12)),
                    operation_radius: b[12],
                    altitude_upper: spec_u16_from_le_bytes(b.subrange(13, 15)),
                    altitude_lower: spec_u16_from_le_bytes(b.subrange(15, 17)),
                    ua_category: b[17] >> 4,
                    ua_level: b[17] & 0x0f,
                    station_altitude: spec_u16_from_le_bytes(b.subrange(18, 20)),
                    timestamp: spec_u32_from_le_bytes(b.subrange(20, 24)),
                    reserved: 0,
                },
            )
        }
    }
}

impl Message for SystemMessage {
    /// Decode a buffer of at least 24 bytes; fails exactly on a
    /// short buffer or an out-of-range classification region.
    fn from_bytes(data: &[u8]) -> (r: Result<Self, MessageError>)
        ensures
            r == spec_system_decode(data@),
    {
        if data.len() < SystemMessage::EXPECTED_LENGTH {
            return Err(
                MessageError::InsufficientLength(SystemMessage::EXPECTED_LENGTH, data.len()),
            );
        }
        let p: u8 = *slice_index_get(data, 1);
        let classification_region: u8 = (p >> 2) & 0x07;
        if classification_region == 0 || classification_region > 3 {
            return Err(MessageError::UnknownClassification(classification_region));
        }
        let category_byte: u8 = *slice_index_get(data, 17);
        Ok(
            SystemMessage {
                coordinate_system: (p >> 5) & 0x07,
                reserved_bits: (p >> 3) & 0x03,
                classification_region,
                station_type: p & 0x03,
                latitude: u32_from_le_bytes(slice_subrange(data, 2, 6)) as i32,
                longitude: u32_from_le_bytes(slice_subrange(data, 6, 10)) as i32,
                operation_count: u16_from_le_bytes(slice_subrange(data, 10, 12)),
                operation_radius: *slice_index_get(data, 12),
                altitude_upper: u16_from_le_bytes(slice_subrange(data, 13, 15)),
                altitude_lower: u16_from_le_bytes(slice_subrange(data, 15, 17)),
                ua_category: category_byte >> 4,
                ua_level: category_byte & 0x0f,
                station_altitude: u16_from_le_bytes(slice_subrange(data, 18, 20)),
                timestamp: u32_from_le_bytes(slice_subrange(data, 20, 24)),
                reserved: 0,
            },
        )
    }

    /// Encode to exactly 24 bytes, whatever the field values.  The
    /// stored timestamp is written as-is; the live refresh happens
    /// in the pipeline that owns the clock.
    fn encode(&self) -> (r: Vec<u8>)
        ensures
            r@ == spec_system_encode(*self),
            r@.len() == SystemMessage::EXPECTED_LENGTH,
    {
        let mut bytes: Vec<u8> = Vec::new();
        let tag: u8 = (MessageType::SystemMessageType.code() << 4) | 0x01;
        bytes.push(tag);
        let packed: u8 = ((self.coordinate_system & 0x07) << 5) | ((self.classification_region
            & 0x07) << 2) | (self.station_type & 0x03);
        bytes.push(packed);
        let mut lat: Vec<u8> = u32_to_le_bytes(self.latitude as u32);
        bytes.append(&mut lat);
        let mut lon: Vec<u8> = u32_to_le_bytes(self.longitude as u32);
        bytes.append(&mut lon);
        let mut count: Vec<u8> = u16_to_le_bytes(self.operation_count);
        bytes.append(&mut count);
        bytes.push(self.operation_radius);
        let mut upper: Vec<u8> = u16_to_le_bytes(self.altitude_upper);
        bytes.append(&mut upper);
        let mut lower: Vec<u8> = u16_to_le_bytes(self.altitude_lower);
        bytes.append(&mut lower);
        bytes.push((self.ua_category << 4) | (self.ua_level & 0x0f));
        let mut station: Vec<u8> = u16_to_le_bytes(self.station_altitude);
        bytes.append(&mut station);
        let mut stamp: Vec<u8> = u32_to_le_bytes(self.timestamp);
        bytes.append(&mut stamp);
        proof {
            assert(bytes@ =~= spec_system_encode(*self));
        }
        bytes
    }
}

/// The encoded form of a system message is always exactly 24
/// bytes.
pub proof fn lemma_system_encode_len(m: SystemMessage)
    ensures
        spec_system_encode(m).len() == SystemMessage::EXPECTED_LENGTH,
{
    lemma_auto_spec_u16_to_from_le_bytes();
    lemma_auto_spec_u32_to_from_le_bytes();
}

/// The round trip law for the system message: decoding an encoded
/// message recovers every field, provided each packed field is in
/// range, except that the reserved byte comes back zero and the
/// reserved bits come back as the classification's upper bit (they
/// overlap it on the wire).
pub proof fn lemma_system_round_trip(m: SystemMessage)
    requires
        m.coordinate_system < 8,
        1 <= m.classification_region <= 3,
        m.station_type < 4,
        m.ua_category < 16,
        m.ua_level < 16,
    ensures
        spec_system_decode(spec_system_encode(m)) == Ok::<SystemMessage, MessageError>(
            SystemMessage { reserved_bits: m.classification_region >> 1, reserved: 0, ..m },
        ),
{
    lemma_auto_spec_u16_to_from_le_bytes();
    lemma_auto_spec_u32_to_from_le_bytes();
    let b = spec_system_encode(m);
    let p = spec_system_packed_byte(m);
    assert(b.len() == 24);
    assert(b[1] == p);
    let cs = m.coordinate_system;
    let cr = m.classification_region;
    let st = m.station_type;
    assert((((((cs & 0x07) << 5) | ((cr & 0x07) << 2) | (st & 0x03)) >> 5) & 0x07) == cs
        && (((((cs & 0x07) << 5) | ((cr & 0x07) << 2) | (st & 0x03)) >> 2) & 0x07) == cr && ((((cs
        & 0x07) << 5) | ((cr & 0x07) << 2) | (st & 0x03)) & 0x03) == st && (((((cs & 0x07) << 5) | (
    (cr & 0x07) << 2) | (st & 0x03)) >> 3) & 0x03) == cr >> 1) by (bit_vector)
        requires
            cs < 8,
            1 <= cr <= 3,
            st < 4,
    ;
    let cat = m.ua_category;
    let lvl = m.ua_level;
    assert((((cat << 4) | (lvl & 0x0f)) >> 4) == cat && (((cat << 4) | (lvl & 0x0f)) & 0x0f) == lvl)
        by (bit_vector)
        requires
            cat < 16,
            lvl < 16,
    ;
    let lat = m.latitude;
    let lon = m.longitude;
    assert(((lat as u32) as i32) == lat && ((lon as u32) as i32) == lon) by (bit_vector);
    assert(b.subrange(2, 6) =~= spec_u32_to_le_bytes(m.latitude as u32));
    assert(b.subrange(6, 10) =~= spec_u32_to_le_bytes(m.longitude as u32));
    assert(b.subrange(10, 12) =~= spec_u16_to_le_bytes(m.operation_count));
    assert(b[12] == m.operation_radius);
    assert(b.subrange(13, 15) =~= spec_u16_to_le_bytes(m.altitude_upper));
    assert(b.subrange(15, 17) =~= spec_u16_to_le_bytes(m.altitude_lower));
    assert(b[17] == (cat << 4) | (lvl & 0x0f));
    assert(b.subrange(18, 20) =~= spec_u16_to_le_bytes(m.station_altitude));
    assert(b.subrange(20, 24) =~= spec_u32_to_le_bytes(m.timestamp));
}

} // verus!
