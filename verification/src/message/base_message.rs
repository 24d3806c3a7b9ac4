//! The base message: the kind that carries the craft's free-text
//! identifier.  Encoded form is a fixed 24 bytes: a 1-byte kind tag,
//! one packed type byte, a 20-byte identifier field (zero-padded,
//! truncated when over-long), and two trailing zero bytes.
//!
//! The tag byte is written by `encode` but not re-validated by
//! `from_bytes`, which reads the fields at fixed offsets past it;
//! that asymmetry is deliberate and kept.

use vstd::prelude::*;
use vstd::slice::{slice_index_get, slice_subrange, slice_to_vec};
use vstd::string::StrSliceExecFns;
use vstd::utf8::*;

use super::message::{spec_kind_tag, Message, MessageError, MessageType};

verus! {

/// The base message as decoded: the packed type nibbles, the
/// identifier, and the reserved tail (always zero after a decode).
#[derive(Debug, Clone, PartialEq)]
pub struct BaseMessage {
    /// High nibble of the packed type byte.
    pub id_type: u8,
    /// Low nibble of the packed type byte.
    pub ua_type: u8,
    /// The craft identifier; at most 20 bytes survive an encode.
    pub uas_id: String,
    /// Reserved tail bytes; carried but never meaningful.
    pub reserved: [u8; 3],
}

impl BaseMessage {
    pub const MESSAGE_TYPE: u8 = 0x00;

    pub const EXPECTED_LENGTH: usize = 24;
}

/// Width in bytes of the identifier field inside the encoded form.
pub const UAS_ID_WIDTH: usize = 20;

/// True for the ASCII whitespace bytes that a decode strips from
/// the identifier's tail, mirroring the zero-padding strip.
pub open spec fn is_ascii_space_byte(b: u8) -> bool {
    b == 0x20 || (0x09 <= b <= 0x0d)
}

/// The sequence with every trailing zero byte removed.
pub open spec fn strip_trailing_zeros(s: Seq<u8>) -> Seq<u8>
    decreases s.len(),
{
    if s.len() > 0 && s.last() == 0 {
        strip_trailing_zeros(s.drop_last())
    } else {
        s
    }
}

/// The sequence with every trailing ASCII whitespace byte removed.
pub open spec fn strip_trailing_spaces(s: Seq<u8>) -> Seq<u8>
    decreases s.len(),
{
    if s.len() > 0 && is_ascii_space_byte(s.last()) {
        strip_trailing_spaces(s.drop_last())
    } else {
        s
    }
}

/// What a decode keeps of the 20-byte identifier field: first the
/// zero padding goes, then any whitespace tail.
pub open spec fn spec_trim_identifier(s: Seq<u8>) -> Seq<u8> {
    strip_trailing_spaces(strip_trailing_zeros(s))
}

/// The identifier bytes fitted to their fixed field width:
/// truncated at 20 bytes, zero-padded below it.
pub open spec fn spec_fit_identifier(b: Seq<u8>) -> Seq<u8> {
    let t = if b.len() <= UAS_ID_WIDTH {
        b
    } else {
        b.subrange(0, UAS_ID_WIDTH as int)
    };
    t + Seq::new((UAS_ID_WIDTH - t.len()) as nat, |i: int| 0u8)
}

/// The full 24-byte encoded form of a base message.
pub open spec fn spec_base_encode(m: BaseMessage) -> Seq<u8> {
    seq![
        spec_kind_tag(MessageType::BaseMessageType),
        (m.id_type << 4) | (m.ua_type & 0x0f),
    ] + spec_fit_identifier(encode_utf8(m.uas_id@)) + seq![0u8, 0u8]
}

/// What a decode of the given buffer yields: either the packed
/// nibbles and the identifier's characters, or the exact error.
pub open spec fn spec_base_decode(b: Seq<u8>) -> Result<(u8, u8, Seq<char>), MessageError> {
    if b.len() < BaseMessage::EXPECTED_LENGTH {
        Err(MessageError::InsufficientLength(BaseMessage::EXPECTED_LENGTH, b.len() as usize))
    } else {
        let ident = spec_trim_identifier(b.subrange(2, 2 + UAS_ID_WIDTH as int));
        if valid_utf8(ident) {
            Ok((((b[1] >> 4) & 0x0f) as u8, (b[1] & 0x0f) as u8, decode_utf8(ident)))
        } else {
            Err(MessageError::InvalidIdentifierEncoding)
        }
    }
}

/// Whether a byte is one that the identifier trim strips after the
/// zero padding has gone.
fn is_space_u8(b: u8) -> (r: bool)
    ensures
        r == is_ascii_space_byte(b),
{
    b == 0x20 || (0x09 <= b && b <= 0x0d)
}

/// Relies on std's `String::from_utf8`: it succeeds exactly on
/// valid UTF-8 input, and then returns the string those bytes
/// spell.
#[verifier::external_body]
fn string_from_utf8(bytes: Vec<u8>) -> (r: Option<String>)
    ensures
        r is Some <==> valid_utf8(bytes@),
        r matches Some(s) ==> s@ == decode_utf8(bytes@),
{
    String::from_utf8(bytes).ok()
}

impl Message for BaseMessage {
    /// Decode a buffer of at least 24 bytes.  The leading tag byte
    /// is skipped without inspection; the identifier field is
    /// stripped of its zero padding and whitespace tail and must
    /// hold valid UTF-8.
    fn from_bytes(data: &[u8]) -> (r: Result<Self, MessageError>)
        ensures
            match r {
                Ok(m) => spec_base_decode(data@) matches Ok(f) && m.id_type == f.0 && m.ua_type
                    == f.1 && m.uas_id@ == f.2 && m.reserved@ =~= seq![0u8, 0u8, 0u8],
                Err(e) => spec_base_decode(data@) == Err::<(u8, u8, Seq<char>), MessageError>(e),
            },
    {
        if data.len() < BaseMessage::EXPECTED_LENGTH {
            return Err(MessageError::InsufficientLength(BaseMessage::EXPECTED_LENGTH, data.len()));
        }
        let packed: u8 = *slice_index_get(data, 1);
        let id_type: u8 = (packed >> 4) & 0x0f;
        let ua_type: u8 = packed & 0x0f;

        let window: &[u8] = slice_subrange(data, 2, 2 + UAS_ID_WIDTH);
        let mut ident: Vec<u8> = slice_to_vec(window);

        while ident.len() > 0 && ident[ident.len() - 1] == 0
            invariant
                strip_trailing_zeros(ident@) == strip_trailing_zeros(window@),
            decreases ident@.len(),
        {
            ident.pop();
        }
        while ident.len() > 0 && is_space_u8(ident[ident.len() - 1])
            invariant
                strip_trailing_spaces(ident@) == spec_trim_identifier(window@),
            decreases ident@.len(),
        {
            ident.pop();
        }

        match string_from_utf8(ident) {
            Some(uas_id) => Ok(BaseMessage { id_type, ua_type, uas_id, reserved: [0u8;3] }),
            None => Err(MessageError::InvalidIdentifierEncoding),
        }
    }

    /// Encode to exactly 24 bytes, whatever the field values: the
    /// kind tag, the packed type byte, and the fitted identifier
    /// field with its zero tail.
    fn encode(&self) -> (r: Vec<u8>)
        ensures
            r@ == spec_base_encode(*self),
            r@.len() == BaseMessage::EXPECTED_LENGTH,
    {
        let mut bytes: Vec<u8> = Vec::new();
        let tag: u8 = (MessageType::BaseMessageType.code() << 4) | 0x01;
        bytes.push(tag);
        let type_byte: u8 = (self.id_type << 4) | (self.ua_type & 0x0f);
        bytes.push(type_byte);

        let mut ident: Vec<u8> = self.uas_id.as_str().as_bytes_vec();
        if ident.len() > UAS_ID_WIDTH {
            ident.truncate(UAS_ID_WIDTH);
        }
        let ghost fitted_prefix = ident@;
        bytes.append(&mut ident);

        let mut i: usize = bytes.len();
        while i < BaseMessage::EXPECTED_LENGTH
            invariant
                i == bytes@.len(),
                i >= 2 + fitted_prefix.len(),
                i <= BaseMessage::EXPECTED_LENGTH,
                bytes@ =~= seq![
                    spec_kind_tag(MessageType::BaseMessageType),
                    (self.id_type << 4) | (self.ua_type & 0x0f),
                ] + fitted_prefix + Seq::new((i - 2 - fitted_prefix.len()) as nat, |j: int| 0u8),
            decreases BaseMessage::EXPECTED_LENGTH - i,
        {
            bytes.push(0u8);
            i = i + 1;
        }
        proof {
            assert(bytes@ =~= spec_base_encode(*self));
        }
        bytes
    }
}

/// The encoded form of a base message is always exactly 24 bytes.
pub proof fn lemma_base_encode_len(m: BaseMessage)
    ensures
        spec_base_encode(m).len() == BaseMessage::EXPECTED_LENGTH,
{
}

/// Stripping trailing zeros ignores any zero padding appended to
/// the sequence.
proof fn lemma_strip_zeros_pad(s: Seq<u8>, k: nat)
    ensures
        strip_trailing_zeros(s + Seq::new(k, |i: int| 0u8)) == strip_trailing_zeros(s),
    decreases k,
{
    if k == 0 {
        assert(s + Seq::new(0, |i: int| 0u8) =~= s);
    } else {
        let padded = s + Seq::new(k, |i: int| 0u8);
        assert(padded.last() == 0);
        assert(padded.drop_last() =~= s + Seq::new((k - 1) as nat, |i: int| 0u8));
        lemma_strip_zeros_pad(s, (k - 1) as nat);
    }
}

/// The round trip law for the base message: decoding an encoded
/// message recovers the packed nibbles and the identifier exactly,
/// provided the nibbles are in range and the identifier fits its
/// 20-byte field without ending in a byte that the decode-side trim
/// would strip.
pub proof fn lemma_base_round_trip(m: BaseMessage)
    requires
        m.id_type < 16,
        m.ua_type < 16,
        encode_utf8(m.uas_id@).len() <= UAS_ID_WIDTH,
        encode_utf8(m.uas_id@).len() > 0 ==> (encode_utf8(m.uas_id@).last() != 0
            && !is_ascii_space_byte(encode_utf8(m.uas_id@).last())),
    ensures
        spec_base_decode(spec_base_encode(m)) == Ok::<(u8, u8, Seq<char>), MessageError>(
            (m.id_type, m.ua_type, m.uas_id@),
        ),
{
    let enc = encode_utf8(m.uas_id@);
    let b = spec_base_encode(m);
    assert(b.len() == 24);
    assert(b.subrange(2, 22) =~= enc + Seq::new((UAS_ID_WIDTH - enc.len()) as nat, |i: int| 0u8));
    lemma_strip_zeros_pad(enc, (UAS_ID_WIDTH - enc.len()) as nat);
    assert(strip_trailing_zeros(enc) == enc);
    assert(strip_trailing_spaces(enc) == enc);
    assert(spec_trim_identifier(b.subrange(2, 22)) == enc);
    encode_utf8_valid_utf8(m.uas_id@);
    encode_utf8_decode_utf8(m.uas_id@);
    let x = m.id_type;
    let y = m.ua_type;
    assert(((((x << 4) | (y & 0x0f)) >> 4) & 0x0f) == x) by (bit_vector)
        requires
            x < 16,
    ;
    assert((((x << 4) | (y & 0x0f)) & 0x0f) == y) by (bit_vector)
        requires
            y < 16,
    ;
    assert(b[1] == (x << 4) | (y & 0x0f));
}

/// The truncation side of the round trip law: an identifier whose
/// encoding overruns its 20-byte field is cut there, and decoding
/// recovers exactly the characters of that cut, provided the cut
/// itself is valid UTF-8 and does not end in a byte the decode-side
/// trim would strip.
pub proof fn lemma_base_round_trip_truncated(m: BaseMessage)
    requires
        m.id_type < 16,
        m.ua_type < 16,
        encode_utf8(m.uas_id@).len() > UAS_ID_WIDTH,
        valid_utf8(encode_utf8(m.uas_id@).subrange(0, UAS_ID_WIDTH as int)),
        encode_utf8(m.uas_id@)[UAS_ID_WIDTH - 1] != 0,
        !is_ascii_space_byte(encode_utf8(m.uas_id@)[UAS_ID_WIDTH - 1]),
    ensures
        spec_base_decode(spec_base_encode(m)) == Ok::<(u8, u8, Seq<char>), MessageError>(
            (m.id_type, m.ua_type, decode_utf8(encode_utf8(m.uas_id@).subrange(0, UAS_ID_WIDTH as int))),
        ),
{
    let cut = encode_utf8(m.uas_id@).subrange(0, UAS_ID_WIDTH as int);
    let b = spec_base_encode(m);
    assert(b.len() == 24);
    assert(b.subrange(2, 22) =~= cut);
    assert(strip_trailing_zeros(cut) == cut);
    assert(strip_trailing_spaces(cut) == cut);
    assert(spec_trim_identifier(b.subrange(2, 22)) == cut);
    let x = m.id_type;
    let y = m.ua_type;
    assert(((((x << 4) | (y & 0x0f)) >> 4) & 0x0f) == x) by (bit_vector)
        requires
            x < 16,
    ;
    assert((((x << 4) | (y & 0x0f)) & 0x0f) == y) by (bit_vector)
        requires
            y < 16,
    ;
    assert(b[1] == (x << 4) | (y & 0x0f));
}

} // verus!
