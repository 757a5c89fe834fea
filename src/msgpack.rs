//! MessagePack as a wire format.
//!
//! A record with one unsigned field travels as a one-element array holding
//! that field in the shortest unsigned integer form.
use crate::error::CalError;
use crate::format::{Codec, Deserializer, Format, Serializer};
use crate::message::{Message, Ping, Pong};
use crate::pubsub::{spec_receive, MAX_SEND_LEN};
use core::marker::PhantomData;
use vstd::prelude::*;

verus! {

/// The byte that opens a one-element array.
pub const ARRAY_OF_ONE: u8 = 0x91;

/// Markers of the unsigned integer forms.
pub const MARKER_U8: u8 = 0xcc;

pub const MARKER_U16: u8 = 0xcd;

pub const MARKER_U32: u8 = 0xce;

pub const MARKER_U64: u8 = 0xcf;

/// Byte `k` of `v`, counted from the least significant one.
pub open spec fn byte_of(v: u64, k: u64) -> u8 {
    ((v >> (8 * k)) & 0xff) as u8
}

/// The shortest unsigned integer form of `v`.
pub open spec fn uint_bytes(v: u64) -> Seq<u8> {
    if v < 0x80 {
        seq![v as u8]
    } else if v < 0x100 {
        seq![MARKER_U8, v as u8]
    } else if v < 0x1_0000 {
        seq![MARKER_U16, byte_of(v, 1), byte_of(v, 0)]
    } else if v < 0x1_0000_0000 {
        seq![MARKER_U32, byte_of(v, 3), byte_of(v, 2), byte_of(v, 1), byte_of(v, 0)]
    } else {
        seq![
            MARKER_U64,
            byte_of(v, 7),
            byte_of(v, 6),
            byte_of(v, 5),
            byte_of(v, 4),
            byte_of(v, 3),
            byte_of(v, 2),
            byte_of(v, 1),
            byte_of(v, 0),
        ]
    }
}

/// The encoding of a record whose one field is `v`.
pub open spec fn sync_record(v: u64) -> Seq<u8> {
    seq![ARRAY_OF_ONE] + uint_bytes(v)
}

/// Whether a byte opens one of the unsigned integer forms.
pub open spec fn is_uint_marker(b: u8) -> bool {
    b < 0x80 || b == MARKER_U8 || b == MARKER_U16 || b == MARKER_U32 || b == MARKER_U64
}

/// Big-endian value of `n` bytes of `b` starting at `start`.
pub open spec fn be_value(b: Seq<u8>, start: int, n: nat) -> u64
    decreases n,
{
    if n == 0 {
        0
    } else {
        ((be_value(b, start, (n - 1) as nat) << 8) | (b[start + n - 1] as u64)) as u64
    }
}

/// The unsigned integer that `b` opens with, in any of the unsigned forms.
pub open spec fn read_uint(b: Seq<u8>) -> Option<u64> {
    if b.len() == 0 {
        None
    } else if b[0] < 0x80 {
        Some(b[0] as u64)
    } else {
        let n: nat = if b[0] == MARKER_U8 {
            1
        } else if b[0] == MARKER_U16 {
            2
        } else if b[0] == MARKER_U32 {
            4
        } else {
            8
        };
        if b.len() >= 1 + n {
            Some(be_value(b, 1, n))
        } else {
            None
        }
    }
}

/// Whether `b` opens a one-element array whose element is an unsigned integer.
pub open spec fn is_sync_record_head(b: Seq<u8>) -> bool {
    b.len() >= 2 && b[0] == ARRAY_OF_ONE && is_uint_marker(b[1])
}

/// Whether a byte opens an array or a binary blob, the only shapes that
/// can be read as a record.
pub open spec fn opens_sequence(b: u8) -> bool {
    (0x90 <= b && b <= 0x9f) || b == 0xdc || b == 0xdd || (0xc4 <= b && b <= 0xc6)
}

/// Whether `b` has a shape that is read as a record, other than a
/// one-element array whose element is an unsigned integer.
pub open spec fn is_other_sequence(b: Seq<u8>) -> bool {
    !is_sync_record_head(b) && b.len() > 0 && opens_sequence(b[0])
}

/// What the MessagePack decoder reads as a record with one unsigned field
/// from an array or blob of any other shape.
pub uninterp spec fn rmp_record_other(b: Seq<u8>) -> Option<u64>;

/// The field of the record that `b` decodes to.
pub open spec fn read_sync_record(b: Seq<u8>) -> Option<u64> {
    if is_sync_record_head(b) {
        read_uint(b.drop_first())
    } else if is_other_sequence(b) {
        rmp_record_other(b)
    } else {
        None
    }
}

/// Relies on `rmp_serde::to_vec`: a one-element tuple is written as a
/// one-element array, and a `u64` in its shortest unsigned form. It fails
/// only where the buffer cannot grow.
#[verifier::external_body]
fn rmp_encode_record(v: u64) -> (r: Result<Vec<u8>, String>)
    ensures
        r matches Ok(b) ==> b@ == sync_record(v),
{
    rmp_serde::to_vec(&(v,)).map_err(|e| e.to_string())
}

/// Relies on `rmp_serde::from_slice` into a one-element tuple of `u64`: an
/// array of one element is read, and that element in any unsigned form.
/// Bytes after the record are not read. Empty input, and input that opens
/// with neither an array nor a binary blob, are refused.
#[verifier::external_body]
fn rmp_decode_record(b: &[u8]) -> (r: Option<u64>)
    ensures
        is_sync_record_head(b@) ==> r == read_uint(b@.drop_first()),
        is_other_sequence(b@) ==> r == rmp_record_other(b@),
        b@.len() == 0 ==> r is None,
        b@.len() > 0 && !opens_sequence(b@[0]) ==> r is None,
{
    rmp_serde::from_slice::<(u64,)>(b).ok().map(|t| t.0)
}

/// The shortest form of `v` is read back as `v`.
pub proof fn lemma_uint_round_trip(v: u64)
    ensures
        uint_bytes(v).len() > 0,
        is_uint_marker(uint_bytes(v)[0]),
        read_uint(uint_bytes(v)) == Some(v),
{
    let b = uint_bytes(v);
    if v < 0x80 {
        assert((v as u8) as u64 == v);
    } else if v < 0x100 {
        assert(be_value(b, 1, 1) == v) by {
            reveal_with_fuel(be_value, 2);
            assert((((0u64 << 8) | ((v as u8) as u64)) as u64) == v) by (bit_vector)
                requires v < 0x100;
        }
    } else if v < 0x1_0000 {
        assert(be_value(b, 1, 2) == v) by {
            reveal_with_fuel(be_value, 3);
            assert(((((((0u64 << 8) | (((v >> 8) & 0xff) as u8) as u64) as u64) << 8) | (((v
                >> 0) & 0xff) as u8) as u64) as u64) == v) by (bit_vector)
                requires v < 0x1_0000;
        }
    } else if v < 0x1_0000_0000 {
        assert(be_value(b, 1, 4) == v) by {
            reveal_with_fuel(be_value, 5);
            let b3 = (((v >> 24) & 0xff) as u8) as u64;
            let b2 = (((v >> 16) & 0xff) as u8) as u64;
            let b1 = (((v >> 8) & 0xff) as u8) as u64;
            let b0 = (((v >> 0) & 0xff) as u8) as u64;
            assert(((((((((0u64 << 8) | b3) << 8) | b2) << 8) | b1) << 8) | b0) == v)
                by (bit_vector)
                requires
                    v < 0x1_0000_0000,
                    b3 == (((v >> 24) & 0xff) as u8) as u64,
                    b2 == (((v >> 16) & 0xff) as u8) as u64,
                    b1 == (((v >> 8) & 0xff) as u8) as u64,
                    b0 == (((v >> 0) & 0xff) as u8) as u64,
            ;
        }
    } else {
        assert(be_value(b, 1, 8) == v) by {
            reveal_with_fuel(be_value, 9);
            let b7 = (((v >> 56) & 0xff) as u8) as u64;
            let b6 = (((v >> 48) & 0xff) as u8) as u64;
            let b5 = (((v >> 40) & 0xff) as u8) as u64;
            let b4 = (((v >> 32) & 0xff) as u8) as u64;
            let b3 = (((v >> 24) & 0xff) as u8) as u64;
            let b2 = (((v >> 16) & 0xff) as u8) as u64;
            let b1 = (((v >> 8) & 0xff) as u8) as u64;
            let b0 = (((v >> 0) & 0xff) as u8) as u64;
            assert(((((((((((((((((0u64 << 8) | b7) << 8) | b6) << 8) | b5) << 8) | b4) << 8)
                | b3) << 8) | b2) << 8) | b1) << 8) | b0) == v) by (bit_vector)
                requires
                    b7 == (((v >> 56) & 0xff) as u8) as u64,
                    b6 == (((v >> 48) & 0xff) as u8) as u64,
                    b5 == (((v >> 40) & 0xff) as u8) as u64,
                    b4 == (((v >> 32) & 0xff) as u8) as u64,
                    b3 == (((v >> 24) & 0xff) as u8) as u64,
                    b2 == (((v >> 16) & 0xff) as u8) as u64,
                    b1 == (((v >> 8) & 0xff) as u8) as u64,
                    b0 == (((v >> 0) & 0xff) as u8) as u64,
            ;
        }
    }
}

/// A record is read back as the field it was written from.
pub proof fn lemma_sync_record_round_trip(v: u64)
    ensures
        read_sync_record(sync_record(v)) == Some(v),
{
    lemma_uint_round_trip(v);
    let r = sync_record(v);
    assert(r.drop_first() =~= uint_bytes(v));
}

/// Appends the record whose one field is `v` to `buffer`, or leaves the
/// buffer as it was.
fn append_sync_record(v: u64, buffer: &mut Vec<u8>) -> (r: Result<(), CalError>)
    ensures
        r is Ok ==> final(buffer)@ == old(buffer)@ + sync_record(v),
        r is Err ==> final(buffer)@ == old(buffer)@,
{
    match rmp_encode_record(v) {
        Ok(bytes) => {
            let mut bytes = bytes;
            buffer.append(&mut bytes);
            Ok(())
        },
        Err(e) => Err(CalError::Unknown(e)),
    }
}

/// The MessagePack encoding of messages of type `T`.
pub struct MessagePack<T> {
    _ty: PhantomData<T>,
}

impl<T: Message> Format for MessagePack<T> {
    open spec fn spec_topic_type() -> Seq<char> {
        "mpack:"@ + T::spec_type_name()
    }

    /// MessagePack carries no schema.
    open spec fn spec_topic_description() -> Option<Seq<char>> {
        None
    }

    fn topic_type() -> (r: String) {
        let mut r = String::from_str("mpack:");
        let name = T::message_type_name();
        r.append(name.as_str());
        r
    }

    fn topic_description() -> (r: Option<String>) {
        None
    }
}

impl Serializer<Ping> for MessagePack<Ping> {
    open spec fn spec_serialize(message: Ping) -> Seq<u8> {
        sync_record(message.sync)
    }

    fn serialize(message: &Ping, buffer: &mut Vec<u8>) -> (r: Result<(), CalError>) {
        append_sync_record(message.sync, buffer)
    }
}

impl Deserializer<Ping> for MessagePack<Ping> {
    open spec fn spec_deserialize(bytes: Seq<u8>) -> Option<Ping> {
        match read_sync_record(bytes) {
            Some(v) => Some(Ping { sync: v }),
            None => None,
        }
    }

    fn deserialize(buffer: &[u8]) -> (r: Result<Ping, CalError>) {
        match rmp_decode_record(buffer) {
            Some(v) => Ok(Ping { sync: v }),
            None => Err(CalError::InvalidFormat),
        }
    }
}

impl Codec<Ping> for MessagePack<Ping> {
    proof fn lemma_round_trip(message: Ping) {
        lemma_sync_record_round_trip(message.sync);
    }
}

impl Serializer<Pong> for MessagePack<Pong> {
    open spec fn spec_serialize(message: Pong) -> Seq<u8> {
        sync_record(message.sync)
    }

    fn serialize(message: &Pong, buffer: &mut Vec<u8>) -> (r: Result<(), CalError>) {
        append_sync_record(message.sync, buffer)
    }
}

impl Deserializer<Pong> for MessagePack<Pong> {
    open spec fn spec_deserialize(bytes: Seq<u8>) -> Option<Pong> {
        match read_sync_record(bytes) {
            Some(v) => Some(Pong { sync: v }),
            None => None,
        }
    }

    fn deserialize(buffer: &[u8]) -> (r: Result<Pong, CalError>) {
        match rmp_decode_record(buffer) {
            Some(v) => Ok(Pong { sync: v }),
            None => Err(CalError::InvalidFormat),
        }
    }
}

impl Codec<Pong> for MessagePack<Pong> {
    proof fn lemma_round_trip(message: Pong) {
        lemma_sync_record_round_trip(message.sync);
    }
}

/// A ping that a publisher encoded in MessagePack and the bus handed over
/// whole is received as that ping: its encoding is never empty, so the bus
/// never reports it as nothing, and it always fits in one send.
pub proof fn lemma_sent_ping_received(msg: Ping)
    ensures
        0 < sync_record(msg.sync).len() <= MAX_SEND_LEN,
        spec_receive::<Ping, MessagePack<Ping>>(
            sync_record(msg.sync).len() as i32,
            sync_record(msg.sync),
        ) == Ok::<Ping, CalError>(msg),
{
    lemma_sync_record_round_trip(msg.sync);
}

/// The topic type of MessagePack depends on the message type alone: two
/// endpoints for the same message type announce the same identifier.
pub proof fn lemma_topic_type_stable<T: Message>()
    ensures
        MessagePack::<T>::spec_topic_type() == "mpack:"@ + T::spec_type_name(),
{
}

} // verus!
