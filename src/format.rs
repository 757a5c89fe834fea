//! The contract every wire encoding satisfies.
//!
//! A format is a stateless strategy bound to one message type. It names the
//! type on the wire, may describe it, and turns values into bytes and back.
use crate::error::CalError;
use vstd::prelude::*;

verus! {

/// How a message type is named and described to the bus.
pub trait Format {
    /// The identifier the bus uses to match compatible endpoints.
    spec fn spec_topic_type() -> Seq<char>;

    /// The schema text offered to introspection tools, if the format has one.
    spec fn spec_topic_description() -> Option<Seq<char>>;

    fn topic_type() -> (r: String)
        ensures
            r@ == Self::spec_topic_type(),
    ;

    fn topic_description() -> (r: Option<String>)
        ensures
            match r {
                Some(d) => Self::spec_topic_description() == Some(d@),
                None => Self::spec_topic_description() is None,
            },
    ;
}

/// Encoding of values of `T` into bytes.
pub trait Serializer<T> {
    /// The bytes that encode `message`.
    spec fn spec_serialize(message: T) -> Seq<u8>;

    /// Appends the encoding of `message` to `buffer`; on failure the buffer
    /// is left as it was.
    fn serialize(message: &T, buffer: &mut Vec<u8>) -> (r: Result<(), CalError>)
        ensures
            r is Ok ==> final(buffer)@ == old(buffer)@ + Self::spec_serialize(*message),
            r is Err ==> final(buffer)@ == old(buffer)@,
    ;
}

/// Decoding of bytes into values of `T`.
pub trait Deserializer<T> {
    /// The value that `bytes` decode to, or `None` where they are malformed.
    spec fn spec_deserialize(bytes: Seq<u8>) -> Option<T>;

    fn deserialize(buffer: &[u8]) -> (r: Result<T, CalError>)
        ensures
            match Self::spec_deserialize(buffer@) {
                Some(m) => r == Ok::<T, CalError>(m),
                None => r == Err::<T, CalError>(CalError::InvalidFormat),
            },
    ;
}

/// A format whose decoding undoes its encoding.
pub trait Codec<T>: Serializer<T> + Deserializer<T> {
    /// Decoding the encoding of a message gives the message back.
    proof fn lemma_round_trip(message: T)
        ensures
            Self::spec_deserialize(Self::spec_serialize(message)) == Some(message),
    ;
}

} // verus!
